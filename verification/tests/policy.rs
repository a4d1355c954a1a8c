use debug_concisely::program::{compile, RenderProgram};
use debug_concisely::proxy::DebugConciselyProxy;
use debug_concisely::render::render_value;
use debug_concisely::shape::{
    classify, fields_uniform, Category, Field, ShapeKind, TypeShape, Variant,
};
use debug_concisely::shape::TypeTag::{Optional, Other, Sequence};
use debug_concisely::value::Value;

fn leaf(compact: &str, pretty: &str) -> Value {
    Value::Leaf { compact: compact.to_string(), pretty: pretty.to_string() }
}

fn named(name: &str, type_tag: debug_concisely::shape::TypeTag) -> Field {
    Field { name: Some(name.to_string()), type_tag }
}

fn positional(type_tag: debug_concisely::shape::TypeTag) -> Field {
    Field { name: None, type_tag }
}

fn record(name: &str, fields: Vec<Field>) -> TypeShape {
    TypeShape { name: name.to_string(), kind: ShapeKind::Record(fields) }
}

fn compiled_record(name: &str, fields: Vec<Field>) -> RenderProgram {
    compile(record(name, fields)).expect("a uniform shape compiles")
}

#[test]
fn unit_record_renders_label() {
    let program = compiled_record("Empty", vec![]);
    assert_eq!(program.render_record(&vec![], false), "Empty");
    assert_eq!(program.render_record(&vec![], true), "Empty");
}

#[test]
fn single_positional_field_collapses() {
    let program = compiled_record("Wrapper", vec![positional(Other)]);
    let values = vec![leaf("42", "42")];
    assert_eq!(program.render_record(&values, false), "Wrapper $ 42");
}

#[test]
fn single_named_field_collapses() {
    let program = compiled_record("Meters", vec![named("amount", Other)]);
    let values = vec![leaf("7", "7")];
    assert_eq!(program.render_record(&values, false), "Meters $ 7");
    assert_eq!(program.render_record(&values, true), "Meters $ 7");
}

#[test]
fn multi_named_compact_layout() {
    let program = compiled_record("Point", vec![named("x", Other), named("y", Other)]);
    let values = vec![leaf("1", "1"), leaf("2", "2")];
    assert_eq!(program.render_record(&values, false), "Point { x: 1, y: 2 }");
}

#[test]
fn multi_named_alternate_layout() {
    let program = compiled_record("Point", vec![named("x", Other), named("y", Other)]);
    let values = vec![leaf("1", "1"), leaf("2", "2")];
    assert_eq!(program.render_record(&values, true), "Point {\n    x: 1,\n    y: 2,\n}");
}

#[test]
fn multi_positional_compact_layout() {
    let program =
        compiled_record("Triple", vec![positional(Other), positional(Other), positional(Other)]);
    let values = vec![leaf("1", "1"), leaf("2", "2"), leaf("3", "3")];
    assert_eq!(program.render_record(&values, false), "Triple(1, 2, 3)");
}

#[test]
fn multi_positional_alternate_layout() {
    let program = compiled_record("Pair", vec![positional(Other), positional(Other)]);
    let values = vec![leaf("1", "1"), leaf("2", "2")];
    assert_eq!(program.render_record(&values, true), "Pair(\n    1,\n    2,\n)");
}

#[test]
fn optional_present_collapses() {
    let program = compiled_record("Holder", vec![named("a", Optional), named("b", Other)]);
    let values = vec![Value::Opt(Some(Box::new(leaf("7", "7")))), leaf("5", "5")];
    assert_eq!(program.render_record(&values, false), "Holder { a: Some $ 7, b: 5 }");
}

#[test]
fn optional_absent_renders_none() {
    let program = compiled_record("Holder", vec![named("a", Optional), named("b", Other)]);
    let values = vec![Value::Opt(None), leaf("5", "5")];
    assert_eq!(program.render_record(&values, false), "Holder { a: None, b: 5 }");
    assert_eq!(program.render_record(&values, true), "Holder {\n    a: None,\n    b: 5,\n}");
}

#[test]
fn nested_optional_sequence_collapses_composably() {
    // An optional holding a one-element sequence whose element is again an
    // optional holding a one-element sequence: both collapse rules apply
    // independently at every level.
    let innermost = leaf("9", "9");
    let inner = Value::Opt(Some(Box::new(Value::List(vec![innermost]))));
    let outer = Value::Opt(Some(Box::new(Value::List(vec![inner]))));
    let program = compiled_record("Deep", vec![positional(Optional)]);
    assert_eq!(program.render_record(&vec![outer], false), "Deep $ Some $ [Some $ [9]]");
}

#[test]
fn sequence_of_one_collapses() {
    let program = compiled_record("Bag", vec![positional(Sequence)]);
    let values = vec![Value::List(vec![leaf("7", "7")])];
    assert_eq!(program.render_record(&values, false), "Bag $ [7]");
    assert_eq!(program.render_record(&values, true), "Bag $ [7]");
}

#[test]
fn empty_sequence_uses_standard_layout() {
    let program = compiled_record("Bag", vec![positional(Sequence)]);
    let values = vec![Value::List(vec![])];
    assert_eq!(program.render_record(&values, false), "Bag $ []");
    assert_eq!(program.render_record(&values, true), "Bag $ []");
}

#[test]
fn longer_sequence_uses_standard_layout() {
    let program = compiled_record("Bag", vec![positional(Sequence)]);
    let values = vec![Value::List(vec![leaf("1", "1"), leaf("2", "2")])];
    assert_eq!(program.render_record(&values, false), "Bag $ [1, 2]");
    assert_eq!(program.render_record(&values, true), "Bag $ [\n    1,\n    2,\n]");
}

#[test]
fn union_dispatches_per_variant() {
    let union_shape = TypeShape {
        name: "Message".to_string(),
        kind: ShapeKind::Union(vec![
            Variant { name: "Empty".to_string(), fields: vec![] },
            Variant { name: "Pair".to_string(), fields: vec![positional(Other), positional(Other)] },
        ]),
    };
    let program = compile(union_shape).expect("a uniform union compiles");
    assert_eq!(program.render_variant(0, &vec![], false), "Empty");
    let values = vec![leaf("1", "1"), leaf("2", "2")];
    assert_eq!(program.render_variant(1, &values, false), "Pair(1, 2)");
}

#[test]
fn alternate_mode_reaches_every_level() {
    // The same value in the two modes: the category rule and the collapse
    // decisions stay the same, only the leaf's own text switches.
    let value = Value::Opt(Some(Box::new(Value::List(vec![leaf("1", "one")]))));
    let program = compiled_record("W", vec![positional(Optional)]);
    assert_eq!(program.render_record(&vec![value], false), "W $ Some $ [1]");
    let value = Value::Opt(Some(Box::new(Value::List(vec![leaf("1", "one")]))));
    assert_eq!(program.render_record(&vec![value], true), "W $ Some $ [one]");
}

#[test]
fn mixed_record_is_rejected() {
    let shape = record("Bad", vec![named("a", Other), positional(Other)]);
    let violation = compile(shape).err().expect("mixed naming is rejected");
    assert_eq!(violation.offending_type, "Bad");
}

#[test]
fn mixed_union_variant_is_rejected() {
    let shape = TypeShape {
        name: "BadUnion".to_string(),
        kind: ShapeKind::Union(vec![
            Variant { name: "Fine".to_string(), fields: vec![named("a", Other)] },
            Variant { name: "Broken".to_string(), fields: vec![positional(Other), named("b", Other)] },
        ]),
    };
    let violation = compile(shape).err().expect("mixed naming is rejected");
    assert_eq!(violation.offending_type, "BadUnion");
}

#[test]
fn classify_covers_all_categories() {
    assert_eq!(classify(&vec![]), Category::Unit);
    assert_eq!(classify(&vec![positional(Other)]), Category::SingleUnnamed);
    assert_eq!(classify(&vec![named("a", Other)]), Category::SingleNamed);
    assert_eq!(classify(&vec![positional(Other), positional(Other)]), Category::MultiUnnamed);
    assert_eq!(classify(&vec![named("a", Other), named("b", Other)]), Category::MultiNamed);
}

#[test]
fn uniformity_check_accepts_and_rejects() {
    assert!(fields_uniform(&vec![]));
    assert!(fields_uniform(&vec![named("a", Other), named("b", Other)]));
    assert!(fields_uniform(&vec![positional(Other), positional(Other)]));
    assert!(!fields_uniform(&vec![named("a", Other), positional(Other)]));
    assert!(!fields_uniform(&vec![positional(Other), named("a", Other)]));
}

#[test]
fn render_value_alone_honors_mode() {
    assert_eq!(render_value(&leaf("3", "three"), false), "3");
    assert_eq!(render_value(&leaf("3", "three"), true), "three");
    assert_eq!(render_value(&Value::Opt(None), true), "None");
}

#[test]
fn proxy_hands_text_back_verbatim() {
    let proxy = DebugConciselyProxy("Point { x: 1 }".to_string());
    assert_eq!(proxy.rendered(), "Point { x: 1 }");
}
