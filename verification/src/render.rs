//! A reference renderer: executes a rendering policy on a runtime value and
//! produces exactly the text that the policy specifies.

use vstd::prelude::*;
use crate::shape::{spec_classify, Category, ClassifiedShape, Field};
use crate::value::{spec_element_lines, spec_joined, spec_render_value, values_conform, Value};

verus! {

/// The named-field entries `name: value`, joined with `", "`.
pub open spec fn spec_named_pairs(fields: Seq<Field>, values: Seq<Value>, alt: bool) -> Seq<char>
    decreases values,
{
    if values.len() == 0 {
        Seq::<char>::empty()
    } else {
        let entry = fields[values.len() - 1].name.unwrap()@ + ": "@
            + spec_render_value(values.last(), alt);
        if values.len() == 1 {
            entry
        } else {
            spec_named_pairs(fields, values.drop_last(), alt) + ", "@ + entry
        }
    }
}

/// One indented line `    name: value,` per named field, each ended by a
/// newline.
pub open spec fn spec_named_lines(fields: Seq<Field>, values: Seq<Value>, alt: bool) -> Seq<char>
    decreases values,
{
    if values.len() == 0 {
        Seq::<char>::empty()
    } else {
        spec_named_lines(fields, values.drop_last(), alt) + "    "@
            + fields[values.len() - 1].name.unwrap()@ + ": "@
            + spec_render_value(values.last(), alt) + ",\n"@
    }
}

/// The text a classified shape renders as, given one sub-value per field:
///
/// - `Unit` renders as the bare label in both modes;
/// - the two single-field categories collapse to `label $ value`;
/// - `MultiUnnamed` renders as `label(v1, v2, …)` in compact mode and as the
///   multi-line positional layout in alternate mode;
/// - `MultiNamed` renders as `label { f1: v1, f2: v2, … }` in compact mode
///   and as the multi-line named layout in alternate mode.
///
/// Fields appear in declaration order, and every sub-value is rendered in
/// the mode given here.
pub open spec fn spec_render_shape(
    label: Seq<char>,
    fields: Seq<Field>,
    values: Seq<Value>,
    alt: bool,
) -> Seq<char> {
    match spec_classify(fields) {
        Category::Unit => label,
        Category::SingleUnnamed | Category::SingleNamed => label + " $ "@ + spec_render_value(
            values[0],
            alt,
        ),
        Category::MultiUnnamed => if alt {
            label + "(\n"@ + spec_element_lines(values, alt) + ")"@
        } else {
            label + "("@ + spec_joined(values, alt) + ")"@
        },
        Category::MultiNamed => if alt {
            label + " {\n"@ + spec_named_lines(fields, values, alt) + "}"@
        } else {
            label + " { "@ + spec_named_pairs(fields, values, alt) + " }"@
        },
    }
}

/// Renders one value in the given mode.
pub fn render_value(v: &Value, alt: bool) -> (r: String)
    ensures
        r@ == spec_render_value(*v, alt),
    decreases *v,
{
    match v {
        Value::Leaf { compact, pretty } => if alt {
            pretty.clone()
        } else {
            compact.clone()
        },
        Value::Opt(inner) => match inner {
            Some(boxed) => {
                let mut s = String::from_str("Some $ ");
                let tail = render_value(&**boxed, alt);
                s.append(tail.as_str());
                s
            },
            None => String::from_str("None"),
        },
        Value::List(elems) => {
            if elems.len() == 1 {
                let mut s = String::from_str("[");
                let e = render_value(&elems[0], alt);
                s.append(e.as_str());
                s.append("]");
                s
            } else if alt {
                if elems.len() == 0 {
                    String::from_str("[]")
                } else {
                    let mut s = String::from_str("[\n");
                    let body = render_element_lines(elems, alt);
                    s.append(body.as_str());
                    s.append("]");
                    s
                }
            } else {
                let mut s = String::from_str("[");
                let body = render_joined(elems, alt);
                s.append(body.as_str());
                s.append("]");
                s
            }
        },
    }
}

/// Renders one record or one union variant from its classified shape, given
/// one conforming sub-value per field, in the given mode.
#[verifier::loop_isolation(false)]
pub fn render_classified(shape: &ClassifiedShape, values: &Vec<Value>, alt: bool) -> (r: String)
    requires
        shape.wf(),
        values_conform(shape.fields@, values@),
    ensures
        r@ == spec_render_shape(shape.label@, shape.fields@, values@, alt),
{
    match shape.category {
        Category::Unit => shape.label.clone(),
        Category::SingleUnnamed | Category::SingleNamed => {
            let mut s = shape.label.clone();
            s.append(" $ ");
            let e = render_value(&values[0], alt);
            s.append(e.as_str());
            s
        },
        Category::MultiUnnamed => {
            let mut s = shape.label.clone();
            if alt {
                s.append("(\n");
                let body = render_element_lines(values, alt);
                s.append(body.as_str());
                s.append(")");
            } else {
                s.append("(");
                let body = render_joined(values, alt);
                s.append(body.as_str());
                s.append(")");
            }
            s
        },
        Category::MultiNamed => {
            let mut s = shape.label.clone();
            if alt {
                s.append(" {\n");
                let mut i: usize = 0;
                while i < values.len()
                    invariant
                        i <= values@.len(),
                        s@ == shape.label@ + " {\n"@ + spec_named_lines(
                            shape.fields@,
                            values@.take(i as int),
                            alt,
                        ),
                    decreases values@.len() - i,
                {
                    s.append("    ");
                    let name = shape.fields[i].name.as_ref().unwrap();
                    s.append(name.as_str());
                    s.append(": ");
                    let e = render_value(&values[i], alt);
                    s.append(e.as_str());
                    s.append(",\n");
                    proof {
                        let t = values@.take(i as int + 1);
                        assert(t.drop_last() =~= values@.take(i as int));
                        assert(t.last() == values@[i as int]);
                    }
                    i += 1;
                }
                s.append("}");
            } else {
                s.append(" { ");
                let mut i: usize = 0;
                while i < values.len()
                    invariant
                        i <= values@.len(),
                        s@ == shape.label@ + " { "@ + spec_named_pairs(
                            shape.fields@,
                            values@.take(i as int),
                            alt,
                        ),
                    decreases values@.len() - i,
                {
                    if i > 0 {
                        s.append(", ");
                    }
                    let name = shape.fields[i].name.as_ref().unwrap();
                    s.append(name.as_str());
                    s.append(": ");
                    let e = render_value(&values[i], alt);
                    s.append(e.as_str());
                    proof {
                        let t = values@.take(i as int + 1);
                        assert(t.drop_last() =~= values@.take(i as int));
                        assert(t.last() == values@[i as int]);
                    }
                    i += 1;
                }
                s.append(" }");
            }
            proof {
                assert(values@.take(values@.len() as int) =~= values@);
            }
            s
        },
    }
}

/// Renders the elements joined with `", "`.
fn render_joined(elems: &Vec<Value>, alt: bool) -> (r: String)
    ensures
        r@ == spec_joined(elems@, alt),
    decreases elems@,
{
    let mut s = String::new();
    let mut i: usize = 0;
    while i < elems.len()
        invariant
            i <= elems@.len(),
            s@ == spec_joined(elems@.take(i as int), alt),
        decreases elems@.len() - i,
    {
        if i > 0 {
            s.append(", ");
        }
        let e = render_value(&elems[i], alt);
        s.append(e.as_str());
        proof {
            let t = elems@.take(i as int + 1);
            assert(t.drop_last() =~= elems@.take(i as int));
            assert(t.last() == elems@[i as int]);
        }
        i += 1;
    }
    proof {
        assert(elems@.take(elems@.len() as int) =~= elems@);
    }
    s
}

/// Renders the elements as indented lines, one per element.
fn render_element_lines(elems: &Vec<Value>, alt: bool) -> (r: String)
    ensures
        r@ == spec_element_lines(elems@, alt),
    decreases elems@,
{
    let mut s = String::new();
    let mut i: usize = 0;
    while i < elems.len()
        invariant
            i <= elems@.len(),
            s@ == spec_element_lines(elems@.take(i as int), alt),
        decreases elems@.len() - i,
    {
        s.append("    ");
        let e = render_value(&elems[i], alt);
        s.append(e.as_str());
        s.append(",\n");
        proof {
            let t = elems@.take(i as int + 1);
            assert(t.drop_last() =~= elems@.take(i as int));
            assert(t.last() == elems@[i as int]);
        }
        i += 1;
    }
    proof {
        assert(elems@.take(elems@.len() as int) =~= elems@);
    }
    s
}

} // verus!
