//! The laws of the formatting policy, stated over the rendering
//! specification and proved once for all shapes, values and modes.

use vstd::prelude::*;
use crate::program::entry_matches;
use crate::render::{spec_named_lines, spec_named_pairs, spec_render_shape};
use crate::shape::{
    fields_all_named, fields_all_positional, spec_classify, Category, ClassifiedShape, Field,
};
use crate::value::{spec_element_lines, spec_joined, spec_render_value, Value};

verus! {

/// A zero-field shape renders as exactly its label, identically in compact
/// and in alternate mode.
pub proof fn lemma_unit_renders_label(label: Seq<char>, fields: Seq<Field>, values: Seq<Value>)
    requires
        fields.len() == 0,
    ensures
        forall|alt: bool| #[trigger] spec_render_shape(label, fields, values, alt) == label,
{
}

/// A single-field shape — named or positional — collapses to
/// `label $ value`, with the field's own rendering in the current mode,
/// never wrapped in braces or parentheses.
pub proof fn lemma_single_field_collapses(
    label: Seq<char>,
    fields: Seq<Field>,
    values: Seq<Value>,
    alt: bool,
)
    requires
        fields.len() == 1,
        values.len() == 1,
    ensures
        spec_render_shape(label, fields, values, alt) == label + " $ "@ + spec_render_value(
            values[0],
            alt,
        ),
{
}

/// A multi-field named shape renders as `label { f1: v1, f2: v2, … }` in
/// compact mode, with the fields in declaration order, and as the
/// corresponding multi-line named layout in alternate mode.
pub proof fn lemma_multi_named_layout(label: Seq<char>, fields: Seq<Field>, values: Seq<Value>)
    requires
        fields.len() >= 2,
        values.len() == fields.len(),
        fields_all_named(fields),
    ensures
        spec_render_shape(label, fields, values, false) == label + " { "@ + spec_named_pairs(
            fields,
            values,
            false,
        ) + " }"@,
        spec_render_shape(label, fields, values, true) == label + " {\n"@ + spec_named_lines(
            fields,
            values,
            true,
        ) + "}"@,
{
    assert(fields[0].name is Some);
}

/// A multi-field positional shape renders as `label(v1, v2, …)` in
/// compact mode, with the fields in declaration order, and as the
/// corresponding multi-line positional layout in alternate mode.
pub proof fn lemma_multi_positional_layout(
    label: Seq<char>,
    fields: Seq<Field>,
    values: Seq<Value>,
)
    requires
        fields.len() >= 2,
        values.len() == fields.len(),
        fields_all_positional(fields),
    ensures
        spec_render_shape(label, fields, values, false) == label + "("@ + spec_joined(
            values,
            false,
        ) + ")"@,
        spec_render_shape(label, fields, values, true) == label + "(\n"@ + spec_element_lines(
            values,
            true,
        ) + ")"@,
{
    assert(fields[0].name is None);
}

/// A present optional value renders as `Some $ inner`, the inner value
/// rendered in the current mode; an absent one renders as exactly `None`,
/// in both modes.
pub proof fn lemma_optional_collapse(inner: Box<Value>, alt: bool)
    ensures
        spec_render_value(Value::Opt(Some(inner)), alt) == "Some $ "@ + spec_render_value(
            *inner,
            alt,
        ),
        spec_render_value(Value::Opt(None), alt) == "None"@,
{
}

/// A one-element sequence collapses to `[inner]` in both modes; empty and
/// multi-element sequences use the standard layout of the current mode,
/// never the collapse.
pub proof fn lemma_sequence_collapse(elems: Vec<Value>, alt: bool)
    ensures
        elems@.len() == 1 ==> spec_render_value(Value::List(elems), alt) == "["@
            + spec_render_value(elems@[0], alt) + "]"@,
        elems@.len() != 1 && !alt ==> spec_render_value(Value::List(elems), alt) == "["@
            + spec_joined(elems@, alt) + "]"@,
        elems@.len() == 0 && alt ==> spec_render_value(Value::List(elems), alt) == "[]"@,
        elems@.len() >= 2 && alt ==> spec_render_value(Value::List(elems), alt) == "[\n"@
            + spec_element_lines(elems@, alt) + "]"@,
{
}

/// The optional collapse and the singleton-sequence collapse compose: an
/// optional holding a one-element sequence whose element is again an
/// optional holding a one-element sequence renders with both collapses
/// applied independently at every level, in either mode.
pub proof fn lemma_nested_collapse(
    outer: Box<Value>,
    outer_elems: Vec<Value>,
    mid: Box<Value>,
    inner_elems: Vec<Value>,
    alt: bool,
)
    requires
        *outer == Value::List(outer_elems),
        outer_elems@.len() == 1,
        outer_elems@[0] == Value::Opt(Some(mid)),
        *mid == Value::List(inner_elems),
        inner_elems@.len() == 1,
    ensures
        spec_render_value(Value::Opt(Some(outer)), alt) == "Some $ "@ + spec_render_value(
            *outer,
            alt,
        ),
        spec_render_value(*outer, alt) == "["@ + spec_render_value(outer_elems@[0], alt) + "]"@,
        spec_render_value(outer_elems@[0], alt) == "Some $ "@ + spec_render_value(*mid, alt),
        spec_render_value(*mid, alt) == "["@ + spec_render_value(inner_elems@[0], alt) + "]"@,
{
}

/// A compiled union variant rule with the same label and fields as a
/// compiled standalone record rule renders every value identically to that
/// record: dispatch applies the variant's rule exactly as if the variant
/// stood alone.
pub proof fn lemma_variant_renders_as_record(
    variant_entry: ClassifiedShape,
    record_entry: ClassifiedShape,
    label: Seq<char>,
    fields: Seq<Field>,
    values: Seq<Value>,
    alt: bool,
)
    requires
        entry_matches(variant_entry, label, fields),
        entry_matches(record_entry, label, fields),
    ensures
        spec_render_shape(variant_entry.label@, variant_entry.fields@, values, alt)
            == spec_render_shape(record_entry.label@, record_entry.fields@, values, alt),
{
}

/// The alternate-mode flag selects only the layout within a category rule:
/// which rule fires is fixed by the shape alone, and every field rendering
/// receives the top-level mode unchanged.
pub proof fn lemma_alternate_mode_propagation(
    label: Seq<char>,
    fields: Seq<Field>,
    values: Seq<Value>,
)
    requires
        values.len() == fields.len(),
    ensures
        fields.len() == 0 ==> forall|alt: bool| #[trigger] spec_render_shape(
            label,
            fields,
            values,
            alt,
        ) == label,
        fields.len() == 1 ==> forall|alt: bool| #[trigger] spec_render_shape(
            label,
            fields,
            values,
            alt,
        ) == label + " $ "@ + spec_render_value(values[0], alt),
        spec_classify(fields) == Category::MultiNamed ==> spec_render_shape(
            label,
            fields,
            values,
            false,
        ) == label + " { "@ + spec_named_pairs(fields, values, false) + " }"@,
        spec_classify(fields) == Category::MultiNamed ==> spec_render_shape(
            label,
            fields,
            values,
            true,
        ) == label + " {\n"@ + spec_named_lines(fields, values, true) + "}"@,
        spec_classify(fields) == Category::MultiUnnamed ==> spec_render_shape(
            label,
            fields,
            values,
            false,
        ) == label + "("@ + spec_joined(values, false) + ")"@,
        spec_classify(fields) == Category::MultiUnnamed ==> spec_render_shape(
            label,
            fields,
            values,
            true,
        ) == label + "(\n"@ + spec_element_lines(values, true) + ")"@,
{
}

} // verus!
