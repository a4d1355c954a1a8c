//! A model of the runtime values that a compiled rendering policy is applied
//! to, together with the specification of the text each value renders as.
//!
//! A value is either a leaf — an opaque payload carrying its host debug text
//! in compact and in pretty form — or one of the two specially collapsed
//! containers: an optional holding zero or one value, or a sequence of
//! values. The rendering rules are:
//!
//! - a leaf renders as its own debug text for the current mode;
//! - a present optional renders as `Some $ inner`, an absent one as `None`,
//!   in both modes;
//! - a one-element sequence collapses to `[inner]` in both modes; any other
//!   sequence uses the standard layout: `[e1, e2, …]` in compact mode, one
//!   indented element per line in alternate mode.
//!
//! The alternate-mode flag is passed unchanged into every nested rendering.

use vstd::prelude::*;
use crate::shape::{Field, TypeTag};

verus! {

/// A runtime value as seen by the rendering policy.
pub enum Value {
    /// An opaque payload: its host debug text in compact and in pretty form.
    Leaf { compact: String, pretty: String },
    /// A value of an optional container.
    Opt(Option<Box<Value>>),
    /// A value of a sequence container.
    List(Vec<Value>),
}

/// Whether a runtime value has the form that a field's type tag announces:
/// an optional value for an `Optional` field, a sequence for a `Sequence`
/// field, an opaque payload for an `Other` field.
pub open spec fn conforms(tag: TypeTag, v: Value) -> bool {
    match tag {
        TypeTag::Optional => v is Opt,
        TypeTag::Sequence => v is List,
        TypeTag::Other => v is Leaf,
    }
}

/// Whether a value list carries one conforming sub-value per field.
pub open spec fn values_conform(fields: Seq<Field>, values: Seq<Value>) -> bool {
    &&& values.len() == fields.len()
    &&& forall|i: int| 0 <= i < fields.len() ==> conforms(fields[i].type_tag, #[trigger] values[i])
}

/// The text a value renders as in the given mode.
pub open spec fn spec_render_value(v: Value, alt: bool) -> Seq<char>
    decreases v,
{
    match v {
        Value::Leaf { compact, pretty } => if alt {
            pretty@
        } else {
            compact@
        },
        Value::Opt(inner) => match inner {
            Some(boxed) => "Some $ "@ + spec_render_value(*boxed, alt),
            None => "None"@,
        },
        Value::List(elems) => if elems@.len() == 1 {
            "["@ + spec_render_value(elems@[0], alt) + "]"@
        } else if alt {
            if elems@.len() == 0 {
                "[]"@
            } else {
                "[\n"@ + spec_element_lines(elems@, alt) + "]"@
            }
        } else {
            "["@ + spec_joined(elems@, alt) + "]"@
        },
    }
}

/// The renderings of the elements, joined with `", "`.
pub open spec fn spec_joined(elems: Seq<Value>, alt: bool) -> Seq<char>
    decreases elems,
{
    if elems.len() == 0 {
        Seq::<char>::empty()
    } else if elems.len() == 1 {
        spec_render_value(elems.last(), alt)
    } else {
        spec_joined(elems.drop_last(), alt) + ", "@ + spec_render_value(elems.last(), alt)
    }
}

/// One indented line `    element,` per element, each ended by a newline.
pub open spec fn spec_element_lines(elems: Seq<Value>, alt: bool) -> Seq<char>
    decreases elems,
{
    if elems.len() == 0 {
        Seq::<char>::empty()
    } else {
        spec_element_lines(elems.drop_last(), alt) + "    "@
            + spec_render_value(elems.last(), alt) + ",\n"@
    }
}

} // verus!
