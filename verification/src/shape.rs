//! The input data model: the shape of one type definition, and the
//! classification of a field list into one of five canonical categories.

use vstd::prelude::*;

verus! {

/// Coarse classification of a field's declared type, supplied by the caller.
#[derive(Clone, Copy, PartialEq, Eq, Structural, Debug)]
pub enum TypeTag {
    /// A container holding zero or one value.
    Optional,
    /// An ordered container of zero or more values.
    Sequence,
    /// Anything else; rendered with no special handling.
    Other,
}

/// One field of a record or of a union variant: an optional identifier
/// (present for named fields, absent for positional fields) and the coarse
/// classification of its declared type.
pub struct Field {
    pub name: Option<String>,
    pub type_tag: TypeTag,
}

/// One alternative of a tagged union, carrying its label and its own fields.
pub struct Variant {
    pub name: String,
    pub fields: Vec<Field>,
}

/// Whether a type is a single-shape record or a tagged union of variants.
pub enum ShapeKind {
    Record(Vec<Field>),
    Union(Vec<Variant>),
}

/// The input descriptor of one type definition.
pub struct TypeShape {
    pub name: String,
    pub kind: ShapeKind,
}

/// The five canonical shape categories.
#[derive(Clone, Copy, PartialEq, Eq, Structural, Debug)]
pub enum Category {
    /// Zero fields.
    Unit,
    /// Exactly one positional field.
    SingleUnnamed,
    /// Two or more positional fields.
    MultiUnnamed,
    /// Exactly one named field.
    SingleNamed,
    /// Two or more named fields.
    MultiNamed,
}

/// The classifier's output for one record or for one union variant: the
/// label used verbatim in the rendered text, the shape category, and the
/// field list preserved in declaration order.
pub struct ClassifiedShape {
    pub label: String,
    pub category: Category,
    pub fields: Vec<Field>,
}

impl ClassifiedShape {
    /// The category matches the fields, and the fields keep the
    /// uniform-naming invariant.
    pub open spec fn wf(self) -> bool {
        self.category == spec_classify(self.fields@) && uniform_naming(self.fields@)
    }
}

pub open spec fn fields_all_named(fields: Seq<Field>) -> bool {
    forall|i: int| 0 <= i < fields.len() ==> (#[trigger] fields[i].name) is Some
}

pub open spec fn fields_all_positional(fields: Seq<Field>) -> bool {
    forall|i: int| 0 <= i < fields.len() ==> (#[trigger] fields[i].name) is None
}

/// A legal field list is empty, uniformly named, or uniformly positional.
pub open spec fn uniform_naming(fields: Seq<Field>) -> bool {
    fields_all_named(fields) || fields_all_positional(fields)
}

/// The category of a uniformly-named-or-positional field list.
pub open spec fn spec_classify(fields: Seq<Field>) -> Category {
    if fields.len() == 0 {
        Category::Unit
    } else if fields.len() == 1 {
        if fields[0].name is Some {
            Category::SingleNamed
        } else {
            Category::SingleUnnamed
        }
    } else {
        if fields[0].name is Some {
            Category::MultiNamed
        } else {
            Category::MultiUnnamed
        }
    }
}

/// Reduces a field list to its canonical category: empty lists are `Unit`,
/// one-element lists are `SingleNamed`/`SingleUnnamed`, longer lists are
/// `MultiNamed`/`MultiUnnamed`. Mixed naming is a caller contract violation,
/// excluded by the precondition.
pub fn classify(fields: &Vec<Field>) -> (category: Category)
    requires
        uniform_naming(fields@),
    ensures
        category == spec_classify(fields@),
{
    if fields.len() == 0 {
        Category::Unit
    } else if fields.len() == 1 {
        if fields[0].name.is_some() {
            Category::SingleNamed
        } else {
            Category::SingleUnnamed
        }
    } else {
        if fields[0].name.is_some() {
            Category::MultiNamed
        } else {
            Category::MultiUnnamed
        }
    }
}

/// Whether a field list respects the uniform-naming invariant.
pub fn fields_uniform(fields: &Vec<Field>) -> (uniform: bool)
    ensures
        uniform == uniform_naming(fields@),
{
    if fields.len() == 0 {
        return true;
    }
    let named = fields[0].name.is_some();
    let mut i: usize = 1;
    while i < fields.len()
        invariant
            1 <= i <= fields@.len(),
            named == fields@[0].name is Some,
            forall|j: int| 0 <= j < i ==> ((#[trigger] fields@[j].name) is Some <==> named),
        decreases fields@.len() - i,
    {
        if fields[i].name.is_some() != named {
            return false;
        }
        i += 1;
    }
    true
}

} // verus!
