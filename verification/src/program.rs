//! The render-policy compiler: turns the shape of one type definition into a
//! rendering program — one category rule for a record, or one rule per
//! variant for a tagged union — rejecting shapes that mix named and
//! positional fields in one field list.

use vstd::prelude::*;
use vstd::pervasive::unreached;
use crate::render::{render_classified, spec_render_shape};
use crate::shape::{
    classify, fields_uniform, spec_classify, uniform_naming, ClassifiedShape, Field, ShapeKind,
    TypeShape,
};
use crate::value::{values_conform, Value};

verus! {

/// The one configuration error: a field list mixing named and positional
/// fields. It names the offending type.
#[derive(Debug)]
pub struct ShapeViolation {
    pub offending_type: String,
}

/// A compiled rendering policy: one category rule for a record, or a
/// dispatch table with one independently compiled rule per variant for a
/// tagged union, in variant declaration order.
pub enum RenderProgram {
    Record(ClassifiedShape),
    Union(Vec<ClassifiedShape>),
}

/// Whether one compiled rule carries the given label, the category of the
/// given fields, and those fields unchanged and in order.
pub open spec fn entry_matches(entry: ClassifiedShape, label: Seq<char>, fields: Seq<Field>) -> bool {
    &&& entry.label@ == label
    &&& entry.category == spec_classify(fields)
    &&& entry.fields@ == fields
}

/// Whether every field list of the shape keeps the uniform-naming
/// invariant; this is exactly when compilation succeeds.
pub open spec fn spec_shape_ok(shape: TypeShape) -> bool {
    match shape.kind {
        ShapeKind::Record(fields) => uniform_naming(fields@),
        ShapeKind::Union(variants) => forall|i: int|
            0 <= i < variants@.len() ==> uniform_naming((#[trigger] variants@[i]).fields@),
    }
}

/// Whether the program is the compilation of the shape: a record compiles
/// to its own classified rule, a union to one rule per variant, each
/// carrying the variant's label, category and fields.
pub open spec fn program_matches(program: RenderProgram, shape: TypeShape) -> bool {
    match shape.kind {
        ShapeKind::Record(fields) => {
            &&& program matches RenderProgram::Record(entry)
            &&& entry_matches(entry, shape.name@, fields@)
        },
        ShapeKind::Union(variants) => {
            &&& program matches RenderProgram::Union(table)
            &&& table@.len() == variants@.len()
            &&& forall|i: int|
                0 <= i < variants@.len() ==> entry_matches(
                    #[trigger] table@[i],
                    variants@[i].name@,
                    variants@[i].fields@,
                )
        },
    }
}

/// Compiles the shape of one type definition into its rendering program.
///
/// Succeeds exactly when every field list — the record's, or each
/// variant's — is uniformly named or uniformly positional; a mixed field
/// list is rejected with a `ShapeViolation` naming the offending type, and
/// no program is produced. Each union variant is classified independently:
/// its rule is exactly the rule of a standalone record with the variant's
/// label and fields.
#[verifier::loop_isolation(false)]
pub fn compile(shape: TypeShape) -> (result: Result<RenderProgram, ShapeViolation>)
    ensures
        result is Ok <==> spec_shape_ok(shape),
        result matches Ok(program) ==> program_matches(program, shape),
        result matches Err(violation) ==> violation.offending_type@ == shape.name@,
{
    let TypeShape { name, kind } = shape;
    match kind {
        ShapeKind::Record(fields) => {
            if !fields_uniform(&fields) {
                return Err(ShapeViolation { offending_type: name });
            }
            let category = classify(&fields);
            Ok(RenderProgram::Record(ClassifiedShape { label: name, category, fields }))
        },
        ShapeKind::Union(mut variants) => {
            let mut i: usize = 0;
            while i < variants.len()
                invariant
                    i <= variants@.len(),
                    forall|j: int|
                        0 <= j < i ==> uniform_naming((#[trigger] variants@[j]).fields@),
                decreases variants@.len() - i,
            {
                if !fields_uniform(&variants[i].fields) {
                    return Err(ShapeViolation { offending_type: name });
                }
                i += 1;
            }
            let ghost all = variants@;
            let mut table: Vec<ClassifiedShape> = Vec::new();
            while variants.len() > 0
                invariant
                    table@.len() + variants@.len() == all.len(),
                    variants@ =~= all.subrange(table@.len() as int, all.len() as int),
                    forall|j: int|
                        0 <= j < table@.len() ==> entry_matches(
                            #[trigger] table@[j],
                            all[j].name@,
                            all[j].fields@,
                        ),
                decreases variants@.len(),
            {
                let variant = variants.remove(0);
                proof {
                    assert(variant == all[table@.len() as int]);
                }
                let category = classify(&variant.fields);
                table.push(ClassifiedShape { label: variant.name, category, fields: variant.fields });
            }
            Ok(RenderProgram::Union(table))
        },
    }
}

impl RenderProgram {
    /// Renders a record value — one conforming sub-value per field, in
    /// declaration order — in the given mode.
    pub fn render_record(&self, values: &Vec<Value>, alt: bool) -> (r: String)
        requires
            self is Record,
            self->Record_0.wf(),
            values_conform(self->Record_0.fields@, values@),
        ensures
            r@ == spec_render_shape(
                self->Record_0.label@,
                self->Record_0.fields@,
                values@,
                alt,
            ),
    {
        match self {
            RenderProgram::Record(entry) => render_classified(entry, values, alt),
            RenderProgram::Union(_) => unreached(),
        }
    }

    /// Renders a union value: dispatches on the live variant's tag — its
    /// declaration index — and applies that variant's own rule exactly as
    /// if it were a standalone record.
    pub fn render_variant(&self, tag: usize, values: &Vec<Value>, alt: bool) -> (r: String)
        requires
            self is Union,
            tag < self->Union_0@.len(),
            self->Union_0@[tag as int].wf(),
            values_conform(self->Union_0@[tag as int].fields@, values@),
        ensures
            r@ == spec_render_shape(
                self->Union_0@[tag as int].label@,
                self->Union_0@[tag as int].fields@,
                values@,
                alt,
            ),
    {
        match self {
            RenderProgram::Union(table) => render_classified(&table[tag], values, alt),
            RenderProgram::Record(_) => unreached(),
        }
    }
}

} // verus!
