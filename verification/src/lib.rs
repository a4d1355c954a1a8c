//! Compiles the shape of a data type (a record or a tagged union, with named
//! or positional fields) into a rendering policy for a concise debug string:
//! single-field shapes collapse to `Label $ value`, optional values collapse
//! to `Some $ value` / `None`, and one-element sequences collapse to
//! `[value]`, while multi-field shapes keep the full structural layout.

pub mod laws;
pub mod program;
pub mod proxy;
pub mod render;
pub mod shape;
pub mod value;
