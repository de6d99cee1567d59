//! Verified code generation for the `Composite` and `Partial` families of derives.
//!
//! The input of a derive is described by the plain data types of [`syntax`]; the
//! attribute grammar is read by [`options`] and [`parse`]; [`generate`] renders the
//! items that each derive emits as Rust source text; [`values`] gives the meaning of
//! the generated items on field values, and [`laws`] proves how they fit together.

pub mod fields;
pub mod generate;
pub mod laws;
pub mod options;
pub mod outside;
pub mod parse;
pub mod shape_laws;
pub mod syntax;
pub mod text;
pub mod traits;
pub mod values;
