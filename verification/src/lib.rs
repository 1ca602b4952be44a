//! Generation of the freeze transformation for a declared data type.
//!
//! A declaration is described by plain values: its name, its generic
//! parameters, the annotations attached to it and to its fields, and its
//! shape. From these the crate synthesizes an implementation of
//! `starlark::values::Freeze`, or rejects the declaration with a fixed
//! diagnostic.
//!
//! The crate parses no source text of the host language. Where a
//! declaration sets `bounds`, the caller asks its parser about the text
//! ([`options::bounds_in_question`] says which) and hands the answer to
//! [`derive_freeze`].
//!
//! - [`annotation`]: annotations and the tokens of their argument lists.
//! - [`options`]: the annotation grammar.
//! - [`declaration`]: the declaration and its shape.
//! - [`generics`]: the three parameter lists of the implementation.
//! - [`fields`]: the plan for the fields of a struct.
//! - [`synthesis`]: the generated implementation and its source text.
//! - [`semantics`]: what a run of the generated procedure does.
//! - [`laws`]: what holds of every declaration and of every run.
//! - [`error`]: the diagnostics.
//! - [`text`]: helpers that build source text.

pub mod annotation;
pub mod declaration;
pub mod error;
pub mod fields;
pub mod generics;
pub mod laws;
pub mod options;
pub mod semantics;
pub mod synthesis;
pub mod text;

pub use crate::synthesis::derive_freeze;
