//! Builder generation for record declarations.
//!
//! `shape` models a record declaration as plain values and recognises the
//! optional-wrapper shape of a field type; `expand` turns a declaration into
//! the source text of its builder; `record_builder` is the same builder
//! behaviour as a generic runtime value, over a list of field descriptors.
pub mod expand;
pub mod record_builder;
pub mod shape;
