//! Generation of accessor functions for the fields of a structure.
//!
//! A declaration is described by plain values (`StructureDescriptor`): its
//! name, its shape and its fields, each with an optional name, the text of its
//! type and the names of its attributes. From such a description the library
//! derives, in one pass, either the list of accessors and the text of one
//! `impl` block that holds them, or every diagnostic that stops generation.
//! `derive` does the same on a token stream, parsing it with `syn`.
pub mod model;
pub mod generate;
pub mod render;
pub mod laws;
pub mod tokens;
