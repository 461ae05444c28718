//! A declarative configuration layer for full-text-search index fields and
//! their tokenization pipelines.
//!
//! The crate builds canonical nested configuration documents: `tokenizer`
//! describes a single tokenizer (its kind plus optional tuning parameters),
//! and `field` describes how one field is indexed, optionally embedding a
//! tokenizer document. A key appears in a document if and only if the caller
//! supplied the corresponding optional argument.

pub mod builders;
pub mod document;
pub mod laws;

pub use builders::{field, tokenizer};
pub use document::{ConfigDocument, ConfigValue, SpecValue};
