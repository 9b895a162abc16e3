//! Normalizes a content-provenance manifest tree, as produced by an external
//! trust-verification engine, into a small stable result: a validation status,
//! human-readable authorship claims, an edit history, and an optional preview
//! image, serialized as a JSON object.

pub mod assemble;
pub mod claims;
pub mod history;
pub mod laws;
pub mod locate;
pub mod parse;
pub mod render;
pub mod result;
pub mod status;
pub mod thumbnail;
pub mod text;
pub mod tree;
