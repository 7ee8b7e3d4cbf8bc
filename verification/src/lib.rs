//! Semantic-convention attribute and span declarations.
//!
//! This crate holds the in-memory model of semantic-convention
//! attribute declarations, the newer span declaration shape, the
//! decoder that reads both from an untyped document value, and the
//! translation of a span declaration into the legacy group shape.

pub mod attribute;
pub mod decode;
pub mod error;
pub mod group;
pub mod raw;
pub mod span;
pub mod stability;
pub mod text;
