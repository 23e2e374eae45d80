//! Codec for web-service API model documents.
//!
//! A model document is a JSON text describing a service: its metadata, its
//! operations and its shape definitions. This crate holds the typed entity
//! schema, a strict decoder from a generic JSON value tree into the entities,
//! an encoder back into a JSON value tree that emits fields in schema order
//! and can suppress documentation, and renderers to pretty JSON, compact
//! JSON and YAML text.

pub mod decode;
pub mod encode;
pub mod json;
pub mod laws;
pub mod model;
pub mod text;

pub use json::JsonValue;
