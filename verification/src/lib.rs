//! Inspection and export library for columnar table files.
//!
//! The crate models the values, schemas and metadata of a columnar on-disk
//! container, resolves the container's type annotations to normalized labels,
//! converts typed values to JSON-like and flat-text forms, caches per-path
//! query state, builds filtered/paginated SQL text, and renders CSV and JSON
//! exports.

pub mod cache;
pub mod codec;
pub mod export;
pub mod ext;
pub mod json;
pub mod models;
pub mod query;
pub mod schema;
pub mod tags;
pub mod text;
pub mod value;
