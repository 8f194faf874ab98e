//! Bulk loading of typed table rows from a schema-tagged JSON export.
//!
//! A payload is parsed into a [`json::Json`] document, its rows are decoded
//! cell by cell into the records of one destination table, and the decoded
//! batch replaces that table's contents in a [`store::Database`] as a whole or
//! not at all.

pub mod text;
pub mod model;
pub mod json;
pub mod hex;
pub mod schema;
pub mod error;
pub mod records;
pub mod decode;
pub mod rows;
pub mod store;
pub mod import;
pub mod laws;
