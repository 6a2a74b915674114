//! The traversal layer: the document model, the four-level lazy sequences,
//! and the projection of a raw cell record to a typed value.

pub mod laws;
pub mod workbook;
