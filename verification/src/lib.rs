//! Read-only traversal of a parsed legacy binary spreadsheet document.
//!
//! A workbook holds an ordered sheet table; each worksheet holds a row table;
//! each row holds a cell table; each cell projects to a typed value (numeric
//! or textual) or to nothing. Row and cell tables may be sparse: a lookup at
//! an index may come back empty even though later indices are filled, and
//! every sequence here stops at the first such gap.
//!
//! The byte-level decoding of the container format is the business of a
//! native engine outside this crate. This crate owns the traversal and
//! value-projection layer above it: the document model is plain data, filled
//! in by whoever drives the engine, and everything stated about the
//! sequences and the projection is verified.

pub mod reader;
