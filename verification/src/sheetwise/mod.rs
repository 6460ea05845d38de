//! Spreadsheet handling: delimiter and column-type detection, row filters
//! and display helpers.
pub mod reader;
pub mod filter;
pub mod output;
pub mod reshape;
