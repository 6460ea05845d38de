//! Document conversion: format routing, CSV handling, table extraction and
//! page-range parsing.
pub mod formats;
pub mod pdf_ops;
pub mod convert;
pub mod extract;
