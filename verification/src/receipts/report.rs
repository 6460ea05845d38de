//! CSV export helpers.
pub use crate::docconv::convert::csv_escape;
