//! Expense tracking: categories and the CSV export's escaping.
pub mod expense;
pub mod report;
