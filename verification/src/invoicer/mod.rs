//! Invoicing: invoice numbers, invoice status and text fitting.
pub mod invoice;
pub mod tracker;
pub mod generate;
