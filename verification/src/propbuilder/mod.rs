//! Proposal building: recognising solicitation numbers and preparing text
//! for PDF string literals.
pub mod context;
pub mod proposal;
pub mod templates;
pub mod letter;
