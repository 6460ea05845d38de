//! Contract risk review: the clause database, risk-phrase and clause-number
//! detection in page text, page and contract scoring, and report helpers.
pub mod clauses;
pub mod analyzer;
pub mod report;
