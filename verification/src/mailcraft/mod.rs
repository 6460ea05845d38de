//! Drafting of contracting correspondence: templates and plain-text drafts.
pub mod templates;
pub mod draft;
