//! Signature stamping: recognising signature labels, escaping stamp text and
//! choosing the pages to stamp.
pub mod detect;
pub mod sign;
pub mod pages;
pub mod content;
