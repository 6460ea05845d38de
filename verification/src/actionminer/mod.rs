//! Action items: mining them from meeting notes and statements of work.
pub mod models;
pub mod extract;
pub mod deadline;
pub mod tracker;
