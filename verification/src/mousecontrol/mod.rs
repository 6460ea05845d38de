//! Mouse and keyboard automation: key-combo notation and the scripts that
//! perform each action.
pub mod keys;
pub mod actions;
