//! Suite health: which tool binaries are built, and cumulative statistics.
pub mod health;
pub mod stats;
