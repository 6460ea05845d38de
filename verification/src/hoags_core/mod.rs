//! The shared kernel: the event bus records, field-memory bookkeeping and the
//! connector agents that turn bus events into cross-tool knowledge.
pub mod bus;
pub mod memory;
pub mod connectors;
