//! A harness that measures end-to-end delivery latency of interchangeable
//! message-passing backends under configurable producer/consumer workloads,
//! and assembles the resulting latency series for export.

pub mod types;
pub mod clock;
pub mod label;
pub mod channel;
pub mod scenario;
pub mod export;
pub mod laws;
