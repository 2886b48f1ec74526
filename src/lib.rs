//! Throughput measurement for an MQTT client session: message synthesis,
//! a publisher that stops at its first failed emit, an acknowledgment
//! collector, and the derived rate.
pub mod collector;
pub mod config;
pub mod message;
pub mod publisher;
pub mod report;
pub mod session;
