//! Relay core for live sensor telemetry: a bounded broadcast bus that fans
//! each reading out to many independent subscribers, the decision logic of
//! the broker ingestor (decode, forward, back off, resubscribe), and the
//! per-client session lifecycle.

pub mod bus;
pub mod ingest;
pub mod laws;
pub mod session;
