//! Core logic of a host-telemetry alerting service: the lookup-expression
//! parser, the aggregation-query compiler with its keyword safety gate, the
//! time-bucket granularity selector, and the incident lifecycle state machine.
//!
//! Storage, transport and HTTP are external collaborators: the functions here
//! work on plain values and hand back plain values, so that every decision the
//! service makes is stated in a contract and proved.

pub mod alerts;
pub mod errors;
pub mod incidents;
pub mod granularity;
pub mod lookup;
pub mod metrics;
pub mod query;
pub mod text;
