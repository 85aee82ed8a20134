//! Request-dispatch core of a metadata API service.
//!
//! The library routes binary RPC-style request messages to per-operation
//! handlers: it claims a connection from a bounded pool (with a
//! distinguished timeout outcome), looks the wire method name up in a
//! closed registry, runs the generic decode/invoke adapter for the chosen
//! operation, shapes the response list, and records per-request metrics.
//! Connection pools, operation actions, payload decoders, metrics sinks
//! and loggers are collaborators supplied by the caller through the
//! traits defined here.

pub mod clock;
pub mod json;
pub mod log;
pub mod methods;
pub mod metrics;
pub mod stubs;
pub mod table;
pub mod types;
pub mod util;
