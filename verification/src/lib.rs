//! A local gateway that fronts a model-inference backend: it supervises the
//! backend process, gates external traffic behind a model-pull readiness
//! signal, and forwards generation requests.
//!
//! This crate holds the gateway's decision logic, verified: configuration
//! parsing, the readiness state machine, the supervision retry policy, and
//! the exact bytes and status codes of every request and response the
//! gateway produces. The surrounding process (HTTP server, outbound calls,
//! subprocess spawning) drives these functions from an unverified shell.

pub mod config;
pub mod gateway;
pub mod json;
pub mod readiness;
pub mod supervisor;
