//! Core logic of a latency benchmark for JSON-RPC Ethereum node endpoints.
//!
//! The benchmark compares a remote hosted endpoint against a local node. It
//! reads the two endpoint URLs from the environment, builds one RPC client per
//! endpoint, fetches the current block height from the remote endpoint, and
//! then, against each endpoint in turn, issues a sweep of 99 sequential
//! historical-block requests followed by a single contract read. Any failure
//! is fatal: it aborts the run and is surfaced to the caller.
//!
//! This crate holds the decision logic — configuration, the request plan of a
//! sweep, and the step-by-step program state machine — all verified. The
//! network calls themselves are performed by the caller, which drives the
//! state machine with the outcome of each call.

pub mod config;
pub mod sweep;
pub mod client;
pub mod contract;
pub mod program;
