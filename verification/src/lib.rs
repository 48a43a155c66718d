//! Transaction-execution adapter for exercising contract and ledger logic
//! against an embedded ledger simulator.
//!
//! The library maps tagged binary messages onto a closed set of canonical
//! operations, submits them as one batch to the simulator and folds the
//! simulator's per-message results into one execution result.

pub mod amount;
pub mod message;
pub mod wire;
pub mod decode;
pub mod response;
pub mod artifact;
pub mod config;
pub mod engine;
pub mod runner;
pub mod simulator;
