//! Tracks the block history of several blockchain networks and derives a
//! rolling transactions-per-second estimate for each.
//!
//! The verified core covers the reconciliation walk that imports remote
//! blocks into local storage (repairing reorganizations), the windowed
//! TPS aggregation, the job scheduler's decisions, and the delay policy.
//! Network and disk access live outside this library; the functions here
//! work on in-memory models of the remote chain and the block store.

pub mod block;
pub mod calculate;
pub mod chain;
pub mod config;
pub mod delay;
pub mod error;
pub mod import;
pub mod scheduler;
pub mod store;
