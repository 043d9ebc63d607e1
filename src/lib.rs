//! A durable workflow runtime: a host mediates every side effect of a
//! sandboxed guest, records each outcome in a per-attempt log, and replays
//! recorded outcomes when the workflow is run again after a failure.
pub mod abi;
pub mod outside;
pub mod state;
pub mod effects;
pub mod guest;
pub mod laws;
