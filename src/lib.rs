//! Offline-first synchronisation core for a pet-monitoring command-line client:
//! a TTL cache of remote read snapshots, a durable queue of pending mutations,
//! and the reconciliation rules that replay the queue once the remote service
//! is reachable again.

pub mod cache;
pub mod cli;
pub mod clock;
pub mod config;
pub mod errors;
pub mod queue;
pub mod sync;
pub mod text;
