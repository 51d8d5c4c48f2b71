//! Verified core of a concurrent item exporter.
//!
//! An external provider exposes two operations: list the ids of all items,
//! and fetch one item's body by id. This crate holds the logic of an export
//! run over such a provider: the provider contract, a deterministic in-memory
//! provider for tests, a retrying decorator with jittered backoff, throttled
//! progress reporting, fail-fast aggregation of fetch results, and sorting of
//! the final collection by id. The thread pool and the subprocess that a real
//! deployment wraps around this logic stay outside the crate.

pub mod channels;
pub mod console;
pub mod errors;
pub mod export;
pub mod item;
pub mod json;
pub mod laws;
pub mod mock;
pub mod pipeline;
pub mod progress;
pub mod provider;
pub mod retry;
pub mod sort;
pub mod text;
pub mod tool;
