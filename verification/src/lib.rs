//! A stress-testing harness for a concurrent key-value storage backend:
//! lock-free-style metrics aggregation, a memory-growth leak heuristic,
//! workload planning for concurrent worker tasks, and a catalog of
//! workload scenarios with pass/fail thresholds, together with a small
//! retrieval-context assembly pipeline.
//!
//! The asynchronous plumbing (task spawning, barriers, semaphores, timers)
//! lives outside this library; the library holds the decisions: what each
//! worker records, which key a reader picks, how a run is judged.

pub mod config;
pub mod error;
pub mod memtrack;
pub mod metrics;
pub mod rag;
pub mod scenario;
pub mod text;
pub mod workload;
