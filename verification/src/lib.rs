//! Worker-side core of a distributed task queue.
//!
//! Clients submit heterogeneous jobs over HTTP, a broker holds them durably,
//! and workers consume, execute, and report progress into a relational store.
//! This library is the verified core of that pipeline: the payload validator,
//! the in-process priority scheduler, the admission gate that caps concurrent
//! executions, the task-store semantics, and the supervisor's decision logic
//! for retries, acknowledgements and terminal states. The I/O shells (HTTP
//! server, broker channel, SQL store, terminal dashboard) live outside and
//! drive these functions with plain values.

pub mod json;
pub mod store;
pub mod validate;
pub mod scheduler;
pub mod gate;
pub mod worker;
pub mod config;
pub mod retry;
pub mod submit;
pub mod events;
pub mod dashboard;
