//! Core of a stream-processing engine: batches of records move from a source
//! through a worker pool to a sink, with optional time/capacity-triggered
//! buffering, bounded-channel backpressure, and acknowledgment-based delivery
//! tracking.
//!
//! This crate holds the verified logic: the data model, the buffer merge
//! algorithm, the bounded-channel topology, the acknowledgment protocol, and
//! the per-task decision functions of the orchestrator. The asynchronous
//! runtime around it (task spawning, timers, channel I/O) lives outside.

pub mod ack;
pub mod batch;
pub mod buffer;
pub mod channel;
pub mod error;
pub mod input;
pub mod stream;
