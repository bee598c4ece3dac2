//! Admission control with backpressure: a bounded work queue fed by many
//! producers and drained by one worker, with a cooperative shutdown protocol.
//!
//! - `config`: the limits and their defaults.
//! - `channel`: the work queue, a bounded `crossbeam` channel.
//! - `admission`: the endpoint that enqueues or turns away.
//! - `worker`: the worker loop as a state machine.
//! - `shutdown`: the flag that ends the loop.
//! - `history`, `schedule`, `service`: the queue, the worker and the two
//!   together as mathematical values, with the laws that hold of every run.

pub mod config;
pub mod channel;
pub mod admission;
pub mod worker;
pub mod shutdown;
pub mod history;
pub mod schedule;
pub mod service;
