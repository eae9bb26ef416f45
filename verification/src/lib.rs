//! A cooperative-concurrency core built from probe-driven suspended
//! computations: a scheduler with idempotent wake callbacks and a one-shot
//! timer facility, a bounded multi-producer mailbox with backpressure, a
//! single-use response channel, and a connection-owning actor that serializes
//! concurrent requests onto one exclusively-owned remote connection.

pub mod probe;
pub mod scheduler;
pub mod timer;
pub mod oneshot;
pub mod mailbox;
pub mod command;
pub mod actor;
