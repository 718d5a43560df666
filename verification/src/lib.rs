//! A fixed-size worker pool, stated as a deterministic state machine.
//!
//! The pool owns a FIFO dispatch queue of control messages and one record per
//! worker. Every operation is a transition on that state: submitting a job,
//! a worker taking its next message, a job ending, the start of shutdown, and
//! the joining of each worker. A thin threaded shell drives the transitions
//! under a lock and performs what they decide; the guarantees of the pool
//! (jobs start in submission order, each exactly once, and all of them before
//! the last worker stops) are proved here, of the state machine.

pub mod error;
pub mod message;
pub mod worker;
pub mod model;
pub mod preserved;
pub mod pool;
pub mod laws;
pub mod server;
