//! What travels on the dispatch queue, and what a worker is told to do.

use vstd::prelude::*;

verus! {

/// A control message on the dispatch queue.
#[derive(Debug)]
pub enum Message<J> {
    /// A job to run.
    NewJob(J),
    /// The order to leave the receive loop.
    Terminate,
}

/// What a worker does after it has looked at the queue.
#[derive(Debug)]
pub enum Action<J> {
    /// Run this job to its end, away from the queue, then report how it ended.
    Run(J),
    /// Nothing is there for this worker: wait until the queue has changed.
    Wait,
    /// Leave the loop: the worker's thread returns.
    Exit,
}

} // verus!
