//! The ways in which an operation of the pool can fail.

use vstd::prelude::*;

verus! {

/// Why an operation of the pool was refused, or what went wrong in it.
#[derive(Clone, Copy, Debug, PartialEq, Eq, Structural)]
pub enum PoolError {
    /// A pool was asked for with no workers.
    InvalidConfiguration,
    /// A job was submitted to a pool whose queue no longer takes jobs.
    DispatchClosed,
    /// A job ended abnormally on its worker.
    JobFailure,
    /// A worker's thread could not be joined.
    ShutdownJoinFailure,
}

impl PoolError {
    /// A short description of the error, for reports.
    pub fn message(&self) -> (text: &'static str)
        ensures
            text@ == Self::message_of(*self),
    {
        match self {
            PoolError::InvalidConfiguration => "a pool needs at least one worker",
            PoolError::DispatchClosed => "the dispatch queue is closed",
            PoolError::JobFailure => "a job failed while running",
            PoolError::ShutdownJoinFailure => "a worker could not be joined",
        }
    }

    /// The text that `message` gives for each error.
    pub open spec fn message_of(e: PoolError) -> Seq<char> {
        match e {
            PoolError::InvalidConfiguration => "a pool needs at least one worker"@,
            PoolError::DispatchClosed => "the dispatch queue is closed"@,
            PoolError::JobFailure => "a job failed while running"@,
            PoolError::ShutdownJoinFailure => "a worker could not be joined"@,
        }
    }
}

} // verus!
