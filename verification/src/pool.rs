//! The pool itself: the workers' records and the dispatch queue, with the
//! operations that submit work, hand it out and shut the pool down.

use std::collections::VecDeque;
use vstd::prelude::*;
use crate::error::PoolError;
use crate::message::{Action, Message};
use crate::model::{terminated_in, PoolModel};
use crate::preserved::{
    finish_keeps_invariant, init_meets_invariant, retire_keeps_invariant,
    shutdown_keeps_invariant, submit_keeps_invariant, take_keeps_invariant,
    terminated_at_most_all,
};
use crate::worker::{Worker, WorkerModel, WorkerState};

verus! {

/// A pool of a fixed number of workers that take jobs of type `J` from one
/// queue, oldest first.
pub struct ThreadPool<J> {
    workers: Vec<Worker>,
    queue: VecDeque<Message<J>>,
    draining: bool,
    job_failures: Vec<usize>,
    join_failures: Vec<usize>,
    submitted: Ghost<Seq<J>>,
    started: Ghost<Seq<J>>,
}

impl<J> View for ThreadPool<J> {
    type V = PoolModel<J>;

    closed spec fn view(&self) -> PoolModel<J> {
        PoolModel {
            workers: Seq::new(self.workers@.len(), |i: int| self.workers@[i]@),
            queue: self.queue@,
            draining: self.draining,
            submitted: self.submitted@,
            started: self.started@,
            job_failures: self.job_failures@,
            join_failures: self.join_failures@,
        }
    }
}

impl<J> ThreadPool<J> {
    /// Whether the pool is in a state that its operations can have produced.
    pub open spec fn wf(&self) -> bool {
        self@.inv()
    }

    /// Makes a pool of `size` workers, all of them live and idle, with an
    /// empty queue. A pool of no workers is refused.
    pub fn new(size: usize) -> (made: Result<ThreadPool<J>, PoolError>)
        ensures
            match made {
                Ok(pool) => {
                    &&& size >= 1
                    &&& pool.wf()
                    &&& pool@ == PoolModel::<J>::init(size as nat)
                    &&& pool@.size() == size
                    &&& pool@.live() == size
                },
                Err(e) => size == 0 && e == PoolError::InvalidConfiguration,
            },
    {
        if size == 0 {
            return Err(PoolError::InvalidConfiguration);
        }
        let mut workers: Vec<Worker> = Vec::with_capacity(size);
        let mut id: usize = 0;
        while id < size
            invariant
                id <= size,
                workers@.len() == id,
                forall|i: int| 0 <= i < id ==> (#[trigger] workers@[i])@ == WorkerModel::fresh(i as nat),
            decreases size - id,
        {
            workers.push(Worker::new(id));
            id = id + 1;
        }
        let pool = ThreadPool {
            workers,
            queue: VecDeque::new(),
            draining: false,
            job_failures: Vec::new(),
            join_failures: Vec::new(),
            submitted: Ghost(Seq::empty()),
            started: Ghost(Seq::empty()),
        };
        proof {
            init_meets_invariant::<J>(size as nat);
            assert(pool@.workers =~= PoolModel::<J>::init(size as nat).workers);
        }
        Ok(pool)
    }

    /// Submits a job: it goes to the back of the queue and the call returns
    /// at once. Once shutdown has begun the queue is closed: the job is
    /// refused and the pool is as it was.
    pub fn execute(&mut self, job: J) -> (sent: Result<(), PoolError>)
        requires
            old(self).wf(),
        ensures
            final(self).wf(),
            final(self)@ == old(self)@.submit(job),
            sent == (if old(self)@.draining {
                Err::<(), PoolError>(PoolError::DispatchClosed)
            } else {
                Ok::<(), PoolError>(())
            }),
    {
        proof {
            submit_keeps_invariant(self@, job);
        }
        if self.draining {
            return Err(PoolError::DispatchClosed);
        }
        self.submitted = Ghost(self.submitted@.push(job));
        self.queue.push_back(Message::NewJob(job));
        Ok(())
    }

    /// Begins shutdown: queues one `Terminate` for each worker, behind every
    /// job that was submitted before, and closes the queue to new jobs.
    /// A second call changes nothing.
    pub fn shutdown(&mut self)
        requires
            old(self).wf(),
        ensures
            final(self).wf(),
            final(self)@ == old(self)@.shutdown(),
    {
        proof {
            shutdown_keeps_invariant(self@);
        }
        if self.draining {
            return ;
        }
        let size = self.workers.len();
        let mut sent: usize = 0;
        while sent < size
            invariant
                sent <= size,
                size == old(self)@.workers.len(),
                self.queue@ == old(self)@.queue + Seq::new(sent as nat, |i: int| Message::<J>::Terminate),
                self.workers == old(self).workers,
                self.draining == old(self).draining,
                self.job_failures == old(self).job_failures,
                self.join_failures == old(self).join_failures,
                self.submitted == old(self).submitted,
                self.started == old(self).started,
            decreases size - sent,
        {
            self.queue.push_back(Message::Terminate);
            sent = sent + 1;
            assert(self.queue@ =~= old(self)@.queue + Seq::new(sent as nat, |i: int| Message::<J>::Terminate));
        }
        self.draining = true;
    }
}

impl<J> ThreadPool<J> {
    /// The worker `id` looks at the queue. An idle worker takes the oldest
    /// message: a job is handed out to be run on that worker, away from the
    /// queue, and `Terminate` ends the worker's loop. With an empty queue, or
    /// with a job still in its hands, the worker is told to wait. Who has
    /// left its loop, or is no worker of this pool, is told to leave.
    pub fn next_action(&mut self, id: usize) -> (action: Action<J>)
        requires
            old(self).wf(),
        ensures
            final(self).wf(),
            final(self)@ == old(self)@.take(id as nat),
            action == old(self)@.response(id as nat),
    {
        proof {
            take_keeps_invariant(self@, id as nat);
        }
        if id >= self.workers.len() {
            return Action::Exit;
        }
        let mut worker = self.workers[id];
        if !worker.is_idle() {
            return match worker.state() {
                WorkerState::Running => Action::Wait,
                WorkerState::Terminated => Action::Exit,
            };
        }
        match self.queue.pop_front() {
            None => Action::Wait,
            Some(message) => {
                self.started = Ghost(old(self)@.take(id as nat).started);
                let action = worker.on_message(message);
                self.workers.set(id, worker);
                assert(self@.workers =~= old(self)@.take(id as nat).workers);
                action
            },
        }
    }

    /// Reports that the job on worker `id` has ended, and whether it ended
    /// well. The worker is idle again and stays in the pool either way; a
    /// failure is written down under the worker's id and handed back as an
    /// error. Where no job was running on that worker, nothing changes.
    pub fn job_finished(&mut self, id: usize, succeeded: bool) -> (outcome: Result<(), PoolError>)
        requires
            old(self).wf(),
        ensures
            final(self).wf(),
            final(self)@ == old(self)@.finish(id as nat, succeeded),
            final(self)@.live() == old(self)@.live(),
            outcome == (if id < old(self)@.workers.len() && old(self)@.workers[id as int].busy
                && !succeeded {
                Err::<(), PoolError>(PoolError::JobFailure)
            } else {
                Ok::<(), PoolError>(())
            }),
    {
        proof {
            finish_keeps_invariant(self@, id as nat, succeeded);
        }
        if id >= self.workers.len() {
            return Ok(());
        }
        let mut worker = self.workers[id];
        let was_busy = worker.job_finished();
        if !was_busy {
            return Ok(());
        }
        self.workers.set(id, worker);
        assert(self@.workers =~= old(self)@.finish(id as nat, succeeded).workers);
        if succeeded {
            Ok(())
        } else {
            self.job_failures.push(id);
            Err(PoolError::JobFailure)
        }
    }

    /// Picks the next worker to join: the one with the lowest id whose
    /// handle has not been taken, and takes it. So the workers come out in
    /// id order, each of them once, and then nothing.
    pub fn next_join(&mut self) -> (target: Option<usize>)
        requires
            old(self).wf(),
        ensures
            final(self).wf(),
            match target {
                Some(id) => old(self)@.join_target(id as nat) && final(self)@ == old(self)@.retire(
                    id as nat,
                ),
                None => final(self)@ == old(self)@ && forall|i: int|
                    0 <= i < old(self)@.workers.len() ==> !(#[trigger] old(self)@.workers[i]).handle,
            },
    {
        let mut id: usize = 0;
        while id < self.workers.len()
            invariant
                id <= self.workers@.len(),
                *self == *old(self),
                self.wf(),
                forall|i: int| 0 <= i < id ==> !(#[trigger] self@.workers[i]).handle,
            decreases self.workers@.len() - id,
        {
            let mut worker = self.workers[id];
            if worker.has_handle() {
                proof {
                    retire_keeps_invariant(self@, id as nat);
                }
                assert(worker@ == self@.workers[id as int]);
                let taken = worker.take_handle();
                self.workers.set(id, worker);
                assert(self@.workers =~= old(self)@.retire(id as nat).workers);
                return taken;
            }
            id = id + 1;
        }
        None
    }

    /// Reports that the join of worker `id` has returned, and whether the
    /// thread was joined. A failed join is written down, so that it is
    /// reported when the whole teardown is over; it is taken note of only
    /// for a worker of this pool whose handle was taken.
    pub fn record_join(&mut self, id: usize, succeeded: bool)
        requires
            old(self).wf(),
        ensures
            final(self).wf(),
            final(self)@ == old(self)@.joined(id as nat, succeeded),
    {
        if id >= self.workers.len() || succeeded {
            return ;
        }
        if !self.workers[id].has_handle() {
            self.join_failures.push(id);
        }
    }

    /// The outcome of the teardown so far: an error if any worker could not
    /// be joined.
    pub fn teardown_result(&self) -> (outcome: Result<(), PoolError>)
        ensures
            outcome == (if self@.join_failures.len() > 0 {
                Err::<(), PoolError>(PoolError::ShutdownJoinFailure)
            } else {
                Ok::<(), PoolError>(())
            }),
    {
        if self.join_failures.len() > 0 {
            Err(PoolError::ShutdownJoinFailure)
        } else {
            Ok(())
        }
    }
}

impl<J> ThreadPool<J> {
    /// The number of workers, as fixed when the pool was made.
    pub fn size(&self) -> (n: usize)
        ensures
            n == self@.size(),
    {
        self.workers.len()
    }

    /// The number of messages in the queue.
    pub fn pending(&self) -> (n: usize)
        ensures
            n == self@.queue.len(),
    {
        self.queue.len()
    }

    /// Whether shutdown has begun.
    pub fn is_draining(&self) -> (b: bool)
        ensures
            b == self@.draining,
    {
        self.draining
    }

    /// The record of worker `id`, if the pool has such a worker.
    pub fn worker(&self, id: usize) -> (found: Option<Worker>)
        ensures
            found is Some <==> id < self@.size(),
            found is Some ==> found->0@ == self@.workers[id as int],
    {
        if id < self.workers.len() {
            Some(self.workers[id])
        } else {
            None
        }
    }

    /// The number of workers that are still in their loop.
    pub fn live_workers(&self) -> (n: usize)
        ensures
            n == self@.live(),
    {
        let mut live: usize = 0;
        let mut id: usize = 0;
        while id < self.workers.len()
            invariant
                id <= self.workers@.len(),
                live == id - terminated_in(self@.workers.subrange(0, id as int)),
            decreases self.workers@.len() - id,
        {
            proof {
                let upto = self@.workers.subrange(0, id + 1);
                assert(upto.drop_last() =~= self@.workers.subrange(0, id as int));
                assert(upto.last() == self.workers@[id as int]@);
                terminated_at_most_all(upto.drop_last());
            }
            match self.workers[id].state() {
                WorkerState::Running => {
                    live = live + 1;
                },
                WorkerState::Terminated => {},
            }
            id = id + 1;
        }
        assert(self@.workers.subrange(0, id as int) =~= self@.workers);
        live
    }

    /// Whether the teardown is over: every worker has left its loop and has
    /// had its handle taken.
    pub fn is_torn_down(&self) -> (b: bool)
        ensures
            b == self@.torn_down(),
    {
        if self.live_workers() != 0 {
            return false;
        }
        let mut id: usize = 0;
        while id < self.workers.len()
            invariant
                id <= self.workers@.len(),
                forall|i: int| 0 <= i < id ==> !(#[trigger] self@.workers[i]).handle,
            decreases self.workers@.len() - id,
        {
            if self.workers[id].has_handle() {
                assert(self@.workers[id as int].handle);
                return false;
            }
            id = id + 1;
        }
        true
    }

    /// The ids of the workers on which a job failed, one entry for each
    /// failure, oldest first.
    pub fn job_failures(&self) -> (ids: &Vec<usize>)
        ensures
            ids@ == self@.job_failures,
    {
        &self.job_failures
    }

    /// The ids of the workers that could not be joined, in the order of the
    /// reports.
    pub fn join_failures(&self) -> (ids: &Vec<usize>)
        ensures
            ids@ == self@.join_failures,
    {
        &self.join_failures
    }
}

} // verus!
