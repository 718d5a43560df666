//! The pool as a state machine over plain values: its state, the steps that
//! change it, and the invariant that every step keeps.

use vstd::prelude::*;
use crate::message::{Action, Message};
use crate::worker::{WorkerModel, WorkerState};

verus! {

/// The state of a pool.
pub ghost struct PoolModel<J> {
    /// The workers, in id order. Their number never changes.
    pub workers: Seq<WorkerModel>,
    /// The dispatch queue, oldest message first.
    pub queue: Seq<Message<J>>,
    /// Whether shutdown has begun. From then on the queue takes no jobs.
    pub draining: bool,
    /// Every job that was accepted, in the order of submission.
    pub submitted: Seq<J>,
    /// Every job that a worker has begun to run, in the order of their start.
    pub started: Seq<J>,
    /// The ids of the workers on which a job failed, one entry for each failure.
    pub job_failures: Seq<usize>,
    /// The ids of the workers whose thread could not be joined.
    pub join_failures: Seq<usize>,
}

/// One step of the pool.
pub ghost enum Step<J> {
    /// A caller submits a job.
    Submit(J),
    /// The worker with this id looks at the queue.
    Take(nat),
    /// The job on the worker with this id has ended; `true` if it ended well.
    Finish(nat, bool),
    /// Shutdown begins.
    Shutdown,
    /// The handle of the worker with this id is taken out to be joined.
    Retire(nat),
    /// The join of the worker with this id has returned; `true` if it joined.
    Joined(nat, bool),
}

/// How many of these workers have left their loop.
pub open spec fn terminated_in(workers: Seq<WorkerModel>) -> nat
    decreases workers.len(),
{
    if workers.len() == 0 {
        0
    } else {
        let rest = terminated_in(workers.drop_last());
        if workers.last().state == WorkerState::Terminated {
            rest + 1
        } else {
            rest
        }
    }
}

impl<J> PoolModel<J> {
    /// A new pool of `size` workers: all of them idle, the queue empty.
    pub open spec fn init(size: nat) -> PoolModel<J> {
        PoolModel {
            workers: Seq::new(size, |i: int| WorkerModel::fresh(i as nat)),
            queue: Seq::empty(),
            draining: false,
            submitted: Seq::empty(),
            started: Seq::empty(),
            job_failures: Seq::empty(),
            join_failures: Seq::empty(),
        }
    }

    /// The number of workers.
    pub open spec fn size(self) -> nat {
        self.workers.len()
    }

    /// The number of workers that are still in their loop.
    pub open spec fn live(self) -> int {
        self.workers.len() - terminated_in(self.workers)
    }

    /// The number of jobs that were accepted and have not started yet.
    pub open spec fn backlog(self) -> int {
        self.submitted.len() - self.started.len()
    }

    /// Whether every worker has left its loop and has had its handle taken.
    pub open spec fn torn_down(self) -> bool {
        &&& self.live() == 0
        &&& forall|i: int| 0 <= i < self.workers.len() ==> !(#[trigger] self.workers[i]).handle
    }

    /// Whether the worker `id` would get a message if it looked now.
    pub open spec fn can_take(self, id: nat) -> bool {
        &&& id < self.workers.len()
        &&& self.workers[id as int].idle()
        &&& self.queue.len() > 0
    }

    /// Whether `id` is the next worker to be joined: the first whose handle
    /// is still there.
    pub open spec fn join_target(self, id: nat) -> bool {
        &&& id < self.workers.len()
        &&& self.workers[id as int].handle
        &&& forall|j: int| 0 <= j < id ==> !(#[trigger] self.workers[j]).handle
    }

    /// A job is submitted. It goes to the back of the queue; once shutdown
    /// has begun it is refused and nothing changes.
    pub open spec fn submit(self, job: J) -> PoolModel<J> {
        if self.draining {
            self
        } else {
            PoolModel {
                queue: self.queue.push(Message::NewJob(job)),
                submitted: self.submitted.push(job),
                ..self
            }
        }
    }

    /// Shutdown begins: one `Terminate` for each worker goes to the back of
    /// the queue. A second shutdown changes nothing.
    pub open spec fn shutdown(self) -> PoolModel<J> {
        if self.draining {
            self
        } else {
            PoolModel {
                queue: self.queue + Seq::new(self.workers.len(), |i: int| Message::<J>::Terminate),
                draining: true,
                ..self
            }
        }
    }

    /// The worker `id` looks at the queue. If it is idle and a message is
    /// there, it takes the oldest one: a job starts on it, `Terminate` ends
    /// its loop. Otherwise nothing changes.
    pub open spec fn take(self, id: nat) -> PoolModel<J> {
        if self.can_take(id) {
            let worker = self.workers[id as int];
            match self.queue[0] {
                Message::NewJob(job) => PoolModel {
                    workers: self.workers.update(id as int, worker.receive(false)),
                    queue: self.queue.subrange(1, self.queue.len() as int),
                    started: self.started.push(job),
                    ..self
                },
                Message::Terminate => PoolModel {
                    workers: self.workers.update(id as int, worker.receive(true)),
                    queue: self.queue.subrange(1, self.queue.len() as int),
                    ..self
                },
            }
        } else {
            self
        }
    }

    /// The job on worker `id` has ended. The worker is idle again and stays
    /// in its loop; a failure is written down. Where no job was running on
    /// that worker, nothing changes.
    pub open spec fn finish(self, id: nat, succeeded: bool) -> PoolModel<J> {
        if id < self.workers.len() && self.workers[id as int].busy {
            PoolModel {
                workers: self.workers.update(id as int, self.workers[id as int].release()),
                job_failures: if succeeded {
                    self.job_failures
                } else {
                    self.job_failures.push(id as usize)
                },
                ..self
            }
        } else {
            self
        }
    }

    /// The handle of worker `id` is taken out of its slot.
    pub open spec fn retire(self, id: nat) -> PoolModel<J> {
        if id < self.workers.len() {
            PoolModel {
                workers: self.workers.update(id as int, self.workers[id as int].retire()),
                ..self
            }
        } else {
            self
        }
    }

    /// The join of worker `id` has returned. A failed join is written down,
    /// for a worker whose handle was taken; nothing else changes.
    pub open spec fn joined(self, id: nat, succeeded: bool) -> PoolModel<J> {
        if id < self.workers.len() && !self.workers[id as int].handle && !succeeded {
            PoolModel { join_failures: self.join_failures.push(id as usize), ..self }
        } else {
            self
        }
    }

    /// What worker `id` is told when it looks at the queue: to run the oldest
    /// job, to leave on `Terminate`, or to wait where nothing is there for
    /// it. Who is no worker of the pool, or has left its loop, is told to leave.
    pub open spec fn response(self, id: nat) -> Action<J> {
        if id >= self.workers.len() || self.workers[id as int].state == WorkerState::Terminated {
            Action::Exit
        } else if self.can_take(id) {
            match self.queue[0] {
                Message::NewJob(job) => Action::Run(job),
                Message::Terminate => Action::Exit,
            }
        } else {
            Action::Wait
        }
    }

    /// The state after these jobs were submitted, one after the other.
    pub open spec fn submit_all(self, jobs: Seq<J>) -> PoolModel<J>
        decreases jobs.len(),
    {
        if jobs.len() == 0 {
            self
        } else {
            self.submit_all(jobs.drop_last()).submit(jobs.last())
        }
    }

    /// The state after one step.
    pub open spec fn apply(self, step: Step<J>) -> PoolModel<J> {
        match step {
            Step::Submit(job) => self.submit(job),
            Step::Take(id) => self.take(id),
            Step::Finish(id, succeeded) => self.finish(id, succeeded),
            Step::Shutdown => self.shutdown(),
            Step::Retire(id) => self.retire(id),
            Step::Joined(id, succeeded) => self.joined(id, succeeded),
        }
    }

    /// The state after these steps, taken in order.
    pub open spec fn run(self, steps: Seq<Step<J>>) -> PoolModel<J>
        decreases steps.len(),
    {
        if steps.len() == 0 {
            self
        } else {
            self.run(steps.drop_last()).apply(steps.last())
        }
    }

    /// What holds of every pool, whatever was done to it.
    ///
    /// The jobs that have started are the first of those submitted, in the
    /// same order. The queue holds the others, in order, and behind them
    /// nothing but `Terminate`. Before shutdown no worker has stopped and no
    /// `Terminate` is about; after its start there is one `Terminate` for
    /// each worker, taken or still queued. A worker has stopped only if no
    /// job is left waiting.
    pub open spec fn inv(self) -> bool {
        &&& self.workers.len() >= 1
        &&& forall|i: int|
            0 <= i < self.workers.len() ==> (#[trigger] self.workers[i]).id == i
                && self.workers[i].inv()
        &&& self.started.len() <= self.submitted.len()
        &&& self.started == self.submitted.subrange(0, self.started.len() as int)
        &&& self.backlog() <= self.queue.len()
        &&& forall|k: int|
            0 <= k < self.backlog() ==> #[trigger] self.queue[k] == Message::NewJob(
                self.submitted[self.started.len() + k],
            )
        &&& forall|k: int|
            self.backlog() <= k < self.queue.len() ==> #[trigger] self.queue[k]
                == Message::<J>::Terminate
        &&& terminated_in(self.workers) + self.queue.len() - self.backlog() == (if self.draining {
            self.workers.len() as int
        } else {
            0
        })
        &&& terminated_in(self.workers) > 0 ==> self.backlog() == 0
    }
}

} // verus!
