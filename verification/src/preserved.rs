//! Proofs that a new pool meets the invariant and that every step keeps it.

use vstd::prelude::*;
use crate::message::Message;
use crate::model::{terminated_in, PoolModel, Step};
use crate::worker::{WorkerModel, WorkerState};

verus! {

/// No more workers have stopped than there are.
pub proof fn terminated_at_most_all(workers: Seq<WorkerModel>)
    ensures
        terminated_in(workers) <= workers.len(),
    decreases workers.len(),
{
    if workers.len() > 0 {
        terminated_at_most_all(workers.drop_last());
    }
}

/// Where every worker is in its loop, none has stopped.
pub proof fn terminated_none(workers: Seq<WorkerModel>)
    requires
        forall|i: int| 0 <= i < workers.len() ==> (#[trigger] workers[i]).state == WorkerState::Running,
    ensures
        terminated_in(workers) == 0,
    decreases workers.len(),
{
    if workers.len() > 0 {
        let rest = workers.drop_last();
        assert forall|i: int| 0 <= i < rest.len() implies (#[trigger] rest[i]).state
            == WorkerState::Running by {
            assert(rest[i] == workers[i]);
        }
        terminated_none(rest);
    }
}

/// Where one worker is in its loop, fewer have stopped than there are.
pub proof fn terminated_fewer_than_all(workers: Seq<WorkerModel>, at: int)
    requires
        0 <= at < workers.len(),
        workers[at].state == WorkerState::Running,
    ensures
        terminated_in(workers) < workers.len(),
    decreases workers.len(),
{
    if at == workers.len() - 1 {
        terminated_at_most_all(workers.drop_last());
    } else {
        assert(workers.drop_last()[at] == workers[at]);
        terminated_fewer_than_all(workers.drop_last(), at);
    }
}

/// Replacing one worker changes the count of stopped workers by that worker alone.
pub proof fn terminated_after_update(workers: Seq<WorkerModel>, at: int, worker: WorkerModel)
    requires
        0 <= at < workers.len(),
    ensures
        terminated_in(workers.update(at, worker)) == terminated_in(workers) - (if workers[at].state
            == WorkerState::Terminated {
            1int
        } else {
            0int
        }) + (if worker.state == WorkerState::Terminated {
            1int
        } else {
            0int
        }),
    decreases workers.len(),
{
    let updated = workers.update(at, worker);
    if at == workers.len() - 1 {
        assert(updated.drop_last() =~= workers.drop_last());
    } else {
        assert(updated.drop_last() =~= workers.drop_last().update(at, worker));
        terminated_after_update(workers.drop_last(), at, worker);
    }
}

/// A pool of at least one worker starts out meeting the invariant, with all
/// of its workers live.
pub proof fn init_meets_invariant<J>(size: nat)
    requires
        size >= 1,
    ensures
        PoolModel::<J>::init(size).inv(),
        PoolModel::<J>::init(size).live() == size,
        PoolModel::<J>::init(size).size() == size,
{
    let m = PoolModel::<J>::init(size);
    terminated_none(m.workers);
    assert(m.started =~= m.submitted.subrange(0, 0));
}

/// Submitting a job keeps the invariant.
pub proof fn submit_keeps_invariant<J>(m: PoolModel<J>, job: J)
    requires
        m.inv(),
    ensures
        m.submit(job).inv(),
{
    let n = m.submit(job);
    if !m.draining {
        assert(n.started =~= n.submitted.subrange(0, n.started.len() as int));
        assert forall|k: int| 0 <= k < n.backlog() implies #[trigger] n.queue[k] == Message::NewJob(
            n.submitted[n.started.len() + k],
        ) by {
            if k < m.backlog() {
                assert(n.queue[k] == m.queue[k]);
            }
        }
    }
}

/// The start of shutdown keeps the invariant.
pub proof fn shutdown_keeps_invariant<J>(m: PoolModel<J>)
    requires
        m.inv(),
    ensures
        m.shutdown().inv(),
{
    let n = m.shutdown();
    if !m.draining {
        assert forall|k: int| 0 <= k < n.backlog() implies #[trigger] n.queue[k] == Message::NewJob(
            n.submitted[n.started.len() + k],
        ) by {
            assert(n.queue[k] == m.queue[k]);
        }
    }
}

/// A worker's look at the queue keeps the invariant.
pub proof fn take_keeps_invariant<J>(m: PoolModel<J>, id: nat)
    requires
        m.inv(),
    ensures
        m.take(id).inv(),
{
    let n = m.take(id);
    if m.can_take(id) {
        let worker = m.workers[id as int];
        assert(worker.inv());
        terminated_at_most_all(m.workers);
        match m.queue[0] {
            Message::NewJob(job) => {
                terminated_after_update(m.workers, id as int, worker.receive(false));
                assert(m.backlog() > 0);
                assert(job == m.submitted[m.started.len() as int]);
                assert(n.started =~= n.submitted.subrange(0, n.started.len() as int));
                assert forall|k: int| 0 <= k < n.backlog() implies #[trigger] n.queue[k]
                    == Message::NewJob(n.submitted[n.started.len() + k]) by {
                    assert(n.queue[k] == m.queue[k + 1]);
                }
                assert forall|k: int| n.backlog() <= k < n.queue.len() implies #[trigger] n.queue[k]
                    == Message::<J>::Terminate by {
                    assert(n.queue[k] == m.queue[k + 1]);
                }
            },
            Message::Terminate => {
                terminated_after_update(m.workers, id as int, worker.receive(true));
                assert(m.backlog() == 0);
                assert forall|k: int| n.backlog() <= k < n.queue.len() implies #[trigger] n.queue[k]
                    == Message::<J>::Terminate by {
                    assert(n.queue[k] == m.queue[k + 1]);
                }
            },
        }
        assert forall|i: int| 0 <= i < n.workers.len() implies (#[trigger] n.workers[i]).id == i
            && n.workers[i].inv() by {
            if i != id {
                assert(n.workers[i] == m.workers[i]);
            }
        }
    }
}

/// The end of a job keeps the invariant.
pub proof fn finish_keeps_invariant<J>(m: PoolModel<J>, id: nat, succeeded: bool)
    requires
        m.inv(),
    ensures
        m.finish(id, succeeded).inv(),
        m.finish(id, succeeded).live() == m.live(),
{
    let n = m.finish(id, succeeded);
    if id < m.workers.len() && m.workers[id as int].busy {
        let worker = m.workers[id as int];
        assert(worker.inv());
        terminated_after_update(m.workers, id as int, worker.release());
        assert forall|i: int| 0 <= i < n.workers.len() implies (#[trigger] n.workers[i]).id == i
            && n.workers[i].inv() by {
            if i != id {
                assert(n.workers[i] == m.workers[i]);
            }
        }
    }
}

/// Taking a handle out keeps the invariant.
pub proof fn retire_keeps_invariant<J>(m: PoolModel<J>, id: nat)
    requires
        m.inv(),
    ensures
        m.retire(id).inv(),
        m.retire(id).live() == m.live(),
{
    let n = m.retire(id);
    if id < m.workers.len() {
        let worker = m.workers[id as int];
        assert(worker.inv());
        terminated_after_update(m.workers, id as int, worker.retire());
        assert forall|i: int| 0 <= i < n.workers.len() implies (#[trigger] n.workers[i]).id == i
            && n.workers[i].inv() by {
            if i != id {
                assert(n.workers[i] == m.workers[i]);
            }
        }
    }
}

/// Every step keeps the invariant.
pub proof fn step_keeps_invariant<J>(m: PoolModel<J>, step: Step<J>)
    requires
        m.inv(),
    ensures
        m.apply(step).inv(),
{
    match step {
        Step::Submit(job) => submit_keeps_invariant(m, job),
        Step::Take(id) => take_keeps_invariant(m, id),
        Step::Finish(id, succeeded) => finish_keeps_invariant(m, id, succeeded),
        Step::Shutdown => shutdown_keeps_invariant(m),
        Step::Retire(id) => retire_keeps_invariant(m, id),
        Step::Joined(id, succeeded) => {},
    }
}

/// The invariant holds after any number of steps.
pub proof fn run_keeps_invariant<J>(m: PoolModel<J>, steps: Seq<Step<J>>)
    requires
        m.inv(),
    ensures
        m.run(steps).inv(),
    decreases steps.len(),
{
    if steps.len() > 0 {
        run_keeps_invariant(m, steps.drop_last());
        step_keeps_invariant(m.run(steps.drop_last()), steps.last());
    }
}

} // verus!
