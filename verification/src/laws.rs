//! What the pool guarantees, proved of its state machine.

use vstd::prelude::*;
use crate::message::{Action, Message};
use crate::model::{terminated_in, PoolModel, Step};
use crate::preserved::{
    finish_keeps_invariant, init_meets_invariant, run_keeps_invariant,
    shutdown_keeps_invariant, submit_keeps_invariant, terminated_after_update,
    terminated_fewer_than_all,
};

verus! {

/// A new pool has exactly as many live workers as were asked for, whatever
/// their number, and nothing has been submitted to it or started on it.
pub proof fn new_pool_is_fully_live<J>(size: nat)
    requires
        size >= 1,
    ensures
        PoolModel::<J>::init(size).inv(),
        PoolModel::<J>::init(size).size() == size,
        PoolModel::<J>::init(size).live() == size,
        PoolModel::<J>::init(size).submitted.len() == 0,
        PoolModel::<J>::init(size).started.len() == 0,
{
    init_meets_invariant::<J>(size);
}

/// Jobs start in the order of their submission: the job that a worker is
/// told to run is always the oldest one that has not started.
pub proof fn jobs_start_in_order<J>(m: PoolModel<J>, id: nat, job: J)
    requires
        m.inv(),
        m.response(id) == Action::Run(job),
    ensures
        m.started.len() < m.submitted.len(),
        job == m.submitted[m.started.len() as int],
        m.take(id).started == m.submitted.subrange(0, m.started.len() as int + 1),
{
    assert(m.can_take(id));
    assert(m.queue[0] == Message::NewJob(job));
    if m.backlog() == 0 {
        assert(m.queue[0] == Message::<J>::Terminate);
    }
    assert(m.queue[0] == Message::NewJob(m.submitted[m.started.len() as int]));
    assert(m.take(id).started =~= m.submitted.subrange(0, m.started.len() as int + 1));
}

/// A job that runs on one worker keeps no other worker from the queue:
/// whatever the others are doing, an idle worker that looks while a job
/// waits is told to run the oldest one. So as many jobs run side by side as
/// there are workers.
pub proof fn idle_worker_gets_oldest_job<J>(m: PoolModel<J>, id: nat)
    requires
        m.inv(),
        id < m.size(),
        m.workers[id as int].idle(),
        m.backlog() > 0,
    ensures
        m.response(id) == Action::Run(m.submitted[m.started.len() as int]),
        m.take(id).workers[id as int].busy,
        m.take(id).backlog() == m.backlog() - 1,
        m.take(id).live() == m.live(),
{
    assert(m.queue[0] == Message::NewJob(m.submitted[m.started.len() as int]));
    terminated_after_update(m.workers, id as int, m.workers[id as int].receive(false));
}

/// No job is started twice and none is made up: at every moment the jobs
/// that have started are the first of those submitted, one for one.
pub proof fn started_is_prefix_of_submitted<J>(size: nat, steps: Seq<Step<J>>)
    requires
        size >= 1,
    ensures
        ({
            let m = PoolModel::<J>::init(size).run(steps);
            &&& m.started.len() <= m.submitted.len()
            &&& m.started == m.submitted.subrange(0, m.started.len() as int)
        }),
{
    init_meets_invariant::<J>(size);
    run_keeps_invariant(PoolModel::<J>::init(size), steps);
}

/// A worker is told to stop only when no job is left waiting: every job
/// that was accepted has started before any worker sees `Terminate`.
pub proof fn terminate_comes_after_every_job<J>(m: PoolModel<J>, id: nat)
    requires
        m.inv(),
        m.can_take(id),
        m.queue[0] == Message::<J>::Terminate,
    ensures
        m.started == m.submitted,
{
    if m.backlog() > 0 {
        assert(m.queue[0] == Message::NewJob(m.submitted[m.started.len() as int]));
    }
    assert(m.started =~= m.submitted);
}

/// Once every worker has stopped, every job that was accepted has started,
/// and the queue is empty.
pub proof fn drained_when_all_stopped<J>(m: PoolModel<J>)
    requires
        m.inv(),
        m.live() == 0,
    ensures
        m.draining,
        m.started == m.submitted,
        m.queue.len() == 0,
{
    assert(terminated_in(m.workers) == m.workers.len());
    assert(m.backlog() == 0);
    assert(m.started =~= m.submitted);
}

/// Whatever is done to a pool, in whatever order: if every worker has
/// stopped in the end, every job that was accepted has started by then.
pub proof fn drained_after_any_run<J>(size: nat, steps: Seq<Step<J>>)
    requires
        size >= 1,
        PoolModel::<J>::init(size).run(steps).live() == 0,
    ensures
        PoolModel::<J>::init(size).run(steps).started == PoolModel::<J>::init(size).run(
            steps,
        ).submitted,
        PoolModel::<J>::init(size).run(steps).queue.len() == 0,
{
    init_meets_invariant::<J>(size);
    run_keeps_invariant(PoolModel::<J>::init(size), steps);
    drained_when_all_stopped(PoolModel::<J>::init(size).run(steps));
}

/// Before shutdown every job is accepted, in order.
pub proof fn submit_all_accepts_every_job<J>(m: PoolModel<J>, jobs: Seq<J>)
    requires
        m.inv(),
        !m.draining,
    ensures
        m.submit_all(jobs).inv(),
        !m.submit_all(jobs).draining,
        m.submit_all(jobs).workers == m.workers,
        m.submit_all(jobs).started == m.started,
        m.submit_all(jobs).submitted == m.submitted + jobs,
    decreases jobs.len(),
{
    if jobs.len() == 0 {
        assert(m.submitted + jobs =~= m.submitted);
    } else {
        submit_all_accepts_every_job(m, jobs.drop_last());
        let before = m.submit_all(jobs.drop_last());
        submit_keeps_invariant(before, jobs.last());
        assert(before.submitted.push(jobs.last()) =~= m.submitted + jobs);
    }
}

/// After shutdown has begun no step changes what was accepted.
pub proof fn closed_queue_accepts_nothing<J>(m: PoolModel<J>, steps: Seq<Step<J>>)
    requires
        m.draining,
    ensures
        m.run(steps).draining,
        m.run(steps).submitted == m.submitted,
    decreases steps.len(),
{
    if steps.len() > 0 {
        closed_queue_accepts_nothing(m, steps.drop_last());
    }
}

/// The drain property. Submit any jobs to a new pool of any size, begin
/// shutdown, and let anything happen after that: if every worker has
/// stopped in the end, the jobs that have started are exactly the jobs that
/// were submitted, each of them once and in their order.
pub proof fn every_job_starts_before_teardown_ends<J>(size: nat, jobs: Seq<J>, steps: Seq<Step<J>>)
    requires
        size >= 1,
        PoolModel::<J>::init(size).submit_all(jobs).shutdown().run(steps).live() == 0,
    ensures
        PoolModel::<J>::init(size).submit_all(jobs).shutdown().run(steps).started == jobs,
        PoolModel::<J>::init(size).submit_all(jobs).shutdown().run(steps).started.len()
            == jobs.len(),
{
    let fresh = PoolModel::<J>::init(size);
    init_meets_invariant::<J>(size);
    submit_all_accepts_every_job(fresh, jobs);
    let loaded = fresh.submit_all(jobs);
    assert(loaded.submitted =~= jobs);
    shutdown_keeps_invariant(loaded);
    let closing = loaded.shutdown();
    closed_queue_accepts_nothing(closing, steps);
    run_keeps_invariant(closing, steps);
    drained_when_all_stopped(closing.run(steps));
}

/// Teardown cannot stall on the queue. Once shutdown has begun, a worker
/// that is idle and in its loop always finds a message when it looks: a job
/// that still waits, or a `Terminate` that was queued for it.
pub proof fn draining_pool_keeps_no_worker_waiting<J>(m: PoolModel<J>, id: nat)
    requires
        m.inv(),
        m.draining,
        id < m.size(),
        m.workers[id as int].idle(),
    ensures
        m.can_take(id),
        m.response(id) != Action::<J>::Wait,
        m.take(id).queue.len() == m.queue.len() - 1,
{
    terminated_fewer_than_all(m.workers, id as int);
}

/// Shutdown twice is shutdown once.
pub proof fn shutdown_is_idempotent<J>(m: PoolModel<J>)
    ensures
        m.shutdown().shutdown() == m.shutdown(),
        m.shutdown().draining,
{
}

/// Shutdown queues exactly one `Terminate` for each worker, behind all that
/// was queued before.
pub proof fn shutdown_queues_one_terminate_each<J>(m: PoolModel<J>)
    requires
        !m.draining,
    ensures
        m.shutdown().queue.len() == m.queue.len() + m.size(),
        m.shutdown().queue.subrange(0, m.queue.len() as int) == m.queue,
        forall|k: int|
            m.queue.len() <= k < m.shutdown().queue.len() ==> #[trigger] m.shutdown().queue[k]
                == Message::<J>::Terminate,
{
    assert(m.shutdown().queue.subrange(0, m.queue.len() as int) =~= m.queue);
}

/// A handle that was taken never comes back: no step puts it into its slot
/// again.
pub proof fn taken_handle_stays_taken<J>(m: PoolModel<J>, step: Step<J>, id: nat)
    requires
        id < m.size(),
        !m.workers[id as int].handle,
    ensures
        m.apply(step).size() == m.size(),
        !m.apply(step).workers[id as int].handle,
{
}

/// No worker is joined twice: once its handle was taken, it is never again
/// the next worker to join, whatever happens in between.
pub proof fn no_worker_is_joined_twice<J>(m: PoolModel<J>, id: nat, steps: Seq<Step<J>>)
    requires
        id < m.size(),
    ensures
        m.retire(id).run(steps).size() == m.size(),
        !m.retire(id).run(steps).workers[id as int].handle,
        !m.retire(id).run(steps).join_target(id),
    decreases steps.len(),
{
    if steps.len() > 0 {
        no_worker_is_joined_twice(m, id, steps.drop_last());
        taken_handle_stays_taken(m.retire(id).run(steps.drop_last()), steps.last(), id);
    }
}

/// The workers are joined in id order: after the next one to join has had
/// its handle taken, the next one is a worker with a higher id.
pub proof fn workers_join_in_id_order<J>(m: PoolModel<J>, first: nat, second: nat)
    requires
        m.join_target(first),
        m.retire(first).join_target(second),
    ensures
        first < second,
{
    let after = m.retire(first);
    if second < first {
        assert(after.workers[second as int] == m.workers[second as int]);
    }
}

/// A job that fails costs the pool nothing. The worker it ran on is live
/// and idle again, as many workers are live as before, and the next job
/// submitted is there to be taken: that worker, looking at the queue, is
/// told to run the oldest job that waits.
pub proof fn failed_job_leaves_pool_whole<J>(m: PoolModel<J>, id: nat, next: J)
    requires
        m.inv(),
        id < m.size(),
        m.workers[id as int].busy,
        !m.draining,
    ensures
        m.finish(id, false).inv(),
        m.finish(id, false).live() == m.live(),
        m.finish(id, false).workers[id as int].idle(),
        m.finish(id, false).queue == m.queue,
        ({
            let after = m.finish(id, false).submit(next);
            &&& after.started.len() < after.submitted.len()
            &&& after.response(id) == Action::Run(after.submitted[after.started.len() as int])
            &&& m.backlog() == 0 ==> after.response(id) == Action::Run(next)
        }),
{
    finish_keeps_invariant(m, id, false);
    let freed = m.finish(id, false);
    assert(m.workers[id as int].inv());
    submit_keeps_invariant(freed, next);
    let after = freed.submit(next);
    assert(after.can_take(id));
    assert(after.queue[0] == Message::NewJob(after.submitted[after.started.len() as int]));
}

} // verus!
