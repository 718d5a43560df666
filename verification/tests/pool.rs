use thread_pool::error::PoolError;
use thread_pool::message::Action;
use thread_pool::pool::ThreadPool;
use thread_pool::worker::WorkerState;

fn pool_of(size: usize) -> ThreadPool<u32> {
    match ThreadPool::new(size) {
        Ok(pool) => pool,
        Err(e) => panic!("no pool: {:?}", e),
    }
}

#[test]
fn zero_workers_is_refused() {
    let made: Result<ThreadPool<u32>, PoolError> = ThreadPool::new(0);
    assert!(matches!(made, Err(PoolError::InvalidConfiguration)));
}

#[test]
fn one_worker_is_enough() {
    let pool = pool_of(1);
    assert_eq!(pool.size(), 1);
    assert_eq!(pool.live_workers(), 1);
}

#[test]
fn new_pool_has_that_many_live_workers() {
    for size in [1usize, 2, 4, 17] {
        let pool = pool_of(size);
        assert_eq!(pool.size(), size);
        assert_eq!(pool.live_workers(), size);
        assert_eq!(pool.pending(), 0);
        assert!(!pool.is_draining());
        assert!(!pool.is_torn_down());
        for id in 0..size {
            let worker = pool.worker(id).unwrap();
            assert_eq!(worker.id(), id);
            assert_eq!(worker.state(), WorkerState::Running);
            assert!(worker.is_idle());
            assert!(worker.has_handle());
        }
        assert!(pool.worker(size).is_none());
    }
}

#[test]
fn execute_queues_and_returns() {
    let mut pool = pool_of(2);
    assert_eq!(pool.execute(10), Ok(()));
    assert_eq!(pool.execute(20), Ok(()));
    assert_eq!(pool.pending(), 2);
    assert_eq!(pool.live_workers(), 2);
    assert!(pool.worker(0).unwrap().is_idle());
}

#[test]
fn jobs_come_out_oldest_first() {
    let mut pool = pool_of(3);
    for job in [5u32, 6, 7] {
        assert_eq!(pool.execute(job), Ok(()));
    }
    assert!(matches!(pool.next_action(2), Action::Run(5)));
    assert!(matches!(pool.next_action(0), Action::Run(6)));
    assert!(matches!(pool.next_action(1), Action::Run(7)));
    assert_eq!(pool.pending(), 0);
}

#[test]
fn empty_queue_means_wait() {
    let mut pool = pool_of(2);
    assert!(matches!(pool.next_action(0), Action::Wait));
    assert!(matches!(pool.next_action(1), Action::Wait));
    assert_eq!(pool.live_workers(), 2);
}

#[test]
fn busy_worker_takes_nothing_more() {
    let mut pool = pool_of(1);
    assert_eq!(pool.execute(1), Ok(()));
    assert_eq!(pool.execute(2), Ok(()));
    assert!(matches!(pool.next_action(0), Action::Run(1)));
    assert!(pool.worker(0).unwrap().is_busy());
    assert!(matches!(pool.next_action(0), Action::Wait));
    assert_eq!(pool.pending(), 1);
    assert_eq!(pool.job_finished(0, true), Ok(()));
    assert!(matches!(pool.next_action(0), Action::Run(2)));
}

#[test]
fn stranger_is_told_to_leave() {
    let mut pool = pool_of(2);
    assert_eq!(pool.execute(1), Ok(()));
    assert!(matches!(pool.next_action(2), Action::Exit));
    assert!(matches!(pool.next_action(usize::MAX), Action::Exit));
    assert_eq!(pool.pending(), 1);
    assert_eq!(pool.live_workers(), 2);
}

#[test]
fn shutdown_queues_one_terminate_for_each_worker() {
    let mut pool = pool_of(3);
    assert_eq!(pool.execute(1), Ok(()));
    pool.shutdown();
    assert!(pool.is_draining());
    assert_eq!(pool.pending(), 4);
    assert!(matches!(pool.next_action(0), Action::Run(1)));
    assert!(matches!(pool.next_action(1), Action::Exit));
    assert!(matches!(pool.next_action(2), Action::Exit));
    assert_eq!(pool.live_workers(), 1);
    assert_eq!(pool.job_finished(0, true), Ok(()));
    assert!(matches!(pool.next_action(0), Action::Exit));
    assert_eq!(pool.live_workers(), 0);
    assert_eq!(pool.pending(), 0);
}

#[test]
fn shutdown_twice_is_shutdown_once() {
    let mut pool = pool_of(2);
    pool.shutdown();
    assert_eq!(pool.pending(), 2);
    pool.shutdown();
    assert_eq!(pool.pending(), 2);
    assert!(pool.is_draining());
}

#[test]
fn execute_after_shutdown_is_dispatch_closed() {
    let mut pool = pool_of(2);
    pool.shutdown();
    assert_eq!(pool.execute(9), Err(PoolError::DispatchClosed));
    assert_eq!(pool.pending(), 2);
    assert!(matches!(pool.next_action(0), Action::Exit));
    assert!(matches!(pool.next_action(1), Action::Exit));
    assert_eq!(pool.execute(9), Err(PoolError::DispatchClosed));
    assert_eq!(pool.pending(), 0);
}

#[test]
fn stopped_worker_stays_stopped() {
    let mut pool = pool_of(2);
    pool.shutdown();
    assert!(matches!(pool.next_action(0), Action::Exit));
    assert_eq!(pool.worker(0).unwrap().state(), WorkerState::Terminated);
    assert_eq!(pool.pending(), 1);
    assert!(matches!(pool.next_action(0), Action::Exit));
    assert_eq!(pool.pending(), 1);
    assert_eq!(pool.live_workers(), 1);
}

#[test]
fn workers_are_joined_in_id_order_each_once() {
    let mut pool = pool_of(3);
    pool.shutdown();
    for id in 0..3usize {
        assert!(matches!(pool.next_action(id), Action::Exit));
    }
    assert!(!pool.is_torn_down());
    assert_eq!(pool.next_join(), Some(0));
    assert_eq!(pool.next_join(), Some(1));
    assert!(!pool.worker(0).unwrap().has_handle());
    assert!(pool.worker(2).unwrap().has_handle());
    assert!(!pool.is_torn_down());
    assert_eq!(pool.next_join(), Some(2));
    assert_eq!(pool.next_join(), None);
    assert_eq!(pool.next_join(), None);
    assert!(pool.is_torn_down());
    assert_eq!(pool.teardown_result(), Ok(()));
}

#[test]
fn second_teardown_joins_nobody() {
    let mut pool = pool_of(2);
    pool.shutdown();
    assert!(matches!(pool.next_action(0), Action::Exit));
    assert!(matches!(pool.next_action(1), Action::Exit));
    let mut joined: Vec<usize> = Vec::new();
    while let Some(id) = pool.next_join() {
        pool.record_join(id, true);
        joined.push(id);
    }
    pool.shutdown();
    while let Some(id) = pool.next_join() {
        pool.record_join(id, true);
        joined.push(id);
    }
    assert_eq!(joined, vec![0, 1]);
    assert_eq!(pool.pending(), 0);
    assert!(pool.is_torn_down());
    assert_eq!(pool.teardown_result(), Ok(()));
}

#[test]
fn failed_joins_are_reported_at_the_end() {
    let mut pool = pool_of(3);
    pool.shutdown();
    assert_eq!(pool.teardown_result(), Ok(()));
    assert_eq!(pool.next_join(), Some(0));
    pool.record_join(0, false);
    assert_eq!(pool.next_join(), Some(1));
    pool.record_join(1, true);
    assert_eq!(pool.next_join(), Some(2));
    pool.record_join(2, false);
    assert_eq!(pool.next_join(), None);
    assert_eq!(pool.join_failures(), &vec![0, 2]);
    assert_eq!(pool.teardown_result(), Err(PoolError::ShutdownJoinFailure));
}

#[test]
fn join_report_needs_a_taken_handle() {
    let mut pool = pool_of(2);
    pool.record_join(0, false);
    pool.record_join(7, false);
    assert!(pool.join_failures().is_empty());
    assert_eq!(pool.teardown_result(), Ok(()));
}

#[test]
fn failed_job_is_written_down_and_worker_stays() {
    let mut pool = pool_of(2);
    assert_eq!(pool.execute(1), Ok(()));
    assert!(matches!(pool.next_action(1), Action::Run(1)));
    assert_eq!(pool.job_finished(1, false), Err(PoolError::JobFailure));
    assert_eq!(pool.job_failures(), &vec![1]);
    assert_eq!(pool.live_workers(), 2);
    assert_eq!(pool.worker(1).unwrap().state(), WorkerState::Running);
    assert!(pool.worker(1).unwrap().is_idle());
    assert_eq!(pool.execute(2), Ok(()));
    assert!(matches!(pool.next_action(1), Action::Run(2)));
    assert_eq!(pool.job_finished(1, true), Ok(()));
    assert_eq!(pool.job_failures(), &vec![1]);
}

#[test]
fn finish_without_a_job_changes_nothing() {
    let mut pool = pool_of(2);
    assert_eq!(pool.job_finished(0, false), Ok(()));
    assert_eq!(pool.job_finished(5, false), Ok(()));
    assert!(pool.job_failures().is_empty());
    assert_eq!(pool.live_workers(), 2);
}
