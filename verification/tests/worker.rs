use thread_pool::error::PoolError;
use thread_pool::message::{Action, Message};
use thread_pool::worker::{Worker, WorkerState};

#[test]
fn new_worker_is_running_and_idle() {
    let worker = Worker::new(3);
    assert_eq!(worker.id(), 3);
    assert_eq!(worker.state(), WorkerState::Running);
    assert!(!worker.is_busy());
    assert!(worker.is_idle());
    assert!(worker.has_handle());
}

#[test]
fn job_message_is_run_and_keeps_the_loop() {
    let mut worker = Worker::new(0);
    let action = worker.on_message(Message::NewJob("work"));
    assert!(matches!(action, Action::Run("work")));
    assert_eq!(worker.state(), WorkerState::Running);
    assert!(worker.is_busy());
    assert!(!worker.is_idle());
    assert!(worker.job_finished());
    assert!(worker.is_idle());
    assert!(!worker.job_finished());
}

#[test]
fn terminate_ends_the_loop() {
    let mut worker = Worker::new(1);
    let action: Action<u8> = worker.on_message(Message::Terminate);
    assert!(matches!(action, Action::Exit));
    assert_eq!(worker.state(), WorkerState::Terminated);
    assert!(!worker.is_idle());
    assert!(!worker.is_busy());
}

#[test]
fn handle_is_taken_once() {
    let mut worker = Worker::new(6);
    assert_eq!(worker.take_handle(), Some(6));
    assert!(!worker.has_handle());
    assert_eq!(worker.take_handle(), None);
    assert_eq!(worker.take_handle(), None);
    assert_eq!(worker.state(), WorkerState::Running);
}

#[test]
fn every_error_has_its_text() {
    assert_eq!(PoolError::InvalidConfiguration.message(), "a pool needs at least one worker");
    assert_eq!(PoolError::DispatchClosed.message(), "the dispatch queue is closed");
    assert_eq!(PoolError::JobFailure.message(), "a job failed while running");
    assert_eq!(PoolError::ShutdownJoinFailure.message(), "a worker could not be joined");
}
