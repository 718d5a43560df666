//! One worker of the pool: its run state, whether a job is in its hands, and
//! the slot of its thread handle.

use vstd::prelude::*;
use crate::message::{Action, Message};

verus! {

/// The two states of a worker's receive loop.
#[derive(Clone, Copy, Debug, PartialEq, Eq, Structural)]
pub enum WorkerState {
    /// In the loop: waiting on the queue, or running a job.
    Running,
    /// Out of the loop: the thread returns, and waits to be joined.
    Terminated,
}

/// What a worker is, as plain values.
pub ghost struct WorkerModel {
    /// The worker's place in the pool, counted from 0.
    pub id: nat,
    /// Whether the receive loop is still going.
    pub state: WorkerState,
    /// Whether a job is running on this worker right now.
    pub busy: bool,
    /// Whether the thread handle is still in its slot, not yet taken to be joined.
    pub handle: bool,
}

impl WorkerModel {
    /// A worker as it is made: in its loop, with no job, its handle in place.
    pub open spec fn fresh(id: nat) -> WorkerModel {
        WorkerModel { id, state: WorkerState::Running, busy: false, handle: true }
    }

    /// Only a worker in its loop can hold a job.
    pub open spec fn inv(self) -> bool {
        self.busy ==> self.state == WorkerState::Running
    }

    /// In the loop with empty hands: ready to take a message.
    pub open spec fn idle(self) -> bool {
        self.state == WorkerState::Running && !self.busy
    }

    /// The worker after it has taken a message: `Terminate` ends its loop,
    /// a job fills its hands.
    pub open spec fn receive(self, terminate: bool) -> WorkerModel {
        if terminate {
            WorkerModel { state: WorkerState::Terminated, ..self }
        } else {
            WorkerModel { busy: true, ..self }
        }
    }

    /// The worker after its job has ended, however it ended.
    pub open spec fn release(self) -> WorkerModel {
        WorkerModel { busy: false, ..self }
    }

    /// The worker after its handle was taken out of the slot.
    pub open spec fn retire(self) -> WorkerModel {
        WorkerModel { handle: false, ..self }
    }
}

/// The pool's record of one worker.
#[derive(Clone, Copy, Debug)]
pub struct Worker {
    id: usize,
    state: WorkerState,
    busy: bool,
    handle: bool,
}

impl View for Worker {
    type V = WorkerModel;

    closed spec fn view(&self) -> WorkerModel {
        WorkerModel { id: self.id as nat, state: self.state, busy: self.busy, handle: self.handle }
    }
}

impl Worker {
    /// A new worker with the given id: running, idle, its handle present.
    pub fn new(id: usize) -> (w: Worker)
        ensures
            w@ == WorkerModel::fresh(id as nat),
    {
        Worker { id, state: WorkerState::Running, busy: false, handle: true }
    }

    /// The worker's id.
    pub fn id(&self) -> (id: usize)
        ensures
            id == self@.id,
    {
        self.id
    }

    /// The state of the worker's loop.
    pub fn state(&self) -> (s: WorkerState)
        ensures
            s == self@.state,
    {
        self.state
    }

    /// Whether a job is running on this worker.
    pub fn is_busy(&self) -> (b: bool)
        ensures
            b == self@.busy,
    {
        self.busy
    }

    /// Whether the worker is in its loop and has no job.
    pub fn is_idle(&self) -> (b: bool)
        ensures
            b == self@.idle(),
    {
        match self.state {
            WorkerState::Running => !self.busy,
            WorkerState::Terminated => false,
        }
    }

    /// Whether the thread handle has not been taken yet.
    pub fn has_handle(&self) -> (b: bool)
        ensures
            b == self@.handle,
    {
        self.handle
    }

    /// Acts on a message that this worker has taken from the queue. A job is
    /// handed back to be run, and the worker holds it until `job_finished`;
    /// `Terminate` ends the loop. Nothing else ends it. Only an idle worker
    /// takes messages.
    pub fn on_message<J>(&mut self, message: Message<J>) -> (action: Action<J>)
        requires
            old(self)@.idle(),
        ensures
            final(self)@ == old(self)@.receive(message is Terminate),
            final(self)@.inv(),
            match message {
                Message::NewJob(job) => action == Action::Run(job),
                Message::Terminate => action == Action::<J>::Exit,
            },
    {
        match message {
            Message::NewJob(job) => {
                self.busy = true;
                Action::Run(job)
            },
            Message::Terminate => {
                self.state = WorkerState::Terminated;
                Action::Exit
            },
        }
    }

    /// Records that the job on this worker has ended. The worker stays in
    /// its loop whether the job ended well or not. Returns whether a job was
    /// running.
    pub fn job_finished(&mut self) -> (was_busy: bool)
        ensures
            was_busy == old(self)@.busy,
            final(self)@ == old(self)@.release(),
            old(self)@.inv() ==> final(self)@.inv(),
    {
        let was_busy = self.busy;
        self.busy = false;
        was_busy
    }

    /// Takes the thread handle out of its slot. The first call gives the
    /// worker's id, under which the handle is kept; every later call gives
    /// nothing, so no handle is joined twice.
    pub fn take_handle(&mut self) -> (taken: Option<usize>)
        ensures
            final(self)@ == old(self)@.retire(),
            match taken {
                Some(id) => old(self)@.handle && id == old(self)@.id,
                None => !old(self)@.handle,
            },
    {
        if self.handle {
            self.handle = false;
            Some(self.id)
        } else {
            None
        }
    }
}

} // verus!
