//! The rules that one tracing worker follows.
//!
//! A worker is idle until a job arrives.  It then runs pass after pass, hands
//! on what it has accumulated every [`CHECKPOINT_INTERVAL`] passes, and looks
//! for a command at the end of each pass.  The thread that owns the worker does
//! the polling, tracing and sending; the worker says what is due.

use vstd::prelude::*;
use crate::thread_pool::job::Message;

verus! {

/// The number of passes from one checkpoint to the next.
pub const CHECKPOINT_INTERVAL: usize = 20;

/// The width of the image that a worker traces.
pub const TRACE_WIDTH: i32 = 800;

/// The height of the image that a worker traces.
pub const TRACE_HEIGHT: i32 = 600;

/// What a worker is doing.
#[derive(Clone, Copy, Debug, PartialEq, Eq, Structural)]
pub enum WorkerState {
    /// Waiting for a job.
    Idle,
    /// Running passes.  `iterations` counts them since the job began or since
    /// the last checkpoint.
    Tracing { iterations: usize },
    /// Told to stop.
    Terminated,
}

/// What the thread that owns a worker has to do next.
#[derive(Clone, Copy, Debug, PartialEq, Eq, Structural)]
pub enum Action {
    /// Look for a job, without waiting, and report with `job_polled`.
    PollJob,
    /// Run one pass; report with `pass_finished`, send a checkpoint if that
    /// says so, then look for a command, without waiting, and report with
    /// `command_polled`.
    TracePass,
    /// Leave the loop.
    Stop,
}

/// One worker of the pool.
pub struct Worker {
    id: usize,
    state: WorkerState,
}

impl Worker {
    #[verifier::type_invariant]
    spec fn well_formed(&self) -> bool {
        match self.state {
            WorkerState::Tracing { iterations } => iterations < CHECKPOINT_INTERVAL,
            _ => true,
        }
    }

    pub closed spec fn id(&self) -> usize {
        self.id
    }

    pub closed spec fn state(&self) -> WorkerState {
        self.state
    }

    /// The number of passes after which a tracing worker's next checkpoint is
    /// due.
    pub open spec fn passes_to_checkpoint(state: WorkerState) -> int {
        match state {
            WorkerState::Tracing { iterations } => CHECKPOINT_INTERVAL - iterations,
            _ => 0,
        }
    }

    /// An idle worker.
    pub fn new(id: usize) -> (worker: Worker)
        ensures
            worker.id() == id,
            worker.state() == WorkerState::Idle,
    {
        Worker { id, state: WorkerState::Idle }
    }

    pub fn get_id(&self) -> (id: usize)
        ensures
            id == self.id(),
    {
        self.id
    }

    /// The state.  A tracing worker's count stays below the interval.
    pub fn get_state(&self) -> (state: WorkerState)
        ensures
            state == self.state(),
            0 < Self::passes_to_checkpoint(state) <= CHECKPOINT_INTERVAL || !(state
                is Tracing),
    {
        proof {
            use_type_invariant(self);
        }
        self.state
    }

    pub fn next_action(&self) -> (action: Action)
        ensures
            action == match self.state() {
                WorkerState::Idle => Action::PollJob,
                WorkerState::Tracing { .. } => Action::TracePass,
                WorkerState::Terminated => Action::Stop,
            },
    {
        match self.state {
            WorkerState::Idle => Action::PollJob,
            WorkerState::Tracing { .. } => Action::TracePass,
            WorkerState::Terminated => Action::Stop,
        }
    }

    /// Reports the outcome of looking for a job.  An idle worker that found
    /// one starts tracing with its count at zero, so that its first checkpoint
    /// is due after a whole interval.  In every other case nothing changes.
    pub fn job_polled(&mut self, received: bool)
        ensures
            final(self).id() == old(self).id(),
            final(self).state() == if old(self).state() == WorkerState::Idle && received {
                WorkerState::Tracing { iterations: 0 }
            } else {
                old(self).state()
            },
            old(self).state() == WorkerState::Idle && received ==> Self::passes_to_checkpoint(
                final(self).state(),
            ) == CHECKPOINT_INTERVAL,
    {
        if received {
            match self.state {
                WorkerState::Idle => {
                    self.state = WorkerState::Tracing { iterations: 0 };
                },
                _ => {},
            }
        }
    }

    /// Counts a finished pass and says whether a checkpoint is due: it is at
    /// every pass that brings the count to a multiple of the interval.  A
    /// worker that is not tracing counts nothing.
    pub fn pass_finished(&mut self) -> (checkpoint: bool)
        ensures
            final(self).id() == old(self).id(),
            !(old(self).state() is Tracing) ==> !checkpoint && final(self).state() == old(
                self,
            ).state(),
            old(self).state() is Tracing ==> {
                &&& final(self).state() == (WorkerState::Tracing {
                    iterations: ((old(self).state()->iterations + 1) % (
                    CHECKPOINT_INTERVAL as int)) as usize,
                })
                &&& checkpoint == (Self::passes_to_checkpoint(old(self).state()) == 1)
                &&& checkpoint ==> Self::passes_to_checkpoint(final(self).state())
                    == CHECKPOINT_INTERVAL
                &&& !checkpoint ==> Self::passes_to_checkpoint(final(self).state())
                    == Self::passes_to_checkpoint(old(self).state()) - 1
            },
    {
        proof {
            use_type_invariant(&*self);
        }
        match self.state {
            WorkerState::Tracing { iterations } => {
                let next: usize = (iterations + 1) % CHECKPOINT_INTERVAL;
                self.state = WorkerState::Tracing { iterations: next };
                next == 0
            },
            _ => false,
        }
    }

    /// Reports the outcome of looking for a command at the end of a pass.  A
    /// tracing worker that found one stops, since the only command is the one
    /// to terminate; nothing else changes anything.
    pub fn command_polled(&mut self, message: Option<Message>)
        ensures
            final(self).id() == old(self).id(),
            final(self).state() == if old(self).state() is Tracing && message is Some {
                WorkerState::Terminated
            } else {
                old(self).state()
            },
    {
        proof {
            use_type_invariant(&*self);
        }
        match message {
            Some(Message::Terminate) => {
                match self.state {
                    WorkerState::Tracing { .. } => {
                        self.state = WorkerState::Terminated;
                    },
                    _ => {},
                }
            },
            None => {},
        }
    }
}

} // verus!
