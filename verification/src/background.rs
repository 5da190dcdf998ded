use vstd::prelude::*;
use crate::completion_port::{CompletionOutcome, CompletionPoll};

verus! {

/// Where the thread that drives a completion port stands.
#[derive(Debug, Clone, Copy, PartialEq, Eq, Structural)]
pub enum DriverState {
    /// Dequeuing completions until the port shuts down.
    Polling,
    /// The port is shutting down; the given number of operations were
    /// pending and their completions are still to be dequeued.
    Draining(usize),
    /// Every pending completion has been dequeued.
    Finished,
}

/// What the driving thread does next.
#[derive(Debug, Clone, Copy, PartialEq, Eq, Structural)]
pub enum DriverStep {
    /// Dequeue the next completion.
    Poll,
    /// Dequeue the next completion while shutting down.
    PollDuringShutdown,
    /// Stop: the port has shut down and nothing is pending.
    Finish,
}

/// What the driving thread does with a dequeued completion status.
#[derive(Debug, Clone, Copy, PartialEq, Eq, Structural)]
pub enum StatusAction {
    /// Unlock the operation's resources without waking its task, as for a
    /// cancelled operation whose future is gone.
    Unlock,
    /// Release the operation, waking the task that waits for it.
    Release,
}

/// The step that the driving thread takes next in the given state.
pub open spec fn spec_next_step(state: DriverState) -> DriverStep {
    match state {
        DriverState::Polling => DriverStep::Poll,
        DriverState::Draining(n) => if n > 0 { DriverStep::PollDuringShutdown } else { DriverStep::Finish },
        DriverState::Finished => DriverStep::Finish,
    }
}

/// The state after dequeuing `k` completions while draining `n`.
pub open spec fn spec_drained(n: usize, k: nat) -> DriverState {
    if k < n { DriverState::Draining((n - k) as usize) } else { DriverState::Draining(0) }
}

/// The decisions of the thread that drives a completion port: it hands out
/// each completion status until the port shuts down, then dequeues exactly as
/// many completions as operations were pending at shutdown, and finishes.
#[derive(Debug)]
pub struct BackgroundDriver {
    state: DriverState,
}

impl View for BackgroundDriver {
    type V = DriverState;

    closed spec fn view(&self) -> DriverState {
        self.state
    }
}

impl BackgroundDriver {
    /// A driver that starts out polling.
    pub fn new() -> (r: Self)
        ensures
            r@ == DriverState::Polling,
    {
        Self { state: DriverState::Polling }
    }

    /// Where the driver stands.
    pub fn state(&self) -> (r: DriverState)
        ensures
            r == self@,
    {
        self.state
    }

    /// The step that the driving thread takes next.
    pub fn next_step(&self) -> (r: DriverStep)
        ensures
            r == spec_next_step(self@),
    {
        match self.state {
            DriverState::Polling => DriverStep::Poll,
            DriverState::Draining(n) => if n > 0 { DriverStep::PollDuringShutdown } else { DriverStep::Finish },
            DriverState::Finished => DriverStep::Finish,
        }
    }

    /// Take a completion dequeued while polling: an aborted operation is
    /// unlocked and any other is released; the shutdown message starts
    /// draining the operations that were pending at the time.
    pub fn on_poll(&mut self, poll: CompletionPoll) -> (r: Option<StatusAction>)
        requires
            old(self)@ == DriverState::Polling,
        ensures
            match poll {
                CompletionPoll::Status(status) => {
                    &&& final(self)@ == DriverState::Polling
                    &&& r == Some(if status.outcome == CompletionOutcome::Aborted { StatusAction::Unlock } else { StatusAction::Release })
                },
                CompletionPoll::Shutdown(shutdown) => {
                    &&& final(self)@ == DriverState::Draining(shutdown.pending)
                    &&& r == None::<StatusAction>
                },
            },
    {
        match poll {
            CompletionPoll::Status(status) => match status.outcome {
                CompletionOutcome::Aborted => Some(StatusAction::Unlock),
                _ => Some(StatusAction::Release),
            },
            CompletionPoll::Shutdown(shutdown) => {
                self.state = DriverState::Draining(shutdown.pending);
                None
            },
        }
    }

    /// Take a completion dequeued while shutting down: it is released, and
    /// one fewer completion remains to be dequeued.
    pub fn on_drained(&mut self) -> (r: StatusAction)
        requires
            old(self)@ matches DriverState::Draining(n) && n > 0,
        ensures
            r == StatusAction::Release,
            old(self)@ matches DriverState::Draining(n) && final(self)@ == DriverState::Draining((n - 1) as usize),
    {
        if let DriverState::Draining(n) = self.state {
            self.state = DriverState::Draining(n - 1);
        }
        StatusAction::Release
    }

    /// Mark the driver as finished, once nothing remains to be dequeued.
    pub fn finish(&mut self)
        requires
            spec_next_step(old(self)@) == DriverStep::Finish,
        ensures
            final(self)@ == DriverState::Finished,
    {
        self.state = DriverState::Finished;
    }
}

/// After the shutdown message with `n` pending operations, the driving thread
/// dequeues exactly `n` more completions: after `k < n` of them it asks for
/// another, and after `n` of them it finishes.
pub proof fn lemma_drains_exactly_pending(n: usize, k: nat)
    ensures
        k < n ==> spec_next_step(spec_drained(n, k)) == DriverStep::PollDuringShutdown,
        k < n ==> spec_drained(n, k) == DriverState::Draining((n - k) as usize)
            && spec_drained(n, k + 1) == DriverState::Draining((n - k - 1) as usize),
        spec_next_step(spec_drained(n, n as nat)) == DriverStep::Finish,
{
}

} // verus!
