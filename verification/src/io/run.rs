use vstd::prelude::*;
use crate::errors::{Error, is_io_pending};
use crate::io::{start_progress, spec_start_progress, Progress};

verus! {

/// The state of an operation being run over an overlapped header whose lock
/// is a plain count.
#[derive(Debug, Clone, Copy, PartialEq, Eq, Structural)]
pub enum RunStage {
    /// The operation is in its initial state.
    Waiting,
    /// The operation is pending.
    Pending,
    /// State of the task is completed.
    Complete,
}

/// What the future does once it holds the header's lock.
#[derive(Debug, Clone, Copy, PartialEq, Eq, Structural)]
pub enum RunAction {
    /// Reset the header's buffers and start the operation.
    Start,
    /// Collect the result of the pending operation and reset the buffers.
    Collect,
    /// Fail with the given error.
    Fail(Error),
}

/// The stage after a locked poll, and what the poll does.
pub open spec fn spec_on_locked(stage: RunStage) -> (RunStage, RunAction) {
    (RunStage::Complete, match stage {
        RunStage::Waiting => RunAction::Start,
        RunStage::Pending => RunAction::Collect,
        RunStage::Complete => RunAction::Fail(Error::PolledAfterCompletion),
    })
}

/// The stage after learning the result of starting the operation.
pub open spec fn spec_on_started<T>(result: Result<T, Error>) -> RunStage {
    if spec_start_progress(result) == Progress::Suspend { RunStage::Pending } else { RunStage::Complete }
}

impl RunStage {
    /// Take the next step of a poll that acquired the header's lock. The
    /// stage becomes `Complete`; starting an operation that the operating
    /// system reports as in progress makes it `Pending` again through
    /// [on_started][RunStage::on_started].
    pub fn on_locked(&mut self) -> (r: RunAction)
        ensures
            (*final(self), r) == spec_on_locked(*old(self)),
    {
        let r = match *self {
            RunStage::Waiting => RunAction::Start,
            RunStage::Pending => RunAction::Collect,
            RunStage::Complete => RunAction::Fail(Error::PolledAfterCompletion),
        };
        *self = RunStage::Complete;
        r
    }

    /// Take the result of starting the operation: an operation in progress
    /// keeps the header locked and the stage `Pending`; any other result is
    /// returned at once and the stage stays `Complete`.
    pub fn on_started<T>(&mut self, result: &Result<T, Error>) -> (r: Progress)
        requires
            *old(self) == RunStage::Complete,
        ensures
            r == spec_start_progress(*result),
            *final(self) == spec_on_started(*result),
    {
        let r = start_progress(result);
        if let Progress::Suspend = r {
            *self = RunStage::Pending;
        }
        r
    }
}

/// The life of a run: a run that starts an operation which the operating
/// system reports as in progress stays pending, collects the result on its
/// next locked poll and is then complete; a run that starts an operation
/// which completes or fails at once is complete; and every poll of a
/// complete run fails as polled after completion and leaves it complete.
pub proof fn lemma_run_lifecycle<T>(result: Result<T, Error>)
    ensures
        spec_on_locked(RunStage::Waiting) == (RunStage::Complete, RunAction::Start),
        spec_on_started(result) == (if result matches Err(e) && is_io_pending(e) { RunStage::Pending } else { RunStage::Complete }),
        spec_on_locked(RunStage::Pending) == (RunStage::Complete, RunAction::Collect),
        spec_on_locked(RunStage::Complete) == (RunStage::Complete, RunAction::Fail(Error::PolledAfterCompletion)),
{
}

} // verus!
