use vstd::prelude::*;
use crate::errors::Error;
use crate::io::{start_progress, spec_start_progress, Progress};

verus! {

/// State that can be used to embed a writer.
#[derive(Debug, Clone, Copy, PartialEq, Eq, Structural)]
pub enum State {
    Init,
    Pending,
}

/// What a writer does once it holds the header's lock.
#[derive(Debug, Clone, Copy, PartialEq, Eq, Structural)]
pub enum WriteAction {
    /// Reset the header's buffers, copy the data and start a write.
    Start,
    /// Collect the number of bytes that the pending write transferred.
    Collect,
}

impl State {
    /// Take the next step of a poll that acquired the header's lock: a writer
    /// in its initial state starts a write and is pending until it learns
    /// the write's outcome; a pending writer collects the write and is back
    /// in its initial state.
    pub fn on_locked(&mut self) -> (r: WriteAction)
        ensures
            *old(self) == State::Init ==> r == WriteAction::Start && *final(self) == State::Pending,
            *old(self) == State::Pending ==> r == WriteAction::Collect && *final(self) == State::Init,
    {
        match *self {
            State::Init => {
                *self = State::Pending;
                WriteAction::Start
            },
            State::Pending => {
                *self = State::Init;
                WriteAction::Collect
            },
        }
    }

    /// Take the result of starting a write: a write that completed at once is
    /// returned and the writer is back in its initial state; a write in
    /// progress keeps the writer pending; a write that failed at once is
    /// returned and leaves the writer pending.
    ///
    /// Note that after a write that failed at once the writer stays pending,
    /// so its next poll collects a result although no write was started;
    /// a writer that should start afresh must be reset to [State::Init] by
    /// its owner.
    pub fn on_started<T>(&mut self, result: &Result<T, Error>) -> (r: Progress)
        requires
            *old(self) == State::Pending,
        ensures
            r == spec_start_progress(*result),
            *final(self) == (if result is Ok { State::Init } else { State::Pending }),
    {
        let r = start_progress(result);
        if result.is_ok() {
            *self = State::Init;
        }
        r
    }
}

} // verus!
