use vstd::prelude::*;
use crate::errors::Error;
use crate::io::{start_progress, spec_start_progress, Progress};

verus! {

/// State that can be used to embed a reader.
#[derive(Debug, Clone, Copy, PartialEq, Eq, Structural)]
pub enum State {
    Init,
    Pending,
}

/// What a reader does once it holds the header's lock.
#[derive(Debug, Clone, Copy, PartialEq, Eq, Structural)]
pub enum ReadAction {
    /// Reset the header's buffers and start a read.
    Start,
    /// Collect the result of the pending read into the caller's buffer.
    Collect,
}

impl State {
    /// Take the next step of a poll that acquired the header's lock: a reader
    /// in its initial state starts a read and is pending until it learns the
    /// read's outcome; a pending reader collects the read and is back in its
    /// initial state.
    pub fn on_locked(&mut self) -> (r: ReadAction)
        ensures
            *old(self) == State::Init ==> r == ReadAction::Start && *final(self) == State::Pending,
            *old(self) == State::Pending ==> r == ReadAction::Collect && *final(self) == State::Init,
    {
        match *self {
            State::Init => {
                *self = State::Pending;
                ReadAction::Start
            },
            State::Pending => {
                *self = State::Init;
                ReadAction::Collect
            },
        }
    }

    /// Take the result of starting a read: a read in progress keeps the
    /// reader pending; a read that completed or failed at once is returned
    /// and the reader is back in its initial state.
    pub fn on_started<T>(&mut self, result: &Result<T, Error>) -> (r: Progress)
        requires
            *old(self) == State::Pending,
        ensures
            r == spec_start_progress(*result),
            *final(self) == (if r == Progress::Suspend { State::Pending } else { State::Init }),
    {
        let r = start_progress(result);
        if let Progress::Ready = r {
            *self = State::Init;
        }
        r
    }
}

} // verus!
