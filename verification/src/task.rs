use vstd::prelude::*;
use crate::io::{Code, OverlappedState};
use std::sync::atomic::{AtomicI64, Ordering};

verus! {

// The lock word of an overlapped header is an `i64` shared between the task
// that runs operations over the header and the thread that drives the
// completion port:
//
// * `0`: the header is open; nothing is running over it.
// * `id > 0`: an operation with the given id holds the header and is pending
//   on the completion port, which owns its resources.
// * `-id < 0`: the completion port has released the operation with the given
//   id; its result waits to be collected by the next lock.
//
// An operation's id is its [Code] plus one, so that it is never `0`.

/// The id under which an operation with the given code holds the lock word.
pub open spec fn spec_lock_id(code: Code) -> i64 {
    (code.0 + 1) as i64
}

/// The id under which an operation with the given code holds the lock word.
pub fn lock_id(code: Code) -> (id: i64)
    ensures
        id == spec_lock_id(code),
        id > 0,
{
    code.0 as i64 + 1
}

/// The result of trying to lock the overlapped header.
#[derive(Debug, Clone, Copy, PartialEq, Eq, Structural)]
pub enum LockResult {
    /// Locking succeeded, finding the header in the given state: `Idle` when
    /// it was open, `Pending` when a released operation waits to be
    /// collected.
    Locked(OverlappedState),
    /// Locking failed because it's busy. Flag indicates if there was a mismatch
    /// in the type of operation.
    ///
    /// If there was a mismatch, the caller should cancel the pending
    /// operation.
    Busy(bool),
}

/// The lock word and the result of locking it with `id`, seen as one atomic
/// step on the word `word`.
pub open spec fn spec_lock(word: i64, id: i64) -> (i64, LockResult) {
    if word == 0 {
        (id, LockResult::Locked(OverlappedState::Idle))
    } else if word > 0 {
        (word, LockResult::Busy(id != word))
    } else {
        (0, LockResult::Locked(OverlappedState::Pending))
    }
}

/// The lock word and the result of unlocking it, seen as one atomic step on
/// the word `word`: a held word is released, any other word is left alone.
pub open spec fn spec_unlock(word: i64) -> (i64, bool) {
    if word > 0 {
        ((-word) as i64, true)
    } else {
        (word, false)
    }
}

/// The state of the overlapped header that the word `word` stands for.
pub open spec fn spec_state(word: i64) -> OverlappedState {
    if word <= 0 {
        OverlappedState::Idle
    } else {
        OverlappedState::Pending
    }
}

/// The state of the overlapped guard, from the current lock word.
pub fn state(word: i64) -> (r: OverlappedState)
    ensures
        r == spec_state(word),
{
    if word <= 0 {
        OverlappedState::Idle
    } else {
        OverlappedState::Pending
    }
}

/// The next thing to do on the lock word.
#[derive(Debug)]
pub enum LockStep<T> {
    /// Compare the word with `expected` and, if they are equal, replace it
    /// with `new` and finish with `done`; otherwise read the word again and
    /// take the next step from what was read.
    Swap { expected: i64, new: i64, done: T },
    /// Finish with the given result without touching the word.
    Finish(T),
}

/// The step that locks the header with `id` after the lock word was seen to
/// hold `observed`. A successful swap, or a finish, makes exactly the
/// transition [spec_lock] of the observed word.
pub fn lock_step(observed: i64, id: i64) -> (r: LockStep<LockResult>)
    requires
        id > 0,
    ensures
        ({
            let (next, result) = spec_lock(observed, id);
            match r {
                LockStep::Swap { expected, new, done } => expected == observed && new == next && done == result && next != observed,
                LockStep::Finish(done) => next == observed && done == result,
            }
        }),
{
    if observed == 0 {
        LockStep::Swap { expected: 0, new: id, done: LockResult::Locked(OverlappedState::Idle) }
    } else if observed > 0 {
        LockStep::Finish(LockResult::Busy(id != observed))
    } else {
        LockStep::Swap { expected: observed, new: 0, done: LockResult::Locked(OverlappedState::Pending) }
    }
}

/// The step that unlocks the header after the lock word was seen to hold
/// `observed`, releasing the operation that holds it. The result tells
/// whether an operation was released, so that its task is to be woken.
pub fn unlock_step(observed: i64) -> (r: LockStep<bool>)
    ensures
        ({
            let (next, result) = spec_unlock(observed);
            match r {
                LockStep::Swap { expected, new, done } => expected == observed && new == next && done == result && next != observed,
                LockStep::Finish(done) => next == observed && done == result,
            }
        }),
{
    if observed > 0 {
        LockStep::Swap { expected: observed, new: -observed, done: true }
    } else {
        LockStep::Finish(false)
    }
}

/// The lock word of an overlapped header, shared between the task that runs
/// operations over the header and the thread that drives the completion
/// port. The steps to take on it come from [lock_step] and [unlock_step].
#[derive(Debug)]
pub struct LockWord {
    word: AtomicI64,
}

impl LockWord {
    /// An open lock word.
    pub fn new() -> Self {
        Self { word: AtomicI64::new(0) }
    }

    /// Read the lock word.
    pub fn load(&self) -> i64 {
        self.word.load(Ordering::SeqCst)
    }

    /// Take a swap step: replace the word with `new` if it holds `expected`,
    /// or return the value that it held instead. A swap may also fail
    /// spuriously, returning the expected value. A successful swap returns
    /// the value that it replaced, which is `expected`.
    pub fn swap(&self, expected: i64, new: i64) -> (r: Result<i64, i64>)
        ensures
            r is Ok ==> r == Ok::<i64, i64>(expected),
    {
        match self.word.compare_exchange_weak(expected, new, Ordering::SeqCst, Ordering::Relaxed) {
            Ok(_) => Ok(expected),
            Err(actual) => Err(actual),
        }
    }

    /// Open the lock word again, when the operation that locked it was not
    /// submitted after all and nothing is pending on the header.
    pub fn open(&self) {
        self.word.store(0, Ordering::SeqCst);
    }

    /// The state of the overlapped header, from the current lock word.
    pub fn state(&self) -> OverlappedState {
        state(self.load())
    }
}

/// Only one operation at a time can hold an overlapped header: while an
/// operation holds the lock word, every attempt to lock it fails and leaves
/// it unchanged, and it reports a mismatch exactly when the attempt comes
/// from another kind of operation.
pub proof fn lemma_lock_exclusive(word: i64, code: Code)
    requires
        word > 0,
    ensures
        spec_lock(word, spec_lock_id(code)) == (word, LockResult::Busy(spec_lock_id(code) != word)),
        spec_state(word) == OverlappedState::Pending,
{
}

/// The life of one operation over an open header: locking it finds it idle
/// and hands it to the operation; the completion port's release unlocks it
/// and reports that the task is to be woken; the next lock, by whatever
/// operation, finds the released operation pending and opens the header
/// again; so the result of an operation is collected once, and the lock
/// after that finds the header idle.
pub proof fn lemma_lock_cycle(code: Code, next_code: Code)
    ensures
        ({
            let id = spec_lock_id(code);
            let (w1, r1) = spec_lock(0, id);
            let (w2, r2) = spec_unlock(w1);
            let (w3, r3) = spec_lock(w2, spec_lock_id(next_code));
            &&& r1 == LockResult::Locked(OverlappedState::Idle)
            &&& w1 == id
            &&& spec_state(w1) == OverlappedState::Pending
            &&& r2
            &&& w2 == -id
            &&& spec_state(w2) == OverlappedState::Idle
            &&& r3 == LockResult::Locked(OverlappedState::Pending)
            &&& w3 == 0
            &&& spec_lock(w3, spec_lock_id(next_code)).1 == LockResult::Locked(OverlappedState::Idle)
        }),
{
}

/// Unlocking a header that no operation holds changes nothing and reports
/// that no task is to be woken; in particular a second release of the same
/// operation is a no-op.
pub proof fn lemma_unlock_idempotent(word: i64)
    ensures
        word <= 0 ==> spec_unlock(word) == (word, false),
        word > 0 ==> spec_unlock(spec_unlock(word).0) == (spec_unlock(word).0, false),
{
}

/// The file offset at which an overlapped read or write starts, as the
/// `Offset` (low 32 bits) and `OffsetHigh` (high 32 bits) fields of the
/// `OVERLAPPED` structure hold it.
#[derive(Debug, Clone, Copy, PartialEq, Eq, Structural)]
pub struct OverlappedOffset {
    pub offset: u32,
    pub offset_high: u32,
}

/// The 64-bit position that a pair of offset fields stands for.
pub open spec fn spec_position(offset: u32, offset_high: u32) -> int {
    offset + offset_high * 0x1_0000_0000
}

impl OverlappedOffset {
    /// The 64-bit position that the offset stands for.
    pub open spec fn position(self) -> int {
        spec_position(self.offset, self.offset_high)
    }

    /// Advance the cursor of the overlapped structure by `amount`.
    ///
    /// This is used by read or write operations to move the read or write
    /// cursor forward. The position must not pass `u64::MAX`.
    pub fn advance(&mut self, amount: usize)
        requires
            old(self).position() + amount <= u64::MAX,
        ensures
            final(self).position() == old(self).position() + amount,
    {
        let lo = self.offset;
        let hi = self.offset_high;
        let n: u64 = (lo as u64) | ((hi as u64) << 32u64);
        assert(n == lo as u64 + hi as u64 * 0x1_0000_0000u64) by (bit_vector)
            requires
                n == (lo as u64) | ((hi as u64) << 32u64),
        ;
        let a: u64 = amount as u64;
        let m: u64 = n + a;
        let new_lo: u32 = (m & 0xffff_ffffu64) as u32;
        let new_hi: u32 = (m >> 32u64) as u32;
        assert(new_lo as u64 + new_hi as u64 * 0x1_0000_0000u64 == m) by (bit_vector)
            requires
                new_lo == (m & 0xffff_ffffu64) as u32,
                new_hi == (m >> 32u64) as u32,
        ;
        self.offset = new_lo;
        self.offset_high = new_hi;
    }

    /// Advance the cursor by `amount` if the position stays within
    /// `u64::MAX`, and report whether it did; otherwise leave it alone.
    pub fn checked_advance(&mut self, amount: usize) -> (r: bool)
        ensures
            r == (old(self).position() + amount <= u64::MAX),
            r ==> final(self).position() == old(self).position() + amount,
            !r ==> *final(self) == *old(self),
    {
        let lo = self.offset;
        let hi = self.offset_high;
        let n: u64 = (lo as u64) | ((hi as u64) << 32u64);
        assert(n == lo as u64 + hi as u64 * 0x1_0000_0000u64) by (bit_vector)
            requires
                n == (lo as u64) | ((hi as u64) << 32u64),
        ;
        let a: u64 = amount as u64;
        if n > u64::MAX - a {
            false
        } else {
            self.advance(amount);
            true
        }
    }
}

} // verus!
