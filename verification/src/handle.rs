use vstd::prelude::*;
use crate::errors::Error;
use crate::io::OverlappedState;
use crate::pool::{BufferPool, PoolView, zeros, INITIAL_BUFFER_SIZE};
use crate::task::LockResult;

verus! {

/// What an operation does after trying to lock its overlapped header.
#[derive(Debug, Clone, Copy, PartialEq, Eq, Structural)]
pub enum PollAction {
    /// Another operation holds the header: wait to be woken, cancelling the
    /// other operation first when it is of another kind.
    Wait { cancel: bool },
    /// The header was idle: prepare and submit the operation.
    Prepare,
    /// A released operation waits on the header: collect its result.
    Collect,
}

/// What [lock_action] decides for a lock result.
pub open spec fn spec_lock_action(r: LockResult) -> PollAction {
    match r {
        LockResult::Busy(mismatch) => PollAction::Wait { cancel: mismatch },
        LockResult::Locked(OverlappedState::Idle) => PollAction::Prepare,
        LockResult::Locked(OverlappedState::Pending) => PollAction::Collect,
    }
}

/// Decide what an operation does after trying to lock its overlapped header.
pub fn lock_action(r: LockResult) -> (a: PollAction)
    ensures
        a == spec_lock_action(r),
{
    match r {
        LockResult::Busy(mismatch) => PollAction::Wait { cancel: mismatch },
        LockResult::Locked(OverlappedState::Idle) => PollAction::Prepare,
        LockResult::Locked(OverlappedState::Pending) => PollAction::Collect,
    }
}

/// The state of the operation being run.
#[derive(Debug, Clone, Copy, PartialEq, Eq, Structural)]
pub enum OperationStage {
    /// The operation is running.
    Running,
    /// State of the task is completed.
    Complete,
}

impl OperationStage {
    /// Check that the operation may be polled: a completed operation fails
    /// as polled after completion.
    pub fn check_running(&self) -> (r: Result<(), Error>)
        ensures
            r == (if *self == OperationStage::Running { Ok::<(), Error>(()) } else { Err(Error::PolledAfterCompletion) }),
    {
        match self {
            OperationStage::Running => Ok(()),
            OperationStage::Complete => Err(Error::PolledAfterCompletion),
        }
    }

    /// Mark the operation as completed once its output was collected.
    pub fn complete(&mut self)
        ensures
            *final(self) == OperationStage::Complete,
    {
        *self = OperationStage::Complete;
    }
}

/// A wrapped handle able to perform overlapped operations, with the pool of
/// buffers that its operations use.
pub struct Handle<H> {
    handle: H,
    pool: BufferPool,
}

impl<H> Handle<H> {
    /// The wrapped handle.
    pub closed spec fn spec_handle(&self) -> H {
        self.handle
    }

    /// The pool of buffers of the handle's operations.
    pub closed spec fn spec_pool(&self) -> PoolView {
        self.pool@
    }

    /// Construct a handle wrapper capable of overlapped operations, whose
    /// operations use buffers of at most `max_buffer_size` bytes.
    pub fn new(handle: H, max_buffer_size: usize) -> (r: Self)
        ensures
            r.spec_handle() == handle,
            r.spec_pool().wf(),
            r.spec_pool().buffers == seq![zeros(INITIAL_BUFFER_SIZE as nat)],
            r.spec_pool().taken == 0,
            r.spec_pool().released == 0,
            r.spec_pool().max_buffer_size == max_buffer_size,
    {
        Self { handle, pool: BufferPool::new(max_buffer_size) }
    }

    /// Duplicate this handle, allowing more than one pending I/O operation to
    /// happen over it concurrently.
    ///
    /// The underlying handle must implement [Clone], which it can trivially do
    /// if it's wrapped in something like an [Arc](std::sync::Arc).
    ///
    /// The returned handle does not inherit the state of the handle it was
    /// cloned from. It has no pending operations and a fresh pool of buffers
    /// with the same maximum buffer size.
    pub fn duplicate(&self) -> (r: Self)
        where H: Clone,
        ensures
            cloned(self.spec_handle(), r.spec_handle()),
            r.spec_pool().wf(),
            r.spec_pool().buffers == seq![zeros(INITIAL_BUFFER_SIZE as nat)],
            r.spec_pool().taken == 0,
            r.spec_pool().released == 0,
            r.spec_pool().max_buffer_size == self.spec_pool().max_buffer_size,
    {
        let max_buffer_size = self.pool.max_buffer_size();
        Self { handle: self.handle.clone(), pool: BufferPool::new(max_buffer_size) }
    }

    /// Access a reference to the underlying handle.
    pub fn as_ref(&self) -> (r: &H)
        ensures
            *r == self.spec_handle(),
    {
        &self.handle
    }

    /// Access a mutable reference to the underlying handle.
    pub fn as_mut(&mut self) -> (r: &mut H)
        ensures
            *r == old(self).spec_handle(),
            final(self).spec_handle() == *final(r),
            final(self).spec_pool() == old(self).spec_pool(),
    {
        &mut self.handle
    }

    /// Access the pool of buffers of the handle's operations.
    pub fn pool(&self) -> (r: &BufferPool)
        ensures
            r@ == self.spec_pool(),
    {
        &self.pool
    }

    /// Access the pool of buffers of the handle's operations mutably.
    pub fn pool_mut(&mut self) -> (r: &mut BufferPool)
        ensures
            r@ == old(self).spec_pool(),
            final(self).spec_pool() == final(r)@,
            final(self).spec_handle() == old(self).spec_handle(),
    {
        &mut self.pool
    }
}

} // verus!
