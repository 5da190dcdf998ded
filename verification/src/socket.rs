use vstd::prelude::*;
use crate::pool::{BufferPool, PoolView, zeros, INITIAL_BUFFER_SIZE};

pub mod operation;

verus! {

/// A wrapped socket able to perform overlapped operations, with the pool of
/// buffers that its operations use.
pub struct Socket<S> {
    socket: S,
    pool: BufferPool,
}

impl<S> Socket<S> {
    /// The wrapped socket.
    pub closed spec fn spec_socket(&self) -> S {
        self.socket
    }

    /// The pool of buffers of the socket's operations.
    pub closed spec fn spec_pool(&self) -> PoolView {
        self.pool@
    }

    /// Construct a socket wrapper capable of overlapped operations, whose
    /// operations use buffers of at most `max_buffer_size` bytes.
    pub fn new(socket: S, max_buffer_size: usize) -> (r: Self)
        ensures
            r.spec_socket() == socket,
            r.spec_pool().wf(),
            r.spec_pool().buffers == seq![zeros(INITIAL_BUFFER_SIZE as nat)],
            r.spec_pool().taken == 0,
            r.spec_pool().released == 0,
            r.spec_pool().max_buffer_size == max_buffer_size,
    {
        Self { socket, pool: BufferPool::new(max_buffer_size) }
    }

    /// Duplicate this socket, allowing more than one pending I/O operation to
    /// happen over it concurrently.
    ///
    /// The underlying socket must implement [Clone], which it can trivially do
    /// if it's wrapped in something like an [Arc](std::sync::Arc).
    ///
    /// The returned socket does not inherit the state of the socket it was
    /// cloned from. It has no pending operations and a fresh pool of buffers
    /// with the same maximum buffer size.
    pub fn duplicate(&self) -> (r: Self)
        where S: Clone,
        ensures
            cloned(self.spec_socket(), r.spec_socket()),
            r.spec_pool().wf(),
            r.spec_pool().buffers == seq![zeros(INITIAL_BUFFER_SIZE as nat)],
            r.spec_pool().taken == 0,
            r.spec_pool().released == 0,
            r.spec_pool().max_buffer_size == self.spec_pool().max_buffer_size,
    {
        let max_buffer_size = self.pool.max_buffer_size();
        Self { socket: self.socket.clone(), pool: BufferPool::new(max_buffer_size) }
    }

    /// Access a reference to the underlying socket.
    pub fn as_ref(&self) -> (r: &S)
        ensures
            *r == self.spec_socket(),
    {
        &self.socket
    }

    /// Access a mutable reference to the underlying socket.
    pub fn as_mut(&mut self) -> (r: &mut S)
        ensures
            *r == old(self).spec_socket(),
            final(self).spec_socket() == *final(r),
            final(self).spec_pool() == old(self).spec_pool(),
    {
        &mut self.socket
    }

    /// Access the pool of buffers of the socket's operations.
    pub fn pool(&self) -> (r: &BufferPool)
        ensures
            r@ == self.spec_pool(),
    {
        &self.pool
    }

    /// Access the pool of buffers of the socket's operations mutably.
    pub fn pool_mut(&mut self) -> (r: &mut BufferPool)
        ensures
            r@ == old(self).spec_pool(),
            final(self).spec_pool() == final(r)@,
            final(self).spec_socket() == old(self).spec_socket(),
    {
        &mut self.pool
    }
}

} // verus!
