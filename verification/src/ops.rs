use vstd::prelude::*;
use crate::io::OverlappedResult;
use crate::pool::{BufferPool, PoolView, spec_stage};
use crate::task::OverlappedOffset;

verus! {

/// The lock code of a read.
pub const READ: u32 = 0x7f_ff_ff_01;
/// The lock code of a write.
pub const WRITE: u32 = 0x7f_ff_ff_02;
/// The lock code of an I/O control operation.
pub const IO_CTL: u32 = 0x7f_ff_ff_03;
/// The lock code of connecting a named pipe.
pub const CONNECT_NAMED_PIPE: u32 = 0x7f_ff_ff_04;
/// The lock code of the reads and writes of the Tokio adapter.
pub const TOKIO_IO: u32 = 0x7f_ff_ff_10;

/// The outcome of an overlapped operation.
#[derive(Debug, Clone, Copy, PartialEq, Eq, Structural)]
pub enum OverlappedOutcome {
    /// Do not modify the state of the overlapped header.
    Unchanged,
    /// Advance the read/write cursor by the given amount.
    Advance(usize),
}

/// How far an outcome moves the read/write cursor.
pub open spec fn spec_advance_amount(outcome: OverlappedOutcome) -> nat {
    match outcome {
        OverlappedOutcome::Unchanged => 0,
        OverlappedOutcome::Advance(n) => n as nat,
    }
}

impl OverlappedOutcome {
    /// How far the outcome moves the read/write cursor.
    pub fn amount(&self) -> (r: usize)
        ensures
            r == spec_advance_amount(*self),
    {
        match self {
            Self::Unchanged => 0,
            Self::Advance(n) => *n,
        }
    }

    /// Apply the outcome to the read/write cursor of the overlapped header.
    pub fn apply_to(self, offset: &mut OverlappedOffset)
        requires
            old(offset).position() + spec_advance_amount(self) <= u64::MAX,
        ensures
            final(offset).position() == old(offset).position() + spec_advance_amount(self),
            self == OverlappedOutcome::Unchanged ==> *final(offset) == *old(offset),
    {
        match self {
            Self::Unchanged => (),
            Self::Advance(n) => {
                offset.advance(n);
            }
        }
    }
}

/// A write operation wrapping a buffer.
#[derive(Debug)]
pub struct Write<B> {
    pub buf: B,
}

impl<B> Write<B> {
    /// Construct a new handler for a write operation.
    pub fn new(buf: B) -> (r: Self)
        ensures
            r.buf == buf,
    {
        Self { buf }
    }

    /// Collect the overlapped result of the write: the number of bytes
    /// written, leaving the cursor alone.
    pub fn collect(&mut self, result: OverlappedResult) -> (r: (usize, OverlappedOutcome))
        ensures
            r == (result.bytes_transferred, OverlappedOutcome::Unchanged),
            final(self).buf == old(self).buf,
    {
        (result.bytes_transferred, OverlappedOutcome::Unchanged)
    }
}

/// A read operation wrapping a buffer.
#[derive(Debug)]
pub struct Read<B> {
    pub buf: B,
}

impl<B> Read<B> {
    /// Construct a new handler for a read operation.
    pub fn new(buf: B) -> (r: Self)
        ensures
            r.buf == buf,
    {
        Self { buf }
    }
}

/// A write named pipe connect.
#[derive(Debug)]
pub struct ConnectNamedPipe(());

impl ConnectNamedPipe {
    /// Construct a new handler for a connect operation.
    pub fn new() -> Self {
        Self(())
    }

    /// Collect the overlapped result of the connect, which yields nothing and
    /// leaves the cursor alone.
    pub fn collect(&mut self, result: OverlappedResult) -> (r: ((), OverlappedOutcome))
        ensures
            r == ((), OverlappedOutcome::Unchanged),
    {
        ((), OverlappedOutcome::Unchanged)
    }
}

/// An I/O control operation wrapping a message.
#[derive(Debug)]
pub struct DeviceIoCtl<M>(pub M);

impl<M> DeviceIoCtl<M> {
    /// Construct a new handler for an I/O control operation.
    pub fn new(message: M) -> (r: Self)
        ensures
            r.0 == message,
    {
        Self(message)
    }

    /// Collect the overlapped result of the control operation: the number of
    /// bytes returned, leaving the cursor alone.
    pub fn collect(&mut self, result: OverlappedResult) -> (r: (usize, OverlappedOutcome))
        ensures
            r == (result.bytes_transferred, OverlappedOutcome::Unchanged),
            final(self).0 == old(self).0,
    {
        (result.bytes_transferred, OverlappedOutcome::Unchanged)
    }
}

/// Stage the bytes that a write (or the request of an I/O control operation)
/// submits: take a buffer from the pool for `data.len()` bytes and copy the
/// data to its start. Returns the index of the buffer.
pub fn stage_write(pool: &mut BufferPool, data: &[u8]) -> (slot: usize)
    requires
        old(pool)@.wf(),
        old(pool)@.taken < usize::MAX,
    ensures
        final(pool)@.wf(),
        slot == old(pool)@.taken,
        final(pool)@ == spec_stage(old(pool)@, data@),
        final(pool)@.buffers[slot as int].take(data@.len() as int) == data@,
{
    let slot = pool.take(data.len());
    pool.fill(slot, data);
    proof {
        let b = old(pool)@.take(data@.len()).buffers[slot as int];
        assert((data@ + b.skip(data@.len() as int)).take(data@.len() as int) =~= data@);
    }
    slot
}

/// Collect the overlapped result of a read: reclaim the buffer that the read
/// filled, copy the bytes transferred into `out`, and advance the cursor by
/// their number. The filled bytes must fit in the buffer and in `out`.
pub fn collect_read(pool: &mut BufferPool, result: OverlappedResult, out: &mut [u8]) -> (r: (usize, OverlappedOutcome))
    requires
        old(pool)@.wf(),
        old(pool)@.released < old(pool)@.taken,
        result.bytes_transferred <= old(pool)@.buffers[old(pool)@.released as int].len(),
        result.bytes_transferred <= old(out)@.len(),
    ensures
        final(pool)@.wf(),
        final(pool)@ == old(pool)@.release(),
        r == (result.bytes_transferred, OverlappedOutcome::Advance(result.bytes_transferred)),
        final(out)@ == old(pool)@.release_bytes(result.bytes_transferred as nat)
            + old(out)@.skip(result.bytes_transferred as int),
{
    let n = result.bytes_transferred;
    let filled = pool.release(n);
    let ghost old_out = out@;
    let mut i: usize = 0;
    while i < n
        invariant
            i <= n,
            n == filled@.len(),
            n <= old_out.len(),
            out@.len() == old_out.len(),
            out@ =~= filled@.take(i as int) + old_out.skip(i as int),
        decreases n - i,
    {
        out[i] = filled[i];
        i = i + 1;
        assert(out@ =~= filled@.take(i as int) + old_out.skip(i as int));
    }
    proof {
        assert(filled@.take(n as int) =~= filled@);
    }
    (n, OverlappedOutcome::Advance(n))
}

} // verus!
