use vstd::prelude::*;
use crate::errors::{Error, is_io_pending, ERROR_BROKEN_PIPE, ERROR_HANDLE_EOF, ERROR_IO_PENDING};

pub mod run;
pub mod tokio;

verus! {

/// A unique code that designates exactly how any one given overlapped result
/// must be treated. This has safety implications, because treating the
/// overlapped results of something like a WRITE as a READ instead could result
/// in assuming that uninitialized memory has been initialized by the write
/// operation.
#[derive(Debug, Clone, Copy, PartialEq, Eq, Structural)]
pub struct Code(pub u32);

/// The results of an overlapped operation.
#[derive(Debug, Clone, Copy, PartialEq, Eq, Structural)]
pub struct OverlappedResult {
    /// The bytes transferred by this operation. Its exact meaning is
    /// determined by the operation that collects it.
    pub bytes_transferred: usize,
}

impl OverlappedResult {
    /// An empty overlapped result.
    pub fn empty() -> (r: Self)
        ensures
            r.bytes_transferred == 0,
    {
        Self { bytes_transferred: 0 }
    }
}

/// The internal state of the driver. This can be fully determined by the driver
/// during locking.
#[derive(Debug, Clone, Copy, PartialEq, Eq, Structural)]
pub enum OverlappedState {
    /// The operation is idle, and the local task owns all resources associated
    /// with it.
    Idle,
    /// An operation is pending on the remote completion port. The remote
    /// completion port owns all resources associated with it.
    Pending,
}

/// What [handle_io_pending] makes of the result of submitting an operation.
pub open spec fn spec_handle_io_pending<O>(result: Result<O, Error>) -> Result<(), Error> {
    match result {
        Ok(..) => Ok(()),
        Err(e) => if is_io_pending(e) { Ok(()) } else { Err(e) },
    }
}

/// Helper to deal with I/O pending errors correctly: a submission that
/// completed at once or that reports the operation as in progress is fine,
/// since the completion port reports its completion either way; any other
/// error is returned.
pub fn handle_io_pending<O>(result: Result<O, Error>) -> (r: Result<(), Error>)
    ensures
        r == spec_handle_io_pending(result),
        result is Ok ==> r == Ok::<(), Error>(()),
        result matches Err(e) ==> (e == Error::Os(997) ==> r == Ok::<(), Error>(())),
        result matches Err(e) ==> (e != Error::Os(997) ==> r == Err::<(), Error>(e)),
{
    match result {
        Ok(..) => Ok(()),
        Err(e) => {
            if e.is_io_pending() {
                Ok(())
            } else {
                Err(e)
            }
        }
    }
}

/// The result of asking the operating system for the outcome of an
/// overlapped operation, where reaching the end of a file or of a pipe counts
/// as a transfer of zero bytes: `succeeded` and `bytes` are what the call
/// returned, `last_error` the thread's last error code after it.
pub open spec fn spec_overlapped_result(succeeded: bool, bytes: u32, last_error: u32) -> Result<OverlappedResult, Error> {
    if succeeded {
        Ok(OverlappedResult { bytes_transferred: bytes as usize })
    } else if last_error == ERROR_HANDLE_EOF || last_error == ERROR_BROKEN_PIPE {
        Ok(OverlappedResult { bytes_transferred: 0 })
    } else {
        Err(Error::Os(last_error as i32))
    }
}

/// Turn the outcome of the call that queries an overlapped operation into
/// its result, treating the end of a file or a broken pipe as an empty
/// transfer.
pub fn overlapped_result(succeeded: bool, bytes: u32, last_error: u32) -> (r: Result<OverlappedResult, Error>)
    ensures
        r == spec_overlapped_result(succeeded, bytes, last_error),
        succeeded ==> r == Ok::<OverlappedResult, Error>(OverlappedResult { bytes_transferred: bytes as usize }),
        !succeeded && (last_error == 38 || last_error == 109) ==> r == Ok::<OverlappedResult, Error>(OverlappedResult { bytes_transferred: 0 }),
        !succeeded && last_error != 38 && last_error != 109 ==> r == Err::<OverlappedResult, Error>(Error::Os(last_error as i32)),
{
    if succeeded {
        Ok(OverlappedResult { bytes_transferred: bytes as usize })
    } else if last_error == ERROR_HANDLE_EOF || last_error == ERROR_BROKEN_PIPE {
        Ok(OverlappedResult::empty())
    } else {
        Err(Error::Os(last_error as i32))
    }
}

/// Turn the outcome of the call that queries an overlapped operation into
/// its result, where every failure is an error.
pub fn strict_overlapped_result(succeeded: bool, bytes: u32, last_error: u32) -> (r: Result<OverlappedResult, Error>)
    ensures
        succeeded ==> r == Ok::<OverlappedResult, Error>(OverlappedResult { bytes_transferred: bytes as usize }),
        !succeeded ==> r == Err::<OverlappedResult, Error>(Error::Os(last_error as i32)),
{
    if succeeded {
        Ok(OverlappedResult { bytes_transferred: bytes as usize })
    } else {
        Err(Error::Os(last_error as i32))
    }
}

/// Whether a counting lock was acquired, given the count that the increment
/// which tried to acquire it observed: only the first holder gets it, and
/// every other attempt must undo its increment.
pub fn counting_lock_acquired(observed: isize) -> (r: bool)
    ensures
        r == (observed == 0),
{
    observed == 0
}

/// Whether a future returns its result now or waits to be woken.
#[derive(Debug, Clone, Copy, PartialEq, Eq, Structural)]
pub enum Progress {
    /// Return the result now.
    Ready,
    /// Return pending; the completion port wakes the task when the
    /// operation completes.
    Suspend,
}

/// What a future does with the result of starting an overlapped operation:
/// it waits for the completion only when the operating system reports the
/// operation as in progress, and returns any other result at once.
pub open spec fn spec_start_progress<T>(result: Result<T, Error>) -> Progress {
    match result {
        Err(e) => if is_io_pending(e) { Progress::Suspend } else { Progress::Ready },
        Ok(..) => Progress::Ready,
    }
}

/// Decide what a future does with the result of starting an overlapped
/// operation.
pub fn start_progress<T>(result: &Result<T, Error>) -> (r: Progress)
    ensures
        r == spec_start_progress(*result),
{
    match result {
        Err(e) => if e.is_io_pending() { Progress::Suspend } else { Progress::Ready },
        Ok(..) => Progress::Ready,
    }
}

/// The length that a read or write of `len` bytes submits to the operating
/// system, which takes 32-bit lengths: longer buffers are submitted in part,
/// up to `u32::MAX` bytes.
pub fn submit_len(len: usize) -> (r: u32)
    ensures
        r as int == (if len <= u32::MAX { len as int } else { u32::MAX as int }),
{
    if len <= 0xffff_ffffusize {
        len as u32
    } else {
        u32::MAX
    }
}

/// Submitting an operation succeeds when the submission completed at once
/// or the operating system reports it in progress with `ERROR_IO_PENDING`
/// (997), and gives back every other error unchanged.
pub proof fn lemma_handle_io_pending_cases<O>(result: Result<O, Error>)
    ensures
        ERROR_IO_PENDING == 997,
        result is Ok ==> spec_handle_io_pending(result) == Ok::<(), Error>(()),
        forall|e: Error| result == Err::<O, Error>(e) ==> {
            &&& (spec_handle_io_pending(result) is Ok <==> e == Error::Os(997))
            &&& (e != Error::Os(997) ==> spec_handle_io_pending(result) == Err::<(), Error>(e))
        },
{
}

/// The result of an overlapped operation: a successful query gives the
/// bytes it transferred; a failure with `ERROR_HANDLE_EOF` (38) or
/// `ERROR_BROKEN_PIPE` (109) is an empty transfer; any other failure, such as
/// a cancelled operation, is the error with its code.
pub proof fn lemma_overlapped_result_cases(succeeded: bool, bytes: u32, last_error: u32)
    ensures
        ERROR_HANDLE_EOF == 38,
        ERROR_BROKEN_PIPE == 109,
        succeeded ==> spec_overlapped_result(succeeded, bytes, last_error)
            == Ok::<OverlappedResult, Error>(OverlappedResult { bytes_transferred: bytes as usize }),
        !succeeded ==> (spec_overlapped_result(succeeded, bytes, last_error) is Ok
            <==> (last_error == 38 || last_error == 109)),
        !succeeded && (last_error == 38 || last_error == 109) ==> spec_overlapped_result(succeeded, bytes, last_error)
            == Ok::<OverlappedResult, Error>(OverlappedResult { bytes_transferred: 0 }),
        !succeeded && last_error != 38 && last_error != 109 ==> spec_overlapped_result(succeeded, bytes, last_error)
            == Err::<OverlappedResult, Error>(Error::Os(last_error as i32)),
{
}

} // verus!
