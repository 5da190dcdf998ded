use vstd::prelude::*;

verus! {

/// Reached the end of the file.
pub const ERROR_HANDLE_EOF: u32 = 38;

/// The pipe has been ended.
pub const ERROR_BROKEN_PIPE: u32 = 109;

/// The I/O operation has been aborted because of either a thread exit or an
/// application request.
pub const ERROR_OPERATION_ABORTED: u32 = 995;

/// Overlapped I/O operation is in progress.
pub const ERROR_IO_PENDING: u32 = 997;

/// The errors that the driver reports.
#[derive(Debug, Clone, Copy, PartialEq, Eq, Structural)]
pub enum Error {
    /// An error reported by the operating system, by its raw error code.
    Os(i32),
    /// The completion port is shutting down and hands out no more permits.
    ShuttingDown,
    /// A handle or socket was registered under a reserved completion key.
    ReservedPort,
    /// A completion status arrived for a reserved completion key.
    ReservedStatus,
    /// A future was polled again after it had completed.
    PolledAfterCompletion,
}

/// The raw operating system error code that an [Error] carries, if any.
pub open spec fn spec_raw_os_error(e: Error) -> Option<i32> {
    match e {
        Error::Os(code) => Some(code),
        _ => None,
    }
}

/// Whether the error is the operating system's report that an overlapped
/// operation was queued and is now in progress.
pub open spec fn is_io_pending(e: Error) -> bool {
    e == Error::Os(ERROR_IO_PENDING as i32)
}

impl Error {
    /// Construct an error from a raw operating system error code.
    pub fn from_raw_os_error(code: i32) -> (e: Error)
        ensures
            e == Error::Os(code),
    {
        Error::Os(code)
    }

    /// The raw operating system error code of this error, if it is one.
    pub fn raw_os_error(&self) -> (r: Option<i32>)
        ensures
            r == spec_raw_os_error(*self),
    {
        match self {
            Error::Os(code) => Some(*code),
            _ => None,
        }
    }

    /// Whether this error reports an overlapped operation in progress.
    pub fn is_io_pending(&self) -> (r: bool)
        ensures
            r == is_io_pending(*self),
    {
        match self {
            Error::Os(code) => *code == 997i32,
            _ => false,
        }
    }
}

} // verus!
