//! Verified core of an asynchronous I/O Completion Port driver for Windows.
//!
//! The crate holds the decisions that the driver makes around completion
//! ports: the pool of I/O buffers that an overlapped operation borrows, the
//! lock word that gives one operation at a time exclusive use of an
//! overlapped header, the pending-operation counter of a completion port, the
//! classification of dequeued completion statuses, the file offset that reads
//! and writes advance, and the state machines of the futures and of the
//! background thread that drive them.

pub mod background;
pub mod buf;
pub mod completion_port;
pub mod errors;
pub mod flags;
pub mod handle;
pub mod io;
pub mod ioctl;
pub mod ops;
pub mod pipe;
pub mod pool;
pub mod socket;
pub mod sys;
pub mod task;

pub use self::buf::Buf;
pub use self::completion_port::{
    CompletionOutcome, CompletionPoll, CompletionStatus, RegisterOptions, Shutdown,
};
pub use self::errors::Error;
pub use self::handle::Handle;
pub use self::io::{Code, OverlappedResult, OverlappedState};
pub use self::pipe::{CreatePipeOptions, PipeMode};
pub use self::pool::BufferPool;
pub use self::socket::Socket;
