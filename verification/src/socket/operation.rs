use vstd::prelude::*;

verus! {

/// The lock code for accepting connections.
pub const ACCEPT: u32 = 0x7f_ff_ff_11;

/// The size of the buffer that receives the addresses of an accepted
/// connection.
pub const ACCEPT_OUTPUT_BUFFER_SIZE: usize = 128;

/// The space reserved for each of the local and the remote address of an
/// accepted connection.
pub const ACCEPT_ADDRESS_LEN: usize = 16;

/// An operation that accepts a connection on a listening socket.
#[derive(Debug)]
pub struct Accept(());

impl Accept {
    /// Construct a new handler for a accept operations.
    pub fn new() -> Self {
        Self(())
    }
}

} // verus!
