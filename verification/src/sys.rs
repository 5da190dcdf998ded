use vstd::prelude::*;

verus! {

/// A raw handle, as the operating system identifies an I/O object.
#[derive(Debug, Clone, Copy, PartialEq, Eq, Structural)]
pub struct RawHandle(pub isize);

/// An I/O object that can lend out its raw handle.
pub trait AsRawHandle {
    /// The raw handle of the object.
    fn as_raw_handle(&self) -> RawHandle;
}

} // verus!
