use vstd::prelude::*;

verus! {

/// Marks the messages that this crate defines as I/O control operations.
pub trait Sealed {}

} // verus!
