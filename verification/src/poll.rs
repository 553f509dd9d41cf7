//! The answer of a non-blocking operation.

use vstd::prelude::*;

verus! {

/// What a non-blocking operation on the underlying stream answered.
#[derive(Debug, PartialEq, Eq)]
pub enum Polled<T, E> {
    /// The stream is not ready; the operation has to be tried again later.
    Pending,
    /// The operation failed with this error.
    Failed(E),
    /// The operation finished with this value.
    Ready(T),
}

} // verus!
