//! The steps of a read through a window.

use vstd::prelude::*;

verus! {

/// What to do next in a read through a window.
#[derive(Debug, PartialEq, Eq)]
pub enum ReadStep<E> {
    /// Ask the underlying stream where it stands, with a seek by zero bytes
    /// from its current position, and resume the read with the answer.
    Locate,
    /// Move the underlying stream to this absolute position and finish the
    /// read with the answer.
    Seek(u64),
    /// Read from the underlying stream into the first so many bytes of the
    /// caller's buffer, and report whatever that read reports.
    Read(usize),
    /// Report that the stream is not ready. A later attempt starts the read
    /// from the beginning.
    Pending,
    /// Report the error the underlying stream gave, as it is.
    Fail(E),
}

} // verus!
