//! Seek requests and the steps of a seek through a window.

use vstd::prelude::*;

verus! {

/// Where a seek should go: counted from the first byte, from the end, or from
/// the position the stream stands at.
///
/// A request made of a window counts in the window's coordinates, where 0 is
/// the window's first byte and its end lies at the window's size. A request
/// made of the underlying stream counts in absolute coordinates.
#[derive(Debug, Clone, Copy, PartialEq, Eq)]
pub enum SeekRequest {
    /// This many bytes after the first byte.
    Start(u64),
    /// This many bytes after the end; negative deltas point before it.
    End(i64),
    /// This many bytes after the current position; negative deltas point
    /// before it.
    Current(i64),
}

/// Why a window turns a seek down. Either way the caller is owed an
/// invalid-input error.
#[derive(Debug, Clone, Copy, PartialEq, Eq)]
pub enum SeekError {
    /// The position lies before the window's first byte.
    BeforeStart,
    /// The position lies past what a 64-bit absolute offset can address.
    BeyondRange,
}

impl SeekError {
    /// The words that say what was wrong with the seek.
    pub open spec fn words(self) -> Seq<char> {
        match self {
            SeekError::BeforeStart => "seek before start of window"@,
            SeekError::BeyondRange => "seek beyond the last offset of the stream"@,
        }
    }

    /// The message of the invalid-input error that is owed for this seek.
    pub fn message(&self) -> (text: &'static str)
        ensures
            text@ == self.words(),
    {
        match self {
            SeekError::BeforeStart => "seek before start of window",
            SeekError::BeyondRange => "seek beyond the last offset of the stream",
        }
    }
}

/// What to do next in a seek through a window.
#[derive(Debug, PartialEq, Eq)]
pub enum SeekStep<E> {
    /// Ask the underlying stream where it stands, with a seek by zero bytes
    /// from its current position, and resume the seek by this delta with the
    /// answer.
    Locate(i64),
    /// Issue this seek, in absolute coordinates, on the underlying stream and
    /// finish the seek with the answer.
    Seek(SeekRequest),
    /// Report that the stream is not ready. A later attempt starts the seek
    /// from the beginning.
    Pending,
    /// Report an invalid-input error. Nothing more is asked of the stream.
    Reject(SeekError),
    /// Report the error the underlying stream gave, as it is.
    Fail(E),
    /// The seek is done: report this position, counted from the window's
    /// first byte.
    Done(u64),
}

/// The seek by zero bytes that makes a stream tell where it stands.
pub fn locate() -> (request: SeekRequest)
    ensures
        request == SeekRequest::Current(0),
{
    SeekRequest::Current(0)
}

} // verus!
