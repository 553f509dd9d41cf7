//! A model of a stream that does as it is told.
//!
//! Nothing here runs. The model says how a stream held in memory answers a
//! seek and a read, so that contracts can say what a window delivers when the
//! stream under it keeps to that.

use vstd::prelude::*;
use crate::poll::Polled;
use crate::seek::SeekRequest;

verus! {

/// A stream of bytes held in memory, with the position at which it stands.
pub struct Stream {
    pub content: Seq<u8>,
    pub position: u64,
}

impl Stream {
    /// Every byte of the stream can be addressed by a 64-bit offset.
    pub open spec fn wf(self) -> bool {
        self.content.len() <= u64::MAX
    }

    /// The same stream, standing at `position`.
    pub open spec fn at(self, position: u64) -> Stream {
        Stream { content: self.content, position }
    }

    /// The absolute position that `request` points at.
    pub open spec fn target(self, request: SeekRequest) -> int {
        match request {
            SeekRequest::Start(offset) => offset as int,
            SeekRequest::End(delta) => self.content.len() + delta,
            SeekRequest::Current(delta) => self.position + delta,
        }
    }

    /// A seek: the stream afterwards and its answer. The stream moves to the
    /// target, be it past its end, and answers with it. A target that is
    /// negative or too large to address fails and leaves the stream where it
    /// was.
    pub open spec fn seek(self, request: SeekRequest) -> (Stream, Polled<u64, ()>) {
        let target = self.target(request);
        if 0 <= target <= u64::MAX {
            (self.at(target as u64), Polled::Ready(target as u64))
        } else {
            (self, Polled::Failed(()))
        }
    }

    /// The bytes of the content from `from` up to `to`, as far as the content
    /// reaches.
    pub open spec fn bytes(self, from: int, to: int) -> Seq<u8>
        recommends
            0 <= from <= to,
    {
        let len = self.content.len() as int;
        self.content.subrange(vstd::math::min(from, len), vstd::math::min(to, len))
    }

    /// A read into a buffer of `capacity` bytes: the stream afterwards and the
    /// bytes delivered. These are the bytes from the position on, as many as
    /// the buffer takes and the content has, and the stream moves past them.
    pub open spec fn read(self, capacity: int) -> (Stream, Seq<u8>)
        recommends
            0 <= capacity,
    {
        let bytes = self.bytes(self.position as int, self.position + capacity);
        (self.at((self.position + bytes.len()) as u64), bytes)
    }
}

} // verus!
