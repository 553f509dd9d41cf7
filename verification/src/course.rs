//! The course that a read or a seek through a window takes on a stream.
//!
//! Nothing here runs. A course follows the window's decisions step by step
//! against the answers of a modelled stream, in the order in which a caller
//! performs them on a real one.

use vstd::prelude::*;
use crate::poll::Polled;
use crate::seek::{SeekRequest, SeekStep};
use crate::stream::Stream;
use crate::read::ReadStep;
use crate::window::Window;

verus! {

impl Window {
    /// How many underlying seeks a read may still need after `step`.
    pub open spec fn pending_read_moves(step: ReadStep<()>) -> int {
        match step {
            ReadStep::Locate => 2,
            ReadStep::Seek(_) => 1,
            _ => 0,
        }
    }

    /// The course of a read from `step` on: the stream afterwards and what
    /// the read reports. A `Locate` step and a `Seek` step are performed on
    /// the stream and its answer decided upon; a `Read` step ends the course
    /// with the bytes that the stream then delivers.
    pub open spec fn read_from(self, stream: Stream, step: ReadStep<()>, capacity: usize) -> (
        Stream,
        Polled<Seq<u8>, ()>,
    )
        decreases Self::pending_read_moves(step),
    {
        match step {
            ReadStep::Locate => {
                let (asked, located) = stream.seek(SeekRequest::Current(0));
                self.read_from(asked, self.resume_read(located, capacity), capacity)
            },
            ReadStep::Seek(target) => {
                let (moved, answer) = stream.seek(SeekRequest::Start(target));
                self.read_from(moved, self.finish_read(answer, capacity), capacity)
            },
            ReadStep::Read(length) => {
                let (rest, bytes) = stream.read(length as int);
                (rest, Polled::Ready(bytes))
            },
            ReadStep::Pending => (stream, Polled::Pending),
            ReadStep::Fail(error) => (stream, Polled::Failed(error)),
        }
    }

    /// One read through the window into a buffer of `capacity` bytes.
    pub open spec fn read(self, stream: Stream, capacity: usize) -> (Stream, Polled<Seq<u8>, ()>) {
        self.read_from(stream, self.begin_read(), capacity)
    }

    /// Reading the window to completion with a buffer of `capacity` bytes:
    /// read follows read until one delivers nothing, and what they delivered
    /// is put together in order.
    pub open spec fn read_to_end(self, stream: Stream, capacity: usize) -> Seq<u8>
        decreases self.remaining(stream.position as int),
        when stream.wf()
        via Self::read_to_end_ends
    {
        let (rest, outcome) = self.read(stream, capacity);
        match outcome {
            Polled::Ready(bytes) => if bytes.len() == 0 {
                bytes
            } else {
                bytes + self.read_to_end(rest, capacity)
            },
            _ => Seq::empty(),
        }
    }

    #[via_fn]
    proof fn read_to_end_ends(self, stream: Stream, capacity: usize) {
        crate::laws::read_delivers(self, stream, capacity);
    }

    /// How many underlying seeks a seek through the window may still need
    /// after `step`.
    pub open spec fn pending_seek_moves(step: SeekStep<()>) -> int {
        match step {
            SeekStep::Locate(_) => 2,
            SeekStep::Seek(_) => 1,
            _ => 0,
        }
    }

    /// The course of a seek from `step` on: the stream afterwards and the
    /// step at which the seek ends. A `Locate` step and a `Seek` step are
    /// performed on the stream and its answer decided upon; any other step
    /// ends the course.
    pub open spec fn seek_from(self, stream: Stream, step: SeekStep<()>) -> (Stream, SeekStep<()>)
        decreases Self::pending_seek_moves(step),
    {
        match step {
            SeekStep::Locate(delta) => {
                let (asked, located) = stream.seek(SeekRequest::Current(0));
                self.seek_from(asked, self.resume_seek(delta, located))
            },
            SeekStep::Seek(absolute) => {
                let (moved, answer) = stream.seek(absolute);
                self.seek_from(moved, self.finish_seek(answer))
            },
            _ => (stream, step),
        }
    }

    /// One seek through the window, asked for in the window's coordinates.
    pub open spec fn seek(self, stream: Stream, request: SeekRequest) -> (Stream, SeekStep<()>) {
        self.seek_from(stream, self.begin_seek(request))
    }
}

} // verus!
