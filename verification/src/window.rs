//! The window and its decisions.

use vstd::prelude::*;
use crate::poll::Polled;
use crate::read::ReadStep;
use crate::seek::{SeekError, SeekRequest, SeekStep};

verus! {

/// The extent of a window, as contracts see it: the bytes from `start` up to,
/// and not including, `start + size` of the underlying stream.
///
/// All positions here are absolute, and sums are taken over the integers, so
/// the end of a window may lie past the last offset a stream can address.
pub struct Window {
    pub start: u64,
    pub size: u64,
}

impl Window {
    /// The absolute position just past the window's last byte.
    pub open spec fn end(self) -> int {
        self.start + self.size
    }

    /// Whether an absolute position lies in the window. The end counts as
    /// inside: a stream there has read the window to completion.
    pub open spec fn holds(self, position: int) -> bool {
        self.start <= position <= self.end()
    }

    /// The position in the window that is nearest to `position`.
    pub open spec fn clamp(self, position: int) -> int {
        if position < self.start {
            self.start as int
        } else if position > self.end() {
            self.end()
        } else {
            position
        }
    }

    /// How many bytes of the window lie at or after `position`.
    pub open spec fn remaining(self, position: int) -> int {
        self.end() - self.clamp(position)
    }

    /// How many bytes one read may deliver into a buffer of `capacity` bytes
    /// when the stream stands at `position`: as many as the buffer takes and
    /// the window has left, and none where the stream stands outside the
    /// window.
    pub open spec fn allowance(self, position: int, capacity: int) -> int {
        if self.holds(position) {
            vstd::math::min(capacity, self.remaining(position))
        } else {
            0
        }
    }

    /// The first decision of a read: to ask the stream where it stands.
    pub open spec fn begin_read<E>(self) -> ReadStep<E> {
        ReadStep::Locate
    }

    /// The decision of a read, given what the stream answered when asked
    /// where it stands.
    ///
    /// A stream in the window is read, up to the window's end. A stream
    /// outside is first moved to the nearest position in the window.
    pub open spec fn resume_read<E>(self, located: Polled<u64, E>, capacity: usize) -> ReadStep<E> {
        match located {
            Polled::Pending => ReadStep::Pending,
            Polled::Failed(error) => ReadStep::Fail(error),
            Polled::Ready(position) => if self.holds(position as int) {
                ReadStep::Read(self.allowance(position as int, capacity as int) as usize)
            } else {
                ReadStep::Seek(self.clamp(position as int) as u64)
            },
        }
    }

    /// The last decision of a read, given what the stream answered to the
    /// seek that moved it into the window.
    ///
    /// The stream is read from where it says it stands, up to the window's
    /// end. It is not moved again: from a stream that says it still stands
    /// outside the window, a read of no bytes is asked.
    pub open spec fn finish_read<E>(self, moved: Polled<u64, E>, capacity: usize) -> ReadStep<E> {
        match moved {
            Polled::Pending => ReadStep::Pending,
            Polled::Failed(error) => ReadStep::Fail(error),
            Polled::Ready(position) => ReadStep::Read(
                self.allowance(position as int, capacity as int) as usize,
            ),
        }
    }

    /// The absolute position that `request`, made in the window's coordinates,
    /// points at while the stream stands at the absolute `position`.
    pub open spec fn target(self, request: SeekRequest, position: int) -> int {
        match request {
            SeekRequest::Start(offset) => self.start + offset,
            SeekRequest::End(delta) => self.end() + delta,
            SeekRequest::Current(delta) => position + delta,
        }
    }

    /// The first decision of a seek.
    ///
    /// A request counted from the current position needs that position first.
    /// The others have their target at once: it is turned down where it lies
    /// before the window or cannot be addressed, and sought otherwise.
    pub open spec fn begin_seek<E>(self, request: SeekRequest) -> SeekStep<E> {
        match request {
            SeekRequest::Current(delta) => SeekStep::Locate(delta),
            _ => {
                let target = self.target(request, 0);
                if target < self.start {
                    SeekStep::Reject(SeekError::BeforeStart)
                } else if target > u64::MAX {
                    SeekStep::Reject(SeekError::BeyondRange)
                } else {
                    SeekStep::Seek(SeekRequest::Start(target as u64))
                }
            },
        }
    }

    /// The decision of a seek by `delta` from the current position, given what
    /// the stream answered when asked where it stands.
    ///
    /// A target before the window is turned down. Any other is left to the
    /// stream as the relative seek it was.
    pub open spec fn resume_seek<E>(self, delta: i64, located: Polled<u64, E>) -> SeekStep<E> {
        match located {
            Polled::Pending => SeekStep::Pending,
            Polled::Failed(error) => SeekStep::Fail(error),
            Polled::Ready(position) => if position + delta < self.start {
                SeekStep::Reject(SeekError::BeforeStart)
            } else {
                SeekStep::Seek(SeekRequest::Current(delta))
            },
        }
    }

    /// The last decision of a seek, given what the stream answered to the
    /// seek it was sent on: the position reached, counted from the window's
    /// first byte.
    ///
    /// A position before the window's first byte cannot be counted from it
    /// and is turned down. A stream that does as it is told never answers
    /// with one, since no seek before the window is ever asked of it.
    pub open spec fn finish_seek<E>(self, moved: Polled<u64, E>) -> SeekStep<E> {
        match moved {
            Polled::Pending => SeekStep::Pending,
            Polled::Failed(error) => SeekStep::Fail(error),
            Polled::Ready(position) => if position < self.start {
                SeekStep::Reject(SeekError::BeforeStart)
            } else {
                SeekStep::Done((position - self.start) as u64)
            },
        }
    }
}

/// A window over the bytes `[start, start + size)` of an underlying stream.
///
/// The window holds its extent and keeps no position: where the stream stands
/// is asked of the stream each time.
#[derive(Debug, Clone, Copy, PartialEq, Eq)]
pub struct AsyncReadWindow {
    start: u64,
    size: u64,
}

impl View for AsyncReadWindow {
    type V = Window;

    closed spec fn view(&self) -> Window {
        Window { start: self.start, size: self.size }
    }
}

impl AsyncReadWindow {
    /// The seek, in absolute coordinates, that puts a stream at the first
    /// byte of a window that starts at `start`. A window is made from the
    /// stream's answer to it.
    pub fn initial_seek(start: u64) -> (request: SeekRequest)
        ensures
            request == SeekRequest::Start(start),
    {
        SeekRequest::Start(start)
    }

    /// A window of `size` bytes whose first byte is byte `start` of the
    /// underlying stream, given what the stream answered to the initial seek.
    ///
    /// There is a window exactly if that seek succeeded; if it failed, the
    /// stream's error is handed back as it is.
    pub fn new<E>(start: u64, size: u64, sought: Result<u64, E>) -> (opened: Result<Self, E>)
        ensures
            match sought {
                Ok(_) => opened matches Ok(window) && window@ == (Window { start, size }),
                Err(error) => opened == Err::<Self, E>(error),
            },
    {
        match sought {
            Ok(_) => Ok(AsyncReadWindow { start, size }),
            Err(error) => Err(error),
        }
    }

    /// The absolute offset of the window's first byte.
    pub fn start(&self) -> (start: u64)
        ensures
            start == self@.start,
    {
        self.start
    }

    /// The length of the window in bytes.
    pub fn size(&self) -> (size: u64)
        ensures
            size == self@.size,
    {
        self.size
    }

    /// How many bytes one read may deliver into a buffer of `capacity` bytes
    /// when the stream stands at `position`.
    fn allowance(&self, position: u64, capacity: usize) -> (length: usize)
        ensures
            length == self@.allowance(position as int, capacity as int),
    {
        if position < self.start || position - self.start > self.size {
            0
        } else {
            let remaining: u64 = self.size - (position - self.start);
            if remaining < capacity as u64 {
                remaining as usize
            } else {
                capacity
            }
        }
    }

    /// Decides the first step of a read: the stream is asked where it stands.
    pub fn begin_read<E>(&self) -> (step: ReadStep<E>)
        ensures
            step == self@.begin_read::<E>(),
            step is Locate,
    {
        ReadStep::Locate
    }

    /// Decides how a read into a buffer of `capacity` bytes goes on, once the
    /// underlying stream has answered where it stands.
    ///
    /// A `Read` step never asks for more than the buffer takes, nor for bytes
    /// past the window's end.
    pub fn resume_read<E>(&self, located: Polled<u64, E>, capacity: usize) -> (step: ReadStep<E>)
        ensures
            step == self@.resume_read(located, capacity),
            step !is Locate,
            step matches ReadStep::Read(length) ==> {
                &&& located matches Polled::Ready(position)
                &&& length <= capacity
                &&& position + length <= self@.end()
            },
    {
        match located {
            Polled::Pending => ReadStep::Pending,
            Polled::Failed(error) => ReadStep::Fail(error),
            Polled::Ready(position) => {
                if position < self.start {
                    ReadStep::Seek(self.start)
                } else if position - self.start > self.size {
                    ReadStep::Seek(self.start + self.size)
                } else {
                    ReadStep::Read(self.allowance(position, capacity))
                }
            },
        }
    }

    /// Decides how a read into a buffer of `capacity` bytes ends, once the
    /// underlying stream has answered the seek that moved it into the window.
    ///
    /// No further seek is asked for. A `Read` step never asks for more than
    /// the buffer takes, nor for bytes outside the window.
    pub fn finish_read<E>(&self, moved: Polled<u64, E>, capacity: usize) -> (step: ReadStep<E>)
        ensures
            step == self@.finish_read(moved, capacity),
            step !is Locate,
            step !is Seek,
            step matches ReadStep::Read(length) ==> {
                &&& moved matches Polled::Ready(position)
                &&& length <= capacity
                &&& length > 0 ==> self@.start <= position && position + length <= self@.end()
            },
    {
        match moved {
            Polled::Pending => ReadStep::Pending,
            Polled::Failed(error) => ReadStep::Fail(error),
            Polled::Ready(position) => ReadStep::Read(self.allowance(position, capacity)),
        }
    }

    /// Decides the first step of the seek that `request` asks for in the
    /// window's coordinates.
    ///
    /// A request that is turned down here has asked nothing of the stream.
    pub fn begin_seek<E>(&self, request: SeekRequest) -> (step: SeekStep<E>)
        ensures
            step == self@.begin_seek::<E>(request),
            step is Locate || step is Seek || step is Reject,
    {
        match request {
            SeekRequest::Start(offset) => {
                if offset > u64::MAX - self.start {
                    SeekStep::Reject(SeekError::BeyondRange)
                } else {
                    SeekStep::Seek(SeekRequest::Start(self.start + offset))
                }
            },
            SeekRequest::End(delta) => {
                let target: i128 = self.start as i128 + self.size as i128 + delta as i128;
                if target < self.start as i128 {
                    SeekStep::Reject(SeekError::BeforeStart)
                } else if target > u64::MAX as i128 {
                    SeekStep::Reject(SeekError::BeyondRange)
                } else {
                    SeekStep::Seek(SeekRequest::Start(target as u64))
                }
            },
            SeekRequest::Current(delta) => SeekStep::Locate(delta),
        }
    }

    /// Decides how a seek by `delta` from the current position goes on, once
    /// the underlying stream has answered where it stands.
    ///
    /// A request that is turned down here has not moved the stream.
    pub fn resume_seek<E>(&self, delta: i64, located: Polled<u64, E>) -> (step: SeekStep<E>)
        ensures
            step == self@.resume_seek(delta, located),
            step !is Locate,
            step !is Done,
    {
        match located {
            Polled::Pending => SeekStep::Pending,
            Polled::Failed(error) => SeekStep::Fail(error),
            Polled::Ready(position) => {
                if position as i128 + (delta as i128) < self.start as i128 {
                    SeekStep::Reject(SeekError::BeforeStart)
                } else {
                    SeekStep::Seek(SeekRequest::Current(delta))
                }
            },
        }
    }

    /// Decides how a seek ends, once the underlying stream has answered the
    /// seek it was sent on.
    ///
    /// Nothing more is asked of the stream.
    pub fn finish_seek<E>(&self, moved: Polled<u64, E>) -> (step: SeekStep<E>)
        ensures
            step == self@.finish_seek(moved),
            step !is Locate,
            step !is Seek,
    {
        match moved {
            Polled::Pending => SeekStep::Pending,
            Polled::Failed(error) => SeekStep::Fail(error),
            Polled::Ready(position) => {
                if position < self.start {
                    SeekStep::Reject(SeekError::BeforeStart)
                } else {
                    SeekStep::Done(position - self.start)
                }
            },
        }
    }
}

} // verus!
