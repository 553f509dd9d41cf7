//! What a window delivers over a stream that does as it is told.

use vstd::prelude::*;
use crate::poll::Polled;
use crate::seek::{SeekError, SeekRequest, SeekStep};
use crate::stream::Stream;
use crate::read::ReadStep;
use crate::window::Window;

verus! {

/// A stream that is asked where it stands answers with its position and
/// stays as it is.
pub proof fn locating_leaves_stream(stream: Stream)
    ensures
        stream.seek(SeekRequest::Current(0)) == (stream, Polled::<u64, ()>::Ready(stream.position)),
{
}

/// A read moves a stream at most once, and to a position from which it then
/// reads: the answer of a stream that does as it is told to a `Seek` step
/// lies in the window.
pub proof fn read_seeks_once<E>(window: Window, position: u64, capacity: usize)
    ensures
        window.resume_read(Polled::<u64, E>::Ready(position), capacity) matches ReadStep::Seek(
            target,
        ) ==> {
            &&& !window.holds(position as int)
            &&& window.holds(target as int)
            &&& window.finish_read(Polled::<u64, E>::Ready(target), capacity) == ReadStep::<
                E,
            >::Read(window.allowance(target as int, capacity as int) as usize)
        },
{
}

/// One read delivers the bytes from the position in the window nearest to
/// where the stream stood, as many as the buffer takes, the window still has
/// and the content holds, and leaves the stream just past them.
pub proof fn read_delivers(window: Window, stream: Stream, capacity: usize)
    requires
        stream.wf(),
    ensures
        ({
            let from = window.clamp(stream.position as int);
            let bytes = stream.bytes(from, from + window.allowance(from, capacity as int));
            window.read(stream, capacity) == (
                stream.at((from + bytes.len()) as u64),
                Polled::<Seq<u8>, ()>::Ready(bytes),
            )
        }),
{
    reveal_with_fuel(Window::read_from, 4);
}

/// A read that was cut short after it had moved the stream, and is started
/// again from the beginning, comes to what it would have come to at once.
pub proof fn read_can_start_again(window: Window, stream: Stream, capacity: usize)
    requires
        stream.wf(),
    ensures
        window.read(stream.at(window.clamp(stream.position as int) as u64), capacity)
            == window.read(stream, capacity),
{
    read_delivers(window, stream, capacity);
    read_delivers(window, stream.at(window.clamp(stream.position as int) as u64), capacity);
}

/// A read never reaches outside the window: what it delivers fits the
/// buffer, is no more than the window has left, and is a piece of the content
/// that lies between the window's first byte and its end. Afterwards the
/// stream stands in the window.
pub proof fn read_stays_in_window(window: Window, stream: Stream, capacity: usize)
    requires
        stream.wf(),
    ensures
        ({
            let from = window.clamp(stream.position as int);
            let (rest, outcome) = window.read(stream, capacity);
            &&& outcome matches Polled::Ready(bytes)
            &&& bytes.len() <= capacity
            &&& bytes.len() <= window.remaining(stream.position as int)
            &&& window.holds(rest.position as int)
            &&& bytes.len() > 0 ==> {
                &&& window.start <= from
                &&& from + bytes.len() <= window.end()
                &&& from + bytes.len() <= stream.content.len()
                &&& bytes == stream.content.subrange(from, from + bytes.len())
            }
        }),
{
    read_delivers(window, stream, capacity);
}

/// A read into a buffer that takes more than the window has left delivers
/// what is left, up to the window's end and not a byte past it.
pub proof fn read_ends_at_window_end(window: Window, stream: Stream, capacity: usize)
    requires
        stream.wf(),
        window.end() <= stream.content.len(),
        capacity >= window.remaining(stream.position as int),
    ensures
        window.read(stream, capacity) == (
            stream.at(window.end() as u64),
            Polled::<Seq<u8>, ()>::Ready(
                stream.content.subrange(window.clamp(stream.position as int), window.end()),
            ),
        ),
{
    read_delivers(window, stream, capacity);
}

/// A window of no bytes delivers no bytes, wherever it starts and wherever
/// the stream stands.
pub proof fn empty_window_reads_nothing(window: Window, stream: Stream, capacity: usize)
    requires
        stream.wf(),
        window.size == 0,
    ensures
        window.read(stream, capacity).1 == Polled::<Seq<u8>, ()>::Ready(Seq::empty()),
{
    read_delivers(window, stream, capacity);
    let from = window.clamp(stream.position as int);
    assert(stream.bytes(from, from) =~= Seq::empty());
}

/// What a seek through the window comes to, by the absolute position that the
/// request points at. A target before the window is turned down and the
/// stream stays where it was. A target that cannot be addressed fails
/// likewise: the window turns it down, or, asked relative to the current
/// position, the stream itself does. Any other target is where the stream
/// stands afterwards, be it past the window's end, and the seek reports it
/// counted from the window's first byte.
pub proof fn seek_outcome(window: Window, stream: Stream, request: SeekRequest)
    ensures
        ({
            let target = window.target(request, stream.position as int);
            window.seek(stream, request) == if target < window.start {
                (stream, SeekStep::<()>::Reject(SeekError::BeforeStart))
            } else if target > u64::MAX {
                if request is Current {
                    (stream, SeekStep::<()>::Fail(()))
                } else {
                    (stream, SeekStep::<()>::Reject(SeekError::BeyondRange))
                }
            } else {
                (stream.at(target as u64), SeekStep::<()>::Done((target - window.start) as u64))
            }
        }),
{
    reveal_with_fuel(Window::seek_from, 3);
}

/// A seek counted from the end to a position before the window's first byte
/// is turned down as invalid, and the stream stays where it was.
pub proof fn seek_from_end_before_start_is_rejected<E>(window: Window, stream: Stream, delta: i64)
    requires
        window.size + delta < 0,
    ensures
        window.begin_seek::<E>(SeekRequest::End(delta)) == SeekStep::<E>::Reject(
            SeekError::BeforeStart,
        ),
        window.seek(stream, SeekRequest::End(delta)) == (
            stream,
            SeekStep::<()>::Reject(SeekError::BeforeStart),
        ),
{
    seek_outcome(window, stream, SeekRequest::End(delta));
}

/// A seek counted from the current position to a position before the
/// window's first byte is turned down as invalid, and the stream stays where
/// it was.
pub proof fn seek_from_current_before_start_is_rejected<E>(
    window: Window,
    stream: Stream,
    delta: i64,
)
    requires
        stream.position + delta < window.start,
    ensures
        window.begin_seek::<E>(SeekRequest::Current(delta)) == SeekStep::<E>::Locate(delta),
        window.resume_seek(delta, Polled::<u64, E>::Ready(stream.position)) == SeekStep::<
            E,
        >::Reject(SeekError::BeforeStart),
        window.seek(stream, SeekRequest::Current(delta)) == (
            stream,
            SeekStep::<()>::Reject(SeekError::BeforeStart),
        ),
{
    seek_outcome(window, stream, SeekRequest::Current(delta));
}

/// After a seek past the window's end a read delivers nothing and leaves the
/// stream at the window's end.
pub proof fn read_after_seek_past_end_yields_nothing(
    window: Window,
    stream: Stream,
    request: SeekRequest,
    capacity: usize,
)
    requires
        stream.wf(),
        window.end() < window.target(request, stream.position as int) <= u64::MAX,
    ensures
        ({
            let target = window.target(request, stream.position as int);
            let (moved, step) = window.seek(stream, request);
            &&& step == SeekStep::<()>::Done((target - window.start) as u64)
            &&& moved == stream.at(target as u64)
            &&& window.read(moved, capacity) == (
                stream.at(window.end() as u64),
                Polled::<Seq<u8>, ()>::Ready(Seq::empty()),
            )
        }),
{
    seek_outcome(window, stream, request);
    read_delivers(window, stream.at(window.target(request, stream.position as int) as u64), capacity);
    assert(stream.bytes(window.end(), window.end()) =~= Seq::empty());
}

/// After a seek to a position inside the window, from wherever the stream
/// stood, a read delivers the content from that position on: as many bytes
/// as the buffer takes, and none past the window's end.
pub proof fn read_after_seek_inside_resumes(
    window: Window,
    stream: Stream,
    request: SeekRequest,
    capacity: usize,
)
    requires
        stream.wf(),
        window.end() <= stream.content.len(),
        window.holds(window.target(request, stream.position as int)),
    ensures
        ({
            let target = window.target(request, stream.position as int);
            let (moved, step) = window.seek(stream, request);
            let length = window.allowance(target, capacity as int);
            &&& step == SeekStep::<()>::Done((target - window.start) as u64)
            &&& window.read(moved, capacity) == (
                stream.at((target + length) as u64),
                Polled::<Seq<u8>, ()>::Ready(stream.content.subrange(target, target + length)),
            )
        }),
{
    seek_outcome(window, stream, request);
    read_delivers(window, stream.at(window.target(request, stream.position as int) as u64), capacity);
}

/// A window whose stream has made the initial seek stands at position 0.
pub proof fn opened_window_stands_at_zero(window: Window, stream: Stream)
    ensures
        ({
            let (opened, answer) = stream.seek(SeekRequest::Start(window.start));
            &&& answer == Polled::<u64, ()>::Ready(window.start)
            &&& window.seek(opened, SeekRequest::Current(0)) == (opened, SeekStep::<()>::Done(0))
        }),
{
    seek_outcome(window, stream.at(window.start), SeekRequest::Current(0));
}

/// Asking a window for its position changes nothing: the stream stays as it
/// is, and asking again gives the same answer.
pub proof fn position_query_is_idempotent(window: Window, stream: Stream)
    ensures
        ({
            let (first, once) = window.seek(stream, SeekRequest::Current(0));
            let (second, twice) = window.seek(first, SeekRequest::Current(0));
            &&& first == stream
            &&& second == stream
            &&& twice == once
            &&& stream.position >= window.start ==> once == SeekStep::<()>::Done(
                (stream.position - window.start) as u64,
            )
        }),
{
    seek_outcome(window, stream, SeekRequest::Current(0));
}

/// Reading to completion delivers the content from the position in the
/// window nearest to where the stream stood up to the window's end, as far as
/// the content reaches.
pub proof fn read_to_end_delivers(window: Window, stream: Stream, capacity: usize)
    requires
        stream.wf(),
        capacity > 0,
    ensures
        window.read_to_end(stream, capacity) == stream.bytes(
            window.clamp(stream.position as int),
            window.end(),
        ),
    decreases window.remaining(stream.position as int),
{
    read_delivers(window, stream, capacity);
    let (rest, outcome) = window.read(stream, capacity);
    let bytes = outcome->Ready_0;
    if bytes.len() > 0 {
        read_to_end_delivers(window, rest, capacity);
        assert(bytes + window.read_to_end(rest, capacity) =~= stream.bytes(
            window.clamp(stream.position as int),
            window.end(),
        ));
    } else {
        assert(bytes =~= stream.bytes(window.clamp(stream.position as int), window.end()));
    }
}

/// A window that lies within the content, read to completion from its first
/// byte, delivers exactly the content's bytes from `start` up to
/// `start + size`.
pub proof fn window_reads_as_its_bytes(window: Window, stream: Stream, capacity: usize)
    requires
        stream.wf(),
        window.end() <= stream.content.len(),
        capacity > 0,
    ensures
        ({
            let (opened, _) = stream.seek(SeekRequest::Start(window.start));
            window.read_to_end(opened, capacity) == stream.content.subrange(
                window.start as int,
                window.end(),
            )
        }),
{
    read_to_end_delivers(window, stream.at(window.start), capacity);
}

} // verus!
