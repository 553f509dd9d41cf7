//! A window over a seekable byte stream.
//!
//! A window presents the bytes `[start, start + size)` of an underlying stream
//! as a stream of its own that begins at offset zero. This crate holds the
//! decisions of such a window and nothing that touches a stream: a caller asks
//! the window what to do next, performs that one operation on the stream it
//! owns, and hands the stream's answer back. The window keeps no position of
//! its own, so an operation that was suspended half way can be started again
//! from the beginning.
//!
//! # Driving a window
//!
//! * To open: perform [`AsyncReadWindow::initial_seek`] on the stream and make
//!   the window from the answer with [`AsyncReadWindow::new`].
//! * To read: start with [`AsyncReadWindow::begin_read`]. On
//!   [`ReadStep::Locate`] perform [`locate`] and go on with
//!   [`AsyncReadWindow::resume_read`]; on [`ReadStep::Seek`] perform that seek
//!   and go on with [`AsyncReadWindow::finish_read`]; on [`ReadStep::Read`]
//!   read into the front of the buffer and report what the stream reports.
//! * To seek: start with [`AsyncReadWindow::begin_seek`]. On
//!   [`SeekStep::Locate`] perform [`locate`] and go on with
//!   [`AsyncReadWindow::resume_seek`]; on [`SeekStep::Seek`] perform that seek
//!   and go on with [`AsyncReadWindow::finish_seek`]. Positions are reported
//!   from the window's first byte.
//!
//! Any other step is what the operation reports. A read asks at most two
//! seeks and one read of the stream, a seek at most two seeks.
//!
//! # Modules
//!
//! * [`poll`] — what an underlying operation answered.
//! * [`read`] — the steps of a read.
//! * [`seek`] — seek requests, and the steps of a seek.
//! * [`window`] — the window and its decisions.
//! * [`stream`] — a mathematical model of a stream that does as it is told.
//! * [`course`] — the steps of a read and of a seek, followed on such a stream.
//! * [`laws`] — what a window over such a stream delivers.

pub mod course;
pub mod laws;
pub mod poll;
pub mod read;
pub mod seek;
pub mod stream;
pub mod window;

pub use poll::Polled;
pub use read::ReadStep;
pub use seek::{locate, SeekError, SeekRequest, SeekStep};
pub use window::{AsyncReadWindow, Window};
