//! The split adapter: a read half and a write half over one duplex stream.
//!
//! Each half embeds one handle of a shared exclusive cell that keeps the
//! stream. Every operation tries exactly once, without waiting, to take the
//! stream out of the cell; on success it delegates to the stream through its
//! capability trait and puts the stream straight back, and on contention it
//! reports the would-block error (or `NotReady`, for the readiness polls)
//! instead of blocking. Nothing is retried, buffered, logged or swallowed:
//! whatever the stream answers is handed through unchanged. The two halves
//! live independently; dropping one leaves the other working until it too is
//! gone, at which point the cell releases the stream.

use crate::cell::SharedCell;
use crate::stream::IoError;
use crate::stream::ReadStream;
use crate::stream::Readiness;
use crate::stream::WriteStream;
use crate::stream::would_block;
use vstd::prelude::*;

verus! {

/// The readable half of a split duplex stream. It only ever invokes the
/// stream's read capability.
#[verifier::reject_recursive_types(T)]
pub struct ReadHalf<T> {
    handle: SharedCell<T>,
}

/// The writable half of a split duplex stream. It only ever invokes the
/// stream's write capability.
#[verifier::reject_recursive_types(T)]
pub struct WriteHalf<T> {
    handle: SharedCell<T>,
}

impl<T> ReadHalf<T> {
    /// The cell handle this half drives the stream through.
    pub closed spec fn backing_cell(&self) -> SharedCell<T> {
        self.handle
    }
}

impl<T> WriteHalf<T> {
    /// The cell handle this half drives the stream through.
    pub closed spec fn backing_cell(&self) -> SharedCell<T> {
        self.handle
    }
}

/// Moves a duplex stream into a fresh shared exclusive cell and returns the
/// two halves backed by that one cell, which now owns the stream. Infallible;
/// the stream is untouched. Both halves go through the same cell, so at most
/// one of them can be driving the stream at any instant.
pub fn split<T: ReadStream + WriteStream>(stream: T) -> (halves: (ReadHalf<T>, WriteHalf<T>))
    ensures
        halves.0.backing_cell() == halves.1.backing_cell(),
{
    let (first, second) = SharedCell::new(stream);
    (ReadHalf { handle: first }, WriteHalf { handle: second })
}

impl<T: ReadStream> ReadHalf<T> {
    /// Wraps one cell handle as a read half.
    pub fn new(handle: SharedCell<T>) -> (half: ReadHalf<T>)
        ensures
            half.backing_cell() == handle,
    {
        ReadHalf { handle }
    }

    /// Non-blocking read into the front of `buf`, which keeps its length.
    ///
    /// When the stream is available it is read exactly once and its answer is
    /// returned unchanged: `Ok(n)` says the first `n` bytes of `buf` were
    /// overwritten with what the stream handed out, the rest untouched. When
    /// the write half holds the stream, the would-block error comes back and
    /// nothing — in particular not `buf` — has changed. No failure ever loses
    /// data.
    pub fn try_read(&mut self, buf: &mut Vec<u8>) -> (r: Result<usize, IoError>)
        ensures
            *final(self) == *old(self),
            final(buf)@.len() == old(buf)@.len(),
            match r {
                Ok(n) => {
                    &&& n <= old(buf)@.len()
                    &&& final(buf)@.skip(n as int) == old(buf)@.skip(n as int)
                },
                Err(_) => final(buf)@ == old(buf)@,
            },
    {
        match self.handle.try_take() {
            None => Err(would_block()),
            Some(mut stream) => {
                let r = stream.read(buf);
                self.handle.store(stream);
                proof {
                    if let Ok(n) = r {
                        assert(buf@.skip(n as int) =~= old(buf)@.skip(n as int));
                    }
                }
                r
            },
        }
    }

    /// Non-blocking readiness poll for the read direction: the stream's own
    /// answer when it is available, and conservatively `NotReady` when the
    /// write half holds it, since the caller cannot tell contention from an
    /// unready stream without retrying anyway.
    pub fn poll_readable(&mut self) -> (r: Readiness)
        ensures
            *final(self) == *old(self),
    {
        match self.handle.try_take() {
            None => Readiness::NotReady,
            Some(mut stream) => {
                let r = stream.poll_read();
                self.handle.store(stream);
                r
            },
        }
    }
}

impl<T: WriteStream> WriteHalf<T> {
    /// Wraps one cell handle as a write half.
    pub fn new(handle: SharedCell<T>) -> (half: WriteHalf<T>)
        ensures
            half.backing_cell() == handle,
    {
        WriteHalf { handle }
    }

    /// Non-blocking write of the bytes in `buf`.
    ///
    /// When the stream is available it is written exactly once and its answer
    /// is returned unchanged: `Ok(n)` says the stream accepted the first `n`
    /// bytes. When the read half holds the stream, the would-block error
    /// comes back and the stream has accepted nothing.
    pub fn try_write(&mut self, buf: &[u8]) -> (r: Result<usize, IoError>)
        ensures
            *final(self) == *old(self),
            r matches Ok(n) ==> n <= buf@.len(),
    {
        match self.handle.try_take() {
            None => Err(would_block()),
            Some(mut stream) => {
                let r = stream.write(buf);
                self.handle.store(stream);
                r
            },
        }
    }

    /// Non-blocking flush: the stream's own answer when it is available, and
    /// the would-block error when the read half holds it. Accepts no bytes
    /// either way.
    pub fn try_flush(&mut self) -> (r: Result<(), IoError>)
        ensures
            *final(self) == *old(self),
    {
        match self.handle.try_take() {
            None => Err(would_block()),
            Some(mut stream) => {
                let r = stream.flush();
                self.handle.store(stream);
                r
            },
        }
    }

    /// Non-blocking readiness poll for the write direction: the stream's own
    /// answer when it is available, and conservatively `NotReady` when the
    /// read half holds it.
    pub fn poll_writable(&mut self) -> (r: Readiness)
        ensures
            *final(self) == *old(self),
    {
        match self.handle.try_take() {
            None => Readiness::NotReady,
            Some(mut stream) => {
                let r = stream.poll_write();
                self.handle.store(stream);
                r
            },
        }
    }
}

} // verus!
