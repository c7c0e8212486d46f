//! The capability interface of a duplex stream: the errors and readiness
//! answers its operations report, and the two traits, one per direction, that
//! a stream implements so that the split halves can drive it.

use vstd::prelude::*;

verus! {

/// Failure reported by a stream operation or by a split half.
///
/// `WouldBlock` means no progress could be made right now and the call should
/// be retried later; the split halves also report it when the other half
/// currently holds the shared stream. `Other` carries a stream's own error
/// code, passed through unchanged.
#[derive(Clone, Copy, Debug, PartialEq, Eq, Structural)]
pub enum IoError {
    WouldBlock,
    Other(u64),
}

/// Answer of a readiness poll: the stream can make progress now, or the
/// caller should poll again later.
#[derive(Clone, Copy, Debug, PartialEq, Eq, Structural)]
pub enum Readiness {
    Ready,
    NotReady,
}

/// The distinguished contention error: no progress right now, retry later.
pub fn would_block() -> (e: IoError)
    ensures
        e == IoError::WouldBlock,
{
    IoError::WouldBlock
}

/// Read capability of a stream: a non-blocking source of bytes.
///
/// `readable()` is the implementor's model of the bytes it can hand out right
/// now, oldest first. A read never invents data: it hands out a prefix of
/// `readable()` and drops exactly that prefix from the stream, and a failed
/// read changes nothing, neither in the stream nor in the caller's buffer.
pub trait ReadStream: Sized {
    /// The bytes this stream can hand out right now, oldest first.
    spec fn readable(&self) -> Seq<u8>;

    /// Whether a read would make progress right now.
    spec fn read_ready(&self) -> bool;

    /// Non-blocking read into the front of `buf`, which keeps its length;
    /// returns how many bytes were placed there.
    fn read(&mut self, buf: &mut Vec<u8>) -> (r: Result<usize, IoError>)
        ensures
            final(buf)@.len() == old(buf)@.len(),
            match r {
                Ok(n) => {
                    &&& n <= old(buf)@.len()
                    &&& n <= old(self).readable().len()
                    &&& final(buf)@ == old(self).readable().take(n as int) + old(buf)@.skip(
                        n as int,
                    )
                    &&& final(self).readable() == old(self).readable().skip(n as int)
                },
                Err(_) => {
                    &&& final(buf)@ == old(buf)@
                    &&& final(self).readable() == old(self).readable()
                },
            },
    ;

    /// Non-blocking readiness poll for the read direction. `Ready` is never
    /// answered while the stream could not make progress.
    fn poll_read(&mut self) -> (r: Readiness)
        ensures
            final(self).readable() == old(self).readable(),
            final(self).read_ready() == old(self).read_ready(),
            r == Readiness::Ready ==> old(self).read_ready(),
    ;
}

/// Write capability of a stream: a non-blocking sink of bytes.
///
/// `accepted()` is the implementor's model of every byte it has taken so far,
/// oldest first. A write appends a prefix of the caller's bytes to
/// `accepted()` and nothing else; a failed write or a flush accepts nothing.
pub trait WriteStream: Sized {
    /// Every byte this stream has accepted so far, oldest first.
    spec fn accepted(&self) -> Seq<u8>;

    /// Whether a write would make progress right now.
    spec fn write_ready(&self) -> bool;

    /// Whether nothing accepted is still sitting in an internal buffer.
    spec fn flushed(&self) -> bool;

    /// Non-blocking write; returns how many of the bytes in `buf`, from the
    /// front, the stream accepted.
    fn write(&mut self, buf: &[u8]) -> (r: Result<usize, IoError>)
        ensures
            match r {
                Ok(n) => {
                    &&& n <= buf@.len()
                    &&& final(self).accepted() == old(self).accepted() + buf@.take(n as int)
                },
                Err(_) => final(self).accepted() == old(self).accepted(),
            },
    ;

    /// Non-blocking flush of whatever the stream holds in internal buffers;
    /// accepts no new bytes.
    fn flush(&mut self) -> (r: Result<(), IoError>)
        ensures
            final(self).accepted() == old(self).accepted(),
            r == Ok::<(), IoError>(()) ==> final(self).flushed(),
    ;

    /// Non-blocking readiness poll for the write direction. `Ready` is never
    /// answered while the stream could not make progress.
    fn poll_write(&mut self) -> (r: Readiness)
        ensures
            final(self).accepted() == old(self).accepted(),
            final(self).write_ready() == old(self).write_ready(),
            r == Readiness::Ready ==> old(self).write_ready(),
    ;
}

} // verus!
