//! A simple in-memory duplex stream: what is written to it is what is later
//! read from it, oldest byte first, with a fixed bound on how much may be
//! pending at once. It is the loopback stream that the split halves are
//! typically tried out on, and it implements both capability traits exactly.

use crate::stream::IoError;
use crate::stream::ReadStream;
use crate::stream::Readiness;
use crate::stream::WriteStream;
use crate::stream::would_block;
use vstd::math::min;
use vstd::prelude::*;

verus! {

/// An in-memory duplex byte queue with a capacity.
///
/// Writes append to the back of the pending bytes, reads take from the front,
/// and at most `capacity()` bytes are pending at once. A full queue turns
/// writes away with the would-block error, an empty one turns reads away the
/// same way, and both answers invite the caller to retry once the other
/// direction has made progress.
pub struct DuplexBuffer {
    /// Bytes accepted and not yet read back out, oldest first.
    pending: Vec<u8>,
    /// Bytes already read back out, oldest first; the read side's history.
    consumed: Ghost<Seq<u8>>,
    /// The most bytes that may be pending at once.
    cap: usize,
}

impl DuplexBuffer {
    /// The bytes that can be read right now, oldest first.
    pub closed spec fn buffered(&self) -> Seq<u8> {
        self.pending@
    }

    /// Every byte the queue ever accepted, oldest first.
    pub closed spec fn history(&self) -> Seq<u8> {
        self.consumed@ + self.pending@
    }

    /// The most bytes that may be pending at once.
    pub closed spec fn capacity(&self) -> usize {
        self.cap
    }

    /// How many more bytes a write could accept right now.
    pub open spec fn space(&self) -> int {
        if self.buffered().len() <= self.capacity() {
            self.capacity() - self.buffered().len()
        } else {
            0
        }
    }

    /// An empty queue that will hold at most `cap` pending bytes.
    pub fn new(cap: usize) -> (q: DuplexBuffer)
        ensures
            q.buffered() == Seq::<u8>::empty(),
            q.history() == Seq::<u8>::empty(),
            q.capacity() == cap,
    {
        let q = DuplexBuffer { pending: Vec::new(), consumed: Ghost(Seq::empty()), cap };
        proof {
            assert(q.history() =~= Seq::<u8>::empty());
        }
        q
    }

    /// Takes up to `buf.len()` bytes off the front of the queue into the
    /// front of `buf`, which keeps its length. `Ok(n)` with the largest `n`
    /// the queue and `buf` allow; the would-block error exactly when `buf`
    /// wants bytes and none are pending, and then nothing changes.
    pub fn read(&mut self, buf: &mut Vec<u8>) -> (r: Result<usize, IoError>)
        ensures
            final(buf)@.len() == old(buf)@.len(),
            final(self).capacity() == old(self).capacity(),
            final(self).history() == old(self).history(),
            match r {
                Ok(n) => {
                    &&& (old(buf)@.len() == 0 || old(self).buffered().len() > 0)
                    &&& n == min(old(buf)@.len() as int, old(self).buffered().len() as int)
                    &&& final(buf)@ == old(self).buffered().take(n as int) + old(buf)@.skip(
                        n as int,
                    )
                    &&& final(self).buffered() == old(self).buffered().skip(n as int)
                },
                Err(e) => {
                    &&& e == IoError::WouldBlock
                    &&& old(buf)@.len() > 0
                    &&& old(self).buffered().len() == 0
                    &&& final(buf)@ == old(buf)@
                    &&& *final(self) == *old(self)
                },
            },
    {
        if buf.len() == 0 {
            proof {
                assert(buf@ =~= old(self).buffered().take(0) + old(buf)@.skip(0));
                assert(self.buffered() =~= old(self).buffered().skip(0));
            }
            return Ok(0);
        }
        if self.pending.len() == 0 {
            return Err(would_block());
        }
        let n = if buf.len() < self.pending.len() {
            buf.len()
        } else {
            self.pending.len()
        };
        let mut i: usize = 0;
        while i < n
            invariant
                i <= n,
                n <= old(buf)@.len(),
                n <= self.pending@.len(),
                self == old(self),
                buf@.len() == old(buf)@.len(),
                forall|j: int| 0 <= j < i ==> buf@[j] == self.pending@[j],
                forall|j: int| i <= j < buf@.len() ==> buf@[j] == old(buf)@[j],
            decreases n - i,
        {
            buf[i] = self.pending[i];
            i += 1;
        }
        let rest = self.pending.split_off(n);
        proof {
            self.consumed@ = self.consumed@ + self.pending@;
        }
        self.pending = rest;
        proof {
            assert(buf@ =~= old(self).buffered().take(n as int) + old(buf)@.skip(n as int));
            assert(self.history() =~= old(self).history());
        }
        Ok(n)
    }

    /// Appends up to `space()` of the bytes in `buf` to the back of the
    /// queue. `Ok(n)` with the largest `n` the queue and `buf` allow; the
    /// would-block error exactly when `buf` has bytes and no space is left,
    /// and then nothing changes.
    pub fn write(&mut self, buf: &[u8]) -> (r: Result<usize, IoError>)
        ensures
            final(self).capacity() == old(self).capacity(),
            match r {
                Ok(n) => {
                    &&& (buf@.len() == 0 || old(self).space() > 0)
                    &&& n == min(buf@.len() as int, old(self).space())
                    &&& final(self).buffered() == old(self).buffered() + buf@.take(n as int)
                    &&& final(self).history() == old(self).history() + buf@.take(n as int)
                },
                Err(e) => {
                    &&& e == IoError::WouldBlock
                    &&& buf@.len() > 0
                    &&& old(self).space() == 0
                    &&& *final(self) == *old(self)
                },
            },
    {
        let space = if self.pending.len() >= self.cap {
            0
        } else {
            self.cap - self.pending.len()
        };
        if buf.len() == 0 {
            proof {
                assert(self.buffered() =~= old(self).buffered() + buf@.take(0));
                assert(self.history() =~= old(self).history() + buf@.take(0));
            }
            return Ok(0);
        }
        if space == 0 {
            return Err(would_block());
        }
        let n = if buf.len() < space {
            buf.len()
        } else {
            space
        };
        let mut i: usize = 0;
        while i < n
            invariant
                i <= n,
                n <= buf@.len(),
                self.pending@ == old(self).pending@ + buf@.take(i as int),
                self.consumed == old(self).consumed,
                self.cap == old(self).cap,
            decreases n - i,
        {
            let b = buf[i];
            self.pending.push(b);
            proof {
                assert(self.pending@ =~= old(self).pending@ + buf@.take(i + 1));
            }
            i += 1;
        }
        proof {
            assert(self.history() =~= old(self).history() + buf@.take(n as int));
        }
        Ok(n)
    }

    /// Nothing the queue accepts waits in any further buffer, so a flush has
    /// nothing to do and always succeeds, changing nothing.
    pub fn flush(&mut self) -> (r: Result<(), IoError>)
        ensures
            *final(self) == *old(self),
            r == Ok::<(), IoError>(()),
    {
        Ok(())
    }

    /// `Ready` exactly when a read would make progress: some byte is pending.
    pub fn poll_read(&mut self) -> (r: Readiness)
        ensures
            *final(self) == *old(self),
            r == (if old(self).buffered().len() > 0 {
                Readiness::Ready
            } else {
                Readiness::NotReady
            }),
    {
        if self.pending.len() > 0 {
            Readiness::Ready
        } else {
            Readiness::NotReady
        }
    }

    /// `Ready` exactly when a write would make progress: some space is left.
    pub fn poll_write(&mut self) -> (r: Readiness)
        ensures
            *final(self) == *old(self),
            r == (if old(self).space() > 0 {
                Readiness::Ready
            } else {
                Readiness::NotReady
            }),
    {
        if self.pending.len() < self.cap {
            Readiness::Ready
        } else {
            Readiness::NotReady
        }
    }
}

/// What a run of reads delivers, concatenated: one read with a buffer of
/// `wants[0]` bytes takes `min(wants[0], pending.len())` bytes off the front
/// of `pending` — exactly what the `Ok` case of [`DuplexBuffer::read`]
/// returns — and the rest of the run goes on with what is left.
pub open spec fn reads_out(pending: Seq<u8>, wants: Seq<nat>) -> Seq<u8>
    decreases wants.len(),
{
    if wants.len() == 0 {
        Seq::empty()
    } else {
        let n = min(wants[0] as int, pending.len() as int);
        pending.take(n) + reads_out(pending.skip(n), wants.skip(1))
    }
}

/// Pass-through fidelity across any run of reads: however the run's buffer
/// sizes `wants` are chosen, the bytes the reads deliver, concatenated, are a
/// prefix of the pending bytes — in order, nothing added, dropped, duplicated
/// or reordered.
pub proof fn lemma_reads_deliver_prefix(pending: Seq<u8>, wants: Seq<nat>)
    ensures
        reads_out(pending, wants).is_prefix_of(pending),
    decreases wants.len(),
{
    let out = reads_out(pending, wants);
    if wants.len() == 0 {
        assert(out =~= pending.take(0));
    } else {
        let n = min(wants[0] as int, pending.len() as int);
        let rest = reads_out(pending.skip(n), wants.skip(1));
        lemma_reads_deliver_prefix(pending.skip(n), wants.skip(1));
        assert forall|i: int| 0 <= i < out.len() implies out[i] == pending[i] by {
            if i >= n {
                assert(rest[i - n] == pending.skip(n).take(rest.len() as int)[i - n]);
            }
        }
        assert(out =~= pending.take(out.len() as int));
    }
}

/// Repeating reads drains everything: a run of reads that each ask for at
/// least one byte, with as many reads as there are pending bytes, delivers
/// exactly the pending bytes.
pub proof fn lemma_enough_reads_drain_all(pending: Seq<u8>, wants: Seq<nat>)
    requires
        wants.len() >= pending.len(),
        forall|i: int| 0 <= i < wants.len() ==> wants[i] >= 1,
    ensures
        reads_out(pending, wants) == pending,
    decreases wants.len(),
{
    if wants.len() == 0 {
        assert(reads_out(pending, wants) =~= pending);
    } else {
        let n = min(wants[0] as int, pending.len() as int);
        assert(forall|i: int| 0 <= i < wants.skip(1).len() ==> wants.skip(1)[i] >= 1);
        lemma_enough_reads_drain_all(pending.skip(n), wants.skip(1));
        assert(reads_out(pending, wants) =~= pending);
    }
}

/// Pass-through fidelity: bytes a write put behind the pending backlog are
/// read back unchanged and in order. A write that accepted `written` turns a
/// backlog `pending` into `pending + written`; reads drain that sequence from
/// the front, so they hand out the old backlog first and then exactly
/// `written` — in particular, the whole of `written` when the backlog was
/// empty.
pub proof fn lemma_pass_through(pending: Seq<u8>, written: Seq<u8>)
    ensures
        (pending + written).take(pending.len() as int) == pending,
        (pending + written).skip(pending.len() as int) == written,
        pending.len() == 0 ==> pending + written == written,
{
    assert((pending + written).take(pending.len() as int) =~= pending);
    assert((pending + written).skip(pending.len() as int) =~= written);
    if pending.len() == 0 {
        assert(pending + written =~= written);
    }
}

impl ReadStream for DuplexBuffer {
    open spec fn readable(&self) -> Seq<u8> {
        self.buffered()
    }

    open spec fn read_ready(&self) -> bool {
        self.buffered().len() > 0
    }

    fn read(&mut self, buf: &mut Vec<u8>) -> (r: Result<usize, IoError>) {
        DuplexBuffer::read(self, buf)
    }

    fn poll_read(&mut self) -> (r: Readiness) {
        DuplexBuffer::poll_read(self)
    }
}

impl WriteStream for DuplexBuffer {
    open spec fn accepted(&self) -> Seq<u8> {
        self.history()
    }

    open spec fn write_ready(&self) -> bool {
        self.space() > 0
    }

    open spec fn flushed(&self) -> bool {
        true
    }

    fn write(&mut self, buf: &[u8]) -> (r: Result<usize, IoError>) {
        DuplexBuffer::write(self, buf)
    }

    fn flush(&mut self) -> (r: Result<(), IoError>) {
        DuplexBuffer::flush(self)
    }

    fn poll_write(&mut self) -> (r: Readiness) {
        DuplexBuffer::poll_write(self)
    }
}

} // verus!
