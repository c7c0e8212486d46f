//! Split one duplex stream into an independent read half and a write half.
//!
//! A duplex stream is a single object that can both produce and consume
//! bytes. [`split`](split::split) moves such a stream into a shared exclusive
//! cell and hands back two lightweight handles: a [`ReadHalf`](split::ReadHalf)
//! that only reads, and a [`WriteHalf`](split::WriteHalf) that only writes.
//! Each handle operation tries exactly once, without waiting, to take the
//! stream out of the cell; when the other half has it, the operation reports
//! the distinguished would-block condition instead of blocking, and the caller
//! retries later. The adapter adds no buffering and passes the stream's own
//! results and errors through unchanged.

pub mod buffer;
pub mod cell;
pub mod protocol;
pub mod split;
pub mod stream;
