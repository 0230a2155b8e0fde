//! The writing half: when to flush, and how a flush proceeds.

use std::task::Poll;
use vstd::prelude::*;

use super::BACKPRESSURE_BOUNDARY;

verus! {

/// The transport took no byte of a frame that was to be written.
#[derive(Clone, Copy, Debug, PartialEq, Eq, Structural)]
pub struct WriteZero;

impl WriteZero {
    /// The text of the error.
    pub fn message(&self) -> (text: &'static str)
        ensures
            text@ == "failed to write frame to transport"@,
    {
        "failed to write frame to transport"
    }
}

/// Whether the writing half, with `buffered` unsent bytes, must flush
/// before it accepts another frame.
pub fn must_flush(buffered: usize) -> (flush: bool)
    ensures
        flush == (buffered >= BACKPRESSURE_BOUNDARY),
{
    buffered >= BACKPRESSURE_BOUNDARY
}

/// Whether the writing half accepts another frame: `buffered` is what is
/// unsent, after the flush if one was due. Over the boundary the answer is
/// `Pending`.
pub fn poll_ready(buffered: usize) -> (ready: Poll<()>)
    ensures
        ready is Pending <==> buffered >= BACKPRESSURE_BOUNDARY,
{
    if buffered >= BACKPRESSURE_BOUNDARY {
        Poll::Pending
    } else {
        Poll::Ready(())
    }
}

/// Whether a flush has bytes left to write.
pub fn must_write(buffered: usize) -> (write: bool)
    ensures
        write == (buffered != 0),
{
    buffered != 0
}

/// One write of a flush: of the `buffered` bytes the transport took
/// `written`. None at all is an error; otherwise the buffer advances and
/// the answer is what is still unsent.
pub fn poll_flush(buffered: usize, written: usize) -> (left: Result<usize, WriteZero>)
    requires
        written <= buffered,
    ensures
        written == 0 ==> left is Err,
        written != 0 ==> left == Ok::<usize, WriteZero>((buffered - written) as usize),
{
    if written == 0 {
        Err(WriteZero)
    } else {
        Ok(buffered - written)
    }
}

/// A flush that keeps writing comes to an end: each write that is no error
/// leaves fewer bytes.
pub proof fn lemma_flush_progress(buffered: usize, written: usize)
    requires
        0 < written <= buffered,
    ensures
        buffered - written < buffered,
{
}

} // verus!
