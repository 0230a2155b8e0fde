//! Driving one future on the calling thread, parked on a flag between
//! polls.
//!
//! The loop itself polls a future and blocks a thread, and is not here.
//! Here is what it decides: after a poll, whether to return or to park; in
//! the park, whether the wait is over.

use std::task::Poll;
use vstd::prelude::*;

verus! {

/// The flag a blocked thread waits on. The waker of the future sets it.
#[derive(Default)]
pub struct Parker {
    pub notified: bool,
}

/// What the loop does after one poll of its future.
pub enum Step<O> {
    /// The future is done: hand out its output.
    Return(O),
    /// The future is pending: park until the waker has signalled.
    Park,
}

/// The waker signals: sets the flag. The caller then notifies the
/// condition variable.
pub fn unpark(p: &mut Parker)
    ensures
        final(p).notified,
{
    p.notified = true;
}

impl Parker {
    /// The parked thread looks at the flag. If the waker has signalled,
    /// the signal is consumed and the wait is over; otherwise the thread
    /// waits on.
    pub fn keep_waiting(&mut self) -> (wait: bool)
        ensures
            wait == !old(self).notified,
            !final(self).notified,
    {
        if self.notified {
            self.notified = false;
            false
        } else {
            true
        }
    }
}

/// What to do with the result of one poll.
pub fn after_poll<O>(polled: Poll<O>) -> (step: Step<O>)
    ensures
        polled matches Poll::Ready(o) ==> step == Step::Return(o),
        polled is Pending ==> step is Park,
{
    match polled {
        Poll::Ready(o) => Step::Return(o),
        Poll::Pending => Step::Park,
    }
}

} // verus!
