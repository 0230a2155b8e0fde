//! The executor that drives one future on the calling thread.

use std::sync::Arc;
use std::task::Poll;
use std::time::Duration;
use vstd::prelude::*;

use crate::park::{Park, Unpark};

verus! {

/// `Duration::from_millis`: the span of `ms` milliseconds.
#[verifier::external_body]
fn from_millis(ms: u64) -> (dur: Duration)
    ensures
        dur == millis(ms),
{
    Duration::from_millis(ms)
}

/// The handle through which the executor's waker unparks the executor.
pub struct UnparkState {
    pub unpark: Box<dyn Unpark>,
}

/// An executor around the parker `P`.
pub struct Executor<P> {
    pub park: P,
    pub state: Arc<UnparkState>,
}

/// What the executor does after one poll of its future.
pub enum Turn<O> {
    /// The future is done: hand out its output.
    Return(O),
    /// The future is pending: tick the parker, then poll again.
    Tick,
}

impl<P: Park> Executor<P> {
    /// An executor that parks in `park`, woken through a handle of `park`.
    pub fn new(park: P) -> (executor: Self)
        ensures
            executor.park == park,
    {
        let unpark = park.handle();
        Executor { park, state: Arc::new(UnparkState { unpark: Box::new(unpark) }) }
    }

    /// What to do with the result of one poll: return, or tick and poll again.
    pub fn after_poll<O>(polled: Poll<O>) -> (turn: Turn<O>)
        ensures
            polled matches Poll::Ready(o) ==> turn == Turn::Return(o),
            polled is Pending ==> turn is Tick,
    {
        match polled {
            Poll::Ready(o) => Turn::Return(o),
            Poll::Pending => Turn::Tick,
        }
    }

    /// Ticks the parker: one park of no duration, which turns the reactor
    /// without blocking. The answer is the parker's.
    pub fn tick(&mut self) -> (res: Result<(), std::io::Error>)
        ensures
            final(self).state == old(self).state,
            old(self).park.timed_park(millis(0), &final(self).park, res),
    {
        self.park.park_timeout(from_millis(0))
    }
}

/// The span of `ms` milliseconds: what `Duration::from_millis` makes of
/// `ms`.
pub uninterp spec fn millis(ms: u64) -> Duration;

} // verus!
