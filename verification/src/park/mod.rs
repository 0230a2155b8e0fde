//! Parking: how a thread with nothing to do waits, and how it is woken.

pub mod thread;

pub use self::thread::Parker;

use std::sync::Arc;
use std::time::Duration;
use vstd::prelude::*;

verus! {

#[verifier::external_type_specification]
#[verifier::external_body]
pub struct ExIoError(std::io::Error);

/// Something a thread can block in until it is unparked.
pub trait Park {
    /// The handle that unparks.
    type Handle: Unpark;

    /// A handle that unparks this parker.
    fn handle(&self) -> Self::Handle;

    /// Blocks until unparked.
    fn park(&mut self) -> Result<(), std::io::Error>;

    /// What a park of at most `dur` can come to: the parker is left as
    /// `after` and the answer is `res`. Each parker says what its own
    /// parks come to; one that says nothing leaves every outcome open.
    open spec fn timed_park(
        &self,
        dur: Duration,
        after: &Self,
        res: Result<(), std::io::Error>,
    ) -> bool {
        true
    }

    /// Blocks until unparked, for `dur` at most.
    fn park_timeout(&mut self, dur: Duration) -> (res: Result<(), std::io::Error>)
        ensures
            old(self).timed_park(dur, final(self), res),
    ;
}

/// The handle that wakes a parked thread, from any thread.
pub trait Unpark: Sync + Send + 'static {
    /// Wakes the thread parked in the parker of this handle, or makes its
    /// next park return at once.
    fn unpark(&self);
}

impl<T: Unpark> Unpark for Box<T> {
    fn unpark(&self) {
        (**self).unpark()
    }
}

impl<T: Unpark> Unpark for Arc<T> {
    fn unpark(&self) {
        (**self).unpark()
    }
}

} // verus!
