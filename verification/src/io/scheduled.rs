//! The reactor's record for one I/O source.

use futures::task::AtomicWaker;
use std::task::Waker;
use vstd::prelude::*;

use super::ready;

verus! {

#[verifier::external_type_specification]
#[verifier::external_body]
pub struct ExAtomicWaker(AtomicWaker);

/// `AtomicWaker::new`: an empty waker slot.
#[verifier::external_body]
pub(crate) fn new_slot() -> (slot: AtomicWaker) {
    AtomicWaker::new()
}

/// `AtomicWaker::register`: leaves a copy of `waker` in the slot, in place
/// of what was there. The slot changes behind the shared reference and
/// nothing is claimed of it.
#[verifier::external_body]
pub(crate) fn register_waker(slot: &AtomicWaker, waker: &Waker) {
    slot.register(waker)
}

/// `AtomicWaker::wake`: wakes the waker in the slot, if there is one, and
/// empties the slot. The effect is on the woken task and nothing is claimed
/// of it.
#[verifier::external_body]
pub(crate) fn wake_slot(slot: &AtomicWaker) {
    slot.wake()
}

/// The record of one source: the readiness that has arrived and was not
/// yet taken, and a waker slot for each direction.
pub struct Scheduled {
    /// The readiness word.
    pub readiness: usize,
    /// The full readiness set, as the poller gave it when the record was
    /// made.
    pub all: usize,
    /// Woken when the source becomes readable.
    pub reader: AtomicWaker,
    /// Woken when the source becomes writable.
    pub writer: AtomicWaker,
}

impl Scheduled {
    /// A record with no readiness and empty waker slots.
    pub fn new() -> (sched: Scheduled)
        ensures
            sched.readiness == 0,
            ready::is_all(sched.all),
    {
        Scheduled {
            readiness: ready::ready_empty(),
            all: ready::ready_all(),
            reader: new_slot(),
            writer: new_slot(),
        }
    }

    /// The readiness word.
    pub fn get_readiness(&self) -> (bits: usize)
        ensures
            bits == self.readiness,
    {
        self.readiness
    }

    /// Replaces the readiness word by what `f` makes of it, cut down to the
    /// full set first. Returns the word as it was, uncut.
    pub fn set_readiness<F: Fn(usize) -> usize>(&mut self, f: F) -> (prev: usize)
        requires
            call_requires(f, (old(self).readiness & old(self).all,)),
        ensures
            prev == old(self).readiness,
            call_ensures(f, (prev & old(self).all,), final(self).readiness),
            final(self).all == old(self).all,
            final(self).reader == old(self).reader,
            final(self).writer == old(self).writer,
    {
        let current = self.readiness;
        let current_readiness = current & self.all;
        self.readiness = f(current_readiness);
        current
    }
}

} // verus!
