//! Wakers.
//!
//! A waker of a task is a counted reference to its cell. Its four
//! operations go to the harness: cloning counts one more reference, waking
//! latches a notification, dropping releases the reference. The borrowed
//! form stands for the waker a running poll hands to its future: it counts
//! no reference of its own.
//!
//! The join side brings a standard waker; what is done with it stands at the
//! end of this file.

use std::task::Waker;
use vstd::prelude::*;

use super::harness::Harness;
use super::raw::RawTask;

verus! {

/// An owned waker of a task: it holds one reference to the cell.
pub struct RawWaker {
    raw: RawTask,
}

/// The waker lent to the future for the length of one poll. It holds no
/// reference: the poll does.
pub struct WakerRef {
    waker: RawWaker,
}

impl RawWaker {
    /// The task this waker wakes.
    pub closed spec fn task(&self) -> RawTask {
        self.raw
    }
}

impl WakerRef {
    /// The task this waker wakes.
    pub closed spec fn task(&self) -> RawTask {
        self.waker.raw
    }
}

/// The waker of the task at `raw`.
pub fn raw_waker(raw: RawTask) -> (waker: RawWaker)
    ensures
        waker.task() == raw,
{
    RawWaker { raw }
}

/// The borrowed waker of the task at `raw`.
pub fn waker_ref(raw: RawTask) -> (waker: WakerRef)
    ensures
        waker.task() == raw,
{
    WakerRef { waker: raw_waker(raw) }
}

/// Makes an owned waker from a borrowed one: one more reference is counted.
pub fn clone_waker_ref<T, O, S, P>(waker: &WakerRef, harness: &mut Harness<T, O, S, P>) -> (copy:
    RawWaker)
    requires
        old(harness).life().ref_count < super::state::ref_count_max(),
    ensures
        copy.task() == waker.task(),
        final(harness).life() == old(harness).life().ref_inc(),
        old(harness).same_but_state(final(harness)),
        old(harness).wf() ==> final(harness).wf(),
{
    clone_waker(&waker.waker, harness)
}

/// Copies a waker: one more reference is counted.
pub fn clone_waker<T, O, S, P>(waker: &RawWaker, harness: &mut Harness<T, O, S, P>) -> (copy:
    RawWaker)
    requires
        old(harness).life().ref_count < super::state::ref_count_max(),
    ensures
        copy.task() == waker.task(),
        final(harness).life() == old(harness).life().ref_inc(),
        old(harness).same_but_state(final(harness)),
        old(harness).wf() ==> final(harness).wf(),
{
    harness.cell.header.state.ref_inc();
    raw_waker(waker.raw)
}

/// Drops a waker: its reference is released, and the cell freed if it was
/// the last.
pub fn drop_waker<T, O, S, P>(waker: RawWaker, harness: Harness<T, O, S, P>) -> (rest: Option<
    Harness<T, O, S, P>,
>)
    requires
        harness.life().ref_count >= 1,
    ensures
        rest is None <==> harness.life().ref_count == 1,
        rest matches Some(h) ==> h.life() == harness.life().ref_dec() && harness.same_but_state(&h),
        rest matches Some(h) ==> (harness.wf() ==> h.wf()),
{
    harness.drop_reference()
}

/// Wakes the task and drops the waker. The flag tells whether the caller
/// must queue the task on its scheduler.
pub fn wake_by_val<T, O, S, P>(waker: RawWaker, harness: Harness<T, O, S, P>) -> (res: (
    Option<Harness<T, O, S, P>>,
    bool,
))
    requires
        harness.life().ref_count >= 1,
    ensures
        res.1 == harness.life().will_need_queueing(),
        res.0 is None <==> harness.life().ref_count == 1,
        res.0 matches Some(h) ==> h.life() == harness.life().transition_to_notified().ref_dec()
            && harness.same_but_state(&h),
        res.0 matches Some(h) ==> (harness.wf() ==> h.wf()),
{
    harness.wake_by_val()
}

/// Wakes the task and keeps the waker. Returns whether the caller must
/// queue the task on its scheduler.
pub fn wake_by_ref<T, O, S, P>(waker: &RawWaker, harness: &mut Harness<T, O, S, P>) -> (must_schedule:
    bool)
    ensures
        must_schedule == old(harness).life().will_need_queueing(),
        final(harness).life() == old(harness).life().transition_to_notified(),
        old(harness).same_but_state(final(harness)),
        old(harness).wf() ==> final(harness).wf(),
{
    harness.wake_by_ref()
}

#[verifier::external_type_specification]
#[verifier::external_body]
pub struct ExWaker(Waker);

/// `Waker::will_wake`: whether waking `waker` would wake the same task as
/// waking `other`. Nothing is claimed of the answer.
#[verifier::external_body]
pub(crate) fn std_will_wake(waker: &Waker, other: &Waker) -> (same: bool) {
    waker.will_wake(other)
}

/// `Waker::clone`: another handle on the same task. Nothing is claimed of
/// the copy.
#[verifier::external_body]
pub(crate) fn std_clone(waker: &Waker) -> (copy: Waker) {
    waker.clone()
}

/// `Waker::wake_by_ref`: wakes the task behind `waker`. The effect is on
/// that task and nothing is claimed of it here.
#[verifier::external_body]
pub(crate) fn std_wake_by_ref(waker: &Waker) {
    waker.wake_by_ref()
}

} // verus!
