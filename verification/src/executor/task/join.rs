//! The join handle: the consumer's end of a task.

use std::marker::PhantomData;
use std::task::{Poll, Waker};
use vstd::prelude::*;

use super::cell::Result;
use super::harness::Harness;
use super::raw::RawTask;
use super::state::Lifecycle;

verus! {

/// The one handle through which the output of a task is read. It holds one
/// reference to the cell.
pub struct JoinHandle<O, P> {
    raw: Option<RawTask>,
    _p: PhantomData<(O, P)>,
}

impl<O, P> JoinHandle<O, P> {
    /// The task this handle joins, while it has not been dropped.
    pub closed spec fn task(&self) -> Option<RawTask> {
        self.raw
    }

    /// The join handle of the task at `raw`.
    pub fn new(raw: RawTask) -> (handle: JoinHandle<O, P>)
        ensures
            handle.task() == Some(raw),
    {
        JoinHandle { raw: Some(raw), _p: PhantomData }
    }

    /// Asks for the output. `Ready` with the output if the task is
    /// complete; otherwise `Pending`, with `waker` left behind to be woken
    /// at completion.
    pub fn poll<T, S>(&self, harness: &mut Harness<T, O, S, P>, waker: &Waker) -> (ret: Poll<
        Result<O, P>,
    >)
        requires
            self.task() is Some,
            old(harness).wf(),
            old(harness).life().join_interest,
            old(harness).life().complete ==> old(harness).cell.core.stage is Finished,
        ensures
            final(harness).wf(),
            old(harness).life().complete ==> {
                &&& old(harness).same_but_state_and_stage(final(harness))
                &&& ret == Poll::Ready(old(harness).cell.core.stage->Finished_0)
                &&& final(harness).cell.core.stage is Consumed
                &&& final(harness).life() == old(harness).life()
            },
            !old(harness).life().complete ==> {
                &&& ret is Pending
                &&& final(harness).life() == (Lifecycle { join_waker: true, ..old(harness).life() })
                &&& final(harness).cell.trailer.waker is Some
                &&& final(harness).cell.core == old(harness).cell.core
                &&& final(harness).cell.header.owned == old(harness).cell.header.owned
                &&& final(harness).cell.header.queue_next == old(harness).cell.header.queue_next
                &&& final(harness).cell.header.stack_next == old(harness).cell.header.stack_next
            },
    {
        let mut ret = Poll::Pending;
        harness.try_read_output(&mut ret, waker);
        ret
    }

    /// Drops the handle. While the task is as it was spawned this is one
    /// step on the state word; otherwise the harness does it the slow way.
    /// Either way the handle's reference is released and the cell freed if
    /// it was the last.
    pub fn drop<T, S>(self, harness: Harness<T, O, S, P>) -> (rest: Option<Harness<T, O, S, P>>)
        requires
            harness.life().ref_count >= 1,
        ensures
            self.task() is None ==> rest == Some(harness),
            self.task() is Some && harness.life() == Lifecycle::initial() ==> (rest matches Some(h)
                && h.life() == harness.life().drop_join_handle_fast() && harness.same_but_state(
                &h,
            )),
            self.task() is Some && harness.life() != Lifecycle::initial() ==> {
                &&& rest is None <==> harness.life().ref_count == 1
                &&& rest matches Some(h) ==> {
                    &&& h.life() == harness.life().unset_join_interested().ref_dec()
                    &&& h.cell.header.owned == harness.cell.header.owned
                    &&& h.cell.header.queue_next == harness.cell.header.queue_next
                    &&& h.cell.header.stack_next == harness.cell.header.stack_next
                    &&& h.cell.core.scheduler == harness.cell.core.scheduler
                    &&& harness.life().complete ==> h.cell.core.stage is Consumed
                        && h.cell.trailer == harness.cell.trailer
                    &&& !harness.life().complete ==> h.cell.core.stage == harness.cell.core.stage
                        && h.cell.trailer.waker is None
                }
            },
            rest matches Some(h) ==> (harness.wf() ==> h.wf()),
    {
        let mut harness = harness;
        let mut this = self;
        match this.raw.take() {
            Some(_) => {
                if harness.cell.header.state.drop_join_handle_fast().is_ok() {
                    return Some(harness);
                }
                harness.drop_join_handle_slow()
            },
            None => Some(harness),
        }
    }
}

} // verus!
