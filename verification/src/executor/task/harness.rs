//! The operations on a task cell.
//!
//! A harness owns the cell while one operation runs on it. An operation that
//! releases a reference hands the harness back unless the reference was the
//! last one: then the cell is freed inside the operation and nothing comes
//! back. What an operation asks of the scheduler (queue the task, yield it)
//! it says in its result; the caller carries it out.
//!
//! No operation here drops a future. Where a future has to go, it is taken
//! out of the cell and handed to the caller, who drops it under a guard of
//! its own and reports how the drop went: a panic of the drop then ends the
//! task with the panic error, as a panic of the poll does.

use std::task::{Poll, Waker};
use vstd::prelude::*;

use super::cell::{Cell, Result, Stage};
use super::error::JoinError;
use super::state::{Lifecycle, Snapshot};
use super::waker;

verus! {

/// The owner of a task cell for the length of one operation.
pub struct Harness<T, O, S, P> {
    pub cell: Box<Cell<T, O, S, P>>,
}

/// How an operation that may end the task left it.
pub struct Completion<T, O, S, P> {
    /// The cell, unless the operation released its last reference.
    pub harness: Option<Harness<T, O, S, P>>,
    /// Whether the waker of the join side was woken.
    pub join_woken: bool,
}

/// What `Harness::poll` found.
pub enum PollStart<T, O, S, P> {
    /// The task was running or complete: the caller's reference was dropped
    /// and the future must not be polled.
    Dropped(Option<Harness<T, O, S, P>>),
    /// The task was claimed but is cancelled: it is not polled. Its future
    /// was taken out of the cell: the caller drops it and reports to
    /// `cancel_poll` with this snapshot.
    Cancelled(Harness<T, O, S, P>, Snapshot, Option<T>),
    /// The task is claimed: the caller polls the future and reports to
    /// `finish_poll` with this snapshot.
    Run(Harness<T, O, S, P>, Snapshot),
}

/// How a poll ended.
pub enum PollEnd<T, O, S, P> {
    /// The future returned its output or panicked; the task is complete.
    Complete(Completion<T, O, S, P>),
    /// The future is pending and no wake-up arrived meanwhile.
    Idle(Harness<T, O, S, P>),
    /// The future is pending and a wake-up arrived during the poll: the
    /// caller must yield the task to its scheduler, once.
    Yield(Harness<T, O, S, P>),
    /// The future is pending but the task was cancelled during the poll.
    /// Its future was taken out of the cell: the caller drops it and
    /// reports to `cancel_task`.
    Cancelled(Harness<T, O, S, P>, Option<T>),
}

/// What `Harness::shutdown` found.
pub enum Shutdown<T, O, S, P> {
    /// The task is running or complete: the request was left in the state
    /// word and there is nothing more to do.
    Requested(Harness<T, O, S, P>),
    /// The task was idle and is claimed for cancellation. Its future was
    /// taken out of the cell: the caller drops it and reports to
    /// `cancel_task`.
    Cancel(Harness<T, O, S, P>, Option<T>),
}

impl<T, O, S, P> Harness<T, O, S, P> {
    /// The state word as the operations' contracts read it.
    pub open spec fn life(&self) -> Lifecycle {
        self.cell.header.state@
    }

    /// What must hold of a cell between any two operations: the flags are
    /// consistent, the join waker flag tells of a populated slot, and the
    /// stage holds the future exactly while the task is not complete.
    pub open spec fn wf(&self) -> bool {
        &&& self.wf_word()
        &&& self.life().complete <==> !(self.cell.core.stage is Running)
    }

    /// What holds of a cell also while its future is out to be dropped:
    /// the flags are consistent and the join waker flag tells of a
    /// populated slot.
    pub open spec fn wf_word(&self) -> bool {
        &&& self.life().wf()
        &&& self.life().join_waker ==> self.cell.trailer.waker is Some
    }

    /// The output a cancelled task completes with: the cancelled error if
    /// its future was dropped in peace, the panic error if the drop
    /// panicked.
    pub open spec fn cancel_output(dropped: std::result::Result<(), P>) -> Result<O, P> {
        match dropped {
            Ok(_) => Err(JoinError::spec_cancelled()),
            Err(payload) => Err(JoinError::spec_panic(payload)),
        }
    }

    /// `taken` is this cell with `future`, its future, taken out of it.
    pub open spec fn future_taken(&self, taken: &Self, future: Option<T>) -> bool {
        &&& self.cell.core.stage is Running
        &&& future == Some(self.cell.core.stage->Running_0)
        &&& taken.cell.core.stage is Consumed
        &&& self.same_but_state_and_stage(taken)
    }

    /// `other` is this cell but for the state word.
    pub open spec fn same_but_state(&self, other: &Self) -> bool {
        &&& other.cell.header.owned == self.cell.header.owned
        &&& other.cell.header.queue_next == self.cell.header.queue_next
        &&& other.cell.header.stack_next == self.cell.header.stack_next
        &&& other.cell.core == self.cell.core
        &&& other.cell.trailer == self.cell.trailer
    }

    /// `other` is this cell but for the state word and the stage.
    pub open spec fn same_but_state_and_stage(&self, other: &Self) -> bool {
        &&& other.cell.header.owned == self.cell.header.owned
        &&& other.cell.header.queue_next == self.cell.header.queue_next
        &&& other.cell.header.stack_next == self.cell.header.stack_next
        &&& other.cell.core.scheduler == self.cell.core.scheduler
        &&& other.cell.trailer == self.cell.trailer
    }

    /// `released` is an answer the scheduler may give when asked, through
    /// `release`, to give up its handle on the task. An unbound task is not
    /// asked and gives none up.
    pub open spec fn released_by<F: FnOnce(&S) -> bool>(&self, release: F, released: bool) -> bool {
        match self.cell.core.scheduler {
            Some(s) => call_ensures(release, (&s,), released),
            None => !released,
        }
    }

    /// `release` may be called on the scheduler the task is bound to.
    pub open spec fn may_release<F: FnOnce(&S) -> bool>(&self, release: F) -> bool {
        self.cell.core.scheduler matches Some(s) ==> call_requires(release, (&s,))
    }

    /// The task holds the references that completing it releases: the one
    /// of the poll and, once bound, the scheduler's.
    pub open spec fn holds_own_refs(&self) -> bool {
        self.life().ref_count >= (if self.cell.core.scheduler is Some {
            2nat
        } else {
            1nat
        })
    }

    /// What the stage holds after the task was completed with `output`.
    pub open spec fn completed_stage(&self, output: Result<O, P>, is_join_interested: bool) -> Stage<
        T,
        O,
        P,
    > {
        if !is_join_interested {
            self.cell.core.stage
        } else if self.life().join_interest {
            Stage::Finished(output)
        } else {
            Stage::Consumed
        }
    }

    /// `done` is how completing the task with `output` ends when the
    /// scheduler answers `released`.
    pub open spec fn completes(
        &self,
        output: Result<O, P>,
        is_join_interested: bool,
        released: bool,
        done: Completion<T, O, S, P>,
    ) -> bool {
        let life = self.life().complete_with(is_join_interested, released);
        &&& done.join_woken == (is_join_interested && self.life().join_interest
            && self.life().join_waker)
        &&& done.harness is None <==> life.ref_count == 0
        &&& done.harness matches Some(h) ==> {
            &&& h.life() == life
            &&& h.cell.core.stage == self.completed_stage(output, is_join_interested)
            &&& self.same_but_state_and_stage(&h)
        }
    }

    /// `done` is how the task ends when its future has been dropped, the
    /// task is completed with `output` and the scheduler answers `released`.
    pub open spec fn ends_with(
        &self,
        output: Result<O, P>,
        is_join_interested: bool,
        released: bool,
        done: Completion<T, O, S, P>,
    ) -> bool {
        let life = self.life().complete_with(is_join_interested, released);
        &&& done.join_woken == (is_join_interested && self.life().join_interest
            && self.life().join_waker)
        &&& done.harness is None <==> life.ref_count == 0
        &&& done.harness matches Some(h) ==> {
            &&& h.life() == life
            &&& h.cell.core.stage == (if is_join_interested && self.life().join_interest {
                Stage::<T, O, P>::Finished(output)
            } else {
                Stage::<T, O, P>::Consumed
            })
            &&& self.same_but_state_and_stage(&h)
        }
    }

    /// `claimed` is the task after a successful claim for a poll: running,
    /// no longer notified, and bound, by `bind` if it was not before.
    pub open spec fn claims<B: FnOnce() -> S>(&self, bind: B, claimed: &Self) -> bool {
        &&& self.claims_word(bind, claimed)
        &&& claimed.cell.core.stage == self.cell.core.stage
    }

    /// `claimed` is the task after a successful claim for a poll, whatever
    /// its stage holds.
    pub open spec fn claims_word<B: FnOnce() -> S>(&self, bind: B, claimed: &Self) -> bool {
        &&& claimed.life() == self.life().transition_to_running(self.cell.core.scheduler is None)
        &&& claimed.cell.header.owned == self.cell.header.owned
        &&& claimed.cell.header.queue_next == self.cell.header.queue_next
        &&& claimed.cell.header.stack_next == self.cell.header.stack_next
        &&& claimed.cell.trailer == self.cell.trailer
        &&& match self.cell.core.scheduler {
            Some(s) => claimed.cell.core.scheduler == Some(s),
            None => claimed.cell.core.scheduler matches Some(s) && call_ensures(bind, (), s),
        }
    }

    /// `start` is what claiming the task for a poll gives: the reference
    /// is dropped if the task is running or complete; an idle task is
    /// claimed, as `claims` says, and handed out to be polled; an idle task
    /// that is cancelled is claimed and handed out with its future taken
    /// out, to be dropped and not polled.
    pub open spec fn polled<B: FnOnce() -> S>(
        &self,
        bind: B,
        start: PollStart<T, O, S, P>,
    ) -> bool {
        &&& !self.life().is_idle() ==> (start matches PollStart::Dropped(rest) && (rest is None
            <==> self.life().ref_count == 1) && (rest matches Some(h) ==> h.life()
            == self.life().ref_dec() && self.same_but_state(&h) && h.wf()))
        &&& self.life().is_idle() && !self.life().cancelled ==> (start matches PollStart::Run(
            h,
            snapshot,
        ) && snapshot@ == self.life() && self.claims(bind, &h) && h.wf())
        &&& self.life().is_idle() && self.life().cancelled ==> (start matches PollStart::Cancelled(
            h,
            snapshot,
            future,
        ) && snapshot@ == self.life() && self.claims_word(bind, &h) && h.cell.core.stage
            is Consumed && future == Some(self.cell.core.stage->Running_0) && h.wf_word())
    }

    /// `started` is what a shutdown gives: on a task that is not idle only
    /// the request is left in the state word; an idle task is claimed by
    /// the same step and handed out with its future taken out, to be
    /// dropped and cancelled.
    pub open spec fn shuts_down(&self, started: Shutdown<T, O, S, P>) -> bool {
        &&& !self.life().is_idle() ==> (started matches Shutdown::Requested(h) && h.life()
            == self.life().transition_to_shutdown() && self.same_but_state(&h) && h.wf())
        &&& self.life().is_idle() ==> (started matches Shutdown::Cancel(h, future) && h.life()
            == self.life().transition_to_shutdown() && self.future_taken(&h, future)
            && h.wf_word())
    }

    /// `done` is how a claimed task whose future was dropped, with the
    /// outcome `dropped`, is cancelled when the scheduler answers
    /// `released`: it completes with the cancelled error, or with the
    /// panic error if the drop panicked.
    pub open spec fn cancelled_with(
        &self,
        dropped: std::result::Result<(), P>,
        is_join_interested: bool,
        released: bool,
        done: Completion<T, O, S, P>,
    ) -> bool {
        self.ends_with(Self::cancel_output(dropped), is_join_interested, released, done)
    }

    /// `end` is how the poll that saw `snapshot` when it began ends on
    /// `res`: on an output or a panic the task is completed with it; on
    /// `Pending` it goes back to idle, asking for a yield if it is notified;
    /// on `Pending` with a cancellation requested meanwhile it stays
    /// claimed and is handed out with its future taken out, to be dropped
    /// and cancelled.
    pub open spec fn poll_finished<F: FnOnce(&S) -> bool>(
        &self,
        snapshot: Snapshot,
        res: std::result::Result<Poll<O>, P>,
        release: F,
        end: PollEnd<T, O, S, P>,
    ) -> bool {
        let pending = res is Ok && res->Ok_0 is Pending;
        &&& res matches Ok(Poll::Ready(out)) ==> (end matches PollEnd::Complete(done) && exists|
            released: bool,
        | #[trigger]
            self.released_by(release, released) && self.ends_with(
                Ok(out),
                snapshot@.join_interest,
                released,
                done,
            ))
        &&& res matches Err(payload) ==> (end matches PollEnd::Complete(done) && exists|
            released: bool,
        | #[trigger]
            self.released_by(release, released) && self.ends_with(
                Err(JoinError::spec_panic(payload)),
                snapshot@.join_interest,
                released,
                done,
            ))
        &&& pending && self.life().cancelled ==> (end matches PollEnd::Cancelled(h, future)
            && h.life() == self.life() && self.future_taken(&h, future) && h.wf_word())
        &&& pending && !self.life().cancelled && self.life().notified ==> (end
            matches PollEnd::Yield(h) && h.life() == self.life().transition_to_idle()
            && self.same_but_state(&h))
        &&& pending && !self.life().cancelled && !self.life().notified ==> (end
            matches PollEnd::Idle(h) && h.life() == self.life().transition_to_idle()
            && self.same_but_state(&h))
        &&& end matches PollEnd::Complete(done) ==> (done.harness matches Some(h) ==> h.wf())
        &&& end matches PollEnd::Yield(h) ==> h.wf()
        &&& end matches PollEnd::Idle(h) ==> h.wf()
    }

    /// The harness of the cell at `cell`.
    pub fn from_raw(cell: Box<Cell<T, O, S, P>>) -> (harness: Self)
        ensures
            harness.cell == cell,
    {
        Harness { cell }
    }

    /// Whether the cell is well formed, looked up in the cell itself.
    pub fn check(&self) -> (ok: bool)
        ensures
            ok == self.wf(),
    {
        let snapshot = self.cell.header.state.load();
        let running = match &self.cell.core.stage {
            Stage::Running(_) => true,
            _ => false,
        };
        self.check_word() && (snapshot.is_complete() != running)
    }

    /// Whether the state word and the join waker slot are consistent,
    /// looked up in the cell itself.
    pub fn check_word(&self) -> (ok: bool)
        ensures
            ok == self.wf_word(),
    {
        let snapshot = self.cell.header.state.load();
        proof {
            snapshot.lemma_ref_count_bounded();
        }
        let flags = (!snapshot.has_join_waker() || snapshot.is_join_interested()) && !(
        snapshot.is_running() && snapshot.is_complete());
        let slot = !snapshot.has_join_waker() || self.cell.trailer.waker.is_some();
        flags && slot
    }

    /// Frees the cell, with whatever the stage and the waker slot hold.
    pub fn dealloc(self) {
        let _ = self;
    }

    /// Releases one reference; frees the cell if it was the last.
    pub fn drop_reference(self) -> (rest: Option<Self>)
        requires
            self.life().ref_count >= 1,
        ensures
            rest is None <==> self.life().ref_count == 1,
            rest matches Some(h) ==> h.life() == self.life().ref_dec() && self.same_but_state(&h),
            rest matches Some(h) ==> (self.wf() ==> h.wf()),
    {
        let mut this = self;
        if this.cell.header.state.ref_dec() {
            this.dealloc();
            None
        } else {
            Some(this)
        }
    }

    /// Latches a wake-up. Returns `true` exactly when the task was idle and
    /// not yet notified: the caller must then queue it on its scheduler.
    pub fn wake_by_ref(&mut self) -> (must_schedule: bool)
        ensures
            must_schedule == old(self).life().will_need_queueing(),
            final(self).life() == old(self).life().transition_to_notified(),
            old(self).same_but_state(final(self)),
            old(self).wf() ==> final(self).wf(),
    {
        self.cell.header.state.transition_to_notified()
    }

    /// Latches a wake-up as `wake_by_ref` does, then releases the waker's
    /// reference.
    pub fn wake_by_val(self) -> (res: (Option<Self>, bool))
        requires
            self.life().ref_count >= 1,
        ensures
            res.1 == self.life().will_need_queueing(),
            res.0 is None <==> self.life().ref_count == 1,
            res.0 matches Some(h) ==> h.life() == self.life().transition_to_notified().ref_dec()
                && self.same_but_state(&h),
            res.0 matches Some(h) ==> (self.wf() ==> h.wf()),
    {
        let mut this = self;
        let must_schedule = this.wake_by_ref();
        (this.drop_reference(), must_schedule)
    }

    /// Wakes whoever awaits the join handle.
    fn wake_join(&self)
        requires
            self.cell.trailer.waker is Some,
    {
        match &self.cell.trailer.waker {
            Some(w) => waker::std_wake_by_ref(w),
            None => {},
        }
    }

    /// Marks the task complete once its output is stored. If the join handle
    /// went away meanwhile the output is dropped again; if it left a waker,
    /// the waker is woken. Returns whether it was.
    fn transition_to_complete(&mut self) -> (join_woken: bool)
        requires
            old(self).life().join_waker ==> old(self).cell.trailer.waker is Some,
        ensures
            final(self).life() == old(self).life().transition_to_complete(),
            join_woken == (old(self).life().join_interest && old(self).life().join_waker),
            old(self).same_but_state_and_stage(final(self)),
            old(self).life().join_interest ==> final(self).cell.core.stage == old(
                self,
            ).cell.core.stage,
            !old(self).life().join_interest ==> final(self).cell.core.stage is Consumed,
    {
        let snapshot = self.cell.header.state.transition_to_complete();
        if !snapshot.is_join_interested() {
            self.cell.core.drop_future_or_output();
            false
        } else if snapshot.has_join_waker() {
            self.wake_join();
            true
        } else {
            false
        }
    }

    /// Ends the task with `output`. The output is stored if
    /// `is_join_interested`, and the task marked complete; the scheduler is
    /// asked to give up its handle; the reference of the poll, and the
    /// scheduler's if it gave it up, are released; the cell is freed if
    /// none is left.
    pub fn complete<F: FnOnce(&S) -> bool>(
        self,
        output: Result<O, P>,
        is_join_interested: bool,
        release: F,
    ) -> (done: Completion<T, O, S, P>)
        requires
            self.life().wf(),
            self.life().join_waker ==> self.cell.trailer.waker is Some,
            !is_join_interested ==> !(self.cell.core.stage is Running),
            self.holds_own_refs(),
            self.may_release(release),
        ensures
            exists|released: bool| #[trigger]
                self.released_by(release, released) && self.completes(
                    output,
                    is_join_interested,
                    released,
                    done,
                ),
            done.harness matches Some(h) ==> h.wf(),
    {
        let mut this = self;
        let mut join_woken = false;
        if is_join_interested {
            this.cell.core.store_output(output);
            join_woken = this.transition_to_complete();
        }
        let ref_dec = this.cell.core.release(release);
        let snapshot = this.cell.header.state.transition_to_terminal(!is_join_interested, ref_dec);
        let done = if snapshot.ref_count() == 0 {
            this.dealloc();
            Completion { harness: None, join_woken }
        } else {
            Completion { harness: Some(this), join_woken }
        };
        proof {
            assert(self.released_by(release, ref_dec));
            assert(self.completes(output, is_join_interested, ref_dec, done));
        }
        done
    }

    /// Cancels a task that was claimed for it and whose future the caller
    /// has dropped: completes the task with the cancelled error, or, if
    /// the drop panicked, with the panic error of its payload.
    pub fn cancel_task<F: FnOnce(&S) -> bool>(
        self,
        dropped: std::result::Result<(), P>,
        release: F,
    ) -> (done: Completion<T, O, S, P>)
        requires
            self.wf_word(),
            self.cell.core.stage is Consumed,
            self.holds_own_refs(),
            self.may_release(release),
        ensures
            exists|released: bool| #[trigger]
                self.released_by(release, released) && self.cancelled_with(
                    dropped,
                    true,
                    released,
                    done,
                ),
            done.harness matches Some(h) ==> h.wf(),
    {
        let output = match dropped {
            Ok(_) => Err(JoinError::cancelled()),
            Err(payload) => Err(JoinError::panic(payload)),
        };
        let done = self.complete(output, true, release);
        proof {
            let released = choose|released: bool| #[trigger]
                self.released_by(release, released) && self.completes(
                    Self::cancel_output(dropped),
                    true,
                    released,
                    done,
                );
            assert(self.cancelled_with(dropped, true, released, done));
        }
        done
    }

    /// Ends a poll that never began: the task was claimed by `poll` but
    /// found cancelled, and the caller has dropped its future. Completes
    /// the task as `cancel_task` does, storing the error only if `snapshot`,
    /// the one `poll` handed out, shows join interest.
    pub fn cancel_poll<F: FnOnce(&S) -> bool>(
        self,
        snapshot: Snapshot,
        dropped: std::result::Result<(), P>,
        release: F,
    ) -> (done: Completion<T, O, S, P>)
        requires
            self.wf_word(),
            self.cell.core.stage is Consumed,
            self.holds_own_refs(),
            self.may_release(release),
        ensures
            exists|released: bool| #[trigger]
                self.released_by(release, released) && self.cancelled_with(
                    dropped,
                    snapshot@.join_interest,
                    released,
                    done,
                ),
            done.harness matches Some(h) ==> h.wf(),
    {
        let output = match dropped {
            Ok(_) => Err(JoinError::cancelled()),
            Err(payload) => Err(JoinError::panic(payload)),
        };
        let is_join_interested = snapshot.is_join_interested();
        let done = self.complete(output, is_join_interested, release);
        proof {
            let released = choose|released: bool| #[trigger]
                self.released_by(release, released) && self.completes(
                    Self::cancel_output(dropped),
                    is_join_interested,
                    released,
                    done,
                );
            assert(self.cancelled_with(dropped, is_join_interested, released, done));
        }
        done
    }

    /// Requests the cancellation of the task. If the task is running, the
    /// poll in progress will find the request; if it is complete, or was
    /// cancelled before, nothing more happens. If the task is idle the
    /// call claims it: the future is taken out of the cell and handed to
    /// the caller, who drops it and reports to `cancel_task`.
    pub fn shutdown(self) -> (started: Shutdown<T, O, S, P>)
        requires
            self.wf(),
            self.life().is_idle() && self.life().notified ==> self.life().ref_count
                < super::state::ref_count_max(),
        ensures
            self.shuts_down(started),
    {
        let mut this = self;
        if !this.cell.header.state.transition_to_shutdown() {
            return Shutdown::Requested(this);
        }
        let future = this.cell.core.take_future();
        Shutdown::Cancel(this, future)
    }

    /// Claims the task for one poll. If the task is running or complete the
    /// caller's reference is dropped. Otherwise the task is set running and,
    /// on its first poll, bound to the scheduler that `bind` hands out; the
    /// caller then polls the future and reports to `finish_poll`. A claimed
    /// task that is cancelled is not polled: its future is taken out of
    /// the cell for the caller to drop, who then reports to `cancel_poll`.
    pub fn poll<B: FnOnce() -> S>(self, bind: B) -> (start: PollStart<T, O, S, P>)
        requires
            self.wf(),
            self.life().ref_count >= 1,
            self.life().is_idle() && self.cell.core.scheduler is None ==> self.life().ref_count
                < super::state::ref_count_max(),
            self.cell.core.scheduler is None ==> call_requires(bind, ()),
        ensures
            self.polled(bind, start),
    {
        let mut this = self;
        let ref_inc = !this.cell.core.is_bound();
        let snapshot = match this.cell.header.state.transition_to_running(ref_inc) {
            Ok(snapshot) => snapshot,
            Err(_) => {
                return PollStart::Dropped(this.drop_reference());
            },
        };
        this.cell.core.bind_scheduler(bind);
        if snapshot.is_cancelled() {
            let future = this.cell.core.take_future();
            PollStart::Cancelled(this, snapshot, future)
        } else {
            PollStart::Run(this, snapshot)
        }
    }

    /// Ends the poll that `poll` began. `snapshot` is the one `poll` handed
    /// out; `res` is what polling the future gave, `Err` standing for a
    /// panic with its payload, be it of the poll or of the drop of the
    /// future after it. On `Ready` and on a panic the caller has taken the
    /// future out of the cell and dropped it, and the task is completed; on
    /// `Pending` the future is in place and the task goes back to idle, or,
    /// if it was cancelled during the poll, its future is taken out for
    /// the caller to drop, who then reports to `cancel_task`.
    pub fn finish_poll<F: FnOnce(&S) -> bool>(
        self,
        snapshot: Snapshot,
        res: std::result::Result<Poll<O>, P>,
        release: F,
    ) -> (end: PollEnd<T, O, S, P>)
        requires
            self.wf_word(),
            self.life().running,
            res is Ok && res->Ok_0 is Pending ==> self.cell.core.stage is Running,
            !(res is Ok && res->Ok_0 is Pending) ==> self.cell.core.stage is Consumed,
            self.holds_own_refs(),
            self.may_release(release),
        ensures
            self.poll_finished(snapshot, res, release, end),
    {
        let mut this = self;
        let is_join_interested = snapshot.is_join_interested();
        match res {
            Ok(Poll::Ready(out)) => {
                let done = this.complete(Ok(out), is_join_interested, release);
                proof {
                    let released = choose|released: bool| #[trigger]
                        self.released_by(release, released) && self.completes(
                            Ok(out),
                            is_join_interested,
                            released,
                            done,
                        );
                    assert(self.ends_with(Ok(out), is_join_interested, released, done));
                }
                PollEnd::Complete(done)
            },
            Ok(Poll::Pending) => {
                match this.cell.header.state.transition_to_idle() {
                    Ok(snapshot) => {
                        if snapshot.is_notified() {
                            PollEnd::Yield(this)
                        } else {
                            PollEnd::Idle(this)
                        }
                    },
                    Err(_) => {
                        let future = this.cell.core.take_future();
                        PollEnd::Cancelled(this, future)
                    },
                }
            },
            Err(payload) => {
                let done = this.complete(
                    Err(JoinError::panic(payload)),
                    is_join_interested,
                    release,
                );
                proof {
                    let released = choose|released: bool| #[trigger]
                        self.released_by(release, released) && self.completes(
                            Err(JoinError::spec_panic(payload)),
                            is_join_interested,
                            released,
                            done,
                        );
                    assert(self.ends_with(
                        Err(JoinError::spec_panic(payload)),
                        is_join_interested,
                        released,
                        done,
                    ));
                }
                PollEnd::Complete(done)
            },
        }
    }

    /// Puts `waker` into the join waker slot and announces it in the state
    /// word. If the task has completed meanwhile the slot is emptied again
    /// and the call fails. `snapshot` is what the caller last saw.
    pub fn set_join_waker(&mut self, waker: Waker, snapshot: Snapshot) -> (res: std::result::Result<
        Snapshot,
        Snapshot,
    >)
        requires
            snapshot@.join_interest,
            !snapshot@.join_waker,
        ensures
            res is Ok <==> !old(self).life().complete,
            res matches Ok(next) ==> next@ == final(self).life(),
            res matches Err(curr) ==> curr@ == final(self).life(),
            final(self).life() == old(self).life().set_join_waker(),
            final(self).cell.trailer.waker == (if old(self).life().complete {
                None
            } else {
                Some(waker)
            }),
            final(self).cell.header.owned == old(self).cell.header.owned,
            final(self).cell.header.queue_next == old(self).cell.header.queue_next,
            final(self).cell.header.stack_next == old(self).cell.header.stack_next,
            final(self).cell.core == old(self).cell.core,
    {
        self.cell.trailer.waker = Some(waker);
        let res = self.cell.header.state.set_join_waker();
        if res.is_err() {
            self.cell.trailer.waker = None;
        }
        res
    }

    /// Whether the join waker slot is left as it is: it is when it holds a
    /// waker already and that waker wakes the task that asks, as
    /// `will_wake` says.
    pub fn keeps_join_waker(snapshot: Snapshot, will_wake: bool) -> (keep: bool)
        ensures
            keep == (snapshot@.join_waker && will_wake),
    {
        snapshot.has_join_waker() && will_wake
    }

    /// Makes `fresh` the join waker: a waker that is there is withdrawn
    /// from the state word first, then `fresh` is put into the slot and
    /// announced. Fails once the task is complete: then the word is left
    /// alone, and the slot too if it held a waker; an empty slot stays
    /// empty. `snapshot` is what the caller last saw.
    pub fn replace_join_waker(&mut self, fresh: Waker, snapshot: Snapshot) -> (res:
        std::result::Result<Snapshot, Snapshot>)
        requires
            snapshot@.join_interest,
            old(self).life().join_interest,
        ensures
            res is Ok <==> !old(self).life().complete,
            res matches Ok(next) ==> next@ == final(self).life(),
            res matches Err(curr) ==> curr@ == final(self).life(),
            !old(self).life().complete ==> final(self).life() == (Lifecycle {
                join_waker: true,
                ..old(self).life()
            }) && final(self).cell.trailer.waker == Some(fresh),
            old(self).life().complete ==> final(self).life() == old(self).life()
                && final(self).cell.trailer.waker == (if snapshot@.join_waker {
                old(self).cell.trailer.waker
            } else {
                None
            }),
            final(self).cell.header.owned == old(self).cell.header.owned,
            final(self).cell.header.queue_next == old(self).cell.header.queue_next,
            final(self).cell.header.stack_next == old(self).cell.header.stack_next,
            final(self).cell.core == old(self).cell.core,
    {
        if snapshot.has_join_waker() {
            match self.cell.header.state.unset_waker() {
                Ok(snapshot) => self.set_join_waker(fresh, snapshot),
                Err(snapshot) => Err(snapshot),
            }
        } else {
            self.set_join_waker(fresh, snapshot)
        }
    }

    /// The join side asks for the output. If the task is complete the
    /// output moves into `dst` as `Ready`. Otherwise `dst` is left alone and
    /// the join waker slot is made to hold a waker that wakes the task of
    /// `waker`: the one already there if it does, a copy of `waker` if not.
    pub fn try_read_output(&mut self, dst: &mut Poll<Result<O, P>>, waker: &Waker)
        requires
            old(self).wf(),
            old(self).life().join_interest,
            old(self).life().complete ==> old(self).cell.core.stage is Finished,
        ensures
            final(self).wf(),
            old(self).life().complete ==> {
                &&& old(self).same_but_state_and_stage(final(self))
                &&& *final(dst) == Poll::Ready(old(self).cell.core.stage->Finished_0)
                &&& final(self).cell.core.stage is Consumed
                &&& final(self).life() == old(self).life()
            },
            !old(self).life().complete ==> {
                &&& *final(dst) == *old(dst)
                &&& final(self).life() == (Lifecycle { join_waker: true, ..old(self).life() })
                &&& final(self).cell.trailer.waker is Some
                &&& final(self).cell.core == old(self).cell.core
                &&& final(self).cell.header.owned == old(self).cell.header.owned
                &&& final(self).cell.header.queue_next == old(self).cell.header.queue_next
                &&& final(self).cell.header.stack_next == old(self).cell.header.stack_next
            },
    {
        let snapshot = self.cell.header.state.load();
        if !snapshot.is_complete() {
            let will_wake = if snapshot.has_join_waker() {
                match &self.cell.trailer.waker {
                    Some(w) => waker::std_will_wake(w, waker),
                    None => false,
                }
            } else {
                false
            };
            if Self::keeps_join_waker(snapshot, will_wake) {
                return ;
            }
            match self.replace_join_waker(waker::std_clone(waker), snapshot) {
                Ok(_) => {
                    return ;
                },
                Err(_) => {},
            }
        }
        *dst = Poll::Ready(self.cell.core.take_output());
    }

    /// The join handle goes away and the cheap way failed. The join interest
    /// is withdrawn and the waker slot emptied; if the task is complete
    /// already, the output that nobody will read is dropped instead. Then
    /// the handle's reference is released.
    pub fn drop_join_handle_slow(self) -> (rest: Option<Self>)
        requires
            self.life().ref_count >= 1,
        ensures
            rest is None <==> self.life().ref_count == 1,
            rest matches Some(h) ==> {
                &&& h.life() == self.life().unset_join_interested().ref_dec()
                &&& h.cell.header.owned == self.cell.header.owned
                &&& h.cell.header.queue_next == self.cell.header.queue_next
                &&& h.cell.header.stack_next == self.cell.header.stack_next
                &&& h.cell.core.scheduler == self.cell.core.scheduler
                &&& self.life().complete ==> h.cell.core.stage is Consumed && h.cell.trailer
                    == self.cell.trailer
                &&& !self.life().complete ==> h.cell.core.stage == self.cell.core.stage
                    && h.cell.trailer.waker is None
                &&& self.wf() ==> h.wf()
            },
    {
        let mut this = self;
        if this.cell.header.state.unset_join_interested().is_err() {
            this.cell.core.drop_future_or_output();
        } else {
            this.cell.trailer.waker = None;
        }
        this.drop_reference()
    }
}

} // verus!
