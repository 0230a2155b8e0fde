//! The reference protocol of a task, as a transition system.
//!
//! The operations of the harness are the steps. Who holds a reference is
//! written down next to the state word, and the invariant ties the two
//! together: the count in the word is the number of holders. From it follow
//! the laws at the end of the file: the cell is freed once, when the count
//! reaches zero and never under a running poll; at most one poll runs; a
//! wake-up during a poll is answered by one yield; a stored output outlives
//! every handle but the join handle.

use vstd::prelude::*;

use std::task::Poll;

use super::cell::Stage;
use super::harness::{Completion, Harness, PollEnd, PollStart, Shutdown};
use super::state::{ref_count_max, Lifecycle, Snapshot};

verus! {

/// What the stage holds.
pub enum StageKind {
    Running,
    Finished,
    Consumed,
}

/// The holders of references to one cell.
pub struct Holders {
    /// Notifications waiting in a run queue.
    pub queued: nat,
    /// Polls in progress; each was started from a notification and carries
    /// its reference.
    pub polls: nat,
    /// The task is idle with no notification: the reference that the next
    /// notification will carry rests with the task.
    pub parked: bool,
    /// The handle in the scheduler's set of owned tasks.
    pub owned: bool,
    /// The join handle.
    pub join: bool,
    /// Owned wakers.
    pub wakers: nat,
}

impl Holders {
    pub open spec fn count(self) -> nat {
        self.queued + self.polls + (if self.parked {
            1nat
        } else {
            0nat
        }) + (if self.owned {
            1nat
        } else {
            0nat
        }) + (if self.join {
            1nat
        } else {
            0nat
        }) + self.wakers
    }
}

/// One task with its holders.
pub struct TaskModel {
    pub life: Lifecycle,
    pub stage: StageKind,
    /// A scheduler is bound.
    pub bound: bool,
    /// The join interest that the poll in progress saw when it began.
    pub seen_join_interest: bool,
    pub holders: Holders,
    /// The cell has been freed.
    pub freed: bool,
}

/// One operation on a task.
pub enum Step {
    /// A queued notification is run: `Harness::poll`.
    Run,
    /// The poll in progress ends with an output or a panic.
    Ready { released: bool },
    /// The poll in progress ends pending.
    Pending { released: bool },
    /// A waker, owned or borrowed, is woken by reference.
    WakeByRef,
    /// An owned waker is woken and consumed.
    WakeByVal,
    /// A waker, owned or borrowed, is cloned.
    CloneWaker,
    /// An owned waker is dropped.
    DropWaker,
    /// The join handle is polled.
    JoinPoll,
    /// The join handle is dropped.
    JoinDrop,
    /// The scheduler shuts the task down through its handle.
    Shutdown { released: bool },
    /// The scheduler drops the handle it kept past the end of the task.
    DropOwned,
}

impl TaskModel {
    /// A task as `joinable` makes it: one notification queued, the join
    /// handle alive.
    pub open spec fn spawned() -> TaskModel {
        TaskModel {
            life: Lifecycle::initial(),
            stage: StageKind::Running,
            bound: false,
            seen_join_interest: false,
            holders: Holders {
                queued: 1,
                polls: 0,
                parked: false,
                owned: false,
                join: true,
                wakers: 0,
            },
            freed: false,
        }
    }

    /// The step can be taken: the handle it goes through exists.
    pub open spec fn enabled(self, step: Step) -> bool {
        match step {
            Step::Run => self.holders.queued >= 1 && (self.life.is_idle() && !self.bound
                ==> self.life.ref_count < ref_count_max()),
            Step::Ready { released } => self.holders.polls >= 1 && (released
                ==> self.holders.owned),
            Step::Pending { released } => self.holders.polls >= 1 && (released
                ==> self.holders.owned),
            Step::WakeByRef => self.holders.wakers >= 1 || self.holders.polls >= 1,
            Step::WakeByVal => self.holders.wakers >= 1,
            Step::CloneWaker => (self.holders.wakers >= 1 || self.holders.polls >= 1)
                && self.life.ref_count < ref_count_max(),
            Step::DropWaker => self.holders.wakers >= 1,
            Step::JoinPoll => self.holders.join && (self.life.complete ==> self.stage
                is Finished),
            Step::JoinDrop => self.holders.join,
            Step::Shutdown { released } => self.holders.owned && (self.life.is_idle()
                && self.life.notified ==> self.life.ref_count < ref_count_max()),
            Step::DropOwned => self.holders.owned && self.life.complete,
        }
    }

    /// One reference is released; the cell is freed if it was the last.
    pub open spec fn drop_reference(self) -> TaskModel {
        TaskModel { life: self.life.ref_dec(), freed: self.life.ref_count == 1, ..self }
    }

    /// The task is completed by whoever holds the poll's reference.
    pub open spec fn complete(self, is_join_interested: bool, released: bool) -> TaskModel {
        let life = self.life.complete_with(is_join_interested, released);
        TaskModel {
            life,
            stage: if is_join_interested && self.life.join_interest {
                StageKind::Finished
            } else {
                StageKind::Consumed
            },
            holders: Holders { owned: self.holders.owned && !released, ..self.holders },
            freed: life.ref_count == 0,
            ..self
        }
    }

    /// A wake-up is latched; a notification is queued if the task was idle
    /// and had none.
    pub open spec fn wake(self) -> TaskModel {
        let must_schedule = self.life.will_need_queueing();
        TaskModel {
            life: self.life.transition_to_notified(),
            holders: if must_schedule {
                Holders { queued: self.holders.queued + 1, parked: false, ..self.holders }
            } else {
                self.holders
            },
            ..self
        }
    }

    /// The task after `step`.
    pub open spec fn next(self, step: Step) -> TaskModel {
        match step {
            Step::Run => {
                let taken = TaskModel {
                    holders: Holders {
                        queued: (self.holders.queued - 1) as nat,
                        ..self.holders
                    },
                    ..self
                };
                if self.life.is_idle() {
                    TaskModel {
                        life: self.life.transition_to_running(!self.bound),
                        bound: true,
                        seen_join_interest: self.life.join_interest,
                        holders: Holders {
                            polls: taken.holders.polls + 1,
                            owned: true,
                            ..taken.holders
                        },
                        ..taken
                    }
                } else {
                    taken.drop_reference()
                }
            },
            Step::Ready { released } => {
                let ended = TaskModel {
                    holders: Holders { polls: (self.holders.polls - 1) as nat, ..self.holders },
                    ..self
                };
                ended.complete(self.seen_join_interest, released)
            },
            Step::Pending { released } => {
                let ended = TaskModel {
                    holders: Holders { polls: (self.holders.polls - 1) as nat, ..self.holders },
                    ..self
                };
                if self.life.cancelled {
                    ended.complete(true, released)
                } else {
                    TaskModel {
                        life: self.life.transition_to_idle(),
                        holders: if self.life.notified {
                            Holders { queued: ended.holders.queued + 1, ..ended.holders }
                        } else {
                            Holders { parked: true, ..ended.holders }
                        },
                        ..ended
                    }
                }
            },
            Step::WakeByRef => self.wake(),
            Step::WakeByVal => {
                let woken = self.wake();
                (TaskModel {
                    holders: Holders {
                        wakers: (woken.holders.wakers - 1) as nat,
                        ..woken.holders
                    },
                    ..woken
                }).drop_reference()
            },
            Step::CloneWaker => TaskModel {
                life: self.life.ref_inc(),
                holders: Holders { wakers: self.holders.wakers + 1, ..self.holders },
                ..self
            },
            Step::DropWaker => (TaskModel {
                holders: Holders { wakers: (self.holders.wakers - 1) as nat, ..self.holders },
                ..self
            }).drop_reference(),
            Step::JoinPoll => if self.life.complete {
                TaskModel { stage: StageKind::Consumed, ..self }
            } else {
                TaskModel { life: Lifecycle { join_waker: true, ..self.life }, ..self }
            },
            Step::JoinDrop => TaskModel {
                life: self.life.unset_join_interested().ref_dec(),
                stage: if self.life.complete {
                    StageKind::Consumed
                } else {
                    self.stage
                },
                holders: Holders { join: false, ..self.holders },
                freed: self.life.ref_count == 1,
                ..self
            },
            Step::Shutdown { released } => if self.life.is_idle() {
                (TaskModel {
                    life: self.life.transition_to_shutdown(),
                    holders: Holders { parked: false, ..self.holders },
                    ..self
                }).complete(true, released)
            } else {
                TaskModel { life: self.life.transition_to_shutdown(), ..self }
            },
            Step::DropOwned => (TaskModel {
                holders: Holders { owned: false, ..self.holders },
                ..self
            }).drop_reference(),
        }
    }

    /// What holds of a task after any sequence of steps.
    pub open spec fn inv(self) -> bool {
        if self.freed {
            self.holders.count() == 0
        } else {
            &&& self.life.wf()
            &&& self.life.claimed_if_cancelled()
            &&& self.life.ref_count == self.holders.count()
            &&& self.holders.count() >= 1
            &&& self.holders.polls == (if self.life.running {
                1nat
            } else {
                0nat
            })
            &&& self.holders.parked == (self.life.is_idle() && !self.life.notified)
            &&& self.holders.queued <= 1
            &&& !self.life.complete ==> self.holders.queued == (if self.life.is_idle()
                && self.life.notified {
                1nat
            } else {
                0nat
            })
            &&& self.holders.join ==> self.life.join_interest
            &&& !self.life.complete && self.life.join_interest ==> self.holders.join
            &&& self.holders.owned ==> self.bound
            &&& self.bound && !self.life.complete ==> self.holders.owned
            &&& self.holders.parked || self.life.running ==> self.bound
            &&& self.life.complete <==> !(self.stage is Running)
            &&& self.stage is Finished ==> self.holders.join
            &&& self.life.running && !self.seen_join_interest ==> !self.life.join_interest
        }
    }

    /// The task after the steps of `trace`, in order.
    pub open spec fn run(self, trace: Seq<Step>) -> TaskModel
        decreases trace.len(),
    {
        if trace.len() == 0 {
            self
        } else {
            self.run(trace.drop_last()).next(trace.last())
        }
    }

    /// Every step of `trace` can be taken when its turn comes.
    pub open spec fn admits(self, trace: Seq<Step>) -> bool
        decreases trace.len(),
    {
        trace.len() > 0 ==> self.admits(trace.drop_last()) && self.run(trace.drop_last()).enabled(
            trace.last(),
        )
    }
}

/// A spawned task satisfies the invariant.
pub proof fn lemma_spawned_inv()
    ensures
        TaskModel::spawned().inv(),
{
}

proof fn lemma_inv_run(task: TaskModel)
    requires
        task.inv(),
        task.enabled(Step::Run),
    ensures
        task.next(Step::Run).inv(),
{
}

proof fn lemma_inv_ready(task: TaskModel, released: bool)
    requires
        task.inv(),
        task.enabled(Step::Ready { released }),
    ensures
        task.next(Step::Ready { released }).inv(),
{
}

proof fn lemma_inv_pending(task: TaskModel, released: bool)
    requires
        task.inv(),
        task.enabled(Step::Pending { released }),
    ensures
        task.next(Step::Pending { released }).inv(),
{
}

proof fn lemma_inv_wake_by_ref(task: TaskModel)
    requires
        task.inv(),
        task.enabled(Step::WakeByRef),
    ensures
        task.next(Step::WakeByRef).inv(),
{
}

proof fn lemma_inv_wake_by_val(task: TaskModel)
    requires
        task.inv(),
        task.enabled(Step::WakeByVal),
    ensures
        task.next(Step::WakeByVal).inv(),
{
}

proof fn lemma_inv_clone_waker(task: TaskModel)
    requires
        task.inv(),
        task.enabled(Step::CloneWaker),
    ensures
        task.next(Step::CloneWaker).inv(),
{
}

proof fn lemma_inv_drop_waker(task: TaskModel)
    requires
        task.inv(),
        task.enabled(Step::DropWaker),
    ensures
        task.next(Step::DropWaker).inv(),
{
}

proof fn lemma_inv_join_poll(task: TaskModel)
    requires
        task.inv(),
        task.enabled(Step::JoinPoll),
    ensures
        task.next(Step::JoinPoll).inv(),
{
}

proof fn lemma_inv_join_drop(task: TaskModel)
    requires
        task.inv(),
        task.enabled(Step::JoinDrop),
    ensures
        task.next(Step::JoinDrop).inv(),
{
}

proof fn lemma_inv_shutdown(task: TaskModel, released: bool)
    requires
        task.inv(),
        task.enabled(Step::Shutdown { released }),
    ensures
        task.next(Step::Shutdown { released }).inv(),
{
}

proof fn lemma_inv_drop_owned(task: TaskModel)
    requires
        task.inv(),
        task.enabled(Step::DropOwned),
    ensures
        task.next(Step::DropOwned).inv(),
{
}

/// Every step keeps the invariant.
pub proof fn lemma_step_inv(task: TaskModel, step: Step)
    requires
        task.inv(),
        task.enabled(step),
    ensures
        task.next(step).inv(),
{
    match step {
        Step::Run => lemma_inv_run(task),
        Step::Ready { released } => lemma_inv_ready(task, released),
        Step::Pending { released } => lemma_inv_pending(task, released),
        Step::WakeByRef => lemma_inv_wake_by_ref(task),
        Step::WakeByVal => lemma_inv_wake_by_val(task),
        Step::CloneWaker => lemma_inv_clone_waker(task),
        Step::DropWaker => lemma_inv_drop_waker(task),
        Step::JoinPoll => lemma_inv_join_poll(task),
        Step::JoinDrop => lemma_inv_join_drop(task),
        Step::Shutdown { released } => lemma_inv_shutdown(task, released),
        Step::DropOwned => lemma_inv_drop_owned(task),
    }
}

/// The invariant holds after every sequence of steps from a spawned task.
pub proof fn lemma_reachable_inv(trace: Seq<Step>)
    requires
        TaskModel::spawned().admits(trace),
    ensures
        TaskModel::spawned().run(trace).inv(),
    decreases trace.len(),
{
    if trace.len() > 0 {
        lemma_reachable_inv(trace.drop_last());
        lemma_step_inv(TaskModel::spawned().run(trace.drop_last()), trace.last());
    }
}

/// While any handle exists the count is at least one, and the count in the
/// state word is the number of handles.
pub proof fn lemma_count_is_holders(task: TaskModel)
    requires
        task.inv(),
        !task.freed,
    ensures
        task.life.ref_count == task.holders.count(),
        task.life.ref_count >= 1,
{
}

/// The cell is freed by the step that brings the count to zero, by no
/// other, and never while a poll is running.
pub proof fn lemma_freed_at_zero(task: TaskModel, step: Step)
    requires
        task.inv(),
        task.enabled(step),
    ensures
        !task.freed,
        task.next(step).freed <==> task.next(step).life.ref_count == 0,
        task.next(step).freed ==> !task.next(step).life.running,
{
}

/// Once the cell is freed no handle is left, so no step can be taken: the
/// cell is not used again and not freed a second time.
pub proof fn lemma_freed_is_final(task: TaskModel, step: Step)
    requires
        task.inv(),
        task.freed,
    ensures
        !task.enabled(step),
{
}

/// Every step meets what the operation behind it asks of the count: there
/// is a reference to release wherever one is released.
pub proof fn lemma_step_has_reference(task: TaskModel, step: Step)
    requires
        task.inv(),
        task.enabled(step),
    ensures
        task.life.ref_count >= 1,
        step is Ready || step is Pending || (step is Shutdown && task.life.is_idle())
            ==> task.life.ref_count >= (if task.bound {
            2nat
        } else {
            1nat
        }),
{
}

/// At most one poll of a task is in progress. A notification that is run
/// while a poll is in progress starts no second one: it is dropped.
pub proof fn lemma_one_poll(task: TaskModel)
    requires
        task.inv(),
    ensures
        task.holders.polls <= 1,
        task.enabled(Step::Run) && task.holders.polls == 1 ==> task.next(Step::Run).holders.polls
            == 1,
        task.enabled(Step::Run) ==> task.next(Step::Run).holders.polls <= 1,
{
}

/// A wake-up that arrives during a poll queues nothing itself, however
/// often it is repeated; the poll, ending pending, yields the task once;
/// and a wake-up after that queues nothing more.
pub proof fn lemma_wake_during_poll(task: TaskModel, released: bool)
    requires
        task.inv(),
        task.holders.polls >= 1,
        !task.life.cancelled,
    ensures
        !task.life.will_need_queueing(),
        task.next(Step::WakeByRef).holders.queued == 0,
        task.next(Step::WakeByRef).next(Step::WakeByRef) == task.next(Step::WakeByRef),
        task.next(Step::WakeByRef).next(Step::Pending { released }).holders.queued == 1,
        task.next(Step::WakeByRef).next(Step::Pending { released }).next(
            Step::WakeByRef,
        ).holders.queued == 1,
        !task.life.notified ==> task.next(Step::Pending { released }).holders.queued == 0,
{
}

/// An output that was stored stays in place, and the cell alive, through
/// every step but those of the join handle itself.
pub proof fn lemma_output_kept(task: TaskModel, step: Step)
    requires
        task.inv(),
        task.stage is Finished,
        task.enabled(step),
        !(step is JoinPoll),
        !(step is JoinDrop),
    ensures
        task.next(step).stage is Finished,
        !task.next(step).freed,
{
}

/// The output is stored whenever the join interest is still set when the
/// task completes.
pub proof fn lemma_output_stored(task: TaskModel, released: bool)
    requires
        task.inv(),
        task.enabled(Step::Ready { released }),
        task.life.join_interest,
    ensures
        task.next(Step::Ready { released }).stage is Finished,
        !task.next(Step::Ready { released }).freed,
{
}

/// A second shutdown changes nothing.
pub proof fn lemma_shutdown_idempotent(task: TaskModel, first: bool, second: bool)
    requires
        task.inv(),
        task.enabled(Step::Shutdown { released: first }),
    ensures
        !task.next(Step::Shutdown { released: first }).life.is_idle(),
        task.next(Step::Shutdown { released: first }).next(Step::Shutdown { released: second })
            == task.next(Step::Shutdown { released: first }),
{
}

/// Cloning a waker and dropping the clone leaves the task as it was.
pub proof fn lemma_clone_then_drop(task: TaskModel)
    requires
        task.inv(),
        task.enabled(Step::CloneWaker),
    ensures
        task.next(Step::CloneWaker).enabled(Step::DropWaker),
        task.next(Step::CloneWaker).next(Step::DropWaker) == task,
{
}

/// A cancelled task is not polled: running its notification drops it.
pub proof fn lemma_cancelled_not_polled(task: TaskModel)
    requires
        task.inv(),
        task.enabled(Step::Run),
        task.life.cancelled,
    ensures
        task.next(Step::Run).holders.polls == task.holders.polls,
        task.next(Step::Run).stage == task.stage,
{
}

/// Whenever a wake-up asks for the task to be queued, a scheduler is bound
/// to queue it on.
pub proof fn lemma_scheduler_bound_when_needed(task: TaskModel)
    requires
        task.inv(),
        !task.freed,
        task.life.will_need_queueing(),
    ensures
        task.bound,
{
}

/// What kind of thing a stage holds.
pub open spec fn kind_of<T, O, P>(stage: Stage<T, O, P>) -> StageKind {
    match stage {
        Stage::Running(_) => StageKind::Running,
        Stage::Finished(_) => StageKind::Finished,
        Stage::Consumed => StageKind::Consumed,
    }
}

impl TaskModel {
    /// The cell in `harness` is the cell of the task: alive, with the same
    /// state word, the same kind of stage, and bound if the task is.
    pub open spec fn describes<T, O, S, P>(self, harness: Harness<T, O, S, P>) -> bool {
        &&& !self.freed
        &&& harness.life() == self.life
        &&& kind_of(harness.cell.core.stage) == self.stage
        &&& harness.cell.core.scheduler is Some <==> self.bound
    }

    /// The cell in `harness` is the cell of the task but for its stage,
    /// which is out of step while the caller has the future to drop.
    pub open spec fn describes_word<T, O, S, P>(self, harness: Harness<T, O, S, P>) -> bool {
        &&& !self.freed
        &&& harness.life() == self.life
        &&& harness.cell.core.scheduler is Some <==> self.bound
    }

    /// What an operation handed back is what is left of the task: the
    /// cell, or nothing if it was freed.
    pub open spec fn describes_rest<T, O, S, P>(self, rest: Option<Harness<T, O, S, P>>) -> bool {
        match rest {
            Some(harness) => self.describes(harness),
            None => self.freed,
        }
    }

    /// A scheduler gives up only a handle that it holds.
    pub open spec fn releases_what_is_owned<T, O, S, P, F: FnOnce(&S) -> bool>(
        self,
        harness: Harness<T, O, S, P>,
        release: F,
    ) -> bool {
        forall|released: bool| #[trigger]
            harness.released_by(release, released) && released ==> self.holders.owned
    }
}

/// Running a notification through `Harness::poll` is the step `Run`, and
/// what comes back is the task after it. On a task in the protocol the
/// cancelled short cut is never taken.
pub proof fn lemma_poll_takes_run<T, O, S, P, B: FnOnce() -> S>(
    task: TaskModel,
    harness: Harness<T, O, S, P>,
    bind: B,
    start: PollStart<T, O, S, P>,
)
    requires
        task.inv(),
        task.describes(harness),
        task.enabled(Step::Run),
        harness.polled(bind, start),
    ensures
        !(start is Cancelled),
        start matches PollStart::Dropped(rest) ==> task.next(Step::Run).describes_rest(rest),
        start matches PollStart::Run(claimed, snapshot) ==> task.next(Step::Run).describes(claimed)
            && snapshot@.join_interest == task.next(Step::Run).seen_join_interest,
{
}

/// Ending a poll through `Harness::finish_poll` is the step `Ready` or the
/// step `Pending`, with the answer the scheduler gave, and what comes back
/// is the task after it. Where the poll ends pending on a cancelled task,
/// the step is finished by `Harness::cancel_task`.
pub proof fn lemma_finish_poll_takes_step<T, O, S, P, F: FnOnce(&S) -> bool>(
    task: TaskModel,
    harness: Harness<T, O, S, P>,
    snapshot: Snapshot,
    res: Result<Poll<O>, P>,
    release: F,
    end: PollEnd<T, O, S, P>,
)
    requires
        task.inv(),
        task.describes_word(harness),
        res is Ok && res->Ok_0 is Pending ==> task.describes(harness),
        task.holders.polls >= 1,
        snapshot@.join_interest == task.seen_join_interest,
        task.releases_what_is_owned(harness, release),
        harness.poll_finished(snapshot, res, release, end),
    ensures
        res is Ok && res->Ok_0 is Pending && !task.life.cancelled ==> task.enabled(
            Step::Pending { released: false },
        ) && match end {
            PollEnd::Idle(h) => task.next(Step::Pending { released: false }).describes(h)
                && task.next(Step::Pending { released: false }).holders.queued
                == task.holders.queued,
            PollEnd::Yield(h) => task.next(Step::Pending { released: false }).describes(h)
                && task.next(Step::Pending { released: false }).holders.queued
                == task.holders.queued + 1,
            _ => false,
        },
        res is Ok && res->Ok_0 is Pending && task.life.cancelled ==> (end
            matches PollEnd::Cancelled(h, future) && task.describes_word(h)
            && h.cell.core.stage is Consumed),
        !(res is Ok && res->Ok_0 is Pending) ==> exists|released: bool|
            #![trigger task.next(Step::Ready { released })]
            task.enabled(Step::Ready { released }) && (end matches PollEnd::Complete(done)
                && task.next(Step::Ready { released }).describes_rest(done.harness)),
{
    match res {
        Ok(Poll::Pending) => {},
        Ok(Poll::Ready(out)) => {
            let done = end->Complete_0;
            let released = choose|released: bool| #[trigger]
                harness.released_by(release, released) && harness.ends_with(
                    Ok(out),
                    snapshot@.join_interest,
                    released,
                    done,
                );
            assert(task.enabled(Step::Ready { released }));
            assert(task.next(Step::Ready { released }).describes_rest(done.harness));
        },
        Err(payload) => {
            let done = end->Complete_0;
            let released = choose|released: bool| #[trigger]
                harness.released_by(release, released) && harness.ends_with(
                    Err(super::error::JoinError::spec_panic(payload)),
                    snapshot@.join_interest,
                    released,
                    done,
                );
            assert(task.enabled(Step::Ready { released }));
            assert(task.next(Step::Ready { released }).describes_rest(done.harness));
        },
    }
}

/// A shutdown through `Harness::shutdown` is the step `Shutdown`. On a
/// task that is not idle what comes back is the task after it; on an idle
/// task the step is finished by `Harness::cancel_task`.
pub proof fn lemma_shutdown_takes_step<T, O, S, P>(
    task: TaskModel,
    harness: Harness<T, O, S, P>,
    started: Shutdown<T, O, S, P>,
)
    requires
        task.inv(),
        task.describes(harness),
        harness.shuts_down(started),
    ensures
        started matches Shutdown::Requested(h) ==> task.next(
            Step::Shutdown { released: false },
        ).describes(h),
        started matches Shutdown::Cancel(h, future) ==> task.life.is_idle() && h.life()
            == task.life.transition_to_shutdown() && h.cell.core.stage is Consumed && (
        h.cell.core.scheduler is Some <==> task.bound),
{
}

/// Cancelling a claimed task through `Harness::cancel_task` finishes the
/// step that claimed it, `Shutdown` on an idle task or `Pending` on a poll
/// that found the request, with the answer the scheduler gave; what comes
/// back is the task after the step, whether the drop of the future
/// panicked or not.
pub proof fn lemma_cancel_takes_step<T, O, S, P, F: FnOnce(&S) -> bool>(
    task: TaskModel,
    claimed: Harness<T, O, S, P>,
    dropped: Result<(), P>,
    release: F,
    done: Completion<T, O, S, P>,
)
    requires
        task.inv(),
        !task.freed,
        claimed.cell.core.scheduler is Some <==> task.bound,
        task.releases_what_is_owned(claimed, release),
        exists|released: bool| #[trigger]
            claimed.released_by(release, released) && claimed.cancelled_with(
                dropped,
                true,
                released,
                done,
            ),
    ensures
        task.life.is_idle() && claimed.life() == task.life.transition_to_shutdown() ==> exists|
            released: bool,
        |
            #![trigger task.next(Step::Shutdown { released })]
            task.next(Step::Shutdown { released }).describes_rest(done.harness),
        task.holders.polls >= 1 && task.life.cancelled && claimed.life() == task.life ==> exists|
            released: bool,
        |
            #![trigger task.next(Step::Pending { released })]
            task.enabled(Step::Pending { released }) && task.next(
                Step::Pending { released },
            ).describes_rest(done.harness),
{
    let released = choose|released: bool| #[trigger]
        claimed.released_by(release, released) && claimed.cancelled_with(
            dropped,
            true,
            released,
            done,
        );
    if task.life.is_idle() && claimed.life() == task.life.transition_to_shutdown() {
        assert(task.next(Step::Shutdown { released }).describes_rest(done.harness));
    }
    if task.holders.polls >= 1 && task.life.cancelled && claimed.life() == task.life {
        assert(task.enabled(Step::Pending { released }));
        assert(task.next(Step::Pending { released }).describes_rest(done.harness));
    }
}

/// The operations that only touch the state word are the steps of the
/// same name: what the harness has after a wake-up, a clone of a waker, a
/// poll of the join handle is the task after the step.
pub proof fn lemma_word_steps<T, O, S, P>(
    task: TaskModel,
    before: Harness<T, O, S, P>,
    after: Harness<T, O, S, P>,
)
    requires
        task.inv(),
        task.describes(before),
        before.same_but_state(&after),
    ensures
        after.life() == before.life().transition_to_notified() ==> task.next(
            Step::WakeByRef,
        ).describes(after) && (before.life().will_need_queueing() <==> task.next(
            Step::WakeByRef,
        ).holders.queued == task.holders.queued + 1),
        after.life() == before.life().ref_inc() ==> task.next(Step::CloneWaker).describes(after),
        !before.life().complete && after.life() == (Lifecycle {
            join_waker: true,
            ..before.life()
        }) ==> task.next(Step::JoinPoll).describes(after),
{
}

/// The operations that release a reference are the steps of the same
/// name: what comes back from dropping a waker, from a wake-up by value,
/// from dropping the scheduler's handle is the task after the step.
pub proof fn lemma_release_steps<T, O, S, P>(
    task: TaskModel,
    before: Harness<T, O, S, P>,
    rest: Option<Harness<T, O, S, P>>,
)
    requires
        task.inv(),
        task.describes(before),
        rest matches Some(after) ==> before.same_but_state(&after),
    ensures
        task.enabled(Step::DropWaker) && (rest is None <==> before.life().ref_count == 1) && (
        rest matches Some(after) ==> after.life() == before.life().ref_dec()) ==> task.next(
            Step::DropWaker,
        ).describes_rest(rest),
        task.enabled(Step::DropOwned) && (rest is None <==> before.life().ref_count == 1) && (
        rest matches Some(after) ==> after.life() == before.life().ref_dec()) ==> task.next(
            Step::DropOwned,
        ).describes_rest(rest),
        task.enabled(Step::WakeByVal) && (rest is None <==> before.life().ref_count == 1) && (
        rest matches Some(after) ==> after.life()
            == before.life().transition_to_notified().ref_dec()) ==> task.next(
            Step::WakeByVal,
        ).describes_rest(rest),
{
}

/// The operations of the join handle are the steps of the same name:
/// what the harness has after the output was read, and what comes back
/// from dropping the handle, is the task after the step.
pub proof fn lemma_join_steps<T, O, S, P>(
    task: TaskModel,
    before: Harness<T, O, S, P>,
    rest: Option<Harness<T, O, S, P>>,
)
    requires
        task.inv(),
        task.describes(before),
        task.holders.join,
        rest matches Some(after) ==> after.cell.core.scheduler == before.cell.core.scheduler,
    ensures
        before.life().complete && (rest matches Some(after) && after.life() == before.life()
            && after.cell.core.stage is Consumed) ==> task.next(Step::JoinPoll).describes_rest(
            rest,
        ),
        (rest is None <==> before.life().ref_count == 1) && (rest matches Some(after) ==> {
            &&& after.life() == before.life().unset_join_interested().ref_dec()
            &&& before.life().complete ==> after.cell.core.stage is Consumed
            &&& !before.life().complete ==> after.cell.core.stage == before.cell.core.stage
        }) ==> task.next(Step::JoinDrop).describes_rest(rest),
{
}

} // verus!
