//! The state word of a task.
//!
//! One `usize` carries the whole lifecycle of a task: six flag bits and, in
//! the remaining high bits, the reference count. Every transition below is
//! one indivisible step on that word; an interleaving of threads is a
//! sequence of such steps.

use vstd::prelude::*;

verus! {

/// A thread is currently executing the task's poll.
pub const RUNNING: usize = 0b00_0001;

/// The stage holds the output, or the output has been taken.
pub const COMPLETE: usize = 0b00_0010;

/// A wake-up has arrived; the task should be polled again.
pub const NOTIFIED: usize = 0b00_0100;

/// A join handle is alive and wants the output.
pub const JOIN_INTEREST: usize = 0b00_1000;

/// The join waker slot of the trailer is populated.
pub const JOIN_WAKER: usize = 0b01_0000;

/// Shutdown was requested; the future must not be polled again.
pub const CANCELLED: usize = 0b10_0000;

/// Number of low bits taken by the flags.
pub const REF_COUNT_SHIFT: usize = 6;

/// One unit of the reference count.
pub const REF_ONE: usize = 0b100_0000;

/// The word of a freshly spawned task: two references, notified, with join
/// interest.
pub const INITIAL_STATE: usize = 0b1000_1100;

/// What a state word means: the six flags and the reference count.
pub struct Lifecycle {
    pub running: bool,
    pub complete: bool,
    pub notified: bool,
    pub cancelled: bool,
    pub join_interest: bool,
    pub join_waker: bool,
    pub ref_count: nat,
}

/// The largest reference count a state word can hold.
pub open spec fn ref_count_max() -> nat {
    (usize::MAX / 64) as nat
}

impl Lifecycle {
    /// The lifecycle of a freshly spawned task: one reference for the queued
    /// notification, one for the join handle.
    pub open spec fn initial() -> Lifecycle {
        Lifecycle {
            running: false,
            complete: false,
            notified: true,
            cancelled: false,
            join_interest: true,
            join_waker: false,
            ref_count: 2,
        }
    }

    /// Neither running nor complete.
    pub open spec fn is_idle(self) -> bool {
        !self.running && !self.complete
    }

    /// The relations between the flags that every transition keeps.
    pub open spec fn wf(self) -> bool {
        &&& self.join_waker ==> self.join_interest
        &&& !(self.running && self.complete)
        &&& self.ref_count <= ref_count_max()
    }

    /// A cancelled task is claimed: it is running or complete, never idle.
    pub open spec fn claimed_if_cancelled(self) -> bool {
        self.cancelled ==> self.running || self.complete
    }

    /// The claim for a poll: on an idle task RUNNING is set, NOTIFIED
    /// cleared and, with `ref_inc`, one reference counted; any other task is
    /// left as it is.
    pub open spec fn transition_to_running(self, ref_inc: bool) -> Lifecycle {
        if self.is_idle() {
            Lifecycle {
                running: true,
                notified: false,
                ref_count: if ref_inc {
                    self.ref_count + 1
                } else {
                    self.ref_count
                },
                ..self
            }
        } else {
            self
        }
    }

    /// The end of a poll that returned pending: RUNNING is cleared, unless
    /// the task was cancelled meanwhile.
    pub open spec fn transition_to_idle(self) -> Lifecycle {
        if self.cancelled {
            self
        } else {
            Lifecycle { running: false, ..self }
        }
    }

    /// The task is done: COMPLETE is set and RUNNING cleared.
    pub open spec fn transition_to_complete(self) -> Lifecycle {
        Lifecycle { running: false, complete: true, ..self }
    }

    /// How many references the terminal transition releases.
    pub open spec fn terminal_units(ref_dec: bool) -> nat {
        if ref_dec {
            2
        } else {
            1
        }
    }

    /// The cleanup at the end of a task: the references of the poll and,
    /// with `ref_dec`, of the scheduler are released; with `drop_output`
    /// the task is marked complete here and the join flags are cleared.
    pub open spec fn transition_to_terminal(self, drop_output: bool, ref_dec: bool) -> Lifecycle {
        let count = (self.ref_count - Self::terminal_units(ref_dec)) as nat;
        if drop_output {
            Lifecycle {
                running: false,
                complete: true,
                join_interest: false,
                join_waker: false,
                ref_count: count,
                ..self
            }
        } else {
            Lifecycle { ref_count: count, ..self }
        }
    }

    /// The lifecycle at the end of a task: marked complete first if the
    /// join side is interested, then through the terminal transition.
    pub open spec fn complete_with(self, is_join_interested: bool, released: bool) -> Lifecycle {
        if is_join_interested {
            self.transition_to_complete().transition_to_terminal(false, released)
        } else {
            self.transition_to_terminal(true, released)
        }
    }

    /// A wake-up: NOTIFIED is set, whatever else is.
    pub open spec fn transition_to_notified(self) -> Lifecycle {
        Lifecycle { notified: true, ..self }
    }

    /// Whether a wake-up on this lifecycle obliges the caller to schedule.
    pub open spec fn will_need_queueing(self) -> bool {
        !self.notified && self.is_idle()
    }

    /// A request for cancellation: CANCELLED is set; an idle task is
    /// claimed with it, and a reference counted for the notification that
    /// is queued, if one is.
    pub open spec fn transition_to_shutdown(self) -> Lifecycle {
        if self.is_idle() {
            Lifecycle {
                running: true,
                cancelled: true,
                ref_count: if self.notified {
                    self.ref_count + 1
                } else {
                    self.ref_count
                },
                ..self
            }
        } else {
            Lifecycle { cancelled: true, ..self }
        }
    }

    /// The cheap drop of a join handle: on a task that is still as it was
    /// spawned, JOIN_INTEREST is cleared and the handle's reference
    /// released; any other task is left as it is.
    pub open spec fn drop_join_handle_fast(self) -> Lifecycle {
        if self == Self::initial() {
            Lifecycle { join_interest: false, ref_count: 1, ..self }
        } else {
            self
        }
    }

    /// The join handle goes away: JOIN_INTEREST is cleared, and JOIN_WAKER
    /// with it, unless the task is complete.
    pub open spec fn unset_join_interested(self) -> Lifecycle {
        if self.complete {
            self
        } else {
            Lifecycle { join_interest: false, join_waker: false, ..self }
        }
    }

    /// The join waker slot was filled: JOIN_WAKER is set, unless the task
    /// is complete.
    pub open spec fn set_join_waker(self) -> Lifecycle {
        if self.complete {
            self
        } else {
            Lifecycle { join_waker: true, ..self }
        }
    }

    /// The join waker is withdrawn: JOIN_WAKER is cleared, unless the task
    /// is complete.
    pub open spec fn unset_waker(self) -> Lifecycle {
        if self.complete {
            self
        } else {
            Lifecycle { join_waker: false, ..self }
        }
    }

    /// One more reference.
    pub open spec fn ref_inc(self) -> Lifecycle {
        Lifecycle { ref_count: self.ref_count + 1, ..self }
    }

    /// One reference less.
    pub open spec fn ref_dec(self) -> Lifecycle {
        Lifecycle { ref_count: (self.ref_count - 1) as nat, ..self }
    }
}

impl Lifecycle {
    /// Every transition keeps the relations between the flags, given room
    /// in the count where it grows and references where it shrinks.
    pub proof fn lemma_transitions_keep_wf(self, flag: bool, other: bool)
        requires
            self.wf(),
        ensures
            self.ref_count < ref_count_max() ==> self.transition_to_running(flag).wf(),
            self.transition_to_idle().wf(),
            self.transition_to_complete().wf(),
            self.ref_count >= Self::terminal_units(other) ==> self.transition_to_terminal(
                flag,
                other,
            ).wf(),
            self.transition_to_notified().wf(),
            self.ref_count < ref_count_max() ==> self.transition_to_shutdown().wf(),
            self.drop_join_handle_fast().wf(),
            self.unset_join_interested().wf(),
            self.join_interest ==> self.set_join_waker().wf(),
            self.unset_waker().wf(),
            self.ref_count < ref_count_max() ==> self.ref_inc().wf(),
            self.ref_count >= 1 ==> self.ref_dec().wf(),
    {
    }

    /// A claimed task cannot be claimed again: while RUNNING is set, and
    /// ever after COMPLETE is, the transition to running fails.
    pub proof fn lemma_claim_is_exclusive(self, ref_inc: bool, again: bool)
        ensures
            !self.transition_to_running(ref_inc).is_idle(),
            self.transition_to_running(ref_inc).transition_to_running(again)
                == self.transition_to_running(ref_inc),
            self.running ==> self.transition_to_notified().running
                && self.transition_to_shutdown().running && self.ref_inc().running
                && self.ref_dec().running && self.set_join_waker().running
                && self.unset_waker().running && self.unset_join_interested().running
                && self.drop_join_handle_fast().running,
    {
    }

    /// A cancelled task that is claimed, as every cancelled task is, is
    /// not claimed for a poll.
    pub proof fn lemma_cancelled_fails_to_run(self, ref_inc: bool)
        requires
            self.claimed_if_cancelled(),
            self.cancelled || self.complete,
        ensures
            !self.is_idle(),
            self.transition_to_running(ref_inc) == self,
    {
    }

    /// A wake-up is latched until the next claim: NOTIFIED survives every
    /// transition but the one to running, and that one fails while the
    /// task is running or complete.
    pub proof fn lemma_notification_latched(self, flag: bool, other: bool)
        requires
            self.notified,
        ensures
            self.transition_to_idle().notified,
            self.transition_to_complete().notified,
            self.transition_to_terminal(flag, other).notified,
            self.transition_to_notified() == self,
            !self.will_need_queueing(),
            self.transition_to_shutdown().notified,
            self.drop_join_handle_fast().notified,
            self.unset_join_interested().notified,
            self.set_join_waker().notified,
            self.unset_waker().notified,
            self.ref_inc().notified,
            self.ref_dec().notified,
            !self.is_idle() ==> self.transition_to_running(flag).notified,
    {
    }

    /// After a shutdown, whether it only left the request or claimed and
    /// cancelled the task, a further shutdown changes nothing and drives
    /// nothing.
    pub proof fn lemma_shutdown_settles(self, released: bool)
        ensures
            !self.is_idle() ==> !self.transition_to_shutdown().is_idle()
                && self.transition_to_shutdown().transition_to_shutdown()
                == self.transition_to_shutdown(),
            self.is_idle() ==> !self.transition_to_shutdown().complete_with(
                true,
                released,
            ).is_idle() && self.transition_to_shutdown().complete_with(
                true,
                released,
            ).transition_to_shutdown() == self.transition_to_shutdown().complete_with(
                true,
                released,
            ),
    {
    }

    /// Counting a reference and releasing it again leaves the lifecycle as
    /// it was, and the release is not the last.
    pub proof fn lemma_ref_inc_then_dec(self)
        requires
            self.ref_count >= 1,
        ensures
            self.ref_inc().ref_dec() == self,
            self.ref_inc().ref_count != 1,
    {
    }
}

/// A copy of the state word taken at one instant.
#[derive(Clone, Copy)]
pub struct Snapshot(usize);

/// The atomic state word of one task.
pub struct State {
    val: usize,
}

proof fn lemma_set_flag(val: usize, f: usize)
    by (bit_vector)
    requires
        f == 1 || f == 2 || f == 4 || f == 8 || f == 16 || f == 32,
    ensures
        (val | f) & f == f,
        (val | f) / 64 == val / 64,
        f != 1 ==> ((val | f) & 1 == 1) == (val & 1 == 1),
        f != 2 ==> ((val | f) & 2 == 2) == (val & 2 == 2),
        f != 4 ==> ((val | f) & 4 == 4) == (val & 4 == 4),
        f != 8 ==> ((val | f) & 8 == 8) == (val & 8 == 8),
        f != 16 ==> ((val | f) & 16 == 16) == (val & 16 == 16),
        f != 32 ==> ((val | f) & 32 == 32) == (val & 32 == 32),
{
}

proof fn lemma_clear_flag(val: usize, f: usize)
    by (bit_vector)
    requires
        f == 1 || f == 2 || f == 4 || f == 8 || f == 16 || f == 32,
    ensures
        (val & !f) & f != f,
        (val & !f) / 64 == val / 64,
        f != 1 ==> ((val & !f) & 1 == 1) == (val & 1 == 1),
        f != 2 ==> ((val & !f) & 2 == 2) == (val & 2 == 2),
        f != 4 ==> ((val & !f) & 4 == 4) == (val & 4 == 4),
        f != 8 ==> ((val & !f) & 8 == 8) == (val & 8 == 8),
        f != 16 ==> ((val & !f) & 16 == 16) == (val & 16 == 16),
        f != 32 ==> ((val & !f) & 32 == 32) == (val & 32 == 32),
{
}

proof fn lemma_ref_inc(val: usize)
    by (bit_vector)
    ensures
        ((val + 64) as usize & 1 == 1) == (val & 1 == 1),
        ((val + 64) as usize & 2 == 2) == (val & 2 == 2),
        ((val + 64) as usize & 4 == 4) == (val & 4 == 4),
        ((val + 64) as usize & 8 == 8) == (val & 8 == 8),
        ((val + 64) as usize & 16 == 16) == (val & 16 == 16),
        ((val + 64) as usize & 32 == 32) == (val & 32 == 32),
{
}

proof fn lemma_ref_dec(val: usize)
    by (bit_vector)
    ensures
        ((val - 64) as usize & 1 == 1) == (val & 1 == 1),
        ((val - 64) as usize & 2 == 2) == (val & 2 == 2),
        ((val - 64) as usize & 4 == 4) == (val & 4 == 4),
        ((val - 64) as usize & 8 == 8) == (val & 8 == 8),
        ((val - 64) as usize & 16 == 16) == (val & 16 == 16),
        ((val - 64) as usize & 32 == 32) == (val & 32 == 32),
{
}

proof fn lemma_same_bits(a: usize, b: usize)
    by (bit_vector)
    requires
        (a & 1 == 1) == (b & 1 == 1),
        (a & 2 == 2) == (b & 2 == 2),
        (a & 4 == 4) == (b & 4 == 4),
        (a & 8 == 8) == (b & 8 == 8),
        (a & 16 == 16) == (b & 16 == 16),
        (a & 32 == 32) == (b & 32 == 32),
        a / 64 == b / 64,
    ensures
        a == b,
{
}

proof fn lemma_initial_word()
    by (bit_vector)
    ensures
        140usize & 1 != 1,
        140usize & 2 != 2,
        140usize & 4 == 4,
        140usize & 8 == 8,
        140usize & 16 != 16,
        140usize & 32 != 32,
{
}

impl View for Snapshot {
    type V = Lifecycle;

    closed spec fn view(&self) -> Lifecycle {
        Lifecycle {
            running: self.0 & RUNNING == RUNNING,
            complete: self.0 & COMPLETE == COMPLETE,
            notified: self.0 & NOTIFIED == NOTIFIED,
            cancelled: self.0 & CANCELLED == CANCELLED,
            join_interest: self.0 & JOIN_INTEREST == JOIN_INTEREST,
            join_waker: self.0 & JOIN_WAKER == JOIN_WAKER,
            ref_count: (self.0 / 64) as nat,
        }
    }
}

impl Snapshot {
    /// Two snapshots with the same meaning are the same word.
    pub proof fn lemma_view_injective(self, other: Snapshot)
        requires
            self@ == other@,
        ensures
            self == other,
    {
        lemma_same_bits(self.0, other.0);
    }

    /// No snapshot counts more references than the word has room for.
    pub proof fn lemma_ref_count_bounded(self)
        ensures
            self@.ref_count <= ref_count_max(),
    {
    }

    pub fn is_idle(self) -> (r: bool)
        ensures
            r == self@.is_idle(),
    {
        !self.is_running() && !self.is_complete()
    }

    pub fn is_notified(self) -> (r: bool)
        ensures
            r == self@.notified,
    {
        self.0 & NOTIFIED == NOTIFIED
    }

    pub fn is_running(self) -> (r: bool)
        ensures
            r == self@.running,
    {
        self.0 & RUNNING == RUNNING
    }

    pub fn is_complete(self) -> (r: bool)
        ensures
            r == self@.complete,
    {
        self.0 & COMPLETE == COMPLETE
    }

    pub fn is_cancelled(self) -> (r: bool)
        ensures
            r == self@.cancelled,
    {
        self.0 & CANCELLED == CANCELLED
    }

    pub fn is_join_interested(self) -> (r: bool)
        ensures
            r == self@.join_interest,
    {
        self.0 & JOIN_INTEREST == JOIN_INTEREST
    }

    pub fn has_join_waker(self) -> (r: bool)
        ensures
            r == self@.join_waker,
    {
        self.0 & JOIN_WAKER == JOIN_WAKER
    }

    pub fn ref_count(self) -> (r: usize)
        ensures
            r == self@.ref_count,
    {
        proof {
            let v = self.0;
            assert(v >> 6 == v / 64) by (bit_vector);
        }
        self.0 >> REF_COUNT_SHIFT
    }

    /// Whether a wake-up seen on this snapshot obliges the caller to schedule.
    pub fn will_need_queueing(self) -> (r: bool)
        ensures
            r == self@.will_need_queueing(),
    {
        !self.is_notified() && self.is_idle()
    }

    fn set_running(&mut self)
        ensures
            final(self)@ == (Lifecycle { running: true, ..old(self)@ }),
    {
        proof {
            lemma_set_flag(self.0, RUNNING);
        }
        self.0 = self.0 | RUNNING;
    }

    fn unset_running(&mut self)
        ensures
            final(self)@ == (Lifecycle { running: false, ..old(self)@ }),
    {
        proof {
            lemma_clear_flag(self.0, RUNNING);
        }
        self.0 = self.0 & !RUNNING;
    }

    fn set_complete(&mut self)
        ensures
            final(self)@ == (Lifecycle { complete: true, ..old(self)@ }),
    {
        proof {
            lemma_set_flag(self.0, COMPLETE);
        }
        self.0 = self.0 | COMPLETE;
    }

    fn set_notified(&mut self)
        ensures
            final(self)@ == (Lifecycle { notified: true, ..old(self)@ }),
    {
        proof {
            lemma_set_flag(self.0, NOTIFIED);
        }
        self.0 = self.0 | NOTIFIED;
    }

    fn unset_notified(&mut self)
        ensures
            final(self)@ == (Lifecycle { notified: false, ..old(self)@ }),
    {
        proof {
            lemma_clear_flag(self.0, NOTIFIED);
        }
        self.0 = self.0 & !NOTIFIED;
    }

    fn set_cancelled(&mut self)
        ensures
            final(self)@ == (Lifecycle { cancelled: true, ..old(self)@ }),
    {
        proof {
            lemma_set_flag(self.0, CANCELLED);
        }
        self.0 = self.0 | CANCELLED;
    }

    fn unset_join_interested(&mut self)
        ensures
            final(self)@ == (Lifecycle { join_interest: false, ..old(self)@ }),
    {
        proof {
            lemma_clear_flag(self.0, JOIN_INTEREST);
        }
        self.0 = self.0 & !JOIN_INTEREST;
    }

    fn set_join_waker(&mut self)
        ensures
            final(self)@ == (Lifecycle { join_waker: true, ..old(self)@ }),
    {
        proof {
            lemma_set_flag(self.0, JOIN_WAKER);
        }
        self.0 = self.0 | JOIN_WAKER;
    }

    fn unset_join_waker(&mut self)
        ensures
            final(self)@ == (Lifecycle { join_waker: false, ..old(self)@ }),
    {
        proof {
            lemma_clear_flag(self.0, JOIN_WAKER);
        }
        self.0 = self.0 & !JOIN_WAKER;
    }

    fn ref_inc(&mut self)
        requires
            old(self)@.ref_count < ref_count_max(),
        ensures
            final(self)@ == old(self)@.ref_inc(),
    {
        proof {
            assert(usize::MAX % 64 == 63);
            lemma_ref_inc(self.0);
        }
        self.0 = self.0 + REF_ONE;
    }

    fn ref_dec(&mut self)
        requires
            old(self)@.ref_count >= 1,
        ensures
            final(self)@ == old(self)@.ref_dec(),
    {
        proof {
            lemma_ref_dec(self.0);
        }
        self.0 = self.0 - REF_ONE;
    }
}

impl View for State {
    type V = Lifecycle;

    closed spec fn view(&self) -> Lifecycle {
        Snapshot(self.val)@
    }
}

impl State {
    /// The state of a freshly spawned task.
    pub fn new() -> (s: State)
        ensures
            s@ == Lifecycle::initial(),
    {
        proof {
            lemma_initial_word();
        }
        State { val: INITIAL_STATE }
    }

    /// Reads the current word.
    pub fn load(&self) -> (snap: Snapshot)
        ensures
            snap@ == self@,
    {
        Snapshot(self.val)
    }

    /// Claims the task for one poll. Succeeds exactly on an idle task: sets
    /// RUNNING, clears NOTIFIED and, if `ref_inc`, counts one more reference.
    /// Either way the snapshot handed back is the word as it was before; on
    /// failure the word is left alone and the caller drops its reference.
    pub fn transition_to_running(&mut self, ref_inc: bool) -> (res: Result<Snapshot, Snapshot>)
        requires
            ref_inc && old(self)@.is_idle() ==> old(self)@.ref_count < ref_count_max(),
        ensures
            res is Ok <==> old(self)@.is_idle(),
            old(self)@.claimed_if_cancelled() && (old(self)@.cancelled || old(self)@.complete)
                ==> res is Err,
            res matches Ok(prev) ==> prev@ == old(self)@,
            res matches Err(prev) ==> prev@ == old(self)@,
            final(self)@ == old(self)@.transition_to_running(ref_inc),
    {
        let curr = self.load();
        if !curr.is_idle() {
            return Err(curr);
        }
        let mut next = curr;
        if ref_inc {
            next.ref_inc();
        }
        next.set_running();
        next.unset_notified();
        self.val = next.0;
        Ok(curr)
    }

    /// Ends a poll that returned pending. Fails, leaving the word alone, if
    /// the task was cancelled meanwhile; otherwise clears RUNNING. The
    /// snapshot is the word after the call: if it is notified, a wake-up
    /// arrived during the poll and the caller must yield the task.
    pub fn transition_to_idle(&mut self) -> (res: Result<Snapshot, Snapshot>)
        requires
            old(self)@.running,
        ensures
            res is Ok <==> !old(self)@.cancelled,
            res matches Ok(next) ==> next@ == final(self)@,
            res matches Err(curr) ==> curr@ == final(self)@,
            final(self)@ == old(self)@.transition_to_idle(),
    {
        let curr = self.load();
        if curr.is_cancelled() {
            return Err(curr);
        }
        let mut next = curr;
        next.unset_running();
        self.val = next.0;
        Ok(next)
    }

    /// Marks the task complete: sets COMPLETE and clears RUNNING. Returns
    /// the word after the call.
    pub fn transition_to_complete(&mut self) -> (snap: Snapshot)
        ensures
            snap@ == final(self)@,
            final(self)@ == old(self)@.transition_to_complete(),
    {
        let mut next = self.load();
        next.unset_running();
        next.set_complete();
        self.val = next.0;
        next
    }

    /// The cleanup at the end of a task. With `drop_output` the task is
    /// marked complete here and the join flags are cleared; in every case
    /// the reference of the poll is released, and with `ref_dec` one more.
    /// Returns the word after the call.
    pub fn transition_to_terminal(&mut self, drop_output: bool, ref_dec: bool) -> (snap: Snapshot)
        requires
            old(self)@.ref_count >= Lifecycle::terminal_units(ref_dec),
        ensures
            snap@ == final(self)@,
            final(self)@ == old(self)@.transition_to_terminal(drop_output, ref_dec),
    {
        let mut next = self.load();
        if drop_output {
            next.unset_running();
            next.set_complete();
            next.unset_join_interested();
            next.unset_join_waker();
        }
        next.ref_dec();
        if ref_dec {
            next.ref_dec();
        }
        self.val = next.0;
        next
    }

    /// Latches a wake-up. Returns `true` exactly when none of RUNNING,
    /// COMPLETE and NOTIFIED was set before, in which case the caller must
    /// schedule the task.
    pub fn transition_to_notified(&mut self) -> (must_schedule: bool)
        ensures
            must_schedule == old(self)@.will_need_queueing(),
            final(self)@ == old(self)@.transition_to_notified(),
    {
        let prev = self.load();
        let mut next = prev;
        next.set_notified();
        self.val = next.0;
        prev.will_need_queueing()
    }

    /// Requests cancellation. Sets CANCELLED; on an idle task it also claims
    /// the task by setting RUNNING, and if a notification is queued it counts
    /// one more reference for it. Returns `true` exactly when the task was
    /// idle: then the caller must drive the cancellation itself.
    pub fn transition_to_shutdown(&mut self) -> (must_cancel: bool)
        requires
            old(self)@.is_idle() && old(self)@.notified ==> old(self)@.ref_count
                < ref_count_max(),
        ensures
            must_cancel == old(self)@.is_idle(),
            final(self)@ == old(self)@.transition_to_shutdown(),
    {
        let prev = self.load();
        let mut next = prev;
        if next.is_idle() {
            next.set_running();
            if next.is_notified() {
                next.ref_inc();
            }
        }
        next.set_cancelled();
        self.val = next.0;
        prev.is_idle()
    }

    /// The cheap way to drop a join handle: succeeds only while the word is
    /// still the one a task is spawned with, and then clears JOIN_INTEREST
    /// and releases the handle's reference in one step.
    pub fn drop_join_handle_fast(&mut self) -> (res: Result<(), ()>)
        ensures
            res is Ok <==> old(self)@ == Lifecycle::initial(),
            final(self)@ == old(self)@.drop_join_handle_fast(),
    {
        proof {
            lemma_initial_word();
            if self@ == Lifecycle::initial() {
                Snapshot(self.val).lemma_view_injective(Snapshot(INITIAL_STATE));
            }
        }
        if self.val == INITIAL_STATE {
            let mut next = self.load();
            next.unset_join_interested();
            next.ref_dec();
            self.val = next.0;
            Ok(())
        } else {
            Err(())
        }
    }

    /// Withdraws the join interest. Fails, leaving the word alone, once the
    /// task is complete; otherwise clears JOIN_INTEREST and with it
    /// JOIN_WAKER. The snapshot is the word after the call.
    pub fn unset_join_interested(&mut self) -> (res: Result<Snapshot, Snapshot>)
        ensures
            res is Ok <==> !old(self)@.complete,
            res matches Ok(next) ==> next@ == final(self)@,
            res matches Err(curr) ==> curr@ == final(self)@,
            final(self)@ == old(self)@.unset_join_interested(),
    {
        let curr = self.load();
        if curr.is_complete() {
            return Err(curr);
        }
        let mut next = curr;
        next.unset_join_interested();
        next.unset_join_waker();
        self.val = next.0;
        Ok(next)
    }

    /// Announces that the join waker slot is populated. Fails, leaving the
    /// word alone, once the task is complete. The snapshot is the word after
    /// the call.
    pub fn set_join_waker(&mut self) -> (res: Result<Snapshot, Snapshot>)
        ensures
            res is Ok <==> !old(self)@.complete,
            res matches Ok(next) ==> next@ == final(self)@,
            res matches Err(curr) ==> curr@ == final(self)@,
            final(self)@ == old(self)@.set_join_waker(),
    {
        let curr = self.load();
        if curr.is_complete() {
            return Err(curr);
        }
        let mut next = curr;
        next.set_join_waker();
        self.val = next.0;
        Ok(next)
    }

    /// Withdraws the join waker. Fails, leaving the word alone, once the
    /// task is complete. The snapshot is the word after the call.
    pub fn unset_waker(&mut self) -> (res: Result<Snapshot, Snapshot>)
        ensures
            res is Ok <==> !old(self)@.complete,
            res matches Ok(next) ==> next@ == final(self)@,
            res matches Err(curr) ==> curr@ == final(self)@,
            final(self)@ == old(self)@.unset_waker(),
    {
        let curr = self.load();
        if curr.is_complete() {
            return Err(curr);
        }
        let mut next = curr;
        next.unset_join_waker();
        self.val = next.0;
        Ok(next)
    }

    /// Counts one more reference.
    pub fn ref_inc(&mut self)
        requires
            old(self)@.ref_count < ref_count_max(),
        ensures
            final(self)@ == old(self)@.ref_inc(),
    {
        let mut next = self.load();
        next.ref_inc();
        self.val = next.0;
    }

    /// Releases one reference. Returns `true` exactly when it was the last.
    pub fn ref_dec(&mut self) -> (last: bool)
        requires
            old(self)@.ref_count >= 1,
        ensures
            last == (old(self)@.ref_count == 1),
            final(self)@ == old(self)@.ref_dec(),
    {
        let prev = self.load();
        let mut next = prev;
        next.ref_dec();
        self.val = next.0;
        prev.ref_count() == 1
    }
}

} // verus!
