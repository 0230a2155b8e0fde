//! Tasks: the state word, the task cell and the operations on it.

pub mod cell;
pub mod error;
pub mod harness;
pub mod join;
pub mod protocol;
pub mod raw;
pub mod state;
pub mod waker;

pub use self::cell::Header;
pub use self::error::JoinError;
pub use self::join::JoinHandle;
pub use self::waker::WakerRef;

use self::harness::{Harness, PollStart, Shutdown};
use self::raw::RawTask;
use self::state::Lifecycle;
use vstd::prelude::*;

verus! {

/// The scheduler's handle on a task it owns. It holds one reference to
/// the cell.
pub struct Task {
    raw: RawTask,
}

/// A notification of a task, waiting in a run queue or being run. It
/// holds one reference to the cell.
pub struct Notified(Task);

/// Makes a task around `task`, with its cell to live at `ptr`: the cell,
/// the notification that will run it first, and its join handle.
pub fn joinable<T, O, S, P>(task: T, ptr: usize) -> (res: (
    Notified,
    JoinHandle<O, P>,
    Harness<T, O, S, P>,
))
    ensures
        res.0.task() == (RawTask { ptr }),
        res.1.task() == Some(RawTask { ptr }),
        res.2.wf(),
        res.2.life() == Lifecycle::initial(),
        res.2.cell.core.stage == self::cell::Stage::<T, O, P>::Running(task),
        res.2.cell.core.scheduler is None,
        res.2.cell.trailer.waker is None,
        res.2.cell.header.owned == (crate::executor::linked_list::Pointers { prev: None, next: None }),
        res.2.cell.header.queue_next is None,
        res.2.cell.header.stack_next is None,
{
    let (raw, harness) = RawTask::new(task, ptr);
    let task = Task { raw };
    let join = JoinHandle::new(raw);
    (Notified(task), join, harness)
}

impl Task {
    /// The task this handle is a handle of.
    pub closed spec fn task(&self) -> RawTask {
        self.raw
    }

    /// The handle on the task at `ptr`. The caller answers for the
    /// reference that the handle stands for.
    pub fn from_raw(ptr: usize) -> (task: Task)
        ensures
            task.task() == (RawTask { ptr }),
    {
        Task { raw: RawTask::from_raw(ptr) }
    }

    /// Gives the handle up for the address of its task; the reference it
    /// stands for goes with the address.
    pub fn into_raw(self) -> (ptr: usize)
        ensures
            ptr == self.task().ptr,
    {
        self.raw.ptr
    }

    /// Cancels the task ahead of time, as part of the scheduler's
    /// shutdown: as `Harness::shutdown` says.
    pub fn shutdown<T, O, S, P>(&self, harness: Harness<T, O, S, P>) -> (started: Shutdown<
        T,
        O,
        S,
        P,
    >)
        requires
            harness.wf(),
            harness.life().is_idle() && harness.life().notified ==> harness.life().ref_count
                < self::state::ref_count_max(),
        ensures
            harness.shuts_down(started),
    {
        harness.shutdown()
    }

    /// Drops the handle: its reference is released, and the cell freed if
    /// it was the last.
    pub fn drop<T, O, S, P>(self, harness: Harness<T, O, S, P>) -> (rest: Option<
        Harness<T, O, S, P>,
    >)
        requires
            harness.life().ref_count >= 1,
        ensures
            rest is None <==> harness.life().ref_count == 1,
            rest matches Some(h) ==> h.life() == harness.life().ref_dec()
                && harness.same_but_state(&h),
            rest matches Some(h) ==> (harness.wf() ==> h.wf()),
    {
        harness.drop_reference()
    }
}

impl Notified {
    /// The task this notification is of.
    pub closed spec fn task(&self) -> RawTask {
        self.0.raw
    }

    /// The notification of the task at `ptr`. The caller answers for the
    /// reference that the notification stands for.
    pub fn from_raw(ptr: usize) -> (notified: Notified)
        ensures
            notified.task() == (RawTask { ptr }),
    {
        Notified(Task::from_raw(ptr))
    }

    /// Gives the notification up for the address of its task.
    pub fn into_raw(self) -> (ptr: usize)
        ensures
            ptr == self.task().ptr,
    {
        self.0.into_raw()
    }

    /// Runs the task: claims it for one poll, as `Harness::poll` says.
    pub fn run<T, O, S, P, B: FnOnce() -> S>(self, harness: Harness<T, O, S, P>, bind: B) -> (start:
        PollStart<T, O, S, P>)
        requires
            harness.wf(),
            harness.life().ref_count >= 1,
            harness.life().is_idle() && harness.cell.core.scheduler is None
                ==> harness.life().ref_count < self::state::ref_count_max(),
            harness.cell.core.scheduler is None ==> call_requires(bind, ()),
        ensures
            harness.polled(bind, start),
    {
        harness.poll(bind)
    }
}

} // verus!
