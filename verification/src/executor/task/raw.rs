//! The address of a task cell.

use vstd::prelude::*;

use super::cell::Cell;
use super::harness::Harness;
use super::state::{Lifecycle, State};
use crate::executor::linked_list::Pointers;

verus! {

/// Where a task cell lives. Handles carry it to say which task they are
/// handles of; whoever keeps the cells finds the cell by it.
#[derive(Clone, Copy, PartialEq, Eq, Structural)]
pub struct RawTask {
    pub ptr: usize,
}

impl RawTask {
    /// Allocates the cell of a new task around `task`, to live at `ptr`.
    pub fn new<T, O, S, P>(task: T, ptr: usize) -> (res: (RawTask, Harness<T, O, S, P>))
        ensures
            res.0.ptr == ptr,
            res.1.wf(),
            res.1.life() == Lifecycle::initial(),
            res.1.cell.core.stage == super::cell::Stage::<T, O, P>::Running(task),
            res.1.cell.core.scheduler is None,
            res.1.cell.trailer.waker is None,
            res.1.cell.header.owned == (Pointers { prev: None, next: None }),
            res.1.cell.header.queue_next is None,
            res.1.cell.header.stack_next is None,
    {
        let cell = Cell::new(task, State::new());
        (RawTask { ptr }, Harness::from_raw(cell))
    }

    /// The handle on the cell at `ptr`.
    pub fn from_raw(ptr: usize) -> (raw: RawTask)
        ensures
            raw.ptr == ptr,
    {
        RawTask { ptr }
    }
}

} // verus!
