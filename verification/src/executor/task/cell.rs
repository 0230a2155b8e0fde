//! The task cell: header, core and trailer.

use std::task::{Poll, Waker};
use vstd::prelude::*;

use super::error::JoinError;
use super::state::State;
use crate::executor::linked_list::Pointers;

verus! {

#[verifier::reject_recursive_types(T)]
#[verifier::external_type_specification]
pub struct ExPoll<T>(Poll<T>);

/// What a task hands to its join handle.
pub type Result<O, P> = std::result::Result<O, JoinError<P>>;

/// The whole of a task: allocated once, freed once.
pub struct Cell<T, O, S, P> {
    pub header: Header,
    pub core: Core<T, O, S, P>,
    pub trailer: Trailer,
}

/// The part of the cell that the running poll works on. Access to both
/// fields is serialised by the state word.
pub struct Core<T, O, S, P> {
    /// The scheduler the task is bound to, set on the first poll.
    pub scheduler: Option<S>,
    /// The future, then its output, then nothing.
    pub stage: Stage<T, O, P>,
}

/// The part of the cell that every holder of a reference may look at.
pub struct Header {
    /// The state word.
    pub state: State,
    /// Links in the owning scheduler's set of tasks.
    pub owned: Pointers,
    /// Link for a scheduler's injection queue.
    pub queue_next: Option<usize>,
    /// Link for the transfer stack used at shutdown.
    pub stack_next: Option<usize>,
}

/// The part of the cell that belongs to the join side.
pub struct Trailer {
    /// The waker of whoever awaits the join handle.
    pub waker: Option<Waker>,
}

/// Where the task stands: still computing, done with the output in place,
/// or done with the output taken or dropped.
pub enum Stage<T, O, P> {
    Running(T),
    Finished(Result<O, P>),
    Consumed,
}

impl<T, O, S, P> Cell<T, O, S, P> {
    /// A cell around `future`, unbound, with no join waker.
    pub fn new(future: T, state: State) -> (cell: Box<Cell<T, O, S, P>>)
        ensures
            cell.header.state == state,
            cell.header.owned == (Pointers { prev: None, next: None }),
            cell.header.queue_next is None,
            cell.header.stack_next is None,
            cell.core.scheduler is None,
            cell.core.stage == Stage::<T, O, P>::Running(future),
            cell.trailer.waker is None,
    {
        Box::new(
            Cell {
                header: Header {
                    state,
                    owned: Pointers::new(),
                    queue_next: None,
                    stack_next: None,
                },
                core: Core { scheduler: None, stage: Stage::Running(future) },
                trailer: Trailer { waker: None },
            },
        )
    }
}

impl<T, O, S, P> Core<T, O, S, P> {
    /// Binds the task to the scheduler that `bind` hands out, unless it is
    /// bound already: then `bind` is not called.
    pub fn bind_scheduler<F: FnOnce() -> S>(&mut self, bind: F)
        requires
            old(self).scheduler is None ==> call_requires(bind, ()),
        ensures
            final(self).stage == old(self).stage,
            old(self).scheduler is Some ==> final(self).scheduler == old(self).scheduler,
            old(self).scheduler is None ==> (final(self).scheduler matches Some(s) && call_ensures(
                bind,
                (),
                s,
            )),
    {
        if self.is_bound() {
            return ;
        }
        let scheduler = bind();
        self.scheduler = Some(scheduler);
    }

    /// Whether a scheduler is bound.
    pub fn is_bound(&self) -> (bound: bool)
        ensures
            bound == self.scheduler is Some,
    {
        self.scheduler.is_some()
    }

    /// Records what polling the future gave. On `Ready` the future has done
    /// its work: it is taken out of the stage and handed to the caller,
    /// who drops it under the same guard as the poll. The result is handed
    /// on with it.
    pub fn poll(&mut self, res: Poll<O>) -> (out: (Poll<O>, Option<T>))
        requires
            old(self).stage is Running,
        ensures
            out.0 == res,
            final(self).scheduler == old(self).scheduler,
            res is Ready ==> final(self).stage is Consumed && out.1 == Some(
                old(self).stage->Running_0,
            ),
            res is Pending ==> final(self).stage == old(self).stage && out.1 is None,
    {
        let ready = match &res {
            Poll::Ready(_) => true,
            Poll::Pending => false,
        };
        if ready {
            let future = self.take_future();
            (res, future)
        } else {
            (res, None)
        }
    }

    /// Takes the future out of the stage, leaving it consumed, and hands it
    /// to the caller to drop. A stage that holds no future is left as it
    /// is.
    pub fn take_future(&mut self) -> (future: Option<T>)
        ensures
            final(self).scheduler == old(self).scheduler,
            old(self).stage matches Stage::Running(f) ==> future == Some(f)
                && final(self).stage is Consumed,
            !(old(self).stage is Running) ==> future is None && final(self).stage == old(
                self,
            ).stage,
    {
        let mut stage = Stage::Consumed;
        std::mem::swap(&mut self.stage, &mut stage);
        match stage {
            Stage::Running(future) => Some(future),
            other => {
                self.stage = other;
                None
            },
        }
    }

    /// The future while the task is still computing; the one who set
    /// RUNNING polls it through this.
    pub fn future_mut(&mut self) -> (future: Option<&mut T>)
        ensures
            future is Some <==> old(self).stage is Running,
            future matches Some(f) ==> (*f == old(self).stage->Running_0 && final(self).stage
                == Stage::<T, O, P>::Running(*final(f))),
            future is None ==> final(self).stage == old(self).stage,
            final(self).scheduler == old(self).scheduler,
    {
        match &mut self.stage {
            Stage::Running(f) => Some(f),
            _ => None,
        }
    }

    /// Drops whatever the stage holds.
    pub fn drop_future_or_output(&mut self)
        ensures
            final(self).stage is Consumed,
            final(self).scheduler == old(self).scheduler,
    {
        self.stage = Stage::Consumed;
    }

    /// Puts the output in place.
    pub fn store_output(&mut self, output: Result<O, P>)
        ensures
            final(self).stage == Stage::<T, O, P>::Finished(output),
            final(self).scheduler == old(self).scheduler,
    {
        self.stage = Stage::Finished(output);
    }

    /// Takes the output out, leaving the stage consumed.
    pub fn take_output(&mut self) -> (output: Result<O, P>)
        requires
            old(self).stage is Finished,
        ensures
            output == old(self).stage->Finished_0,
            final(self).stage is Consumed,
            final(self).scheduler == old(self).scheduler,
    {
        let mut stage = Stage::Consumed;
        std::mem::swap(&mut self.stage, &mut stage);
        match stage {
            Stage::Finished(output) => output,
            _ => unreached(),
        }
    }

    /// The scheduler on which a notification of the task is to be queued.
    pub fn schedule(&self) -> (scheduler: &S)
        requires
            self.scheduler is Some,
        ensures
            Some(*scheduler) == self.scheduler,
    {
        match &self.scheduler {
            Some(scheduler) => scheduler,
            None => unreached(),
        }
    }

    /// Asks the scheduler, through `release`, to give up its handle on the
    /// task. An unbound task has none to give: `release` is not called.
    pub fn release<F: FnOnce(&S) -> bool>(&self, release: F) -> (released: bool)
        requires
            self.scheduler matches Some(s) ==> call_requires(release, (&s,)),
        ensures
            self.scheduler is None ==> !released,
            self.scheduler matches Some(s) ==> call_ensures(release, (&s,), released),
    {
        match &self.scheduler {
            Some(scheduler) => release(scheduler),
            None => false,
        }
    }
}

} // verus!
