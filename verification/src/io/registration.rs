//! A registrant's side of one registration.

use std::task::{Poll, Waker};
use vstd::prelude::*;

use super::driver::{Direction, Inner};
use super::ready;
use super::scheduled::{register_waker, Scheduled};

verus! {

broadcast use vstd::std_specs::hash::group_hash_axioms;

/// What can go wrong between a registrant and the reactor.
#[derive(Clone, Copy, Debug, PartialEq, Eq, Structural)]
pub enum IoError {
    /// The reactor was dropped before the source could be registered.
    DriverGone,
    /// The reactor was dropped while the registration was in use.
    ReactorGone,
}

/// The registration of one source: the token under which the reactor
/// keeps its record.
pub struct Registration {
    pub token: usize,
}

impl IoError {
    /// The text of the error.
    pub fn message(&self) -> (text: &'static str)
        ensures
            *self == IoError::DriverGone ==> text@ == "driver gone"@,
            *self == IoError::ReactorGone ==> text@ == "reactor gone"@,
    {
        match self {
            IoError::DriverGone => "driver gone",
            IoError::ReactorGone => "reactor gone",
        }
    }
}

/// The readiness that a poll in direction `dir` finds in `sched`: what is
/// there of the direction's mask.
pub open spec fn ready_bits(sched: Scheduled, dir: Direction) -> usize {
    dir.mask_of(sched.all) & sched.readiness
}

/// The record `sched` after a poll in direction `dir`: the bits of the
/// direction's mask are taken out, all but the hang-up bit, which stays.
pub open spec fn taken(sched: Scheduled, dir: Direction) -> Scheduled {
    Scheduled {
        readiness: (sched.readiness & sched.all) & !(dir.mask_of(sched.all) & !ready::HUP),
        ..sched
    }
}

/// Taking the same bits a second time finds nothing new and changes
/// nothing.
proof fn lemma_retake(prev: usize, all: usize, mask: usize)
    by (bit_vector)
    requires
        mask & prev == 0,
    ensures
        mask & ((prev & all) & !(mask & !8usize)) == 0,
        (((prev & all) & !(mask & !8usize)) & all) & !(mask & !8usize) == (prev & all) & !(mask
            & !8usize),
{
}

proof fn lemma_read_take(r: usize, all: usize)
    by (bit_vector)
    requires
        r & !all == 0,
    ensures
        ((r & all) & !((all & !2usize) & !8usize)) | ((all & !2usize) & r) == r,
        (all & !2usize) & r == 0 ==> (r & all) & !((all & !2usize) & !8usize) == r,
        ((r & all) & !((all & !2usize) & !8usize)) & !all == 0,
{
}

proof fn lemma_write_take(r: usize, all: usize)
    by (bit_vector)
    requires
        r & !all == 0,
    ensures
        ((r & all) & !((2usize | 8usize) & !8usize)) | ((2usize | 8usize) & r) == r,
        (2usize | 8usize) & r == 0 ==> (r & all) & !((2usize | 8usize) & !8usize) == r,
        ((r & all) & !((2usize | 8usize) & !8usize)) & !all == 0,
{
}

proof fn lemma_merge(r: usize, all: usize, kind: usize)
    by (bit_vector)
    requires
        r & !all == 0,
    ensures
        (r & all) | kind == r | kind,
        kind & !all == 0 ==> ((r & all) | kind) & !all == 0,
{
}

proof fn lemma_ledger_deliver(d: usize, r: usize, c: usize, kind: usize)
    by (bit_vector)
    requires
        d & !(r | c) == 0,
    ensures
        (d | kind) & !((r | kind) | c) == 0,
{
}

proof fn lemma_ledger_take(d: usize, r: usize, c: usize, rest: usize, got: usize)
    by (bit_vector)
    requires
        d & !(r | c) == 0,
        rest | got == r,
    ensures
        d & !(rest | (c | got)) == 0,
{
}

/// A record keeps within the full set it was made with.
pub open spec fn within_all(sched: Scheduled) -> bool {
    ready::is_all(sched.all) && sched.readiness & !sched.all == 0
}

/// Readiness that arrives is kept: an event adds its bits to the record
/// and takes away none of those that are there.
pub proof fn lemma_dispatch_keeps(sched: Scheduled, kind: usize)
    requires
        within_all(sched),
    ensures
        super::driver::merged(sched, kind).readiness == sched.readiness | kind,
        kind & !sched.all == 0 ==> within_all(super::driver::merged(sched, kind)),
{
    lemma_merge(sched.readiness, sched.all, kind);
}

/// A poll takes out of the record only what it hands back: every bit that
/// was there is still there or is in the answer, and a poll that answers
/// `Pending` leaves the record as it was.
pub proof fn lemma_poll_takes_what_it_returns(sched: Scheduled, dir: Direction)
    requires
        within_all(sched),
    ensures
        taken(sched, dir).readiness | ready_bits(sched, dir) == sched.readiness,
        ready_bits(sched, dir) == 0 ==> taken(sched, dir) == sched,
        within_all(taken(sched, dir)),
{
    match dir {
        Direction::Read => lemma_read_take(sched.readiness, sched.all),
        Direction::Write => lemma_write_take(sched.readiness, sched.all),
    }
}

/// What happens to one record: readiness arrives from the reactor, or the
/// registrant polls.
pub enum Access {
    Deliver(usize),
    Poll(Direction),
}

/// One record with the account of its readiness: all that the reactor
/// delivered and all that polls handed to the registrant.
pub struct Ledger {
    pub sched: Scheduled,
    pub delivered: usize,
    pub consumed: usize,
}

impl Ledger {
    /// The ledger after `access`.
    pub open spec fn next(self, access: Access) -> Ledger {
        match access {
            Access::Deliver(kind) => Ledger {
                sched: super::driver::merged(self.sched, kind),
                delivered: self.delivered | kind,
                consumed: self.consumed,
            },
            Access::Poll(dir) => Ledger {
                sched: taken(self.sched, dir),
                delivered: self.delivered,
                consumed: self.consumed | ready_bits(self.sched, dir),
            },
        }
    }

    /// The ledger after the accesses of `trace`, in order.
    pub open spec fn run(self, trace: Seq<Access>) -> Ledger
        decreases trace.len(),
    {
        if trace.len() == 0 {
            self
        } else {
            self.run(trace.drop_last()).next(trace.last())
        }
    }

    /// Every bit that was delivered is in the record or was consumed.
    pub open spec fn balanced(self) -> bool {
        within_all(self.sched) && self.delivered & !(self.sched.readiness | self.consumed) == 0
    }

    /// The reactor delivers only bits of the full set.
    pub open spec fn delivers_within(self, trace: Seq<Access>) -> bool {
        forall|i: int|
            0 <= i < trace.len() ==> (#[trigger] trace[i] matches Access::Deliver(kind) ==> kind
                & !self.sched.all == 0)
    }

    /// No readiness is lost: after any sequence of deliveries and polls,
    /// every bit that the reactor delivered is still in the record or was
    /// handed to the registrant by a poll.
    pub proof fn lemma_no_readiness_lost(self, trace: Seq<Access>)
        requires
            self.balanced(),
            self.delivers_within(trace),
        ensures
            self.run(trace).balanced(),
            self.run(trace).sched.all == self.sched.all,
        decreases trace.len(),
    {
        if trace.len() > 0 {
            let before = self.run(trace.drop_last());
            assert(self.delivers_within(trace.drop_last())) by {
                assert forall|i: int| 0 <= i < trace.drop_last().len() implies (
                #[trigger] trace.drop_last()[i] matches Access::Deliver(kind) ==> kind
                    & !self.sched.all == 0) by {
                    assert(trace.drop_last()[i] == trace[i]);
                }
            }
            self.lemma_no_readiness_lost(trace.drop_last());
            match trace.last() {
                Access::Deliver(kind) => {
                    assert(trace[trace.len() - 1] == trace.last());
                    lemma_dispatch_keeps(before.sched, kind);
                    lemma_ledger_deliver(
                        before.delivered,
                        before.sched.readiness,
                        before.consumed,
                        kind,
                    );
                },
                Access::Poll(dir) => {
                    lemma_poll_takes_what_it_returns(before.sched, dir);
                    lemma_ledger_take(
                        before.delivered,
                        before.sched.readiness,
                        before.consumed,
                        taken(before.sched, dir).readiness,
                        ready_bits(before.sched, dir),
                    );
                },
            }
        }
    }
}

impl Registration {
    /// Registers a source under `token` with the reactor behind `inner`,
    /// which is `None` if the reactor is gone.
    pub fn new(inner: Option<&mut Inner>, token: usize) -> (res: Result<Registration, IoError>)
        ensures
            inner is None ==> res == Err::<Registration, IoError>(IoError::DriverGone),
            inner matches Some(i) ==> {
                &&& res matches Ok(r) && r.token == token
                &&& final(i).map@ == i.map@.insert(token, final(i).map@[token])
                &&& final(i).map@[token].readiness == 0
                &&& ready::is_all(final(i).map@[token].all)
                &&& final(i).n_sources as int == if i.n_sources == usize::MAX {
                    0
                } else {
                    i.n_sources + 1
                }
            },
    {
        match inner {
            Some(inner) => {
                inner.add_io(token);
                Ok(Registration { token })
            },
            None => Err(IoError::DriverGone),
        }
    }

    /// Checks that the reactor is still there before the source is taken
    /// off the poller.
    pub fn deregister(&mut self, inner: Option<&Inner>) -> (res: Result<(), IoError>)
        ensures
            final(self).token == old(self).token,
            inner is None ==> res == Err::<(), IoError>(IoError::ReactorGone),
            inner is Some ==> res is Ok,
    {
        match inner {
            Some(_) => Ok(()),
            None => Err(IoError::ReactorGone),
        }
    }

    /// Polls for read readiness, leaving `waker` to be woken when there is
    /// none.
    pub fn poll_read_ready(&self, inner: Option<&mut Inner>, waker: &Waker) -> (res: Poll<
        Result<usize, IoError>,
    >)
        requires
            inner matches Some(i) ==> i.map@.contains_key(self.token),
        ensures
            inner is None ==> res == Poll::Ready(Err::<usize, IoError>(IoError::ReactorGone)),
            inner matches Some(i) ==> {
                &&& final(i).n_sources == i.n_sources
                &&& final(i).map@ == i.map@.insert(
                    self.token,
                    taken(i.map@[self.token], Direction::Read),
                )
                &&& res == (if ready_bits(i.map@[self.token], Direction::Read) == 0 {
                    Poll::<Result<usize, IoError>>::Pending
                } else {
                    Poll::Ready(Ok(ready_bits(i.map@[self.token], Direction::Read)))
                })
            },
    {
        match self.poll_ready(inner, Direction::Read, Some(waker)) {
            Ok(Poll::Ready(bits)) => Poll::Ready(Ok(bits)),
            Ok(Poll::Pending) => Poll::Pending,
            Err(e) => Poll::Ready(Err(e)),
        }
    }

    /// Polls for write readiness, leaving `waker` to be woken when there
    /// is none.
    pub fn poll_write_ready(&self, inner: Option<&mut Inner>, waker: &Waker) -> (res: Poll<
        Result<usize, IoError>,
    >)
        requires
            inner matches Some(i) ==> i.map@.contains_key(self.token),
        ensures
            inner is None ==> res == Poll::Ready(Err::<usize, IoError>(IoError::ReactorGone)),
            inner matches Some(i) ==> {
                &&& final(i).n_sources == i.n_sources
                &&& final(i).map@ == i.map@.insert(
                    self.token,
                    taken(i.map@[self.token], Direction::Write),
                )
                &&& res == (if ready_bits(i.map@[self.token], Direction::Write) == 0 {
                    Poll::<Result<usize, IoError>>::Pending
                } else {
                    Poll::Ready(Ok(ready_bits(i.map@[self.token], Direction::Write)))
                })
            },
    {
        match self.poll_ready(inner, Direction::Write, Some(waker)) {
            Ok(Poll::Ready(bits)) => Poll::Ready(Ok(bits)),
            Ok(Poll::Pending) => Poll::Pending,
            Err(e) => Poll::Ready(Err(e)),
        }
    }

    /// Takes the write readiness that is there, if any, without asking to
    /// be woken.
    pub fn take_write_ready(&self, inner: Option<&mut Inner>) -> (res: Result<Option<usize>, IoError>)
        requires
            inner matches Some(i) ==> i.map@.contains_key(self.token),
        ensures
            inner is None ==> res == Err::<Option<usize>, IoError>(IoError::ReactorGone),
            inner matches Some(i) ==> {
                &&& final(i).n_sources == i.n_sources
                &&& final(i).map@ == i.map@.insert(
                    self.token,
                    taken(i.map@[self.token], Direction::Write),
                )
                &&& res == Ok::<Option<usize>, IoError>(
                    if ready_bits(i.map@[self.token], Direction::Write) == 0 {
                        None
                    } else {
                        Some(ready_bits(i.map@[self.token], Direction::Write))
                    },
                )
            },
    {
        match self.poll_ready(inner, Direction::Write, None) {
            Ok(Poll::Ready(bits)) => Ok(Some(bits)),
            Ok(Poll::Pending) => Ok(None),
            Err(e) => Err(e),
        }
    }

    /// Takes the read readiness that is there, if any, without asking to
    /// be woken.
    pub fn take_read_ready(&self, inner: Option<&mut Inner>) -> (res: Result<Option<usize>, IoError>)
        requires
            inner matches Some(i) ==> i.map@.contains_key(self.token),
        ensures
            inner is None ==> res == Err::<Option<usize>, IoError>(IoError::ReactorGone),
            inner matches Some(i) ==> {
                &&& final(i).n_sources == i.n_sources
                &&& final(i).map@ == i.map@.insert(
                    self.token,
                    taken(i.map@[self.token], Direction::Read),
                )
                &&& res == Ok::<Option<usize>, IoError>(
                    if ready_bits(i.map@[self.token], Direction::Read) == 0 {
                        None
                    } else {
                        Some(ready_bits(i.map@[self.token], Direction::Read))
                    },
                )
            },
    {
        match self.poll_ready(inner, Direction::Read, None) {
            Ok(Poll::Ready(bits)) => Ok(Some(bits)),
            Ok(Poll::Pending) => Ok(None),
            Err(e) => Err(e),
        }
    }

    /// Takes the readiness of direction `direction` out of the record: the
    /// bits of the direction's mask that are there are handed back, and all
    /// of them but the hang-up bit are cleared. If none is there the answer
    /// is `Pending`, and `waker`, if given, is left in the direction's slot.
    /// The token must be registered: to poll for a source that the reactor
    /// does not know is an error of the program, not of the call.
    pub fn poll_ready(
        &self,
        inner: Option<&mut Inner>,
        direction: Direction,
        waker: Option<&Waker>,
    ) -> (res: Result<Poll<usize>, IoError>)
        requires
            inner matches Some(i) ==> i.map@.contains_key(self.token),
        ensures
            inner is None ==> res == Err::<Poll<usize>, IoError>(IoError::ReactorGone),
            inner matches Some(i) ==> {
                &&& final(i).n_sources == i.n_sources
                &&& final(i).map@ == i.map@.insert(self.token, taken(i.map@[self.token], direction))
                &&& res == Ok::<Poll<usize>, IoError>(
                    if ready_bits(i.map@[self.token], direction) == 0 {
                        Poll::Pending
                    } else {
                        Poll::Ready(ready_bits(i.map@[self.token], direction))
                    },
                )
            },
    {
        let inner = match inner {
            Some(inner) => inner,
            None => {
                return Err(IoError::ReactorGone);
            },
        };
        match waker {
            Some(w) => {
                let _ = inner.register(self.token, direction, w);
            },
            None => {},
        }
        let ghost before = inner.map@;
        let mut sched = match inner.map.remove(&self.token) {
            Some(sched) => sched,
            None => unreached(),
        };
        let ghost found = sched;
        let mask = direction.mask_within(sched.all);
        let mask_no_hup = mask & !ready::ready_hup();
        let take = |curr: usize| -> (new: usize)
            ensures
                new == curr & !mask_no_hup,
            { curr & !mask_no_hup };
        let curr_ready = sched.set_readiness(&take);
        let mut ready = mask & curr_ready;
        if ready == 0 {
            match waker {
                Some(w) => {
                    match direction {
                        Direction::Read => register_waker(&sched.reader, w),
                        Direction::Write => register_waker(&sched.writer, w),
                    }
                    proof {
                        lemma_retake(found.readiness, found.all, mask);
                    }
                    let curr_ready = sched.set_readiness(&take);
                    ready = mask & curr_ready;
                },
                None => {},
            }
        }
        inner.map.insert(self.token, sched);
        assert(inner.map@ =~= before.insert(self.token, taken(found, direction)));
        if ready == 0 {
            Ok(Poll::Pending)
        } else {
            Ok(Poll::Ready(ready))
        }
    }

    /// Drops the registration: the reactor, if it is still there, forgets
    /// the record and counts one source less.
    pub fn drop(self, inner: Option<&mut Inner>)
        ensures
            inner matches Some(i) ==> {
                &&& final(i).map@ == i.map@.remove(self.token)
                &&& final(i).n_sources as int == if i.n_sources == 0 {
                    usize::MAX as int
                } else {
                    i.n_sources - 1
                }
            },
    {
        match inner {
            Some(inner) => inner.drop_source(self.token),
            None => {},
        }
    }
}

} // verus!
