//! The reactor's bookkeeping: which source has which readiness, and what a
//! batch of events from the poller does to it.
//!
//! Polling the operating system is not done here. Whoever does it hands the
//! events in as plain tokens and readiness words.

use std::collections::HashMap;
use std::task::Waker;
use vstd::prelude::*;

use super::ready;
use super::registration::{IoError, Registration};
use super::scheduled::{register_waker, wake_slot, Scheduled};

verus! {

broadcast use vstd::std_specs::hash::group_hash_axioms;

/// The direction of an I/O operation.
#[derive(Debug, Eq, PartialEq, Clone, Copy, Structural)]
pub enum Direction {
    Read,
    Write,
}

/// The token of the reactor's own wake-up source. It is never handed to a
/// registrant.
pub const TOKEN: usize = 666;

/// One event from the poller: the token of a source and what it is ready
/// for.
#[derive(Clone, Copy)]
pub struct Event {
    pub token: usize,
    pub readiness: usize,
}

/// What the reactor did with one event.
#[derive(Clone, Copy, Debug, PartialEq, Eq, Structural)]
pub enum Dispatched {
    /// The event was the reactor's own wake-up: the caller clears the
    /// wake-up source.
    SelfWakeup,
    /// No source is registered under the token: the event was ignored.
    Unknown,
    /// The readiness was merged into the registration and the wakers of
    /// the directions it concerns were woken.
    Woken { reader: bool, writer: bool },
}

/// The state that the reactor shares with its handles.
pub struct Inner {
    /// The registrations, by token.
    pub map: HashMap<usize, Scheduled>,
    /// How many sources are registered.
    pub n_sources: usize,
}

/// The reactor.
pub struct Driver {
    pub inner: Inner,
}

impl Direction {
    /// The readiness bits that concern operations in this direction, out of
    /// the full set `all`: for reads everything but the writable bit, for
    /// writes the writable bit and the hang-up bit.
    pub open spec fn mask_of(self, all: usize) -> usize {
        match self {
            Direction::Read => all & !ready::WRITABLE,
            Direction::Write => ready::WRITABLE | ready::HUP,
        }
    }

    /// The readiness bits on which a waker of this direction is woken at
    /// once when it registers: for reads any bit but the writable one, for
    /// writes the writable bit.
    pub open spec fn interest(self) -> usize {
        match self {
            Direction::Read => !ready::WRITABLE,
            Direction::Write => ready::WRITABLE,
        }
    }

    /// The mask of this direction out of the poller's full set.
    pub fn mask(self) -> (mask: usize)
        ensures
            exists|all: usize| ready::is_all(all) && mask == self.mask_of(all),
    {
        let all = ready::ready_all();
        self.mask_within(all)
    }

    /// The mask of this direction out of the full set `all`.
    pub fn mask_within(self, all: usize) -> (mask: usize)
        ensures
            mask == self.mask_of(all),
    {
        match self {
            Direction::Read => all & !ready::ready_writable(),
            Direction::Write => ready::ready_writable() | ready::ready_hup(),
        }
    }
}

/// The registration `sched` after readiness `kind` has arrived for it.
pub open spec fn merged(sched: Scheduled, kind: usize) -> Scheduled {
    Scheduled { readiness: (sched.readiness & sched.all) | kind, ..sched }
}

/// The registrations after event `e`.
pub open spec fn dispatch_map(map: Map<usize, Scheduled>, e: Event) -> Map<usize, Scheduled> {
    if e.token == TOKEN || !map.contains_key(e.token) {
        map
    } else {
        map.insert(e.token, merged(map[e.token], e.readiness))
    }
}

/// What the reactor reports of event `e`.
pub open spec fn dispatch_report(map: Map<usize, Scheduled>, e: Event) -> Dispatched {
    if e.token == TOKEN {
        Dispatched::SelfWakeup
    } else if !map.contains_key(e.token) {
        Dispatched::Unknown
    } else {
        Dispatched::Woken {
            reader: e.readiness & !(ready::WRITABLE | ready::HUP) != 0,
            writer: e.readiness & ready::WRITABLE == ready::WRITABLE || e.readiness & ready::HUP
                == ready::HUP,
        }
    }
}

/// The registrations after the events of `events`, in order.
pub open spec fn turn_map(map: Map<usize, Scheduled>, events: Seq<Event>) -> Map<usize, Scheduled>
    decreases events.len(),
{
    if events.len() == 0 {
        map
    } else {
        dispatch_map(turn_map(map, events.drop_last()), events.last())
    }
}

impl Driver {
    /// A reactor with no source.
    pub fn new() -> (driver: Driver)
        ensures
            driver.inner.map@ == Map::<usize, Scheduled>::empty(),
            driver.inner.n_sources == 0,
    {
        Driver { inner: Inner { map: HashMap::new(), n_sources: 0 } }
    }

    /// Whether no source is registered.
    pub fn empty(&self) -> (none: bool)
        ensures
            none == (self.inner.n_sources == 0),
    {
        self.inner.n_sources == 0
    }

    /// Registers a source under `token`.
    pub fn register(&mut self, token: usize) -> (res: Result<Registration, IoError>)
        ensures
            res matches Ok(r) && r.token == token,
            final(self).inner.map@ == old(self).inner.map@.insert(
                token,
                final(self).inner.map@[token],
            ),
            final(self).inner.map@[token].readiness == 0,
            ready::is_all(final(self).inner.map@[token].all),
            final(self).inner.n_sources as int == if old(self).inner.n_sources == usize::MAX {
                0
            } else {
                old(self).inner.n_sources + 1
            },
    {
        Registration::new(Some(&mut self.inner), token)
    }

    /// Takes in what the poller returned: its error, which is handed on,
    /// or a batch of events, which are dispatched in order. Reports what
    /// was done with each event.
    pub fn turn<E>(&mut self, polled: Result<Vec<Event>, E>) -> (res: Result<Vec<Dispatched>, E>)
        ensures
            final(self).inner.n_sources == old(self).inner.n_sources,
            polled matches Err(e) ==> res == Err::<Vec<Dispatched>, E>(e)
                && final(self).inner.map@ == old(self).inner.map@,
            polled matches Ok(events) ==> {
                &&& res matches Ok(done)
                &&& final(self).inner.map@ == turn_map(old(self).inner.map@, events@)
                &&& done@.len() == events@.len()
                &&& forall|i: int|
                    0 <= i < events@.len() ==> #[trigger] done@[i] == dispatch_report(
                        turn_map(old(self).inner.map@, events@.take(i)),
                        events@[i],
                    )
            },
    {
        let events = match polled {
            Ok(events) => events,
            Err(e) => {
                return Err(e);
            },
        };
        let mut done: Vec<Dispatched> = Vec::new();
        let mut i: usize = 0;
        assert(events@.take(0) =~= Seq::<Event>::empty());
        while i < events.len()
            invariant
                i <= events@.len(),
                done@.len() == i,
                self.inner.n_sources == old(self).inner.n_sources,
                self.inner.map@ == turn_map(old(self).inner.map@, events@.take(i as int)),
                forall|j: int|
                    0 <= j < i ==> #[trigger] done@[j] == dispatch_report(
                        turn_map(old(self).inner.map@, events@.take(j)),
                        events@[j],
                    ),
            decreases events@.len() - i,
        {
            let e = events[i];
            let report = Self::dispatch(&mut self.inner.map, e);
            done.push(report);
            proof {
                assert(events@.take(i + 1).drop_last() =~= events@.take(i as int));
                assert(events@.take(i + 1).last() == events@[i as int]);
            }
            i += 1;
        }
        assert(events@.take(i as int) =~= events@);
        Ok(done)
    }

    /// Takes in one event. The reactor's own token is reported back for
    /// the caller to clear the wake-up source; an event for an unknown token
    /// is ignored; otherwise the readiness is or-ed into the registration
    /// and the wakers it concerns are woken: the writer on the writable and
    /// on the hang-up bit, the reader on any bit other than these two.
    pub fn dispatch(ml: &mut HashMap<usize, Scheduled>, e: Event) -> (report: Dispatched)
        ensures
            final(ml)@ == dispatch_map(old(ml)@, e),
            report == dispatch_report(old(ml)@, e),
    {
        let token = e.token;
        if token == TOKEN {
            return Dispatched::SelfWakeup;
        }
        let mut io = match ml.remove(&token) {
            Some(io) => io,
            None => {
                assert(final(ml)@ =~= old(ml)@);
                return Dispatched::Unknown;
            },
        };
        let kind = e.readiness;
        let merge = |old: usize| -> (new: usize)
            ensures
                new == old | kind,
            { old | kind };
        io.set_readiness(merge);
        let writer = ready::is_writable(kind) || ready::is_hup(kind);
        if writer {
            wake_slot(&io.writer);
        }
        let reader = kind & !(ready::ready_writable() | ready::ready_hup()) != 0;
        if reader {
            wake_slot(&io.reader);
        }
        ml.insert(token, io);
        assert(final(ml)@ =~= dispatch_map(old(ml)@, e));
        Dispatched::Woken { reader, writer }
    }
}

impl Inner {
    /// Makes a fresh record for `token`, in place of any older one, and
    /// counts one more source.
    pub fn add_io(&mut self, token: usize)
        ensures
            final(self).map@ == old(self).map@.insert(token, final(self).map@[token]),
            final(self).map@[token].readiness == 0,
            ready::is_all(final(self).map@[token].all),
            final(self).n_sources as int == if old(self).n_sources == usize::MAX {
                0
            } else {
                old(self).n_sources + 1
            },
    {
        self.map.insert(token, Scheduled::new());
        self.n_sources = self.n_sources.wrapping_add(1);
    }

    /// Leaves `w` to be woken when the source of `token` is ready in
    /// direction `dir`, and wakes it at once if readiness of that
    /// direction is already there. Returns whether it did.
    pub fn register(&self, token: usize, dir: Direction, w: &Waker) -> (woken: bool)
        requires
            self.map@.contains_key(token),
        ensures
            woken == (self.map@[token].readiness & dir.interest() != 0),
    {
        let sched = match self.map.get(&token) {
            Some(sched) => sched,
            None => {
                assert(false);
                return false;
            },
        };
        let readiness = sched.get_readiness();
        let ready = match dir {
            Direction::Read => !ready::ready_writable(),
            Direction::Write => ready::ready_writable(),
        };
        match dir {
            Direction::Read => register_waker(&sched.reader, w),
            Direction::Write => register_waker(&sched.writer, w),
        }
        if readiness & ready != 0 {
            match dir {
                Direction::Read => wake_slot(&sched.reader),
                Direction::Write => wake_slot(&sched.writer),
            }
            true
        } else {
            false
        }
    }

    /// Forgets the record of `token` and counts one source less.
    pub fn drop_source(&mut self, token: usize)
        ensures
            final(self).map@ == old(self).map@.remove(token),
            final(self).n_sources as int == if old(self).n_sources == 0 {
                usize::MAX as int
            } else {
                old(self).n_sources - 1
            },
    {
        let _ = self.map.remove(&token);
        self.n_sources = self.n_sources.wrapping_sub(1);
    }

    /// The registrations, to read.
    pub fn read_map(&self) -> (map: &HashMap<usize, Scheduled>)
        ensures
            map == self.map,
    {
        &self.map
    }
}

} // verus!
