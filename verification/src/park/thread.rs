//! The park protocol of one thread.
//!
//! A thread that parks blocks either in the reactor, if it gets hold of it,
//! or on a condition variable. One word says where it is; an unpark swaps
//! the word to notified and learns from what was there whom to wake. The
//! blocking itself is not done here: each function below is one decision of
//! the protocol, and says in its result what the caller has to do next.

use vstd::prelude::*;

use crate::io::driver::Driver;

verus! {

/// Nobody is parked and no notification is pending.
pub const EMPTY: usize = 0b0000;

/// An unpark has arrived and was not yet consumed.
pub const NOTIFIED: usize = 0b0001;

/// The thread is blocked on the condition variable.
pub const PARKED_COND: usize = 0b0010;

/// The thread is blocked in the reactor.
pub const PARKED_DRIV: usize = 0b0100;

/// The park word.
#[derive(Debug)]
pub struct ParkerState(usize);

/// What the park word says.
#[derive(Clone, Copy, Debug, PartialEq, Eq, Structural)]
pub enum ParkPhase {
    Empty,
    Notified,
    ParkedOnCondvar,
    ParkedOnDriver,
}

/// What a thread that wants to park has to do.
#[derive(Clone, Copy, Debug, PartialEq, Eq, Structural)]
pub enum ParkStep {
    /// A notification was pending and is consumed: return at once.
    Return,
    /// Turn the reactor, which the thread holds; then call
    /// `Inner::after_driver`.
    TurnDriver,
    /// Wait on the condition variable until `Inner::keep_waiting` says no.
    WaitOnCondvar,
}

/// What the caller of an unpark has to do.
#[derive(Clone, Copy, Debug, PartialEq, Eq, Structural)]
pub enum UnparkStep {
    /// Nobody is parked: the notification waits for the next park.
    Nothing,
    /// Take and release the mutex, then notify the condition variable.
    NotifyCondvar,
    /// Wake the reactor.
    WakeDriver,
}

/// The part of a parker that its handles share.
pub struct Inner {
    pub state: ParkerState,
}

/// The parker of one thread, with the reactor it may block in.
pub struct Parker {
    pub inner: Inner,
    pub driver: Driver,
}

/// The handle that unparks a parker.
pub struct UnParker;

impl View for ParkerState {
    type V = ParkPhase;

    closed spec fn view(&self) -> ParkPhase {
        if self.0 == NOTIFIED {
            ParkPhase::Notified
        } else if self.0 == PARKED_COND {
            ParkPhase::ParkedOnCondvar
        } else if self.0 == PARKED_DRIV {
            ParkPhase::ParkedOnDriver
        } else {
            ParkPhase::Empty
        }
    }
}

/// The phase that the word `word` stands for.
pub open spec fn phase_of(word: usize) -> ParkPhase {
    if word == NOTIFIED {
        ParkPhase::Notified
    } else if word == PARKED_COND {
        ParkPhase::ParkedOnCondvar
    } else if word == PARKED_DRIV {
        ParkPhase::ParkedOnDriver
    } else {
        ParkPhase::Empty
    }
}

impl ParkerState {
    /// The word is one of the four that the protocol writes.
    pub closed spec fn wf(&self) -> bool {
        self.0 == EMPTY || self.0 == NOTIFIED || self.0 == PARKED_COND || self.0 == PARKED_DRIV
    }

    /// A park word with nobody parked and nothing pending.
    pub fn new() -> (state: ParkerState)
        ensures
            state.wf(),
            state@ == ParkPhase::Empty,
    {
        ParkerState(EMPTY)
    }

    /// What the word says now.
    pub fn load(&self) -> (phase: ParkPhase)
        ensures
            phase == self@,
    {
        if self.0 == NOTIFIED {
            ParkPhase::Notified
        } else if self.0 == PARKED_COND {
            ParkPhase::ParkedOnCondvar
        } else if self.0 == PARKED_DRIV {
            ParkPhase::ParkedOnDriver
        } else {
            ParkPhase::Empty
        }
    }

    /// Writes `word` and returns the word that was there.
    pub fn swap(&mut self, word: usize) -> (prev: usize)
        requires
            old(self).wf(),
            word == EMPTY || word == NOTIFIED || word == PARKED_COND || word == PARKED_DRIV,
        ensures
            final(self).wf(),
            final(self)@ == phase_of(word),
            phase_of(prev) == old(self)@,
            prev == EMPTY || prev == NOTIFIED || prev == PARKED_COND || prev == PARKED_DRIV,
    {
        let prev = self.0;
        self.0 = word;
        prev
    }

    /// Consumes a pending notification. Returns whether there was one.
    pub fn is_notified(&mut self) -> (was: bool)
        ensures
            was == (old(self)@ == ParkPhase::Notified),
            final(self)@ == (if was {
                ParkPhase::Empty
            } else {
                old(self)@
            }),
            old(self).wf() ==> final(self).wf(),
    {
        if self.0 == NOTIFIED {
            self.0 = EMPTY;
            true
        } else {
            false
        }
    }

    /// Consumes a pending notification. `Some` if there was one.
    pub fn consume_notification(&mut self) -> (res: Option<()>)
        ensures
            res is Some <==> old(self)@ == ParkPhase::Notified,
            final(self)@ == (if res is Some {
                ParkPhase::Empty
            } else {
                old(self)@
            }),
            old(self).wf() ==> final(self).wf(),
    {
        if self.0 == NOTIFIED {
            self.0 = EMPTY;
            Some(())
        } else {
            None
        }
    }

    /// Announces that the thread is about to block: writes `s` over an
    /// empty word. If a notification came in first it is consumed instead
    /// and the answer is `None`: the thread must not block.
    pub fn update_from_empty(&mut self, s: usize) -> (res: Option<()>)
        requires
            old(self)@ == ParkPhase::Empty || old(self)@ == ParkPhase::Notified,
            old(self).wf(),
            s == EMPTY || s == NOTIFIED || s == PARKED_COND || s == PARKED_DRIV,
        ensures
            final(self).wf(),
            res is Some <==> old(self)@ == ParkPhase::Empty,
            final(self)@ == (if res is Some {
                phase_of(s)
            } else {
                ParkPhase::Empty
            }),
    {
        if self.0 == EMPTY {
            self.0 = s;
            Some(())
        } else {
            let _ = self.swap(EMPTY);
            None
        }
    }
}

impl Parker {
    /// A parker around the reactor `driver`, with nothing pending.
    pub fn new(driver: Driver) -> (parker: Parker)
        ensures
            parker.driver == driver,
            parker.inner.wf(),
            parker.inner.phase() == ParkPhase::Empty,
    {
        Parker { inner: Inner { state: ParkerState::new() }, driver }
    }
}

impl UnParker {
    /// Unparks the parker whose shared part is `inner`.
    pub fn unpark(&self, inner: &mut Inner) -> (step: UnparkStep)
        requires
            old(inner).wf(),
        ensures
            final(inner).wf(),
            final(inner).phase() == ParkPhase::Notified,
            step == Inner::unpark_step(old(inner).phase()),
    {
        inner.unpark()
    }
}

impl Inner {
    pub open spec fn phase(&self) -> ParkPhase {
        self.state@
    }

    pub open spec fn wf(&self) -> bool {
        self.state.wf()
    }

    /// What a parking thread does when it finds the word in `phase`.
    pub open spec fn park_step(phase: ParkPhase, driver_locked: bool) -> ParkStep {
        if phase == ParkPhase::Notified {
            ParkStep::Return
        } else if driver_locked {
            ParkStep::TurnDriver
        } else {
            ParkStep::WaitOnCondvar
        }
    }

    /// What the word says once a parking thread has decided on `step`.
    pub open spec fn parked_phase(step: ParkStep) -> ParkPhase {
        match step {
            ParkStep::Return => ParkPhase::Empty,
            ParkStep::TurnDriver => ParkPhase::ParkedOnDriver,
            ParkStep::WaitOnCondvar => ParkPhase::ParkedOnCondvar,
        }
    }

    /// Whether a thread on the condition variable that finds the word in
    /// `phase` goes on waiting: it does unless the word is notified.
    pub open spec fn keeps_waiting(phase: ParkPhase) -> bool {
        phase != ParkPhase::Notified
    }

    /// What an unpark does when it finds the word in `phase`.
    pub open spec fn unpark_step(phase: ParkPhase) -> UnparkStep {
        match phase {
            ParkPhase::Empty => UnparkStep::Nothing,
            ParkPhase::Notified => UnparkStep::Nothing,
            ParkPhase::ParkedOnCondvar => UnparkStep::NotifyCondvar,
            ParkPhase::ParkedOnDriver => UnparkStep::WakeDriver,
        }
    }

    /// The thread wants to park. A pending notification is consumed and
    /// the thread returns at once. Otherwise the word says where the thread
    /// blocks: in the reactor if it got hold of it (`driver_locked`), on
    /// the condition variable if not.
    pub fn park(&mut self, driver_locked: bool) -> (step: ParkStep)
        requires
            old(self).wf(),
            old(self).phase() == ParkPhase::Empty || old(self).phase() == ParkPhase::Notified,
        ensures
            final(self).wf(),
            step == Self::park_step(old(self).phase(), driver_locked),
            final(self).phase() == Self::parked_phase(step),
    {
        let mut spins: usize = 0;
        while spins < 3
            invariant
                spins <= 3,
                self.wf(),
                self.phase() == old(self).phase(),
                self.phase() == ParkPhase::Empty || self.phase() == ParkPhase::Notified,
                spins > 0 ==> self.phase() == ParkPhase::Empty,
            ensures
                self.wf(),
                self.phase() == ParkPhase::Empty,
            decreases 3 - spins,
        {
            if self.state.consume_notification().is_some() {
                return ParkStep::Return;
            }
            spins += 1;
        }
        if driver_locked {
            match self.state.update_from_empty(PARKED_DRIV) {
                Some(_) => ParkStep::TurnDriver,
                None => ParkStep::Return,
            }
        } else {
            match self.state.update_from_empty(PARKED_COND) {
                Some(_) => ParkStep::WaitOnCondvar,
                None => ParkStep::Return,
            }
        }
    }

    /// The thread is back from the reactor: the word is swapped to empty.
    /// Whether an unpark arrived meanwhile no longer matters.
    pub fn after_driver(&mut self) -> (res: Option<()>)
        requires
            old(self).wf(),
            old(self).phase() == ParkPhase::Notified || old(self).phase()
                == ParkPhase::ParkedOnDriver,
        ensures
            final(self).wf(),
            final(self).phase() == ParkPhase::Empty,
            res is Some,
    {
        let _ = self.state.swap(EMPTY);
        Some(())
    }

    /// The thread is on the condition variable and looks at the word. If
    /// it is notified the notification is consumed and the wait ends;
    /// otherwise the thread goes on waiting.
    pub fn keep_waiting(&mut self) -> (wait: bool)
        requires
            old(self).wf(),
        ensures
            final(self).wf(),
            wait == Self::keeps_waiting(old(self).phase()),
            final(self).phase() == (if wait {
                old(self).phase()
            } else {
                ParkPhase::Empty
            }),
    {
        !self.state.is_notified()
    }

    /// The thread wants to park for a limited time. It says where it
    /// blocks, as `park` does, but writes nothing: a timed park is not
    /// announced.
    pub fn park_timeout(&self, driver_locked: bool) -> (step: ParkStep)
        ensures
            step == (if driver_locked {
                ParkStep::TurnDriver
            } else {
                ParkStep::WaitOnCondvar
            }),
    {
        if driver_locked {
            ParkStep::TurnDriver
        } else {
            ParkStep::WaitOnCondvar
        }
    }

    /// The thread is back from a timed wait on the condition variable: the
    /// word is swapped to empty, whatever it was.
    pub fn after_timeout(&mut self) -> (res: Option<()>)
        requires
            old(self).wf(),
        ensures
            final(self).wf(),
            final(self).phase() == ParkPhase::Empty,
            res is Some,
    {
        let _ = self.state.swap(EMPTY);
        Some(())
    }

    /// An unpark: the word is swapped to notified, and what was there says
    /// whom to wake.
    pub fn unpark(&mut self) -> (step: UnparkStep)
        requires
            old(self).wf(),
        ensures
            final(self).wf(),
            final(self).phase() == ParkPhase::Notified,
            step == Self::unpark_step(old(self).phase()),
    {
        let prev = self.state.swap(NOTIFIED);
        if prev == EMPTY || prev == NOTIFIED {
            UnparkStep::Nothing
        } else if prev == PARKED_COND {
            UnparkStep::NotifyCondvar
        } else {
            UnparkStep::WakeDriver
        }
    }
}

/// Where the thread of a parker is.
pub enum Place {
    /// Not parked.
    Awake,
    /// Blocked in the reactor.
    InDriver,
    /// Blocked on the condition variable.
    OnCondvar,
}

/// What happens to a parker.
pub enum ParkEvent {
    /// Its thread parks; it got hold of the reactor or not.
    Park { driver_locked: bool },
    /// Any thread unparks it.
    Unpark,
    /// Its thread comes back from the reactor.
    DriverReturns,
    /// Its thread, on the condition variable, looks at the word.
    CondvarCheck,
}

/// A parker with its thread.
pub struct ParkModel {
    pub phase: ParkPhase,
    pub place: Place,
}

impl ParkModel {
    /// A parker whose thread has not parked yet.
    pub open spec fn fresh() -> ParkModel {
        ParkModel { phase: ParkPhase::Empty, place: Place::Awake }
    }

    /// The event can happen: a thread parks only while awake, and comes
    /// back only from where it is.
    pub open spec fn enabled(self, event: ParkEvent) -> bool {
        match event {
            ParkEvent::Park { driver_locked } => self.place is Awake,
            ParkEvent::Unpark => true,
            ParkEvent::DriverReturns => self.place is InDriver,
            ParkEvent::CondvarCheck => self.place is OnCondvar,
        }
    }

    /// The parker after `event`, by the decisions of `Inner`.
    pub open spec fn next(self, event: ParkEvent) -> ParkModel {
        match event {
            ParkEvent::Park { driver_locked } => {
                let step = Inner::park_step(self.phase, driver_locked);
                ParkModel {
                    phase: Inner::parked_phase(step),
                    place: match step {
                        ParkStep::Return => Place::Awake,
                        ParkStep::TurnDriver => Place::InDriver,
                        ParkStep::WaitOnCondvar => Place::OnCondvar,
                    },
                }
            },
            ParkEvent::Unpark => ParkModel { phase: ParkPhase::Notified, ..self },
            ParkEvent::DriverReturns => ParkModel { phase: ParkPhase::Empty, place: Place::Awake },
            ParkEvent::CondvarCheck => if Inner::keeps_waiting(self.phase) {
                self
            } else {
                ParkModel { phase: ParkPhase::Empty, place: Place::Awake }
            },
        }
    }

    /// The word agrees with where the thread is.
    pub open spec fn inv(self) -> bool {
        match self.place {
            Place::Awake => self.phase == ParkPhase::Empty || self.phase == ParkPhase::Notified,
            Place::InDriver => self.phase == ParkPhase::ParkedOnDriver || self.phase
                == ParkPhase::Notified,
            Place::OnCondvar => self.phase == ParkPhase::ParkedOnCondvar || self.phase
                == ParkPhase::Notified,
        }
    }

    /// The parker after the events of `trace`, in order.
    pub open spec fn run(self, trace: Seq<ParkEvent>) -> ParkModel
        decreases trace.len(),
    {
        if trace.len() == 0 {
            self
        } else {
            self.run(trace.drop_last()).next(trace.last())
        }
    }

    /// Every event of `trace` can happen when its turn comes.
    pub open spec fn admits(self, trace: Seq<ParkEvent>) -> bool
        decreases trace.len(),
    {
        trace.len() > 0 ==> self.admits(trace.drop_last()) && self.run(trace.drop_last()).enabled(
            trace.last(),
        )
    }

    /// The word always agrees with where the thread is: no event finds a
    /// word that the protocol does not expect there.
    pub proof fn lemma_inv(trace: Seq<ParkEvent>)
        requires
            Self::fresh().admits(trace),
        ensures
            Self::fresh().run(trace).inv(),
        decreases trace.len(),
    {
        if trace.len() > 0 {
            Self::lemma_inv(trace.drop_last());
        }
    }

    /// A park after an unpark returns at once and uses the notification
    /// up.
    pub proof fn lemma_unpark_then_park(self, driver_locked: bool)
        requires
            self.inv(),
            self.place is Awake,
        ensures
            self.next(ParkEvent::Unpark).next(ParkEvent::Park { driver_locked }).place is Awake,
            self.next(ParkEvent::Unpark).next(ParkEvent::Park { driver_locked }).phase
                == ParkPhase::Empty,
    {
    }

    /// A park with nothing pending blocks; on the condition variable it
    /// stays blocked, whenever it looks, until an unpark; the unpark wakes
    /// the place where the thread is; after it the thread returns; and the
    /// park after that blocks again.
    pub proof fn lemma_park_unpark_park(self, first_locked: bool, second_locked: bool)
        requires
            self.inv(),
            self.place is Awake,
            self.phase == ParkPhase::Empty,
        ensures
            ({
                let parked = self.next(ParkEvent::Park { driver_locked: first_locked });
                let woken = parked.next(ParkEvent::Unpark);
                let back = if first_locked {
                    woken.next(ParkEvent::DriverReturns)
                } else {
                    woken.next(ParkEvent::CondvarCheck)
                };
                &&& !(parked.place is Awake)
                &&& !first_locked ==> parked.next(ParkEvent::CondvarCheck) == parked
                &&& Inner::unpark_step(parked.phase) == (if first_locked {
                    UnparkStep::WakeDriver
                } else {
                    UnparkStep::NotifyCondvar
                })
                &&& back.place is Awake
                &&& back.phase == ParkPhase::Empty
                &&& !(back.next(ParkEvent::Park { driver_locked: second_locked }).place is Awake)
            }),
    {
    }
}

} // verus!
