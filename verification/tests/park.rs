use std::sync::atomic::{AtomicUsize, Ordering};
use std::sync::Arc;
use std::task::Poll;
use std::time::Duration;

use async_rt::block_on;
use async_rt::io::Driver;
use async_rt::park::thread::{
    Inner, ParkStep, ParkerState, UnParker, UnparkStep, EMPTY, NOTIFIED, PARKED_COND, PARKED_DRIV,
};
use async_rt::park::{Park, Parker, Unpark};
use async_rt::scheduler::{Executor, Turn};

fn inner() -> Inner {
    Inner { state: ParkerState::new() }
}

#[test]
fn the_four_words_are_distinct() {
    assert_eq!(EMPTY, 0);
    assert_eq!(NOTIFIED, 1);
    assert_eq!(PARKED_COND, 2);
    assert_eq!(PARKED_DRIV, 4);
}

#[test]
fn a_new_word_holds_no_notification() {
    let mut state = ParkerState::new();
    assert!(!state.is_notified());
    assert_eq!(state.consume_notification(), None);
    assert_eq!(state.swap(EMPTY), EMPTY);
}

#[test]
fn a_notification_is_consumed_once() {
    let mut state = ParkerState::new();
    assert_eq!(state.swap(NOTIFIED), EMPTY);
    assert!(state.is_notified());
    assert!(!state.is_notified());
    assert_eq!(state.swap(NOTIFIED), EMPTY);
    assert_eq!(state.consume_notification(), Some(()));
    assert_eq!(state.consume_notification(), None);
}

#[test]
fn update_from_empty_announces_the_park() {
    let mut state = ParkerState::new();
    assert_eq!(state.update_from_empty(PARKED_COND), Some(()));
    assert_eq!(state.swap(EMPTY), PARKED_COND);
    assert_eq!(state.update_from_empty(PARKED_DRIV), Some(()));
    assert_eq!(state.swap(EMPTY), PARKED_DRIV);
}

#[test]
fn update_from_empty_consumes_a_notification_instead() {
    let mut state = ParkerState::new();
    state.swap(NOTIFIED);
    assert_eq!(state.update_from_empty(PARKED_COND), None);
    assert_eq!(state.swap(EMPTY), EMPTY);
}

#[test]
fn unpark_then_park_returns_at_once() {
    for driver_locked in [true, false] {
        let mut inner = inner();
        assert_eq!(inner.unpark(), UnparkStep::Nothing);
        assert_eq!(inner.park(driver_locked), ParkStep::Return);
        assert_eq!(inner.state.swap(EMPTY), EMPTY);
    }
}

#[test]
fn two_unparks_are_one_notification() {
    let mut inner = inner();
    assert_eq!(inner.unpark(), UnparkStep::Nothing);
    assert_eq!(inner.unpark(), UnparkStep::Nothing);
    assert_eq!(inner.park(false), ParkStep::Return);
    assert_eq!(inner.park(false), ParkStep::WaitOnCondvar);
}

#[test]
fn park_on_the_condvar_waits_for_the_unpark() {
    let mut inner = inner();
    assert_eq!(inner.park(false), ParkStep::WaitOnCondvar);
    assert!(inner.keep_waiting());
    assert!(inner.keep_waiting());
    assert_eq!(UnParker.unpark(&mut inner), UnparkStep::NotifyCondvar);
    assert!(!inner.keep_waiting());
    assert_eq!(inner.park(false), ParkStep::WaitOnCondvar);
    assert!(inner.keep_waiting());
}

#[test]
fn park_in_the_reactor_is_woken_through_the_reactor() {
    let mut inner = inner();
    assert_eq!(inner.park(true), ParkStep::TurnDriver);
    assert_eq!(inner.unpark(), UnparkStep::WakeDriver);
    assert_eq!(inner.after_driver(), Some(()));
    assert_eq!(inner.park(true), ParkStep::TurnDriver);
    assert_eq!(inner.after_driver(), Some(()));
    assert_eq!(inner.park(false), ParkStep::WaitOnCondvar);
}

#[test]
fn a_timed_park_is_not_announced() {
    let mut inner = inner();
    assert_eq!(inner.park_timeout(true), ParkStep::TurnDriver);
    assert_eq!(inner.park_timeout(false), ParkStep::WaitOnCondvar);
    assert_eq!(inner.unpark(), UnparkStep::Nothing);
    assert_eq!(inner.after_timeout(), Some(()));
    assert_eq!(inner.after_timeout(), Some(()));
    assert_eq!(inner.park(false), ParkStep::WaitOnCondvar);
}

#[test]
fn a_parker_starts_empty_around_its_reactor() {
    let mut driver = Driver::new();
    let _ = driver.register(3);
    let mut parker = Parker::new(driver);
    assert_eq!(parker.driver.inner.n_sources, 1);
    assert_eq!(parker.inner.park(true), ParkStep::TurnDriver);
}

#[test]
fn the_flag_parker_waits_for_the_signal() {
    let mut p = block_on::Parker::default();
    assert!(!p.notified);
    assert!(p.keep_waiting());
    block_on::unpark(&mut p);
    assert!(p.notified);
    assert!(!p.keep_waiting());
    assert!(p.keep_waiting());
}

#[test]
fn the_loop_returns_on_ready_and_parks_on_pending() {
    assert!(matches!(block_on::after_poll(Poll::Ready(5)), block_on::Step::Return(5)));
    assert!(matches!(block_on::after_poll(Poll::<u8>::Pending), block_on::Step::Park));
}

struct CountingPark {
    parks: usize,
    unparks: Arc<AtomicUsize>,
}

struct CountingUnpark(Arc<AtomicUsize>);

impl Unpark for CountingUnpark {
    fn unpark(&self) {
        self.0.fetch_add(1, Ordering::SeqCst);
    }
}

impl Park for CountingPark {
    type Handle = CountingUnpark;

    fn handle(&self) -> CountingUnpark {
        CountingUnpark(self.unparks.clone())
    }

    fn park(&mut self) -> Result<(), std::io::Error> {
        self.parks += 1;
        Ok(())
    }

    fn park_timeout(&mut self, dur: Duration) -> Result<(), std::io::Error> {
        assert_eq!(dur, Duration::from_millis(0));
        self.parks += 1;
        Ok(())
    }
}

#[test]
fn the_executor_ticks_its_parker_without_blocking() {
    let unparks = Arc::new(AtomicUsize::new(0));
    let mut executor = Executor::new(CountingPark { parks: 0, unparks: unparks.clone() });
    assert!(executor.tick().is_ok());
    assert!(executor.tick().is_ok());
    assert_eq!(executor.park.parks, 2);
    executor.state.unpark.unpark();
    assert_eq!(unparks.load(Ordering::SeqCst), 1);
}

#[test]
fn the_executor_returns_on_ready_and_ticks_on_pending() {
    assert!(matches!(Executor::<CountingPark>::after_poll(Poll::Ready(5)), Turn::Return(5)));
    assert!(matches!(Executor::<CountingPark>::after_poll(Poll::<u8>::Pending), Turn::Tick));
}

#[test]
fn boxed_and_shared_handles_unpark() {
    let unparks = Arc::new(AtomicUsize::new(0));
    let boxed = Box::new(CountingUnpark(unparks.clone()));
    boxed.unpark();
    let shared = Arc::new(CountingUnpark(unparks.clone()));
    shared.unpark();
    assert_eq!(unparks.load(Ordering::SeqCst), 2);
}
