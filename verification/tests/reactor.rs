use std::sync::atomic::{AtomicUsize, Ordering};
use std::sync::Arc;
use std::task::{Poll, Wake, Waker};

use async_rt::io::driver::{Direction, Dispatched, Driver, Event, TOKEN};
use async_rt::io::poll_evented::{is_wouldblock, would_block, PollEvented};
use async_rt::io::ready::{ERROR, HUP, READABLE, WRITABLE};
use async_rt::io::registration::{IoError, Registration};
use async_rt::io::Scheduled;
use async_rt::park::thread::{Inner, ParkStep, ParkerState, UnparkStep};

struct CountingWaker(AtomicUsize);

impl Wake for CountingWaker {
    fn wake(self: Arc<Self>) {
        self.0.fetch_add(1, Ordering::SeqCst);
    }
}

fn counting_waker() -> (Arc<CountingWaker>, Waker) {
    let inner = Arc::new(CountingWaker(AtomicUsize::new(0)));
    (inner.clone(), Waker::from(inner))
}

fn woken(count: &Arc<CountingWaker>) -> usize {
    count.0.load(Ordering::SeqCst)
}

fn readiness(driver: &Driver, token: usize) -> usize {
    driver.inner.read_map().get(&token).unwrap().get_readiness()
}

fn events(list: &[(usize, usize)]) -> Result<Vec<Event>, IoError> {
    Ok(list.iter().map(|&(token, readiness)| Event { token, readiness }).collect())
}

#[test]
fn the_write_mask_is_writable_and_hup() {
    assert_eq!(Direction::Write.mask(), WRITABLE | HUP);
    assert_eq!(Direction::Write.mask(), 0b1010);
}

#[test]
fn the_read_mask_is_everything_but_writable() {
    let mask = Direction::Read.mask();
    assert_eq!(mask & WRITABLE, 0);
    assert_eq!(mask & READABLE, READABLE);
    assert_eq!(mask & ERROR, ERROR);
    assert_eq!(mask & HUP, HUP);
    assert!(mask <= 0x7f);
    assert_eq!(mask, mio::Ready::all().as_usize() & !WRITABLE);
}

#[test]
fn the_mask_within_a_full_set() {
    assert_eq!(Direction::Read.mask_within(0b1111), 0b1101);
    assert_eq!(Direction::Read.mask_within(0b100_1111), 0b100_1101);
    assert_eq!(Direction::Write.mask_within(0b1111), 0b1010);
}

#[test]
fn a_fresh_record_has_no_readiness() {
    let sched = Scheduled::new();
    assert_eq!(sched.get_readiness(), 0);
    assert_eq!(sched.all, mio::Ready::all().as_usize());
    assert_eq!(sched.all & 0xf, 0xf);
}

#[test]
fn set_readiness_hands_back_the_old_word() {
    let mut sched = Scheduled::new();
    assert_eq!(sched.set_readiness(|old: usize| old | 0b11), 0);
    assert_eq!(sched.get_readiness(), 0b11);
    assert_eq!(sched.set_readiness(|old: usize| old & !0b01), 0b11);
    assert_eq!(sched.get_readiness(), 0b10);
}

#[test]
fn set_readiness_cuts_the_word_to_the_full_set_first() {
    let mut sched = Scheduled::new();
    sched.readiness = 0x80 | READABLE;
    assert_eq!(sched.set_readiness(|old: usize| old), 0x80 | READABLE);
    assert_eq!(sched.get_readiness(), READABLE);
}

#[test]
fn a_new_reactor_is_empty() {
    let mut driver = Driver::new();
    assert!(driver.empty());
    let reg = driver.register(5).ok().unwrap();
    assert_eq!(reg.token, 5);
    assert!(!driver.empty());
    assert_eq!(driver.inner.n_sources, 1);
    assert_eq!(readiness(&driver, 5), 0);
    reg.drop(Some(&mut driver.inner));
    assert!(driver.empty());
    assert!(driver.inner.read_map().get(&5).is_none());
}

#[test]
fn readiness_is_merged_not_overwritten() {
    let mut driver = Driver::new();
    let _reg = driver.register(5).ok().unwrap();
    let report = Driver::dispatch(&mut driver.inner.map, Event { token: 5, readiness: READABLE });
    assert_eq!(report, Dispatched::Woken { reader: true, writer: false });
    let report = Driver::dispatch(&mut driver.inner.map, Event { token: 5, readiness: WRITABLE });
    assert_eq!(report, Dispatched::Woken { reader: false, writer: true });
    assert_eq!(readiness(&driver, 5), READABLE | WRITABLE);
}

#[test]
fn hang_up_goes_to_the_writer_alone() {
    let mut driver = Driver::new();
    let _reg = driver.register(5).ok().unwrap();
    let report = Driver::dispatch(&mut driver.inner.map, Event { token: 5, readiness: HUP });
    assert_eq!(report, Dispatched::Woken { reader: false, writer: true });
    let report =
        Driver::dispatch(&mut driver.inner.map, Event { token: 5, readiness: HUP | WRITABLE });
    assert_eq!(report, Dispatched::Woken { reader: false, writer: true });
    let report =
        Driver::dispatch(&mut driver.inner.map, Event { token: 5, readiness: HUP | READABLE });
    assert_eq!(report, Dispatched::Woken { reader: true, writer: true });
    let report = Driver::dispatch(&mut driver.inner.map, Event { token: 5, readiness: ERROR });
    assert_eq!(report, Dispatched::Woken { reader: true, writer: false });
    let report = Driver::dispatch(&mut driver.inner.map, Event { token: 5, readiness: 0 });
    assert_eq!(report, Dispatched::Woken { reader: false, writer: false });
}

#[test]
fn an_event_for_an_unknown_token_is_ignored() {
    let mut driver = Driver::new();
    let _reg = driver.register(5).ok().unwrap();
    let report = Driver::dispatch(&mut driver.inner.map, Event { token: 6, readiness: READABLE });
    assert_eq!(report, Dispatched::Unknown);
    assert_eq!(readiness(&driver, 5), 0);
    assert!(driver.inner.read_map().get(&6).is_none());
}

#[test]
fn the_reserved_token_is_the_reactors_own() {
    assert_eq!(TOKEN, 666);
    let mut driver = Driver::new();
    let _reg = driver.register(TOKEN).ok().unwrap();
    let report =
        Driver::dispatch(&mut driver.inner.map, Event { token: TOKEN, readiness: READABLE });
    assert_eq!(report, Dispatched::SelfWakeup);
    assert_eq!(readiness(&driver, TOKEN), 0);
}

#[test]
fn a_turn_dispatches_every_event_in_order() {
    let mut driver = Driver::new();
    let _a = driver.register(1).ok().unwrap();
    let _b = driver.register(2).ok().unwrap();
    let done = driver
        .turn(events(&[(1, READABLE), (TOKEN, READABLE), (3, WRITABLE), (2, WRITABLE), (1, HUP)]))
        .ok()
        .unwrap();
    assert_eq!(
        done,
        vec![
            Dispatched::Woken { reader: true, writer: false },
            Dispatched::SelfWakeup,
            Dispatched::Unknown,
            Dispatched::Woken { reader: false, writer: true },
            Dispatched::Woken { reader: false, writer: true },
        ]
    );
    assert_eq!(readiness(&driver, 1), READABLE | HUP);
    assert_eq!(readiness(&driver, 2), WRITABLE);
    assert_eq!(driver.inner.n_sources, 2);
}

#[test]
fn a_turn_hands_the_pollers_error_on() {
    let mut driver = Driver::new();
    let _a = driver.register(1).ok().unwrap();
    let res = driver.turn(Err::<Vec<Event>, IoError>(IoError::ReactorGone));
    assert_eq!(res, Err(IoError::ReactorGone));
    assert_eq!(readiness(&driver, 1), 0);
}

#[test]
fn dispatch_wakes_the_registered_wakers() {
    let mut driver = Driver::new();
    let _reg = driver.register(5).ok().unwrap();
    let (reads, reader) = counting_waker();
    let (writes, writer) = counting_waker();
    assert!(!driver.inner.register(5, Direction::Read, &reader));
    assert!(!driver.inner.register(5, Direction::Write, &writer));
    Driver::dispatch(&mut driver.inner.map, Event { token: 5, readiness: READABLE });
    assert_eq!((woken(&reads), woken(&writes)), (1, 0));
    assert!(!driver.inner.register(5, Direction::Write, &writer));
    Driver::dispatch(&mut driver.inner.map, Event { token: 5, readiness: WRITABLE });
    assert_eq!((woken(&reads), woken(&writes)), (1, 1));
}

#[test]
fn registering_wakes_at_once_if_readiness_is_there() {
    let mut driver = Driver::new();
    let _reg = driver.register(5).ok().unwrap();
    Driver::dispatch(&mut driver.inner.map, Event { token: 5, readiness: READABLE });
    let (reads, reader) = counting_waker();
    let (writes, writer) = counting_waker();
    assert!(driver.inner.register(5, Direction::Read, &reader));
    assert!(!driver.inner.register(5, Direction::Write, &writer));
    assert_eq!((woken(&reads), woken(&writes)), (1, 0));
}

#[test]
fn registering_without_a_reactor_fails() {
    assert_eq!(Registration::new(None, 5).err(), Some(IoError::DriverGone));
    assert_eq!(IoError::DriverGone.message(), "driver gone");
    assert_eq!(IoError::ReactorGone.message(), "reactor gone");
}

#[test]
fn polling_without_a_reactor_fails() {
    let mut reg = Registration { token: 5 };
    let (_count, waker) = counting_waker();
    assert_eq!(reg.poll_ready(None, Direction::Read, None), Err(IoError::ReactorGone));
    assert_eq!(reg.take_read_ready(None), Err(IoError::ReactorGone));
    assert_eq!(reg.take_write_ready(None), Err(IoError::ReactorGone));
    assert_eq!(reg.poll_read_ready(None, &waker), Poll::Ready(Err(IoError::ReactorGone)));
    assert_eq!(reg.poll_write_ready(None, &waker), Poll::Ready(Err(IoError::ReactorGone)));
    assert_eq!(reg.deregister(None), Err(IoError::ReactorGone));
    reg.drop(None);
}

#[test]
fn deregistering_with_a_reactor_succeeds() {
    let mut driver = Driver::new();
    let mut reg = driver.register(5).ok().unwrap();
    assert_eq!(reg.deregister(Some(&driver.inner)), Ok(()));
}

#[test]
fn a_poll_takes_the_bits_of_its_direction() {
    let mut driver = Driver::new();
    let reg = driver.register(5).ok().unwrap();
    let (reads, reader) = counting_waker();
    assert_eq!(reg.poll_read_ready(Some(&mut driver.inner), &reader), Poll::Pending);
    driver.turn(events(&[(5, READABLE | WRITABLE)])).ok().unwrap();
    assert_eq!(woken(&reads), 1);
    assert_eq!(
        reg.poll_read_ready(Some(&mut driver.inner), &reader),
        Poll::Ready(Ok(READABLE))
    );
    assert_eq!(readiness(&driver, 5), WRITABLE);
    assert_eq!(reg.poll_read_ready(Some(&mut driver.inner), &reader), Poll::Pending);
    assert_eq!(reg.take_write_ready(Some(&mut driver.inner)), Ok(Some(WRITABLE)));
    assert_eq!(readiness(&driver, 5), 0);
    assert_eq!(reg.take_write_ready(Some(&mut driver.inner)), Ok(None));
    assert_eq!(reg.take_read_ready(Some(&mut driver.inner)), Ok(None));
}

#[test]
fn the_hang_up_bit_is_handed_out_but_stays() {
    let mut driver = Driver::new();
    let reg = driver.register(5).ok().unwrap();
    driver.turn(events(&[(5, HUP | READABLE | ERROR)])).ok().unwrap();
    assert_eq!(reg.take_write_ready(Some(&mut driver.inner)), Ok(Some(HUP)));
    assert_eq!(readiness(&driver, 5), HUP | READABLE | ERROR);
    assert_eq!(reg.take_read_ready(Some(&mut driver.inner)), Ok(Some(HUP | READABLE | ERROR)));
    assert_eq!(readiness(&driver, 5), HUP);
    assert_eq!(reg.take_read_ready(Some(&mut driver.inner)), Ok(Some(HUP)));
    assert_eq!(readiness(&driver, 5), HUP);
}

#[test]
fn no_readiness_is_lost_between_reactor_and_registrant() {
    let mut driver = Driver::new();
    let reg = driver.register(5).ok().unwrap();
    let mut delivered = 0;
    let mut consumed = 0;
    for kind in [READABLE, WRITABLE, ERROR, READABLE | WRITABLE, HUP, 0] {
        driver.turn(events(&[(5, kind)])).ok().unwrap();
        delivered |= kind;
        assert_eq!(delivered & !(readiness(&driver, 5) | consumed), 0);
        if let Ok(Some(bits)) = reg.take_read_ready(Some(&mut driver.inner)) {
            consumed |= bits;
        }
        assert_eq!(delivered & !(readiness(&driver, 5) | consumed), 0);
        if let Ok(Some(bits)) = reg.take_write_ready(Some(&mut driver.inner)) {
            consumed |= bits;
        }
        assert_eq!(delivered & !(readiness(&driver, 5) | consumed), 0);
    }
    assert_eq!(consumed, READABLE | WRITABLE | ERROR | HUP);
}

#[test]
fn a_source_without_a_reactor_cannot_be_made() {
    assert!(matches!(PollEvented::new(None, 5, "socket").err(), Some(IoError::DriverGone)));
}

#[test]
fn a_polled_source_caches_what_it_took() {
    let mut driver = Driver::new();
    let mut evented = PollEvented::new(Some(&mut driver.inner), 5, "socket").ok().unwrap();
    assert_eq!(*evented.get_ref(), "socket");
    *evented.get_mut() = "stream";
    assert_eq!(*evented.get_ref(), "stream");
    let (count, waker) = counting_waker();

    assert_eq!(evented.poll_read_ready(Some(&mut driver.inner), &waker, READABLE), Poll::Pending);
    driver.turn(events(&[(5, READABLE)])).ok().unwrap();
    assert_eq!(woken(&count), 1);
    assert_eq!(
        evented.poll_read_ready(Some(&mut driver.inner), &waker, READABLE),
        Poll::Ready(Ok(READABLE))
    );
    assert_eq!(evented.inner.read_readiness, READABLE);
    assert_eq!(readiness(&driver, 5), 0);

    driver.turn(events(&[(5, ERROR)])).ok().unwrap();
    assert_eq!(
        evented.poll_read_ready(Some(&mut driver.inner), &waker, READABLE),
        Poll::Ready(Ok(READABLE | ERROR))
    );
    assert_eq!(evented.inner.read_readiness, READABLE | ERROR);
}

#[test]
fn a_poll_for_bits_that_did_not_come_is_pending_but_caches_what_came() {
    let mut driver = Driver::new();
    let mut evented = PollEvented::new(Some(&mut driver.inner), 5, ()).ok().unwrap();
    let (_count, waker) = counting_waker();
    driver.turn(events(&[(5, ERROR)])).ok().unwrap();
    assert_eq!(evented.poll_read_ready(Some(&mut driver.inner), &waker, READABLE), Poll::Pending);
    assert_eq!(evented.inner.read_readiness, ERROR);
    assert_eq!(readiness(&driver, 5), 0);
}

#[test]
fn a_hang_up_answers_every_poll() {
    let mut driver = Driver::new();
    let mut evented = PollEvented::new(Some(&mut driver.inner), 5, ()).ok().unwrap();
    let (_count, waker) = counting_waker();
    driver.turn(events(&[(5, HUP)])).ok().unwrap();
    assert_eq!(
        evented.poll_read_ready(Some(&mut driver.inner), &waker, READABLE),
        Poll::Ready(Ok(HUP))
    );
    assert_eq!(evented.poll_write_ready(Some(&mut driver.inner), &waker), Poll::Ready(Ok(HUP)));
}

#[test]
fn clearing_read_readiness_polls_again() {
    let mut driver = Driver::new();
    let mut evented = PollEvented::new(Some(&mut driver.inner), 5, ()).ok().unwrap();
    let (count, waker) = counting_waker();
    driver.turn(events(&[(5, READABLE)])).ok().unwrap();
    assert_eq!(
        evented.poll_read_ready(Some(&mut driver.inner), &waker, READABLE),
        Poll::Ready(Ok(READABLE))
    );
    let before = woken(&count);
    assert_eq!(evented.clear_read_ready(Some(&mut driver.inner), &waker, READABLE), Ok(false));
    assert_eq!(evented.inner.read_readiness, 0);
    assert_eq!(woken(&count), before);

    driver.turn(events(&[(5, READABLE)])).ok().unwrap();
    assert_eq!(woken(&count), before + 1);
    assert_eq!(
        evented.poll_read_ready(Some(&mut driver.inner), &waker, READABLE),
        Poll::Ready(Ok(READABLE))
    );
    driver.turn(events(&[(5, READABLE)])).ok().unwrap();
    let before = woken(&count);
    assert_eq!(evented.clear_read_ready(Some(&mut driver.inner), &waker, READABLE), Ok(true));
    assert!(woken(&count) > before);
    assert_eq!(evented.inner.read_readiness, READABLE);
    assert_eq!(readiness(&driver, 5), 0);
}

#[test]
fn clearing_write_readiness_polls_again() {
    let mut driver = Driver::new();
    let mut evented = PollEvented::new(Some(&mut driver.inner), 5, ()).ok().unwrap();
    let (count, waker) = counting_waker();
    driver.turn(events(&[(5, WRITABLE)])).ok().unwrap();
    assert_eq!(
        evented.poll_write_ready(Some(&mut driver.inner), &waker),
        Poll::Ready(Ok(WRITABLE))
    );
    assert_eq!(evented.inner.write_readiness, WRITABLE);
    let before = woken(&count);
    assert_eq!(evented.clear_write_ready(Some(&mut driver.inner), &waker), Ok(false));
    assert_eq!(evented.inner.write_readiness, 0);
    assert_eq!(evented.clear_write_ready(None, &waker), Err(IoError::ReactorGone));
    assert_eq!(woken(&count), before);
    driver.turn(events(&[(5, WRITABLE)])).ok().unwrap();
    assert_eq!(woken(&count), before + 1);
    driver.turn(events(&[(5, WRITABLE)])).ok().unwrap();
    assert_eq!(evented.clear_write_ready(Some(&mut driver.inner), &waker), Ok(true));
    assert_eq!(evented.inner.write_readiness, WRITABLE);
}

#[test]
fn giving_a_source_up_hands_it_back() {
    let mut driver = Driver::new();
    let evented = PollEvented::new(Some(&mut driver.inner), 5, "socket").ok().unwrap();
    let (io, res) = evented.drop(Some(&driver.inner));
    assert_eq!(io, Some("socket"));
    assert_eq!(res, Ok(()));
    let evented = PollEvented::new(Some(&mut driver.inner), 6, "socket").ok().unwrap();
    let (io, res) = evented.drop(None);
    assert_eq!(io, Some("socket"));
    assert_eq!(res, Err(IoError::ReactorGone));
}

#[test]
fn would_block_is_told_from_other_results() {
    let ok: std::io::Result<usize> = Ok(3);
    assert!(!is_wouldblock(&ok));
    let blocked: std::io::Result<usize> = Err(std::io::ErrorKind::WouldBlock.into());
    assert!(is_wouldblock(&blocked));
    let broken: std::io::Result<usize> = Err(std::io::ErrorKind::BrokenPipe.into());
    assert!(!is_wouldblock(&broken));
}

#[test]
fn reactor_and_park_coordination() {
    let mut driver = Driver::new();
    let mut parker = Inner { state: ParkerState::new() };
    let (count, waker) = counting_waker();

    assert_eq!(parker.park(true), ParkStep::TurnDriver);

    let reg = driver.register(9).ok().unwrap();
    assert_eq!(reg.poll_read_ready(Some(&mut driver.inner), &waker), Poll::Pending);
    assert_eq!(parker.unpark(), UnparkStep::WakeDriver);

    let done = driver.turn(events(&[(TOKEN, READABLE), (9, READABLE)])).ok().unwrap();
    assert_eq!(
        done,
        vec![Dispatched::SelfWakeup, Dispatched::Woken { reader: true, writer: false }]
    );
    assert_eq!(parker.after_driver(), Some(()));
    assert_eq!(woken(&count), 1);
    assert_eq!(
        reg.poll_read_ready(Some(&mut driver.inner), &waker),
        Poll::Ready(Ok(READABLE))
    );
}

#[test]
fn a_slab_gives_each_record_a_key_of_its_own() {
    let mut slab = async_rt::io::SuperSlab::new();
    assert!(slab.has_room());
    let a = slab.allocate();
    let b = slab.try_allocate().unwrap();
    assert_ne!(a, b);
    assert_eq!(slab.get(a).unwrap().get_readiness(), 0);
    assert_eq!(slab.get(b).unwrap().get_readiness(), 0);
    assert!(slab.get(async_rt::io::Key(a.0 + b.0 + 1)).is_none());
}

#[test]
fn a_slab_keeps_more_records_than_it_was_made_for() {
    let mut slab = async_rt::io::SuperSlab::new();
    let mut keys = Vec::new();
    for _ in 0..300 {
        keys.push(slab.try_allocate().unwrap());
    }
    for (i, a) in keys.iter().enumerate() {
        assert!(slab.get(*a).is_some());
        for b in &keys[i + 1..] {
            assert_ne!(a, b);
        }
    }
}

#[test]
fn only_the_would_block_kind_would_block() {
    assert!(would_block(std::io::ErrorKind::WouldBlock));
    assert!(!would_block(std::io::ErrorKind::Other));
    assert!(!would_block(std::io::ErrorKind::WriteZero));
    assert!(!would_block(std::io::ErrorKind::TimedOut));
}
