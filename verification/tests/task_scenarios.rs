use std::sync::atomic::{AtomicUsize, Ordering};
use std::sync::Arc;
use std::task::{Poll, Wake, Waker};

use async_rt::executor::task::cell::Stage;
use async_rt::executor::task::harness::{Completion, Harness, PollEnd, PollStart, Shutdown};
use async_rt::executor::task::state::Snapshot;
use async_rt::executor::task::join::JoinHandle;
use async_rt::executor::task::raw::RawTask;
use async_rt::executor::task::waker::{
    clone_waker, clone_waker_ref, drop_waker, raw_waker, wake_by_ref, wake_by_val, waker_ref,
};
use async_rt::executor::task::{joinable, Notified, Task};

struct CountingWaker(AtomicUsize);

impl Wake for CountingWaker {
    fn wake(self: Arc<Self>) {
        self.0.fetch_add(1, Ordering::SeqCst);
    }
}

fn counting_waker() -> (Arc<CountingWaker>, Waker) {
    let inner = Arc::new(CountingWaker(AtomicUsize::new(0)));
    (inner.clone(), Waker::from(inner))
}

type TestHarness = Harness<&'static str, i32, u8, &'static str>;
type TestJoin = JoinHandle<i32, &'static str>;

fn spawn() -> (Notified, TestJoin, TestHarness) {
    joinable("future", 0x1000)
}

fn refs(harness: &TestHarness) -> usize {
    harness.cell.header.state.load().ref_count()
}

type Done = Completion<&'static str, i32, u8, &'static str>;

fn claim(harness: TestHarness) -> (TestHarness, Snapshot) {
    match harness.poll(|| 7u8) {
        PollStart::Run(h, s) => (h, s),
        _ => panic!("the task must be claimed"),
    }
}

fn ready(mut harness: TestHarness, snapshot: Snapshot, value: i32, released: bool) -> Done {
    let (res, future) = harness.cell.core.poll(Poll::Ready(value));
    assert!(future.is_some());
    match harness.finish_poll(snapshot, Ok(res), move |_: &u8| released) {
        PollEnd::Complete(done) => done,
        _ => panic!("ready must complete"),
    }
}

fn pending(mut harness: TestHarness, snapshot: Snapshot) -> PollEnd<&'static str, i32, u8, &'static str> {
    let (res, future) = harness.cell.core.poll(Poll::Pending);
    assert!(future.is_none());
    harness.finish_poll(snapshot, Ok(res), |_: &u8| true)
}

fn idle(harness: TestHarness, snapshot: Snapshot) -> TestHarness {
    match pending(harness, snapshot) {
        PollEnd::Idle(h) => h,
        _ => panic!("pending without a wake goes idle"),
    }
}

fn cancel(harness: TestHarness, released: bool) -> Done {
    match harness.shutdown() {
        Shutdown::Cancel(h, future) => {
            assert_eq!(future, Some("future"));
            h.cancel_task(Ok(()), move |_: &u8| released)
        }
        Shutdown::Requested(_) => panic!("an idle task is claimed by its shutdown"),
    }
}

#[test]
fn immediate_completion() {
    let (notified, join, harness) = spawn();
    let (_count, waker) = counting_waker();
    assert_eq!(refs(&harness), 2);
    let (harness, snapshot) = match notified.run(harness, || 7u8) {
        PollStart::Run(h, s) => (h, s),
        _ => panic!("a fresh task must be claimed"),
    };
    assert_eq!(refs(&harness), 3);
    assert_eq!(harness.cell.core.scheduler, Some(7u8));
    let done = ready(harness, snapshot, 42, true);
    assert!(!done.join_woken);
    let mut harness = done.harness.unwrap();
    assert_eq!(refs(&harness), 1);
    assert!(harness.cell.header.state.load().is_complete());
    match join.poll(&mut harness, &waker) {
        Poll::Ready(Ok(v)) => assert_eq!(v, 42),
        _ => panic!("the output must be there"),
    }
    assert!(matches!(harness.cell.core.stage, Stage::Consumed));
    assert!(join.drop(harness).is_none());
}

#[test]
fn pending_then_wake() {
    let (_notified, join, harness) = spawn();
    let (count, waker) = counting_waker();
    let mut polls = 0;

    let (mut harness, snapshot) = claim(harness);
    polls += 1;
    let stored = clone_waker_ref(&waker_ref(RawTask::from_raw(0x1000)), &mut harness);
    assert_eq!(refs(&harness), 4);
    let mut harness = idle(harness, snapshot);
    assert!(matches!(join.poll(&mut harness, &waker), Poll::Pending));

    assert!(wake_by_ref(&stored, &mut harness));
    assert!(!wake_by_ref(&stored, &mut harness));

    let (harness, snapshot) = claim(harness);
    polls += 1;
    let done = ready(harness, snapshot, 7, true);
    assert!(done.join_woken);
    let harness = done.harness.unwrap();
    assert_eq!(count.0.load(Ordering::SeqCst), 1);
    let mut harness = drop_waker(stored, harness).unwrap();
    match join.poll(&mut harness, &waker) {
        Poll::Ready(Ok(v)) => assert_eq!(v, 7),
        _ => panic!("the output must be there"),
    }
    assert_eq!(polls, 2);
    assert!(join.drop(harness).is_none());
}

#[test]
fn cancel_while_running() {
    let (_notified, join, mut harness) = spawn();
    let (_count, waker) = counting_waker();
    let mut pending_returns = 0;
    while pending_returns < 3 {
        let (mut claimed, snapshot) = claim(harness);
        assert!(!claimed.wake_by_ref());
        harness = match pending(claimed, snapshot) {
            PollEnd::Yield(h) => h,
            _ => panic!("a wake during the poll asks for a yield"),
        };
        pending_returns += 1;
    }
    assert_eq!(refs(&harness), 3);
    let owned = Task::from_raw(0x1000);
    let done = match owned.shutdown(harness) {
        Shutdown::Cancel(claimed, future) => {
            assert_eq!(future, Some("future"));
            assert!(matches!(claimed.cell.core.stage, Stage::Consumed));
            assert!(claimed.cell.header.state.load().is_running());
            claimed.cancel_task(Ok(()), |_: &u8| true)
        }
        Shutdown::Requested(_) => panic!("an idle task is claimed by its shutdown"),
    };
    assert!(!done.join_woken);
    let mut harness = done.harness.unwrap();
    assert!(harness.cell.header.state.load().is_cancelled());
    assert!(harness.cell.header.state.load().is_complete());
    assert_eq!(refs(&harness), 2);
    match join.poll(&mut harness, &waker) {
        Poll::Ready(Err(e)) => assert!(e.is_cancelled()),
        _ => panic!("the cancelled error must be there"),
    }
    assert!(matches!(harness.cell.core.stage, Stage::Consumed));
    let harness = match Notified::from_raw(0x1000).run(harness, || 7u8) {
        PollStart::Dropped(rest) => rest.unwrap(),
        _ => panic!("a cancelled task is not polled"),
    };
    assert!(join.drop(harness).is_none());
}

#[test]
fn cancel_during_a_poll_is_found_at_its_end() {
    let (_notified, join, harness) = spawn();
    let (_count, waker) = counting_waker();
    let (claimed, snapshot) = claim(harness);
    let claimed = match claimed.shutdown() {
        Shutdown::Requested(h) => h,
        Shutdown::Cancel(_, _) => panic!("a running task is not claimed by a shutdown"),
    };
    assert!(claimed.cell.header.state.load().is_running());
    assert!(claimed.cell.header.state.load().is_cancelled());
    assert!(matches!(claimed.cell.core.stage, Stage::Running("future")));
    let done = match pending(claimed, snapshot) {
        PollEnd::Cancelled(h, future) => {
            assert_eq!(future, Some("future"));
            h.cancel_task(Ok(()), |_: &u8| true)
        }
        _ => panic!("the poll must find the request"),
    };
    let mut harness = done.harness.unwrap();
    match join.poll(&mut harness, &waker) {
        Poll::Ready(Err(e)) => assert!(e.is_cancelled()),
        _ => panic!("the cancelled error must be there"),
    }
    assert!(join.drop(harness).is_none());
}

#[test]
fn panic_in_poll() {
    let (_notified, join, harness) = spawn();
    let (_count, waker) = counting_waker();
    let (mut harness, snapshot) = claim(harness);
    assert_eq!(harness.cell.core.take_future(), Some("future"));
    let mut harness = match harness.finish_poll(snapshot, Err("boom"), |_: &u8| true) {
        PollEnd::Complete(done) => done.harness.unwrap(),
        _ => panic!("a panic completes the task"),
    };
    match join.poll(&mut harness, &waker) {
        Poll::Ready(Err(e)) => {
            assert!(e.is_panic());
            assert_eq!(e.into_panic(), "boom");
        }
        _ => panic!("the panic must be reported"),
    }
    assert!(join.drop(harness).is_none());
}

#[test]
fn wake_during_poll() {
    let (_notified, join, harness) = spawn();
    let (_count, waker) = counting_waker();
    let mut polls = 0;
    let (mut harness, snapshot) = claim(harness);
    polls += 1;
    assert!(!wake_by_ref(&raw_waker(RawTask::from_raw(0x1000)), &mut harness));
    let harness = match pending(harness, snapshot) {
        PollEnd::Yield(h) => h,
        _ => panic!("the wake must be answered by a yield"),
    };
    let (harness, snapshot) = claim(harness);
    polls += 1;
    let mut harness = ready(harness, snapshot, 0, true).harness.unwrap();
    assert_eq!(polls, 2);
    match join.poll(&mut harness, &waker) {
        Poll::Ready(Ok(v)) => assert_eq!(v, 0),
        _ => panic!("the output must be there"),
    }
    assert!(join.drop(harness).is_none());
}

#[test]
fn the_cell_is_freed_by_the_last_reference_only() {
    let (_notified, join, harness) = spawn();
    let harness = join.drop(harness).unwrap();
    assert_eq!(refs(&harness), 1);
    let (harness, snapshot) = claim(harness);
    assert!(!snapshot.is_join_interested());
    assert_eq!(refs(&harness), 2);
    let done = ready(harness, snapshot, 1, true);
    assert!(done.harness.is_none());
}

#[test]
fn a_scheduler_that_keeps_its_handle_frees_the_cell_later() {
    let (_notified, join, harness) = spawn();
    let harness = join.drop(harness).unwrap();
    let (harness, snapshot) = claim(harness);
    let harness = ready(harness, snapshot, 1, false).harness.unwrap();
    assert_eq!(refs(&harness), 1);
    assert!(matches!(harness.cell.core.stage, Stage::Consumed));
    assert!(Task::from_raw(0x1000).drop(harness).is_none());
}

#[test]
fn dropping_other_handles_keeps_a_stored_output() {
    let (_notified, join, harness) = spawn();
    let (_count, waker) = counting_waker();
    let (mut harness, snapshot) = claim(harness);
    let w1 = clone_waker_ref(&waker_ref(RawTask::from_raw(0x1000)), &mut harness);
    let w2 = clone_waker(&w1, &mut harness);
    assert_eq!(refs(&harness), 5);
    let harness = ready(harness, snapshot, 9, true).harness.unwrap();
    assert_eq!(refs(&harness), 3);
    let harness = drop_waker(w1, harness).unwrap();
    let (rest, must_schedule) = wake_by_val(w2, harness);
    assert!(!must_schedule);
    let mut harness = rest.unwrap();
    assert!(matches!(harness.cell.core.stage, Stage::Finished(Ok(9))));
    match join.poll(&mut harness, &waker) {
        Poll::Ready(Ok(v)) => assert_eq!(v, 9),
        _ => panic!("the output must be there"),
    }
    assert!(join.drop(harness).is_none());
}

#[test]
fn dropping_the_join_handle_of_a_complete_task_drops_the_output() {
    let (_notified, join, harness) = spawn();
    let (harness, snapshot) = claim(harness);
    let harness = ready(harness, snapshot, 9, false).harness.unwrap();
    assert!(matches!(harness.cell.core.stage, Stage::Finished(Ok(9))));
    let harness = join.drop(harness).unwrap();
    assert!(matches!(harness.cell.core.stage, Stage::Consumed));
    assert_eq!(refs(&harness), 1);
}

#[test]
fn dropping_the_join_handle_early_takes_the_fast_way() {
    let (_notified, join, harness) = spawn();
    let harness = join.drop(harness).unwrap();
    let snap = harness.cell.header.state.load();
    assert!(!snap.is_join_interested());
    assert!(snap.is_notified());
    assert_eq!(snap.ref_count(), 1);
}

#[test]
fn dropping_the_join_handle_late_empties_the_waker_slot() {
    let (_notified, join, harness) = spawn();
    let (_count, waker) = counting_waker();
    let (harness, snapshot) = claim(harness);
    let mut harness = idle(harness, snapshot);
    assert!(matches!(join.poll(&mut harness, &waker), Poll::Pending));
    assert!(harness.cell.trailer.waker.is_some());
    assert!(harness.cell.header.state.load().has_join_waker());
    let harness = join.drop(harness).unwrap();
    assert!(harness.cell.trailer.waker.is_none());
    assert!(!harness.cell.header.state.load().has_join_waker());
    assert!(!harness.cell.header.state.load().is_join_interested());
}

#[test]
fn polling_the_join_handle_twice_keeps_one_waker() {
    let (_notified, join, harness) = spawn();
    let (count, waker) = counting_waker();
    let (_other_count, other) = counting_waker();
    let (harness, snapshot) = claim(harness);
    let mut harness = idle(harness, snapshot);
    assert!(matches!(join.poll(&mut harness, &other), Poll::Pending));
    assert!(matches!(join.poll(&mut harness, &waker), Poll::Pending));
    assert!(matches!(join.poll(&mut harness, &waker), Poll::Pending));
    assert!(harness.wake_by_ref());
    let (harness, snapshot) = claim(harness);
    let done = ready(harness, snapshot, 3, true);
    assert!(done.join_woken);
    assert_eq!(count.0.load(Ordering::SeqCst), 1);
}

#[test]
fn shutdown_is_idempotent() {
    let (_notified, join, harness) = spawn();
    let (harness, snapshot) = claim(harness);
    let harness = idle(harness, snapshot);
    let once = cancel(harness, false).harness.unwrap();
    let word = once.cell.header.state.load();
    let twice = match once.shutdown() {
        Shutdown::Requested(h) => h,
        Shutdown::Cancel(_, _) => panic!("a cancelled task is not claimed again"),
    };
    let again = twice.cell.header.state.load();
    assert_eq!(word.ref_count(), again.ref_count());
    assert_eq!(word.is_complete(), again.is_complete());
    assert_eq!(word.is_cancelled(), again.is_cancelled());
    assert_eq!(word.is_running(), again.is_running());
    assert!(matches!(twice.cell.core.stage, Stage::Finished(Err(_))));
    let _ = join;
}

#[test]
fn a_task_is_bound_once() {
    let (_notified, _join, harness) = spawn();
    let (harness, snapshot) = claim(harness);
    assert_eq!(harness.cell.core.scheduler, Some(7u8));
    let mut harness = idle(harness, snapshot);
    assert!(harness.wake_by_ref());
    assert_eq!(*harness.cell.core.schedule(), 7u8);
    let harness = match harness.poll(|| 9u8) {
        PollStart::Run(h, _) => h,
        _ => panic!("the task must be claimed"),
    };
    assert_eq!(harness.cell.core.scheduler, Some(7u8));
    assert_eq!(refs(&harness), 3);
}

#[test]
fn the_future_is_reached_while_running() {
    let (_notified, _join, harness) = spawn();
    let (mut harness, _snapshot) = claim(harness);
    match harness.cell.core.future_mut() {
        Some(f) => {
            assert_eq!(*f, "future");
            *f = "polled";
        }
        None => panic!("a running task holds its future"),
    }
    assert!(matches!(harness.cell.core.stage, Stage::Running("polled")));
}

#[test]
fn cloning_and_dropping_a_waker_leaves_the_count() {
    let (_notified, _join, harness) = spawn();
    let (mut harness, _snapshot) = claim(harness);
    let before = refs(&harness);
    let borrowed = waker_ref(RawTask::from_raw(0x1000));
    let owned = clone_waker_ref(&borrowed, &mut harness);
    assert_eq!(refs(&harness), before + 1);
    let harness = drop_waker(owned, harness).unwrap();
    assert_eq!(refs(&harness), before);
    assert!(harness.check());
}

#[test]
fn a_notification_run_during_a_poll_starts_no_second_poll() {
    let (_notified, _join, harness) = spawn();
    let (mut harness, _snapshot) = claim(harness);
    harness.cell.header.state.ref_inc();
    let before = refs(&harness);
    let harness = match Notified::from_raw(0x1000).run(harness, || 9u8) {
        PollStart::Dropped(rest) => rest.unwrap(),
        _ => panic!("a running task is not claimed again"),
    };
    assert_eq!(refs(&harness), before - 1);
    assert!(harness.cell.header.state.load().is_running());
}

#[test]
fn a_panic_in_the_drop_of_a_cancelled_future_is_stored() {
    let (_notified, join, harness) = spawn();
    let (_count, waker) = counting_waker();
    let (harness, snapshot) = claim(harness);
    let harness = idle(harness, snapshot);
    let done = match harness.shutdown() {
        Shutdown::Cancel(claimed, _future) => claimed.cancel_task(Err("drop"), |_: &u8| true),
        Shutdown::Requested(_) => panic!("an idle task is claimed by its shutdown"),
    };
    let mut harness = done.harness.unwrap();
    assert!(harness.cell.header.state.load().is_cancelled());
    assert!(harness.cell.header.state.load().is_complete());
    match join.poll(&mut harness, &waker) {
        Poll::Ready(Err(e)) => {
            assert!(e.is_panic());
            assert_eq!(e.into_panic(), "drop");
        }
        _ => panic!("the panic of the drop must be reported"),
    }
    assert!(join.drop(harness).is_none());
}

#[test]
fn a_panic_in_the_drop_after_the_output_replaces_the_output() {
    let (_notified, join, harness) = spawn();
    let (_count, waker) = counting_waker();
    let (mut harness, snapshot) = claim(harness);
    let (_res, future) = harness.cell.core.poll(Poll::Ready(5));
    assert_eq!(future, Some("future"));
    let mut harness = match harness.finish_poll(snapshot, Err("drop"), |_: &u8| true) {
        PollEnd::Complete(done) => done.harness.unwrap(),
        _ => panic!("a panic completes the task"),
    };
    match join.poll(&mut harness, &waker) {
        Poll::Ready(Err(e)) => assert_eq!(e.into_panic(), "drop"),
        _ => panic!("the panic of the drop must be reported"),
    }
    assert!(join.drop(harness).is_none());
}

#[test]
fn taking_the_future_leaves_other_stages_alone() {
    let (_notified, _join, harness) = spawn();
    let (harness, snapshot) = claim(harness);
    let mut harness = ready(harness, snapshot, 4, false).harness.unwrap();
    assert!(matches!(harness.cell.core.stage, Stage::Finished(Ok(4))));
    assert_eq!(harness.cell.core.take_future(), None);
    assert!(matches!(harness.cell.core.stage, Stage::Finished(Ok(4))));
}

#[test]
fn a_waker_that_wakes_the_same_task_is_kept() {
    let (_notified, join, harness) = spawn();
    let (first_count, first) = counting_waker();
    let (second_count, second) = counting_waker();
    let (harness, snapshot) = claim(harness);
    let mut harness = idle(harness, snapshot);
    let empty = harness.cell.header.state.load();
    assert!(!TestHarness::keeps_join_waker(empty, true));
    assert!(!TestHarness::keeps_join_waker(empty, false));
    assert!(matches!(join.poll(&mut harness, &first), Poll::Pending));
    let filled = harness.cell.header.state.load();
    assert!(TestHarness::keeps_join_waker(filled, true));
    assert!(!TestHarness::keeps_join_waker(filled, false));

    let next = harness.replace_join_waker(second.clone(), filled).ok().unwrap();
    assert!(next.has_join_waker());
    assert!(harness.cell.trailer.waker.as_ref().unwrap().will_wake(&second));
    assert!(harness.wake_by_ref());
    let (harness, snapshot) = claim(harness);
    let done = ready(harness, snapshot, 1, true);
    assert!(done.join_woken);
    assert_eq!(first_count.0.load(Ordering::SeqCst), 0);
    assert_eq!(second_count.0.load(Ordering::SeqCst), 1);
}

#[test]
fn a_join_waker_cannot_be_replaced_once_complete() {
    let (_notified, _join, harness) = spawn();
    let (_count, waker) = counting_waker();
    let (harness, snapshot) = claim(harness);
    let before = harness.cell.header.state.load();
    let mut harness = ready(harness, snapshot, 1, false).harness.unwrap();
    assert!(harness.replace_join_waker(waker, before).is_err());
    assert!(harness.cell.trailer.waker.is_none());
    assert!(!harness.cell.header.state.load().has_join_waker());
}

#[test]
fn a_claimed_task_that_is_not_polled_is_cancelled() {
    let (_notified, join, harness) = spawn();
    let (_count, waker) = counting_waker();
    let (mut harness, snapshot) = claim(harness);
    assert_eq!(harness.cell.core.take_future(), Some("future"));
    let done = harness.cancel_poll(snapshot, Ok(()), |_: &u8| true);
    assert!(!done.join_woken);
    let mut harness = done.harness.unwrap();
    assert!(harness.check());
    assert_eq!(refs(&harness), 1);
    match join.poll(&mut harness, &waker) {
        Poll::Ready(Err(e)) => assert!(e.is_cancelled()),
        _ => panic!("the cancelled error must be there"),
    }
    assert!(join.drop(harness).is_none());
}

#[test]
fn a_claimed_task_without_join_interest_stores_no_error() {
    let (_notified, join, harness) = spawn();
    let harness = join.drop(harness).unwrap();
    let (mut harness, snapshot) = claim(harness);
    assert!(!snapshot.is_join_interested());
    assert_eq!(harness.cell.core.take_future(), Some("future"));
    let done = harness.cancel_poll(snapshot, Err("drop"), |_: &u8| false);
    let harness = done.harness.unwrap();
    assert!(matches!(harness.cell.core.stage, Stage::Consumed));
    assert!(harness.cell.header.state.load().is_complete());
    assert_eq!(refs(&harness), 1);
}

#[test]
fn the_word_check_allows_a_future_that_is_out() {
    let (_notified, _join, harness) = spawn();
    let (mut harness, _snapshot) = claim(harness);
    assert!(harness.check() && harness.check_word());
    let _ = harness.cell.core.take_future();
    assert!(!harness.check());
    assert!(harness.check_word());
}
