use async_rt::executor::task::state::State;

#[test]
fn a_fresh_word_has_two_references_and_is_notified() {
    let state = State::new();
    let snap = state.load();
    assert_eq!(snap.ref_count(), 2);
    assert!(snap.is_notified());
    assert!(snap.is_join_interested());
    assert!(snap.is_idle());
    assert!(!snap.is_running());
    assert!(!snap.is_complete());
    assert!(!snap.is_cancelled());
    assert!(!snap.has_join_waker());
    assert!(!snap.will_need_queueing());
}

#[test]
fn running_sets_running_clears_notified_and_hands_back_the_old_word() {
    let mut state = State::new();
    let prev = state.transition_to_running(true).ok().unwrap();
    assert!(prev.is_notified());
    assert!(!prev.is_running());
    assert_eq!(prev.ref_count(), 2);
    let now = state.load();
    assert!(now.is_running());
    assert!(!now.is_notified());
    assert_eq!(now.ref_count(), 3);
}

#[test]
fn running_without_ref_inc_keeps_the_count() {
    let mut state = State::new();
    assert!(state.transition_to_running(false).is_ok());
    assert_eq!(state.load().ref_count(), 2);
}

#[test]
fn a_running_task_cannot_be_claimed_again() {
    let mut state = State::new();
    assert!(state.transition_to_running(false).is_ok());
    let err = state.transition_to_running(true).err().unwrap();
    assert!(err.is_running());
    assert_eq!(state.load().ref_count(), 2);
    assert!(state.load().is_running());
}

#[test]
fn a_complete_task_cannot_be_claimed() {
    let mut state = State::new();
    assert!(state.transition_to_running(false).is_ok());
    let snap = state.transition_to_complete();
    assert!(snap.is_complete());
    assert!(!snap.is_running());
    assert!(state.transition_to_running(false).is_err());
}

#[test]
fn idle_clears_running_and_reports_a_latched_wake() {
    let mut state = State::new();
    assert!(state.transition_to_running(false).is_ok());
    assert!(!state.transition_to_notified());
    let snap = state.transition_to_idle().ok().unwrap();
    assert!(!snap.is_running());
    assert!(snap.is_notified());
    assert_eq!(snap.ref_count(), 2);
}

#[test]
fn idle_without_a_wake_is_not_notified() {
    let mut state = State::new();
    assert!(state.transition_to_running(false).is_ok());
    let snap = state.transition_to_idle().ok().unwrap();
    assert!(!snap.is_notified());
    assert!(snap.will_need_queueing());
}

#[test]
fn idle_fails_on_a_cancelled_task() {
    let mut state = State::new();
    assert!(state.transition_to_running(false).is_ok());
    assert!(!state.transition_to_shutdown());
    let err = state.transition_to_idle().err().unwrap();
    assert!(err.is_cancelled());
    assert!(err.is_running());
}

#[test]
fn notified_asks_for_scheduling_only_once() {
    let mut state = State::new();
    assert!(state.transition_to_running(false).is_ok());
    assert!(state.transition_to_idle().is_ok());
    assert!(state.transition_to_notified());
    assert!(!state.transition_to_notified());
    assert!(state.load().is_notified());
}

#[test]
fn notified_on_a_complete_task_asks_for_nothing() {
    let mut state = State::new();
    assert!(state.transition_to_running(false).is_ok());
    state.transition_to_complete();
    assert!(!state.transition_to_notified());
}

#[test]
fn shutdown_of_an_idle_queued_task_claims_it_and_counts_a_reference() {
    let mut state = State::new();
    assert!(state.transition_to_shutdown());
    let snap = state.load();
    assert!(snap.is_cancelled());
    assert!(snap.is_running());
    assert_eq!(snap.ref_count(), 3);
}

#[test]
fn shutdown_of_an_idle_unqueued_task_claims_it_without_counting() {
    let mut state = State::new();
    assert!(state.transition_to_running(false).is_ok());
    assert!(state.transition_to_idle().is_ok());
    assert!(state.transition_to_shutdown());
    let snap = state.load();
    assert!(snap.is_cancelled());
    assert!(snap.is_running());
    assert_eq!(snap.ref_count(), 2);
}

#[test]
fn shutdown_twice_changes_nothing_more() {
    let mut state = State::new();
    assert!(state.transition_to_shutdown());
    let once = state.load();
    assert!(!state.transition_to_shutdown());
    let twice = state.load();
    assert_eq!(once.ref_count(), twice.ref_count());
    assert_eq!(once.is_running(), twice.is_running());
    assert_eq!(once.is_cancelled(), twice.is_cancelled());
    assert_eq!(once.is_notified(), twice.is_notified());
    assert_eq!(once.is_complete(), twice.is_complete());
}

#[test]
fn shutdown_of_a_complete_task_is_not_driven() {
    let mut state = State::new();
    assert!(state.transition_to_running(false).is_ok());
    state.transition_to_complete();
    assert!(!state.transition_to_shutdown());
    assert!(state.load().is_complete());
}

#[test]
fn terminal_releases_one_or_two_references() {
    let mut state = State::new();
    assert!(state.transition_to_running(true).is_ok());
    state.transition_to_complete();
    let snap = state.transition_to_terminal(false, true);
    assert_eq!(snap.ref_count(), 1);
    assert!(snap.is_join_interested());

    let mut state = State::new();
    assert!(state.transition_to_running(true).is_ok());
    state.transition_to_complete();
    let snap = state.transition_to_terminal(false, false);
    assert_eq!(snap.ref_count(), 2);
}

#[test]
fn terminal_with_dropped_output_completes_and_clears_the_join_flags() {
    let mut state = State::new();
    assert!(state.transition_to_running(true).is_ok());
    let snap = state.transition_to_terminal(true, false);
    assert!(snap.is_complete());
    assert!(!snap.is_running());
    assert!(!snap.is_join_interested());
    assert!(!snap.has_join_waker());
    assert_eq!(snap.ref_count(), 2);
}

#[test]
fn the_fast_drop_works_only_on_the_fresh_word() {
    let mut state = State::new();
    assert!(state.drop_join_handle_fast().is_ok());
    let snap = state.load();
    assert!(!snap.is_join_interested());
    assert!(snap.is_notified());
    assert_eq!(snap.ref_count(), 1);

    let mut state = State::new();
    assert!(state.transition_to_running(false).is_ok());
    assert!(state.drop_join_handle_fast().is_err());
    assert!(state.load().is_join_interested());
    assert_eq!(state.load().ref_count(), 2);
}

#[test]
fn join_waker_is_set_and_withdrawn_until_completion() {
    let mut state = State::new();
    let snap = state.set_join_waker().ok().unwrap();
    assert!(snap.has_join_waker());
    let snap = state.unset_waker().ok().unwrap();
    assert!(!snap.has_join_waker());
    assert!(state.transition_to_running(false).is_ok());
    state.transition_to_complete();
    assert!(state.set_join_waker().is_err());
    assert!(state.unset_waker().is_err());
    assert!(!state.load().has_join_waker());
}

#[test]
fn join_interest_is_withdrawn_with_the_waker_flag() {
    let mut state = State::new();
    assert!(state.set_join_waker().is_ok());
    let snap = state.unset_join_interested().ok().unwrap();
    assert!(!snap.is_join_interested());
    assert!(!snap.has_join_waker());
}

#[test]
fn join_interest_stays_once_complete() {
    let mut state = State::new();
    assert!(state.transition_to_running(false).is_ok());
    state.transition_to_complete();
    let snap = state.unset_join_interested().err().unwrap();
    assert!(snap.is_join_interested());
}

#[test]
fn clone_then_drop_leaves_the_count() {
    let mut state = State::new();
    state.ref_inc();
    assert_eq!(state.load().ref_count(), 3);
    assert!(!state.ref_dec());
    assert_eq!(state.load().ref_count(), 2);
}

#[test]
fn the_last_release_says_so() {
    let mut state = State::new();
    assert!(!state.ref_dec());
    assert!(state.ref_dec());
    assert_eq!(state.load().ref_count(), 0);
}

#[test]
fn the_count_does_not_touch_the_flags() {
    let mut state = State::new();
    for _ in 0..100 {
        state.ref_inc();
    }
    let snap = state.load();
    assert_eq!(snap.ref_count(), 102);
    assert!(snap.is_notified());
    assert!(snap.is_join_interested());
    assert!(!snap.is_running());
    assert!(!snap.is_cancelled());
}
