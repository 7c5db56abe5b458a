use watch_restart::debounce::{Debounce, DebouncePoll, DEBOUNCE_TIME_MS};
use watch_restart::error::WatchError;
use watch_restart::event::{ChangeEvent, ChangeKind};
use watch_restart::wait::{wait_for_file_change, Wait, Wake, CHANNEL_CAPACITY};

fn notified(kind: ChangeKind) -> Wake {
    Wake::Notified(Ok(ChangeEvent::new(kind, vec![String::from("/tmp/watched.ts")])))
}

#[test]
fn quiet_window_is_200_ms() {
    assert_eq!(DEBOUNCE_TIME_MS, 200);
    assert_eq!(Debounce::new(DEBOUNCE_TIME_MS).debounce_time(), 200);
}

#[test]
fn channel_has_16_slots() {
    assert_eq!(CHANNEL_CAPACITY, 16);
}

#[test]
fn only_create_modify_remove_are_relevant() {
    assert!(ChangeKind::Create.is_relevant());
    assert!(ChangeKind::Modify.is_relevant());
    assert!(ChangeKind::Remove.is_relevant());
    assert!(!ChangeKind::Other.is_relevant());
    assert!(ChangeEvent::new(ChangeKind::Remove, Vec::new()).is_relevant());
    assert!(!ChangeEvent::new(ChangeKind::Other, Vec::new()).is_relevant());
}

#[test]
fn change_event_keeps_kind_and_paths() {
    let event = ChangeEvent::new(
        ChangeKind::Modify,
        vec![String::from("a.ts"), String::from("b.ts")],
    );
    assert_eq!(event.kind, ChangeKind::Modify);
    assert_eq!(event.affected_paths, vec![String::from("a.ts"), String::from("b.ts")]);
}

#[test]
fn new_debouncer_is_idle() {
    let mut debounce = Debounce::new(200);
    assert_eq!(debounce.last_event(), None);
    assert_eq!(debounce.poll_next(0), DebouncePoll::Idle);
    assert_eq!(debounce.poll_next(10_000), DebouncePoll::Idle);
    assert_eq!(debounce.last_event(), None);
}

#[test]
fn record_restarts_the_clock() {
    let mut debounce = Debounce::new(200);
    assert!(!debounce.record(10, ChangeKind::Create));
    assert_eq!(debounce.last_event(), Some(10));
    assert!(!debounce.record(60, ChangeKind::Modify));
    assert_eq!(debounce.last_event(), Some(60));
    assert_eq!(debounce.poll_next(100), DebouncePoll::Pending(160));
    assert_eq!(debounce.poll_next(259), DebouncePoll::Pending(1));
    assert_eq!(debounce.last_event(), Some(60));
    assert_eq!(debounce.poll_next(260), DebouncePoll::Ready);
    assert_eq!(debounce.last_event(), None);
    assert_eq!(debounce.poll_next(261), DebouncePoll::Idle);
}

#[test]
fn record_ignores_other() {
    let mut debounce = Debounce::new(200);
    assert!(!debounce.record(5, ChangeKind::Other));
    assert_eq!(debounce.last_event(), None);
    assert!(!debounce.record(10, ChangeKind::Remove));
    assert!(!debounce.record(150, ChangeKind::Other));
    assert_eq!(debounce.last_event(), Some(10));
    assert!(!debounce.record(5_000, ChangeKind::Other));
    assert_eq!(debounce.last_event(), Some(10));
    assert_eq!(debounce.poll_next(5_000), DebouncePoll::Ready);
}

#[test]
fn late_arrival_releases_the_burst_before_it() {
    let mut debounce = Debounce::new(200);
    assert!(!debounce.record(0, ChangeKind::Modify));
    assert!(debounce.record(200, ChangeKind::Modify));
    assert_eq!(debounce.last_event(), Some(200));
    assert!(!debounce.record(399, ChangeKind::Modify));
    assert_eq!(debounce.poll_next(599), DebouncePoll::Ready);
}

#[test]
fn clock_that_ran_backwards_counts_as_no_time() {
    let mut debounce = Debounce::new(200);
    assert!(!debounce.record(1_000, ChangeKind::Create));
    assert_eq!(debounce.poll_next(400), DebouncePoll::Pending(200));
    assert!(!debounce.record(900, ChangeKind::Create));
    assert_eq!(debounce.last_event(), Some(900));
}

#[test]
fn zero_window_settles_at_once() {
    let mut debounce = Debounce::new(0);
    assert_eq!(wait_for_file_change(&mut debounce, 7, Wake::TimedOut), Ok(Wait::Block));
    assert_eq!(
        wait_for_file_change(&mut debounce, 7, notified(ChangeKind::Create)),
        Ok(Wait::Detected)
    );
    assert_eq!(debounce.last_event(), None);
    assert_eq!(wait_for_file_change(&mut debounce, 7, notified(ChangeKind::Other)), Ok(Wait::Block));
}

#[test]
fn largest_times_do_not_overflow() {
    let mut debounce = Debounce::new(u64::MAX);
    assert!(!debounce.record(0, ChangeKind::Create));
    assert_eq!(debounce.poll_next(u64::MAX - 1), DebouncePoll::Pending(1));
    assert_eq!(debounce.poll_next(u64::MAX), DebouncePoll::Ready);
    let mut debounce = Debounce::new(200);
    assert!(!debounce.record(u64::MAX, ChangeKind::Create));
    assert_eq!(debounce.poll_next(u64::MAX), DebouncePoll::Pending(200));
}

#[test]
fn burst_of_three_gives_one_trigger_at_320() {
    let mut debounce = Debounce::new(200);
    let mut triggers = 0;
    let mut trigger_time = None;
    assert_eq!(wait_for_file_change(&mut debounce, 0, Wake::TimedOut), Ok(Wait::Block));
    assert_eq!(
        wait_for_file_change(&mut debounce, 0, notified(ChangeKind::Create)),
        Ok(Wait::Sleep(200))
    );
    assert_eq!(
        wait_for_file_change(&mut debounce, 50, notified(ChangeKind::Modify)),
        Ok(Wait::Sleep(200))
    );
    assert_eq!(
        wait_for_file_change(&mut debounce, 120, notified(ChangeKind::Modify)),
        Ok(Wait::Sleep(200))
    );
    for now in 121..1_000u64 {
        if wait_for_file_change(&mut debounce, now, Wake::TimedOut) == Ok(Wait::Detected) {
            triggers += 1;
            trigger_time = Some(now);
        }
    }
    assert_eq!(triggers, 1);
    assert_eq!(trigger_time, Some(320));
}

#[test]
fn sleep_is_what_is_left_of_the_window() {
    let mut debounce = Debounce::new(200);
    assert_eq!(
        wait_for_file_change(&mut debounce, 1_000, notified(ChangeKind::Remove)),
        Ok(Wait::Sleep(200))
    );
    assert_eq!(wait_for_file_change(&mut debounce, 1_075, Wake::TimedOut), Ok(Wait::Sleep(125)));
    assert_eq!(
        wait_for_file_change(&mut debounce, 1_150, notified(ChangeKind::Other)),
        Ok(Wait::Sleep(50))
    );
    assert_eq!(wait_for_file_change(&mut debounce, 1_199, Wake::TimedOut), Ok(Wait::Sleep(1)));
    assert_eq!(wait_for_file_change(&mut debounce, 1_200, Wake::TimedOut), Ok(Wait::Detected));
    assert_eq!(wait_for_file_change(&mut debounce, 1_200, Wake::TimedOut), Ok(Wait::Block));
}

#[test]
fn only_other_events_for_five_seconds_give_no_trigger() {
    let mut debounce = Debounce::new(200);
    let mut now = 0u64;
    while now <= 5_000 {
        assert_eq!(
            wait_for_file_change(&mut debounce, now, notified(ChangeKind::Other)),
            Ok(Wait::Block)
        );
        assert_eq!(debounce.last_event(), None);
        now += 10;
    }
}

#[test]
fn other_events_do_not_reset_the_clock() {
    let mut debounce = Debounce::new(200);
    assert_eq!(
        wait_for_file_change(&mut debounce, 0, notified(ChangeKind::Create)),
        Ok(Wait::Sleep(200))
    );
    let mut now = 10u64;
    while now < 200 {
        assert_eq!(
            wait_for_file_change(&mut debounce, now, notified(ChangeKind::Other)),
            Ok(Wait::Sleep(200 - now))
        );
        assert_eq!(debounce.last_event(), Some(0));
        now += 10;
    }
    assert_eq!(wait_for_file_change(&mut debounce, 200, Wake::TimedOut), Ok(Wait::Detected));
}

#[test]
fn other_event_is_handled_as_a_bare_wake_up() {
    let mut with_event = Debounce::new(200);
    let mut without = Debounce::new(200);
    with_event.record(0, ChangeKind::Modify);
    without.record(0, ChangeKind::Modify);
    for now in [50u64, 199, 200, 201, 900] {
        assert_eq!(
            wait_for_file_change(&mut with_event, now, notified(ChangeKind::Other)),
            wait_for_file_change(&mut without, now, Wake::TimedOut)
        );
        assert_eq!(with_event.last_event(), without.last_event());
    }
}

#[test]
fn ten_changes_in_two_seconds_give_one_restart_per_burst() {
    // Bursts: {0, 50, 120}, {400, 450}, {900}, {1200, 1250, 1300, 1350}.
    let arrivals = [0u64, 50, 120, 400, 450, 900, 1200, 1250, 1300, 1350];
    let mut debounce = Debounce::new(200);
    let mut detected = Vec::new();
    for now in 0..2_000u64 {
        let wake = if arrivals.contains(&now) {
            notified(ChangeKind::Modify)
        } else {
            Wake::TimedOut
        };
        if wait_for_file_change(&mut debounce, now, wake) == Ok(Wait::Detected) {
            detected.push(now);
        }
    }
    assert_eq!(detected, vec![320, 650, 1100, 1550]);
}

#[test]
fn bursts_are_counted_without_any_timer() {
    // The same arrivals, with the clock read only when one of them comes and
    // once at the end.
    let arrivals = [0u64, 50, 120, 400, 450, 900, 1200, 1250, 1300, 1350];
    let mut debounce = Debounce::new(200);
    let mut detected = Vec::new();
    for now in arrivals {
        if wait_for_file_change(&mut debounce, now, notified(ChangeKind::Create))
            == Ok(Wait::Detected)
        {
            detected.push(now);
        }
    }
    assert_eq!(detected, vec![400, 900, 1200]);
    assert_eq!(wait_for_file_change(&mut debounce, 2_000, Wake::TimedOut), Ok(Wait::Detected));
    assert_eq!(wait_for_file_change(&mut debounce, 2_001, Wake::TimedOut), Ok(Wait::Block));
}

#[test]
fn channel_failure_is_handed_on() {
    let mut debounce = Debounce::new(200);
    debounce.record(0, ChangeKind::Create);
    let failure = WatchError::Channel(String::from("inotify queue overflow"));
    assert_eq!(
        wait_for_file_change(&mut debounce, 500, Wake::Notified(Err(failure.clone()))),
        Err(failure)
    );
    assert_eq!(debounce.last_event(), Some(0));
    let setup = WatchError::WatchSetup(String::from("gone"));
    assert_eq!(
        wait_for_file_change(&mut debounce, 500, Wake::Notified(Err(setup.clone()))),
        Err(setup)
    );
}

#[test]
fn closed_channel_is_a_channel_failure() {
    let mut debounce = Debounce::new(200);
    debounce.record(0, ChangeKind::Create);
    assert_eq!(
        wait_for_file_change(&mut debounce, 500, Wake::Closed),
        Err(WatchError::Channel(String::from("notification channel closed")))
    );
    assert_eq!(debounce.last_event(), Some(0));
}
