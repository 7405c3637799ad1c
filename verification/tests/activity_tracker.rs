use token_manager::activity_tracker::{
    watchdog, ActivityTracker, ServerState, WatchdogAction, WatchdogEvent, TIME_MAX_NANOSECONDS,
};

const SECOND: u128 = 1_000_000_000;

#[test]
fn new_tracker_is_idle_from_the_start() {
    let tracker = ActivityTracker::new(3 * SECOND);
    assert_eq!(tracker.state(), ServerState::Idle { since: 0 });
    assert_eq!(
        watchdog(&tracker, WatchdogEvent::Look),
        WatchdogAction::WaitUntil { deadline: 3 * SECOND }
    );
}

#[test]
fn connections_are_counted() {
    let mut tracker = ActivityTracker::new(3 * SECOND);
    tracker.increment();
    assert_eq!(tracker.state(), ServerState::Active { connections: 1 });
    tracker.increment();
    tracker.increment();
    assert_eq!(tracker.state(), ServerState::Active { connections: 3 });
    assert!(!tracker.decrement_at(5));
    assert!(!tracker.decrement_at(6));
    assert_eq!(tracker.state(), ServerState::Active { connections: 1 });
}

#[test]
fn last_close_notifies_and_sets_the_time() {
    let mut tracker = ActivityTracker::new(3 * SECOND);
    tracker.increment();
    tracker.increment();
    assert!(!tracker.decrement_at(7 * SECOND));
    assert!(tracker.decrement_at(9 * SECOND));
    assert_eq!(tracker.state(), ServerState::Idle { since: 9 * SECOND });
    assert_eq!(
        watchdog(&tracker, WatchdogEvent::Look),
        WatchdogAction::WaitUntil { deadline: 12 * SECOND }
    );
}

#[test]
fn served_request_leaves_a_busy_server_as_it_was() {
    let mut tracker = ActivityTracker::new(SECOND);
    tracker.increment();
    let before = tracker.state();
    tracker.increment();
    assert!(!tracker.decrement());
    assert_eq!(tracker.state(), before);
}

#[test]
fn decrement_reads_the_clock() {
    let mut tracker = ActivityTracker::new(SECOND);
    tracker.increment();
    while tracker.start().elapsed().as_nanos() < 20_000_000 {}
    assert!(tracker.decrement());
    let elapsed = tracker.start().elapsed().as_nanos();
    match tracker.state() {
        ServerState::Idle { since } => {
            assert!(since >= 20_000_000);
            assert!(since <= elapsed);
        }
        ServerState::Active { .. } => panic!("the last connection closed"),
    }
}

#[test]
fn busy_server_is_left_alone() {
    let mut tracker = ActivityTracker::new(SECOND);
    tracker.increment();
    assert_eq!(watchdog(&tracker, WatchdogEvent::Look), WatchdogAction::Wait);
    assert_eq!(watchdog(&tracker, WatchdogEvent::TimedOut), WatchdogAction::LookAgain);
}

#[test]
fn idle_server_is_shut_down_when_the_deadline_passes() {
    let mut tracker = ActivityTracker::new(SECOND);
    assert_eq!(watchdog(&tracker, WatchdogEvent::TimedOut), WatchdogAction::Shutdown);
    tracker.increment();
    tracker.decrement_at(4 * SECOND);
    assert_eq!(watchdog(&tracker, WatchdogEvent::TimedOut), WatchdogAction::Shutdown);
}

#[test]
fn longest_timeout_has_a_deadline() {
    let mut tracker = ActivityTracker::new(TIME_MAX_NANOSECONDS);
    tracker.increment();
    tracker.decrement_at(TIME_MAX_NANOSECONDS);
    assert_eq!(
        watchdog(&tracker, WatchdogEvent::Look),
        WatchdogAction::WaitUntil { deadline: 2 * TIME_MAX_NANOSECONDS }
    );
    assert_eq!(TIME_MAX_NANOSECONDS, std::time::Duration::MAX.as_nanos());
}

#[test]
fn every_idle_time_is_watched() {
    let mut tracker = ActivityTracker::new(3 * SECOND);
    let first = watchdog(&tracker, WatchdogEvent::Look);
    assert_eq!(first, WatchdogAction::WaitUntil { deadline: 3 * SECOND });
    // A connection opens before the deadline, so that the watchdog stands down.
    tracker.increment();
    assert_eq!(watchdog(&tracker, WatchdogEvent::TimedOut), WatchdogAction::LookAgain);
    assert_eq!(watchdog(&tracker, WatchdogEvent::Look), WatchdogAction::Wait);
    // Its end notifies the watchdog, which then waits for the end of that idle time.
    assert!(tracker.decrement_at(10 * SECOND));
    let second = watchdog(&tracker, WatchdogEvent::Look);
    assert_eq!(second, WatchdogAction::WaitUntil { deadline: 13 * SECOND });
    assert_eq!(watchdog(&tracker, WatchdogEvent::TimedOut), WatchdogAction::Shutdown);
}

/// When a prompt watchdog shuts the server down, given the seconds at which its
/// only connection opens and closes.
fn shutdown_second(timeout: u128, opens: &[u128], closes: &[u128]) -> Option<u128> {
    let mut tracker = ActivityTracker::new(timeout * SECOND);
    let mut action = watchdog(&tracker, WatchdogEvent::Look);
    for second in 0..100 {
        let mut notified = false;
        if opens.contains(&second) {
            tracker.increment();
        }
        if closes.contains(&second) {
            notified = tracker.decrement_at(second * SECOND);
        }
        if notified {
            action = watchdog(&tracker, WatchdogEvent::Look);
        }
        if action == (WatchdogAction::WaitUntil { deadline: second * SECOND }) {
            action = watchdog(&tracker, WatchdogEvent::TimedOut);
        }
        if action == WatchdogAction::LookAgain {
            action = watchdog(&tracker, WatchdogEvent::Look);
        }
        if action == WatchdogAction::Shutdown {
            return Some(second);
        }
    }
    None
}

#[test]
fn shutdown_comes_at_the_end_of_the_timeout() {
    assert_eq!(shutdown_second(3, &[], &[]), Some(3));
    assert_eq!(shutdown_second(3, &[1], &[2]), Some(5));
    assert_eq!(shutdown_second(3, &[2, 6, 9], &[4, 7, 20]), Some(23));
    assert_eq!(shutdown_second(3, &[2], &[]), None);
    assert_eq!(shutdown_second(3, &[2, 10], &[4, 12]), Some(7));
}
