use codexola::poller::{
    poll_interval_secs, Poller, ProbeGuard, MAX_INTERVAL_MINUTES, MIN_INTERVAL_MINUTES,
};

#[test]
fn interval_is_held_between_one_minute_and_two_hours() {
    assert_eq!(MIN_INTERVAL_MINUTES, 1);
    assert_eq!(MAX_INTERVAL_MINUTES, 120);
    assert_eq!(poll_interval_secs(5), 300);
    assert_eq!(poll_interval_secs(1), 60);
    assert_eq!(poll_interval_secs(0), 60);
    assert_eq!(poll_interval_secs(-7), 60);
    assert_eq!(poll_interval_secs(i64::MIN), 60);
    assert_eq!(poll_interval_secs(120), 7200);
    assert_eq!(poll_interval_secs(121), 7200);
    assert_eq!(poll_interval_secs(i64::MAX), 7200);
}

#[test]
fn new_poller_runs_nothing() {
    let poller: Poller<u32> = Poller::new();
    assert!(!poller.is_running());
}

#[test]
fn restart_when_switched_off_starts_nothing() {
    let mut poller: Poller<&str> = Poller::new();
    poller.install("first");
    let plan = poller.restart(false, 5);
    assert_eq!(plan.cancelled, Some("first"));
    assert_eq!(plan.interval_secs, None);
    assert!(!poller.is_running());
}

#[test]
fn two_restarts_leave_one_task() {
    let mut poller: Poller<&str> = Poller::new();
    let mut aborted = Vec::new();

    let plan = poller.restart(true, 5);
    assert_eq!(plan.interval_secs, Some(300));
    aborted.extend(plan.cancelled);
    aborted.extend(poller.install("first"));

    let plan = poller.restart(true, 500);
    assert_eq!(plan.interval_secs, Some(7200));
    aborted.extend(plan.cancelled);
    aborted.extend(poller.install("second"));

    assert_eq!(aborted, vec!["first"]);
    assert_eq!(poller.task, Some("second"));
    assert!(poller.is_running());
}

#[test]
fn install_over_a_running_task_hands_it_back() {
    let mut poller: Poller<u8> = Poller::new();
    assert_eq!(poller.install(1), None);
    assert_eq!(poller.install(2), Some(1));
    assert_eq!(poller.task, Some(2));
}

#[test]
fn second_probe_is_refused_while_one_is_in_flight() {
    let mut guard = ProbeGuard::new();
    assert!(guard.try_begin());
    assert!(!guard.try_begin());
    assert!(!guard.try_begin());
    guard.finish();
    assert!(guard.try_begin());
}
