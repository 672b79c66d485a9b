use command_timeout::outcome::ExitInfo;
use command_timeout::wait::{poll_decision, PollAction, PollEvent, POLL_INTERVAL_MS};

fn exited(code: i32) -> PollEvent {
    PollEvent::Exited { status: ExitInfo { code: Some(code) } }
}

#[test]
fn exit_before_deadline_is_collected() {
    let action = poll_decision(exited(3), 10, 1000);
    match action {
        PollAction::CollectOutput { status } => assert_eq!(status.code, Some(3)),
        _ => panic!("an exited process must be collected"),
    }
}

#[test]
fn exit_exactly_at_deadline_is_collected() {
    let action = poll_decision(exited(0), 1000, 1000);
    match action {
        PollAction::CollectOutput { status } => assert_eq!(status.code, Some(0)),
        _ => panic!("an exit observed at the deadline must still be collected"),
    }
}

#[test]
fn exit_after_deadline_is_collected() {
    let action = poll_decision(
        PollEvent::Exited { status: ExitInfo { code: None } },
        5000,
        1000,
    );
    match action {
        PollAction::CollectOutput { status } => assert_eq!(status.code, None),
        _ => panic!("an exit observed after the deadline must still be collected"),
    }
}

#[test]
fn still_running_before_deadline_keeps_waiting() {
    let action = poll_decision(PollEvent::StillRunning, 999, 1000);
    assert!(matches!(action, PollAction::SleepAndRetry));
}

#[test]
fn still_running_at_deadline_is_killed() {
    let action = poll_decision(PollEvent::StillRunning, 1000, 1000);
    assert!(matches!(action, PollAction::KillAndFail));
}

#[test]
fn still_running_past_deadline_is_killed() {
    let action = poll_decision(PollEvent::StillRunning, 1001, 1000);
    assert!(matches!(action, PollAction::KillAndFail));
}

#[test]
fn zero_timeout_kills_at_once() {
    let action = poll_decision(PollEvent::StillRunning, 0, 0);
    assert!(matches!(action, PollAction::KillAndFail));
}

#[test]
fn largest_timeout_never_reached_by_smaller_clock() {
    let action = poll_decision(PollEvent::StillRunning, u64::MAX - 1, u64::MAX);
    assert!(matches!(action, PollAction::SleepAndRetry));
}

#[test]
fn poll_interval_is_fifty_milliseconds() {
    assert_eq!(POLL_INTERVAL_MS, 50);
}
