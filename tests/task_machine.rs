use wfpi::acquisition::{
    next_action, on_outcome, start, TaskAction, TaskOutcome, TaskState, RETRY_DELAY_MS,
};

#[test]
fn connect_failure_backs_off_then_reconnects() {
    let s = start();
    assert_eq!(next_action(s, false), (TaskState::Connecting, TaskAction::Connect));
    let mut s = on_outcome(s, TaskOutcome::ConnectFailed);
    assert_eq!(s, TaskState::Faulted { reconnect: true, remaining_ms: RETRY_DELAY_MS });
    let mut slept = 0;
    loop {
        match next_action(s, false) {
            (_, TaskAction::Sleep(ms)) => {
                assert!(ms <= 100);
                slept += ms;
                s = on_outcome(s, TaskOutcome::Slept(ms));
            }
            (_, a) => {
                assert_eq!(a, TaskAction::Connect);
                break;
            }
        }
    }
    assert_eq!(slept, 5000);
}

#[test]
fn read_failure_resumes_polling() {
    let s = on_outcome(TaskState::Running, TaskOutcome::ReadFailed);
    let s = on_outcome(s, TaskOutcome::Slept(5000));
    assert_eq!(s, TaskState::Running);
    assert_eq!(next_action(s, false).1, TaskAction::Poll);
    assert_eq!(on_outcome(s, TaskOutcome::Polled), TaskState::Running);
}

#[test]
fn cancellation_stops_every_state() {
    for s in [
        TaskState::Connecting,
        TaskState::Running,
        TaskState::Faulted { reconnect: false, remaining_ms: 3000 },
        TaskState::Stopped,
    ] {
        assert_eq!(next_action(s, true), (TaskState::Stopped, TaskAction::Exit));
    }
    assert_eq!(on_outcome(TaskState::Stopped, TaskOutcome::Connected), TaskState::Stopped);
    assert_eq!(next_action(TaskState::Stopped, false).1, TaskAction::Exit);
}

#[test]
fn closed_channel_ends_task() {
    assert_eq!(on_outcome(TaskState::Running, TaskOutcome::SendFailed), TaskState::Stopped);
}
