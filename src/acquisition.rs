//! Decisions of one acquisition task.
//!
//! A task connects to its device, then polls it, sending each new reading
//! into the fusion channel. A failed connection or read is a recoverable
//! fault: the task backs off for [`RETRY_DELAY_MS`], in slices of at most
//! [`SLEEP_SLICE_MS`], and then reconnects or resumes polling. A closed channel
//! ends the task. The shared cancellation flag is read before every action.
//!
//! The runner performs each [`TaskAction`] and reports a [`TaskOutcome`].
use vstd::prelude::*;

verus! {

/// Back-off after a recoverable fault, in milliseconds.
pub const RETRY_DELAY_MS: u32 = 5000;

/// Longest single sleep, so that cancellation is seen during a back-off.
pub const SLEEP_SLICE_MS: u32 = 100;

#[derive(Clone, Copy, Debug, PartialEq, Eq, Structural)]
pub enum TaskState {
    Connecting,
    Running,
    /// Backing off; `reconnect` says whether the connection is to be made
    /// again afterwards, `remaining_ms` how long is left to wait.
    Faulted { reconnect: bool, remaining_ms: u32 },
    Stopped,
}

#[derive(Clone, Copy, Debug, PartialEq, Eq, Structural)]
pub enum TaskAction {
    /// Initialise the device.
    Connect,
    /// Read the device once and send what is new into the channel.
    Poll,
    /// Sleep this many milliseconds.
    Sleep(u32),
    /// Leave the task loop.
    Exit,
}

#[derive(Clone, Copy, Debug, PartialEq, Eq, Structural)]
pub enum TaskOutcome {
    Connected,
    ConnectFailed,
    /// A read succeeded, and anything new was delivered.
    Polled,
    ReadFailed,
    /// The consumer is gone.
    SendFailed,
    /// A sleep of this many milliseconds ended.
    Slept(u32),
}

/// The state and action that the task takes next.
pub open spec fn decide(s: TaskState, cancelled: bool) -> (TaskState, TaskAction) {
    if cancelled {
        (TaskState::Stopped, TaskAction::Exit)
    } else {
        match s {
            TaskState::Connecting => (s, TaskAction::Connect),
            TaskState::Running => (s, TaskAction::Poll),
            TaskState::Faulted { remaining_ms, .. } => (
                s,
                TaskAction::Sleep(
                    if remaining_ms < SLEEP_SLICE_MS {
                        remaining_ms
                    } else {
                        SLEEP_SLICE_MS
                    },
                ),
            ),
            TaskState::Stopped => (s, TaskAction::Exit),
        }
    }
}

/// The state after the runner reports how an action went. An outcome that
/// does not belong to the state leaves it unchanged.
pub open spec fn advance(s: TaskState, o: TaskOutcome) -> TaskState {
    match (s, o) {
        (TaskState::Connecting, TaskOutcome::Connected) => TaskState::Running,
        (TaskState::Connecting, TaskOutcome::ConnectFailed) => TaskState::Faulted {
            reconnect: true,
            remaining_ms: RETRY_DELAY_MS,
        },
        (TaskState::Running, TaskOutcome::Polled) => TaskState::Running,
        (TaskState::Running, TaskOutcome::ReadFailed) => TaskState::Faulted {
            reconnect: false,
            remaining_ms: RETRY_DELAY_MS,
        },
        (TaskState::Running, TaskOutcome::SendFailed) => TaskState::Stopped,
        (TaskState::Faulted { reconnect, remaining_ms }, TaskOutcome::Slept(ms)) => {
            if ms >= remaining_ms {
                if reconnect {
                    TaskState::Connecting
                } else {
                    TaskState::Running
                }
            } else {
                TaskState::Faulted { reconnect, remaining_ms: (remaining_ms - ms) as u32 }
            }
        },
        _ => s,
    }
}

/// The initial state of every task.
pub fn start() -> (r: TaskState)
    ensures
        r == TaskState::Connecting,
{
    TaskState::Connecting
}

/// What to do next, given the cancellation flag as just read.
pub fn next_action(s: TaskState, cancelled: bool) -> (r: (TaskState, TaskAction))
    ensures
        r == decide(s, cancelled),
{
    if cancelled {
        return (TaskState::Stopped, TaskAction::Exit);
    }
    match s {
        TaskState::Connecting => (s, TaskAction::Connect),
        TaskState::Running => (s, TaskAction::Poll),
        TaskState::Faulted { remaining_ms, .. } => {
            let slice = if remaining_ms < SLEEP_SLICE_MS {
                remaining_ms
            } else {
                SLEEP_SLICE_MS
            };
            (s, TaskAction::Sleep(slice))
        },
        TaskState::Stopped => (s, TaskAction::Exit),
    }
}

/// The state after an action's outcome.
pub fn on_outcome(s: TaskState, o: TaskOutcome) -> (r: TaskState)
    ensures
        r == advance(s, o),
{
    match (s, o) {
        (TaskState::Connecting, TaskOutcome::Connected) => TaskState::Running,
        (TaskState::Connecting, TaskOutcome::ConnectFailed) => TaskState::Faulted {
            reconnect: true,
            remaining_ms: RETRY_DELAY_MS,
        },
        (TaskState::Running, TaskOutcome::Polled) => TaskState::Running,
        (TaskState::Running, TaskOutcome::ReadFailed) => TaskState::Faulted {
            reconnect: false,
            remaining_ms: RETRY_DELAY_MS,
        },
        (TaskState::Running, TaskOutcome::SendFailed) => TaskState::Stopped,
        (TaskState::Faulted { reconnect, remaining_ms }, TaskOutcome::Slept(ms)) => {
            if ms >= remaining_ms {
                if reconnect {
                    TaskState::Connecting
                } else {
                    TaskState::Running
                }
            } else {
                TaskState::Faulted { reconnect, remaining_ms: remaining_ms - ms }
            }
        },
        _ => s,
    }
}

/// Once the cancellation flag is set, the next decision in any state stops
/// the task; a stopped task stays stopped whatever is reported and whatever
/// the flag says. Any action short of that is one device call or one sleep of
/// at most [`SLEEP_SLICE_MS`], so a set flag is acted upon as soon as the
/// action in flight returns.
pub proof fn lemma_cancellation_stops(s: TaskState, o: TaskOutcome, cancelled: bool)
    ensures
        decide(s, true) == (TaskState::Stopped, TaskAction::Exit),
        advance(TaskState::Stopped, o) == TaskState::Stopped,
        decide(TaskState::Stopped, cancelled) == (TaskState::Stopped, TaskAction::Exit),
        decide(s, cancelled).1 matches TaskAction::Sleep(ms) ==> ms <= SLEEP_SLICE_MS,
{
}

/// A recoverable fault never ends a task: after the back-off it reconnects,
/// or resumes polling, and only a closed channel or cancellation stops it.
pub proof fn lemma_faults_recover(s: TaskState, o: TaskOutcome)
    ensures
        advance(s, o) == TaskState::Stopped ==> s == TaskState::Stopped || (s
            == TaskState::Running && o == TaskOutcome::SendFailed),
        s is Faulted && o is Slept ==> advance(s, o) != TaskState::Stopped,
{
}

} // verus!
