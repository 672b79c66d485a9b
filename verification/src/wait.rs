//! The bounded wait on a spawned process: what one poll decides.
//!
//! The wait is a polling loop. Each turn observes whether the process has
//! exited and how much wall-clock time has passed since the spawn, and
//! decides what to do: collect the output, kill the process and report a
//! timeout, or sleep for the polling interval and look again. The exit
//! check always comes before the deadline check, so an exit is never
//! missed, however late it is observed.

use vstd::prelude::*;

use crate::outcome::ExitInfo;

verus! {

/// Milliseconds slept between two polls of a running process.
pub const POLL_INTERVAL_MS: u64 = 50;

/// What one poll of the child process observed.
pub enum PollEvent {
    /// The process has exited and reported the given status.
    Exited { status: ExitInfo },
    /// The process is still running.
    StillRunning,
}

/// What the caller must do after a poll.
pub enum PollAction {
    /// Read both captured streams to the end and report the given exit
    /// status together with everything read.
    CollectOutput { status: ExitInfo },
    /// Kill the process, wait until its termination is confirmed, and
    /// report a timeout failure.
    KillAndFail,
    /// Sleep for the polling interval and poll again.
    SleepAndRetry,
}

/// The decision taken after one poll: an exited process is always
/// collected, whatever the clock says; a process still running at or past
/// the deadline is killed; otherwise the wait goes on.
pub open spec fn decision_of(event: PollEvent, elapsed_ms: u64, timeout_ms: u64) -> PollAction {
    match event {
        PollEvent::Exited { status } => PollAction::CollectOutput { status },
        PollEvent::StillRunning => if elapsed_ms >= timeout_ms {
            PollAction::KillAndFail
        } else {
            PollAction::SleepAndRetry
        },
    }
}

/// One turn of the bounded wait: from what the poll observed and the
/// elapsed wall-clock milliseconds, the action the caller must take.
pub fn poll_decision(event: PollEvent, elapsed_ms: u64, timeout_ms: u64) -> (action: PollAction)
    ensures
        action == decision_of(event, elapsed_ms, timeout_ms),
{
    match event {
        PollEvent::Exited { status } => PollAction::CollectOutput { status },
        PollEvent::StillRunning => if elapsed_ms >= timeout_ms {
            PollAction::KillAndFail
        } else {
            PollAction::SleepAndRetry
        },
    }
}

/// A process that exits within its deadline is collected with exactly the
/// status it reported: the outcome does not depend on how much of the
/// allowance was used.
pub proof fn lemma_exit_within_deadline_collected(
    status: ExitInfo,
    elapsed_ms: u64,
    timeout_ms: u64,
)
    requires
        elapsed_ms < timeout_ms,
    ensures
        decision_of(PollEvent::Exited { status }, elapsed_ms, timeout_ms) == (
        PollAction::CollectOutput { status }),
{
}

/// Polling cannot miss an exit at or past the deadline: the exit check
/// comes before the deadline check, so a process observed to have exited
/// is still collected, with its exact status, even when the deadline has
/// already passed.
pub proof fn lemma_exit_at_deadline_still_collected(
    status: ExitInfo,
    elapsed_ms: u64,
    timeout_ms: u64,
)
    requires
        elapsed_ms >= timeout_ms,
    ensures
        decision_of(PollEvent::Exited { status }, elapsed_ms, timeout_ms) == (
        PollAction::CollectOutput { status }),
{
}

/// A process still running once the deadline is reached is ordered killed,
/// and only then: before the deadline the wait goes on.
pub proof fn lemma_overdue_run_is_killed(elapsed_ms: u64, timeout_ms: u64)
    ensures
        elapsed_ms >= timeout_ms ==> decision_of(
            PollEvent::StillRunning,
            elapsed_ms,
            timeout_ms,
        ) == PollAction::KillAndFail,
        elapsed_ms < timeout_ms ==> decision_of(
            PollEvent::StillRunning,
            elapsed_ms,
            timeout_ms,
        ) == PollAction::SleepAndRetry,
{
}

} // verus!
