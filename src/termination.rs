//! The decisions of a graceful-then-forced termination: after a terminate signal,
//! poll for the child's exit through a grace period, then force it.
use vstd::prelude::*;

verus! {

/// How long a child is given to exit after the terminate signal, in milliseconds.
pub const GRACE_MS: u64 = 4000;

/// The interval between two polls for the child's exit, in milliseconds.
pub const POLL_MS: u64 = 50;

/// What one poll for the child's exit observed.
#[derive(Debug, Clone, Copy, PartialEq, Eq, Structural)]
pub enum WaitStatus {
    /// The child has exited.
    Exited,
    /// The child is still running.
    Running,
    /// Its state could not be read.
    Unknown,
}

/// What to do after a poll.
#[derive(Debug, Clone, Copy, PartialEq, Eq, Structural)]
pub enum StopAction {
    /// Termination is over.
    Finished,
    /// Sleep this many milliseconds, then poll again.
    Wait { ms: u64 },
    /// The grace period is over: kill the child, and termination is over.
    ForceKill,
}

/// The action after a poll that observed `status`, `elapsed_ms` after the terminate
/// signal: done once the child exited or its state cannot be read; a forced kill
/// once the grace period has passed; else another poll after the interval.
pub open spec fn stop_action(status: WaitStatus, elapsed_ms: u64) -> StopAction {
    match status {
        WaitStatus::Running => if elapsed_ms > GRACE_MS {
            StopAction::ForceKill
        } else {
            StopAction::Wait { ms: POLL_MS }
        },
        _ => StopAction::Finished,
    }
}

/// The action after one poll for the child's exit.
pub fn stop_poll_step(status: WaitStatus, elapsed_ms: u64) -> (r: StopAction)
    ensures
        r == stop_action(status, elapsed_ms),
{
    match status {
        WaitStatus::Running => {
            if elapsed_ms > GRACE_MS {
                StopAction::ForceKill
            } else {
                StopAction::Wait { ms: POLL_MS }
            }
        },
        _ => StopAction::Finished,
    }
}

} // verus!
