//! The subprocess contract: a command to run with a timeout, what running
//! it produced, and the poll-with-timeout policy that drives one command.
//!
//! Spawning, polling and killing happen outside this crate; the decision
//! of what to do at each poll tick is taken here.

use vstd::prelude::*;

verus! {

/// How long a build of an image may take, in milliseconds.
pub const IMAGE_BUILD_TIMEOUT_MS: u64 = 300000;

/// How long a container start (one full run) may take, in milliseconds.
pub const CONTAINER_STARTUP_TIMEOUT_MS: u64 = 30000;

/// How long housekeeping (kill/remove) commands may take, in milliseconds.
pub const HOUSEKEEPING_TIMEOUT_MS: u64 = 20000;

/// How long the executor sleeps between completion polls, in milliseconds.
pub const POLL_INTERVAL_MS: u64 = 100;

/// One shell command to execute, with the timeout to enforce on it.
#[derive(Clone, Debug, PartialEq, Eq)]
pub struct CmdRequest {
    pub command: String,
    pub timeout_ms: u64,
}

/// What executing a command came to. Output text arrives already decoded;
/// a spawn or read failure is distinct from the command itself failing,
/// and a timeout (the process was force-killed) is distinct from both.
#[derive(Clone, Debug, PartialEq, Eq)]
pub enum CmdOutcome {
    Completed { exit_ok: bool, stdout: String, stderr: String },
    TimedOut,
    SpawnFailure { error: String },
}

/// What the executor does at one poll tick.
#[derive(Clone, Copy, Debug, PartialEq, Eq)]
pub enum PollAction {
    /// The process finished in time: collect its output.
    ReturnOutput,
    /// Still running and within the timeout: sleep one interval and poll
    /// again.
    Sleep,
    /// The timeout has passed: force-kill the process and report a
    /// timeout.
    Kill,
}

/// The executor's poll policy: completion within the timeout returns the
/// output, an unfinished process within the timeout is polled again after
/// one interval, and once the timeout has elapsed the process is killed.
pub fn poll_step(elapsed_ms: u64, timeout_ms: u64, finished: bool) -> (r: PollAction)
    ensures
        r == (if elapsed_ms < timeout_ms {
            if finished {
                PollAction::ReturnOutput
            } else {
                PollAction::Sleep
            }
        } else {
            PollAction::Kill
        }),
{
    if elapsed_ms < timeout_ms {
        if finished {
            PollAction::ReturnOutput
        } else {
            PollAction::Sleep
        }
    } else {
        PollAction::Kill
    }
}

} // verus!
