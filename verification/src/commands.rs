//! The command surface: from the outcomes of the registry's operations to the
//! replies the presentation layer sees, plus the fullscreen-toggle decision.

use vstd::prelude::*;
use crate::registry::{ProcessHandle, StopOutcome};

verus! {

/// How a whole start request ended, once the host has carried out the launch
/// the registry asked for (if it asked for one).
#[derive(Debug)]
pub enum StartOutcome {
    /// A process was already recorded; nothing was launched and the request
    /// succeeded as a no-op.
    AlreadyRunning,
    /// A new process was launched and this handle recorded for it.
    Started(ProcessHandle),
    /// The executable could not be resolved or spawned; the description of
    /// the launch failure. The registry is left exactly as it was.
    LaunchFailed(String),
}

/// The reply a start request sends back: a confirmation for both kinds of
/// success — starting an already-running process is not an error — and the
/// launch failure's description otherwise, so the caller may retry.
pub fn start_reply(outcome: &StartOutcome) -> (r: Result<String, String>)
    ensures
        match *outcome {
            StartOutcome::AlreadyRunning => r matches Ok(m) && m@ == "Backend initialized."@,
            StartOutcome::Started(_) => r matches Ok(m) && m@ == "Backend initialized."@,
            StartOutcome::LaunchFailed(e) => r matches Err(m) && m@ == e@,
        },
{
    match outcome {
        StartOutcome::AlreadyRunning => Ok("Backend initialized.".to_owned()),
        StartOutcome::Started(_) => Ok("Backend initialized.".to_owned()),
        StartOutcome::LaunchFailed(e) => Err(e.clone()),
    }
}

/// The reply a stop request sends back. This operation never fails: both a
/// termination and a stop with nothing running reply `Ok`, with messages that
/// tell the two apart.
pub fn shutdown_reply(outcome: &StopOutcome) -> (r: Result<String, String>)
    ensures
        r is Ok,
        match *outcome {
            StopOutcome::Terminated(_) => r matches Ok(m) && m@ == "Backend stopped."@,
            StopOutcome::WasNotRunning => r matches Ok(m) && m@ == "Backend was not running."@,
        },
{
    match outcome {
        StopOutcome::Terminated(_) => Ok("Backend stopped.".to_owned()),
        StopOutcome::WasNotRunning => Ok("Backend was not running.".to_owned()),
    }
}

/// The decision of the fullscreen toggle: with the window's current
/// fullscreen state in hand, set the opposite; where the current state could
/// not be read, change nothing — the failure is silently ignored.
pub fn next_fullscreen(current: Option<bool>) -> (target: Option<bool>)
    ensures
        match current {
            Some(fs) => target == Some(!fs),
            None => target is None,
        },
{
    match current {
        Some(fs) => Some(!fs),
        None => None,
    }
}

} // verus!
