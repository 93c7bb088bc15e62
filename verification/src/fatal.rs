//! Fatal versus recoverable background-task decisions for the main loop.
//!
//! A fatal restart request is latched: the first request wins and produces the one
//! restart notification; later requests are ignored. A critical task that stops is
//! restarted after a backoff that doubles up to a cap and resets after a healthy run.
use vstd::prelude::*;
use crate::text::{append_chars, append_str, chars_of, decimal, string_of, u64_decimal};

verus! {

/// First retry delay after a critical task stops, in seconds.
pub const INITIAL_BACKOFF_SECS: u64 = 1;

/// Largest retry delay, in seconds.
pub const MAX_BACKOFF_SECS: u64 = 60;

/// A run at least this long (in seconds) counts as healthy and resets the backoff.
pub const BACKOFF_RESET_AFTER_SECS: u64 = 30;

/// The delay after a failure: back to the initial delay after a healthy run, otherwise
/// the current delay doubled (saturating) and capped.
pub open spec fn next_backoff(current: u64, healthy_run_secs: u64) -> u64 {
    if healthy_run_secs >= BACKOFF_RESET_AFTER_SECS {
        INITIAL_BACKOFF_SECS
    } else if current * 2 >= MAX_BACKOFF_SECS {
        MAX_BACKOFF_SECS
    } else {
        (current * 2) as u64
    }
}

/// Compute the next backoff delay after a failure, resetting after a long healthy run.
pub fn next_backoff_secs(current: u64, healthy_run_secs: u64) -> (r: u64)
    ensures
        r == next_backoff(current, healthy_run_secs),
        r <= MAX_BACKOFF_SECS,
{
    if healthy_run_secs >= BACKOFF_RESET_AFTER_SECS {
        INITIAL_BACKOFF_SECS
    } else {
        if current >= MAX_BACKOFF_SECS / 2 {
            MAX_BACKOFF_SECS
        } else {
            current * 2
        }
    }
}

/// Starting from any delay of at least one second, the delay stays within
/// `[INITIAL_BACKOFF_SECS, MAX_BACKOFF_SECS]` and never shrinks while runs stay short.
pub proof fn backoff_stays_in_range(current: u64, healthy_run_secs: u64)
    requires
        INITIAL_BACKOFF_SECS <= current <= MAX_BACKOFF_SECS,
    ensures
        INITIAL_BACKOFF_SECS <= next_backoff(current, healthy_run_secs) <= MAX_BACKOFF_SECS,
        healthy_run_secs < BACKOFF_RESET_AFTER_SECS ==> current <= next_backoff(
            current,
            healthy_run_secs,
        ),
{
}

/// Process-wide latch for an unrecoverable error that requires a restart.
pub struct FatalLatch {
    requested: bool,
}

impl View for FatalLatch {
    type V = bool;

    /// Whether a fatal restart has been requested.
    closed spec fn view(&self) -> bool {
        self.requested
    }
}

impl FatalLatch {
    /// A latch with no fatal request yet.
    pub fn new() -> (l: Self)
        ensures
            !l@,
    {
        FatalLatch { requested: false }
    }
}

/// Whether a fatal restart has been requested.
pub fn fatal_requested(latch: &FatalLatch) -> (r: bool)
    ensures
        r == latch@,
{
    latch.requested
}

/// Request a user-facing fatal error and restart prompt. The first request wins:
/// it returns the restart notification text to deliver; later requests return `None`.
pub fn request_fatal_restart(latch: &mut FatalLatch, message: String) -> (notify: Option<String>)
    ensures
        final(latch)@,
        old(latch)@ ==> notify is None,
        !old(latch)@ ==> notify == Some(message),
{
    if latch.requested {
        return None;
    }
    latch.requested = true;
    Some(message)
}

/// Text of the non-blocking alarm shown while a critical task restarts.
pub open spec fn task_alarm_text(label: Seq<char>, backoff_secs: u64) -> Seq<char> {
    "Background task \""@ + label + "\" stopped unexpectedly and is restarting (retry in "@
        + decimal(backoff_secs as nat) + "s).\nOther protocol channels remain active."@
}

/// The alarm text for a critical task that stopped and will retry after `backoff_secs`.
pub fn task_alarm_message(label: &str, backoff_secs: u64) -> (m: String)
    ensures
        m@ == task_alarm_text(label@, backoff_secs),
{
    let mut v = chars_of("Background task \"");
    append_str(&mut v, label);
    append_str(&mut v, "\" stopped unexpectedly and is restarting (retry in ");
    let d = u64_decimal(backoff_secs);
    append_chars(&mut v, &d);
    append_str(&mut v, "s).\nOther protocol channels remain active.");
    string_of(&v)
}

/// What the supervisor of a critical task does after the task stops.
#[derive(Debug, Clone, PartialEq, Eq)]
pub enum SupervisorStep {
    /// A fatal restart was requested: stop supervising.
    Stop,
    /// Show `alarm`, sleep `sleep_secs`, restart the task, and use `next_backoff_secs`
    /// as the delay for the following failure.
    Restart { alarm: String, sleep_secs: u64, next_backoff_secs: u64 },
}

/// Decision after a critical task exits or unwinds.
pub fn supervisor_after_exit(
    latch: &FatalLatch,
    label: &str,
    backoff_secs: u64,
    healthy_run_secs: u64,
) -> (step: SupervisorStep)
    ensures
        latch@ ==> step == SupervisorStep::Stop,
        !latch@ ==> (step matches SupervisorStep::Restart { alarm, sleep_secs, next_backoff_secs }
            && alarm@ == task_alarm_text(label@, backoff_secs) && sleep_secs == backoff_secs
            && next_backoff_secs == next_backoff(backoff_secs, healthy_run_secs)),
{
    if fatal_requested(latch) {
        return SupervisorStep::Stop;
    }
    let alarm = task_alarm_message(label, backoff_secs);
    let next = next_backoff_secs(backoff_secs, healthy_run_secs);
    SupervisorStep::Restart { alarm, sleep_secs: backoff_secs, next_backoff_secs: next }
}

} // verus!
