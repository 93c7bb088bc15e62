//! The decisions of waiting for Mostro's reply to a protocol DM, as a state machine: the
//! caller registers a waiter with the DM router, sends the request once, and waits for
//! the reply under one end-to-end deadline. When the listener is aborted or respawned
//! mid-wait, the waiter is registered again, without resending, with a catch-up from the
//! start of the wait; a full registry fails at once; a requested fatal restart cancels.
//! The caller performs each action and feeds back what came of it.
use vstd::prelude::*;
use crate::text::{append_str, string_of};
use crate::waiters::{WAIT_FOR_DM_BUSY_MSG, WAIT_FOR_DM_CANCELED_MSG};

verus! {

/// The wait ran out of time.
pub const WAIT_FOR_DM_TIMEOUT_MSG: &'static str = "Timeout waiting for DM or gift wrap event";

/// The DM router refused the waiter for lack of capacity.
pub const WAIT_FOR_DM_REJECTED_MSG: &'static str = "DM waiter rejected: too many pending waiters";

/// Pause before registering again after the router was unavailable (milliseconds).
pub const WAIT_FOR_DM_REREGISTER_BACKOFF_MS: u64 = 50;

/// A catch-up starts this long before the wait began (seconds), for relay clock skew.
pub const WAIT_FOR_DM_CATCHUP_SKEW_SECS: u64 = 60;

/// Where a wait stands.
#[derive(Debug, Clone, Copy, PartialEq, Eq, Structural)]
pub enum WaitPhase {
    /// About to start a registration round.
    Round,
    /// The registration command was handed to the router.
    Registering,
    /// Waiting for the router to admit the waiter.
    Admitting,
    /// Sending the request.
    Sending,
    /// Waiting for the reply.
    Responding,
    /// The wait is over.
    Done,
}

/// State of a wait: its phase, whether the request went out, whether the next
/// registration must catch up, and when the wait began (UNIX seconds).
#[derive(Debug, Clone, Copy, PartialEq, Eq, Structural)]
pub struct WaitState {
    pub phase: WaitPhase,
    pub sent: bool,
    pub needs_catch_up: bool,
    pub anchor_secs: u64,
}

/// How the registration was answered.
#[derive(Debug, Clone, Copy, PartialEq, Eq, Structural)]
pub enum AdmitOutcome {
    Admitted,
    /// The router reported that it has no capacity for another waiter.
    CapacityFull,
    /// The pending-waiter registry is full (it refused with [`WAIT_FOR_DM_BUSY_MSG`]).
    RegistryFull,
    /// The listener went away before answering.
    Dropped,
    TimedOut,
}

/// How sending the request went.
#[derive(Debug, Clone, PartialEq, Eq)]
pub enum SendOutcome {
    Sent,
    /// Sending failed with this error text.
    Failed { error: String },
    TimedOut,
}

/// How the wait for the reply ended.
#[derive(Debug, Clone, Copy, PartialEq, Eq, Structural)]
pub enum ResponseOutcome {
    /// The reply arrived.
    Event,
    /// The listener dropped the waiter (abort or respawn).
    Canceled,
    TimedOut,
}

/// What the caller observed, for the current phase. `fatal` tells whether a fatal restart
/// has been requested; `router_error` is the error text when the DM router is unavailable.
#[derive(Debug, Clone, PartialEq, Eq)]
pub enum WaitEvent {
    RoundStart { fatal: bool, router_error: Option<String> },
    Registered { delivered: bool },
    Admit { outcome: AdmitOutcome, fatal: bool },
    SendDone { outcome: SendOutcome },
    Response { outcome: ResponseOutcome, fatal: bool },
}

/// Why a wait failed.
#[derive(Debug, Clone, PartialEq, Eq)]
pub enum WaitFailure {
    /// A fatal restart was requested.
    Canceled,
    /// The router has no capacity for another waiter.
    RouterCapacity,
    /// The pending-waiter registry is full.
    RegistryFull,
    /// The deadline passed.
    Timeout,
    /// The router stayed unavailable until too little time was left (its error text).
    RouterUnavailable { error: String },
    /// Sending the request failed (its error text).
    SendFailed { error: String },
}

/// The error text a failed wait ends with: the fixed texts of cancel, capacity, full
/// registry and timeout, and the router's or the send's own error text.
pub open spec fn wait_failure_text(f: WaitFailure) -> Seq<char> {
    match f {
        WaitFailure::Canceled => WAIT_FOR_DM_CANCELED_MSG@,
        WaitFailure::RouterCapacity => WAIT_FOR_DM_REJECTED_MSG@,
        WaitFailure::RegistryFull => WAIT_FOR_DM_BUSY_MSG@,
        WaitFailure::Timeout => WAIT_FOR_DM_TIMEOUT_MSG@,
        WaitFailure::RouterUnavailable { error } => error@,
        WaitFailure::SendFailed { error } => error@,
    }
}

impl WaitFailure {
    /// The error text.
    pub fn message(&self) -> (r: String)
        ensures
            r@ == wait_failure_text(*self),
    {
        match self {
            WaitFailure::RouterUnavailable { error } => error.clone(),
            WaitFailure::SendFailed { error } => error.clone(),
            _ => {
                let mut out: Vec<char> = Vec::new();
                match self {
                    WaitFailure::Canceled => append_str(&mut out, WAIT_FOR_DM_CANCELED_MSG),
                    WaitFailure::RouterCapacity => append_str(&mut out, WAIT_FOR_DM_REJECTED_MSG),
                    WaitFailure::RegistryFull => append_str(&mut out, WAIT_FOR_DM_BUSY_MSG),
                    _ => append_str(&mut out, WAIT_FOR_DM_TIMEOUT_MSG),
                }
                string_of(&out)
            },
        }
    }
}

/// What the caller does next.
#[derive(Debug, Clone, PartialEq, Eq)]
pub enum WaitAction {
    /// Hand a registration to the router, with the catch-up `since` (UNIX seconds) if any.
    Register { catch_up_since: Option<u64> },
    AwaitAdmit,
    SendMessage,
    AwaitResponse,
    /// Pause, then start a new round.
    Sleep { ms: u64 },
    /// Hand the reply to the caller.
    Deliver,
    Fail(WaitFailure),
}

/// A wait that begins at `anchor_secs`.
pub fn start_wait(anchor_secs: u64) -> (r: WaitState)
    ensures
        r == (WaitState { phase: WaitPhase::Round, sent: false, needs_catch_up: false, anchor_secs }),
{
    WaitState { phase: WaitPhase::Round, sent: false, needs_catch_up: false, anchor_secs }
}

/// Whether `ev` is what the caller observes in `phase`.
pub open spec fn event_fits(phase: WaitPhase, ev: WaitEvent) -> bool {
    match ev {
        WaitEvent::RoundStart { .. } => phase == WaitPhase::Round,
        WaitEvent::Registered { .. } => phase == WaitPhase::Registering,
        WaitEvent::Admit { .. } => phase == WaitPhase::Admitting,
        WaitEvent::SendDone { .. } => phase == WaitPhase::Sending,
        WaitEvent::Response { .. } => phase == WaitPhase::Responding,
    }
}

/// Whether `ev` is what the caller observes in `phase`.
pub fn event_fits_phase(phase: WaitPhase, ev: &WaitEvent) -> (r: bool)
    ensures
        r == event_fits(phase, *ev),
{
    match ev {
        WaitEvent::RoundStart { .. } => phase == WaitPhase::Round,
        WaitEvent::Registered { .. } => phase == WaitPhase::Registering,
        WaitEvent::Admit { .. } => phase == WaitPhase::Admitting,
        WaitEvent::SendDone { .. } => phase == WaitPhase::Sending,
        WaitEvent::Response { .. } => phase == WaitPhase::Responding,
    }
}

/// Time left before the deadline (milliseconds), zero once it has passed.
pub open spec fn left_ms(now_ms: u64, deadline_ms: u64) -> u64 {
    if now_ms >= deadline_ms {
        0
    } else {
        (deadline_ms - now_ms) as u64
    }
}

pub open spec fn min_ms(a: u64, b: u64) -> u64 {
    if a <= b {
        a
    } else {
        b
    }
}

pub open spec fn finished(s: WaitState, a: WaitAction) -> (WaitState, WaitAction) {
    (WaitState { phase: WaitPhase::Done, ..s }, a)
}

/// After the listener dropped the waiter: with time left and no fatal restart, pause and
/// register again (catching up, not resending); otherwise the wait times out.
pub open spec fn retry_after_drop(s: WaitState, fatal: bool, now_ms: u64, deadline_ms: u64) -> (WaitState, WaitAction) {
    if left_ms(now_ms, deadline_ms) == 0 || fatal {
        finished(s, WaitAction::Fail(WaitFailure::Timeout))
    } else {
        (
            WaitState { phase: WaitPhase::Round, needs_catch_up: true, ..s },
            WaitAction::Sleep {
                ms: min_ms(WAIT_FOR_DM_REREGISTER_BACKOFF_MS, left_ms(now_ms, deadline_ms)),
            },
        )
    }
}

/// The `since` of a catch-up: the start of the wait less the skew, not below zero.
pub open spec fn catch_up_since_of(anchor_secs: u64) -> u64 {
    if anchor_secs >= WAIT_FOR_DM_CATCHUP_SKEW_SECS {
        (anchor_secs - WAIT_FOR_DM_CATCHUP_SKEW_SECS) as u64
    } else {
        0
    }
}

/// One step of the wait.
pub open spec fn wait_step_spec(s: WaitState, ev: WaitEvent, now_ms: u64, deadline_ms: u64) -> (WaitState, WaitAction) {
    let left = left_ms(now_ms, deadline_ms);
    match ev {
        WaitEvent::RoundStart { fatal, router_error } => if fatal {
            finished(s, WaitAction::Fail(WaitFailure::Canceled))
        } else if left == 0 {
            finished(s, WaitAction::Fail(WaitFailure::Timeout))
        } else if router_error is Some {
            if left <= WAIT_FOR_DM_REREGISTER_BACKOFF_MS {
                finished(s, WaitAction::Fail(WaitFailure::RouterUnavailable { error: router_error->0 }))
            } else {
                (
                    WaitState { needs_catch_up: true, ..s },
                    WaitAction::Sleep { ms: WAIT_FOR_DM_REREGISTER_BACKOFF_MS },
                )
            }
        } else {
            (
                WaitState { phase: WaitPhase::Registering, ..s },
                WaitAction::Register {
                    catch_up_since: if s.needs_catch_up {
                        Some(catch_up_since_of(s.anchor_secs))
                    } else {
                        None
                    },
                },
            )
        },
        WaitEvent::Registered { delivered } => if !delivered {
            (
                WaitState { phase: WaitPhase::Round, needs_catch_up: true, ..s },
                WaitAction::Sleep { ms: min_ms(WAIT_FOR_DM_REREGISTER_BACKOFF_MS, left) },
            )
        } else if left == 0 {
            finished(s, WaitAction::Fail(WaitFailure::Timeout))
        } else {
            (WaitState { phase: WaitPhase::Admitting, ..s }, WaitAction::AwaitAdmit)
        },
        WaitEvent::Admit { outcome, fatal } => match outcome {
            AdmitOutcome::Admitted => if left == 0 {
                finished(s, WaitAction::Fail(WaitFailure::Timeout))
            } else if !s.sent {
                (WaitState { phase: WaitPhase::Sending, ..s }, WaitAction::SendMessage)
            } else {
                (WaitState { phase: WaitPhase::Responding, ..s }, WaitAction::AwaitResponse)
            },
            AdmitOutcome::CapacityFull => finished(s, WaitAction::Fail(WaitFailure::RouterCapacity)),
            AdmitOutcome::RegistryFull => finished(s, WaitAction::Fail(WaitFailure::RegistryFull)),
            AdmitOutcome::Dropped => retry_after_drop(s, fatal, now_ms, deadline_ms),
            AdmitOutcome::TimedOut => finished(s, WaitAction::Fail(WaitFailure::Timeout)),
        },
        WaitEvent::SendDone { outcome } => match outcome {
            SendOutcome::Sent => if left == 0 {
                finished(WaitState { sent: true, ..s }, WaitAction::Fail(WaitFailure::Timeout))
            } else {
                (
                    WaitState { phase: WaitPhase::Responding, sent: true, ..s },
                    WaitAction::AwaitResponse,
                )
            },
            SendOutcome::Failed { error } => finished(s, WaitAction::Fail(WaitFailure::SendFailed { error })),
            SendOutcome::TimedOut => finished(s, WaitAction::Fail(WaitFailure::Timeout)),
        },
        WaitEvent::Response { outcome, fatal } => match outcome {
            ResponseOutcome::Event => finished(s, WaitAction::Deliver),
            ResponseOutcome::Canceled => retry_after_drop(s, fatal, now_ms, deadline_ms),
            ResponseOutcome::TimedOut => finished(s, WaitAction::Fail(WaitFailure::Timeout)),
        },
    }
}

fn left(now_ms: u64, deadline_ms: u64) -> (r: u64)
    ensures
        r == left_ms(now_ms, deadline_ms),
{
    if now_ms >= deadline_ms {
        0
    } else {
        deadline_ms - now_ms
    }
}

fn retry(s: WaitState, fatal: bool, now_ms: u64, deadline_ms: u64) -> (r: (WaitState, WaitAction))
    ensures
        r == retry_after_drop(s, fatal, now_ms, deadline_ms),
{
    let l = left(now_ms, deadline_ms);
    if l == 0 || fatal {
        (WaitState { phase: WaitPhase::Done, ..s }, WaitAction::Fail(WaitFailure::Timeout))
    } else {
        let ms = if WAIT_FOR_DM_REREGISTER_BACKOFF_MS <= l {
            WAIT_FOR_DM_REREGISTER_BACKOFF_MS
        } else {
            l
        };
        (WaitState { phase: WaitPhase::Round, needs_catch_up: true, ..s }, WaitAction::Sleep { ms })
    }
}

/// Advance a wait by what the caller observed at `now_ms` (monotonic milliseconds) under
/// the end-to-end `deadline_ms`.
pub fn wait_step(s: WaitState, ev: WaitEvent, now_ms: u64, deadline_ms: u64) -> (r: (WaitState, WaitAction))
    requires
        event_fits(s.phase, ev),
    ensures
        r == wait_step_spec(s, ev, now_ms, deadline_ms),
{
    let l = left(now_ms, deadline_ms);
    let done = WaitState { phase: WaitPhase::Done, ..s };
    match ev {
        WaitEvent::RoundStart { fatal, router_error } => {
            if fatal {
                (done, WaitAction::Fail(WaitFailure::Canceled))
            } else if l == 0 {
                (done, WaitAction::Fail(WaitFailure::Timeout))
            } else if let Some(error) = router_error {
                if l <= WAIT_FOR_DM_REREGISTER_BACKOFF_MS {
                    (done, WaitAction::Fail(WaitFailure::RouterUnavailable { error }))
                } else {
                    (
                        WaitState { needs_catch_up: true, ..s },
                        WaitAction::Sleep { ms: WAIT_FOR_DM_REREGISTER_BACKOFF_MS },
                    )
                }
            } else {
                let since = if s.needs_catch_up {
                    Some(
                        if s.anchor_secs >= WAIT_FOR_DM_CATCHUP_SKEW_SECS {
                            s.anchor_secs - WAIT_FOR_DM_CATCHUP_SKEW_SECS
                        } else {
                            0
                        },
                    )
                } else {
                    None
                };
                (WaitState { phase: WaitPhase::Registering, ..s }, WaitAction::Register { catch_up_since: since })
            }
        },
        WaitEvent::Registered { delivered } => {
            if !delivered {
                let ms = if WAIT_FOR_DM_REREGISTER_BACKOFF_MS <= l {
                    WAIT_FOR_DM_REREGISTER_BACKOFF_MS
                } else {
                    l
                };
                (WaitState { phase: WaitPhase::Round, needs_catch_up: true, ..s }, WaitAction::Sleep { ms })
            } else if l == 0 {
                (done, WaitAction::Fail(WaitFailure::Timeout))
            } else {
                (WaitState { phase: WaitPhase::Admitting, ..s }, WaitAction::AwaitAdmit)
            }
        },
        WaitEvent::Admit { outcome, fatal } => match outcome {
            AdmitOutcome::Admitted => {
                if l == 0 {
                    (done, WaitAction::Fail(WaitFailure::Timeout))
                } else if !s.sent {
                    (WaitState { phase: WaitPhase::Sending, ..s }, WaitAction::SendMessage)
                } else {
                    (WaitState { phase: WaitPhase::Responding, ..s }, WaitAction::AwaitResponse)
                }
            },
            AdmitOutcome::CapacityFull => (done, WaitAction::Fail(WaitFailure::RouterCapacity)),
            AdmitOutcome::RegistryFull => (done, WaitAction::Fail(WaitFailure::RegistryFull)),
            AdmitOutcome::Dropped => retry(s, fatal, now_ms, deadline_ms),
            AdmitOutcome::TimedOut => (done, WaitAction::Fail(WaitFailure::Timeout)),
        },
        WaitEvent::SendDone { outcome } => match outcome {
            SendOutcome::Sent => {
                if l == 0 {
                    (
                        WaitState { phase: WaitPhase::Done, sent: true, ..s },
                        WaitAction::Fail(WaitFailure::Timeout),
                    )
                } else {
                    (WaitState { phase: WaitPhase::Responding, sent: true, ..s }, WaitAction::AwaitResponse)
                }
            },
            SendOutcome::Failed { error } => (done, WaitAction::Fail(WaitFailure::SendFailed { error })),
            SendOutcome::TimedOut => (done, WaitAction::Fail(WaitFailure::Timeout)),
        },
        WaitEvent::Response { outcome, fatal } => match outcome {
            ResponseOutcome::Event => (done, WaitAction::Deliver),
            ResponseOutcome::Canceled => retry(s, fatal, now_ms, deadline_ms),
            ResponseOutcome::TimedOut => (done, WaitAction::Fail(WaitFailure::Timeout)),
        },
    }
}

/// The rules of a wait, step by step:
/// - the request is sent at most once: a wait that has sent never sends again and never
///   forgets that it sent, and a send is asked for only when nothing was sent yet;
/// - a registration catches up exactly when an earlier round was lost, from the start of
///   the wait less the skew; a lost round keeps what was sent and asks for a catch-up;
/// - a full registry or a router without capacity fails at once, each with its own
///   outcome, and sends nothing;
/// - a failed send ends the wait with the send's own error;
/// - a requested fatal restart cancels the wait at the start of a round;
/// - once the deadline has passed, no new registration, send or wait begins.
pub proof fn wait_for_dm_law(s: WaitState, ev: WaitEvent, now_ms: u64, deadline_ms: u64)
    requires
        event_fits(s.phase, ev),
    ensures
        s.sent ==> wait_step_spec(s, ev, now_ms, deadline_ms).0.sent && wait_step_spec(
            s,
            ev,
            now_ms,
            deadline_ms,
        ).1 != WaitAction::SendMessage,
        wait_step_spec(s, ev, now_ms, deadline_ms).1 == WaitAction::SendMessage ==> !s.sent
            && wait_step_spec(s, ev, now_ms, deadline_ms).0.phase == WaitPhase::Sending,
        wait_step_spec(s, ev, now_ms, deadline_ms).0.sent ==> (s.sent || ev == WaitEvent::SendDone {
            outcome: SendOutcome::Sent,
        }),
        wait_step_spec(s, ev, now_ms, deadline_ms).1 matches WaitAction::Register { catch_up_since }
            ==> ((catch_up_since is Some <==> s.needs_catch_up) && (catch_up_since is Some
            ==> catch_up_since->0 == catch_up_since_of(s.anchor_secs))),
        wait_step_spec(s, ev, now_ms, deadline_ms).1 is Sleep ==> wait_step_spec(
            s,
            ev,
            now_ms,
            deadline_ms,
        ).0.needs_catch_up && wait_step_spec(s, ev, now_ms, deadline_ms).0.sent == s.sent,
        ev matches WaitEvent::Admit { outcome: AdmitOutcome::CapacityFull, .. } ==> wait_step_spec(
            s,
            ev,
            now_ms,
            deadline_ms,
        ).1 == WaitAction::Fail(WaitFailure::RouterCapacity) && wait_step_spec(s, ev, now_ms, deadline_ms).0.sent == s.sent,
        ev matches WaitEvent::Admit { outcome: AdmitOutcome::RegistryFull, .. } ==> wait_step_spec(
            s,
            ev,
            now_ms,
            deadline_ms,
        ).1 == WaitAction::Fail(WaitFailure::RegistryFull) && wait_step_spec(s, ev, now_ms, deadline_ms).0.sent == s.sent,
        ev matches WaitEvent::RoundStart { fatal: true, .. } ==> wait_step_spec(
            s,
            ev,
            now_ms,
            deadline_ms,
        ).1 == WaitAction::Fail(WaitFailure::Canceled),
        ev matches WaitEvent::SendDone { outcome: SendOutcome::Failed { error } } ==> wait_step_spec(
            s,
            ev,
            now_ms,
            deadline_ms,
        ).1 == WaitAction::Fail(WaitFailure::SendFailed { error }),
        now_ms >= deadline_ms ==> !(wait_step_spec(s, ev, now_ms, deadline_ms).1 is Register
            || wait_step_spec(s, ev, now_ms, deadline_ms).1 is AwaitAdmit || wait_step_spec(
            s,
            ev,
            now_ms,
            deadline_ms,
        ).1 is SendMessage || wait_step_spec(s, ev, now_ms, deadline_ms).1 is AwaitResponse),
{
}

} // verus!
