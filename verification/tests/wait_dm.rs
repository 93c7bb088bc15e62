use mostrix::wait_dm::{
    event_fits_phase, start_wait, wait_step, AdmitOutcome, ResponseOutcome, SendOutcome, WaitAction, WaitEvent,
    WaitFailure, WaitPhase,
};
use mostrix::waiters::{WAIT_FOR_DM_BUSY_MSG, WAIT_FOR_DM_CANCELED_MSG};

fn ready() -> WaitEvent {
    WaitEvent::RoundStart { fatal: false, router_error: None }
}

fn failure(a: WaitAction) -> WaitFailure {
    match a {
        WaitAction::Fail(f) => f,
        other => panic!("expected a failure, got {other:?}"),
    }
}

#[test]
fn reply_after_a_listener_restart_is_awaited_without_resending() {
    let deadline = 10_000;
    let s = start_wait(1_000);
    let (s, a) = wait_step(s, ready(), 0, deadline);
    assert_eq!(a, WaitAction::Register { catch_up_since: None });
    let (s, a) = wait_step(s, WaitEvent::Registered { delivered: true }, 1, deadline);
    assert_eq!(a, WaitAction::AwaitAdmit);
    let (s, a) = wait_step(s, WaitEvent::Admit { outcome: AdmitOutcome::Admitted, fatal: false }, 2, deadline);
    assert_eq!(a, WaitAction::SendMessage);
    let (s, a) = wait_step(s, WaitEvent::SendDone { outcome: SendOutcome::Sent }, 3, deadline);
    assert_eq!(a, WaitAction::AwaitResponse);
    assert!(s.sent);
    let (s, a) = wait_step(s, WaitEvent::Response { outcome: ResponseOutcome::Canceled, fatal: false }, 100, deadline);
    assert_eq!(a, WaitAction::Sleep { ms: 50 });
    assert_eq!(s.phase, WaitPhase::Round);
    let (s, a) = wait_step(s, ready(), 150, deadline);
    assert_eq!(a, WaitAction::Register { catch_up_since: Some(940) });
    let (s, _) = wait_step(s, WaitEvent::Registered { delivered: true }, 151, deadline);
    let (s, a) = wait_step(s, WaitEvent::Admit { outcome: AdmitOutcome::Admitted, fatal: false }, 152, deadline);
    assert_eq!(a, WaitAction::AwaitResponse);
    let (s, a) = wait_step(s, WaitEvent::Response { outcome: ResponseOutcome::Event, fatal: false }, 200, deadline);
    assert_eq!(a, WaitAction::Deliver);
    assert_eq!(s.phase, WaitPhase::Done);
}

#[test]
fn wait_fails_fast_on_capacity_full_before_sending() {
    let s = start_wait(30);
    let (s1, _) = wait_step(s, ready(), 0, 2_000);
    let (s2, _) = wait_step(s1, WaitEvent::Registered { delivered: true }, 0, 2_000);
    let (done, a) = wait_step(s2, WaitEvent::Admit { outcome: AdmitOutcome::CapacityFull, fatal: false }, 0, 2_000);
    assert!(!done.sent);
    let f = failure(a);
    assert_eq!(f, WaitFailure::RouterCapacity);
    assert!(f.message().contains("too many pending waiters"));
}

#[test]
fn full_registry_is_refused_with_the_busy_text_before_sending() {
    let s = start_wait(30);
    let (s1, _) = wait_step(s, ready(), 0, 50);
    let (s2, _) = wait_step(s1, WaitEvent::Registered { delivered: true }, 0, 50);
    let (done, a) = wait_step(s2, WaitEvent::Admit { outcome: AdmitOutcome::RegistryFull, fatal: false }, 0, 50);
    assert!(!done.sent);
    assert_eq!(failure(a).message(), WAIT_FOR_DM_BUSY_MSG);
}

#[test]
fn wait_failures_carry_the_original_texts() {
    let s = start_wait(30);
    let canceled = failure(wait_step(s, WaitEvent::RoundStart { fatal: true, router_error: None }, 0, 1_000).1);
    assert_eq!(canceled.message(), WAIT_FOR_DM_CANCELED_MSG);
    let timeout = failure(wait_step(s, ready(), 1_000, 1_000).1);
    assert_eq!(timeout.message(), "Timeout waiting for DM or gift wrap event");
    let unavailable = failure(
        wait_step(s, WaitEvent::RoundStart { fatal: false, router_error: Some("router gone".to_string()) }, 980, 1_000).1,
    );
    assert_eq!(unavailable.message(), "router gone");
    let (r, a) = wait_step(s, WaitEvent::RoundStart { fatal: false, router_error: Some("x".to_string()) }, 0, 1_000);
    assert_eq!(a, WaitAction::Sleep { ms: 50 });
    assert_eq!(wait_step(r, ready(), 60, 1_000).1, WaitAction::Register { catch_up_since: Some(0) });

    let (s1, _) = wait_step(s, ready(), 0, 1_000);
    let (s2, _) = wait_step(s1, WaitEvent::Registered { delivered: true }, 0, 1_000);
    let (s3, _) = wait_step(s2, WaitEvent::Admit { outcome: AdmitOutcome::Admitted, fatal: false }, 0, 1_000);
    let sent = failure(
        wait_step(s3, WaitEvent::SendDone { outcome: SendOutcome::Failed { error: "relay refused".to_string() } }, 1, 1_000).1,
    );
    assert_eq!(sent, WaitFailure::SendFailed { error: "relay refused".to_string() });
    assert_eq!(sent.message(), "relay refused");

    assert!(event_fits_phase(WaitPhase::Round, &ready()));
    assert!(!event_fits_phase(WaitPhase::Sending, &WaitEvent::Registered { delivered: true }));
}
