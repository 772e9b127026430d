use ssh_probe::classify::Classified;
use ssh_probe::preauth::{PreAuthProbe, PreAuthStep};

#[test]
fn preauth_records_rejected_attempts() {
    let mut p = PreAuthProbe::new(3);
    assert_eq!(p.on_attempt::<u8, &str>(Classified::AuthRejected, 120), PreAuthStep::Continue);
    assert_eq!(p.on_attempt::<u8, &str>(Classified::Unreachable, 50), PreAuthStep::Continue);
    assert_eq!(p.on_attempt::<u8, &str>(Classified::AuthRejected, 130), PreAuthStep::Continue);
    assert!(p.is_done());
    assert_eq!(p.samples(), &[120, 130]);
    assert_eq!(p.attempts(), 3);
}

#[test]
fn preauth_switches_to_echo_with_remaining_budget() {
    let mut p = PreAuthProbe::new(10);
    p.on_attempt::<u8, &str>(Classified::AuthRejected, 100);
    p.on_attempt::<u8, &str>(Classified::AuthRejected, 110);
    let step = p.on_attempt::<u8, &str>(Classified::Authenticated(9), 300);
    assert_eq!(step, PreAuthStep::SwitchToEcho { session: 9, budget: 7 });
    assert!(p.is_done());
    assert_eq!(p.samples(), &[100, 110, 300]);
}

#[test]
fn preauth_aborts_on_fatal() {
    let mut p = PreAuthProbe::new(10);
    p.on_attempt::<u8, &str>(Classified::AuthRejected, 100);
    assert_eq!(p.on_attempt::<u8, &str>(Classified::Fatal("eof"), 5), PreAuthStep::Abort("eof"));
    assert!(p.is_done());
    assert_eq!(p.samples(), &[100]);
}

#[test]
fn preauth_cancel_keeps_samples() {
    let mut p = PreAuthProbe::new(u64::MAX);
    p.on_attempt::<u8, &str>(Classified::AuthRejected, 100);
    assert!(!p.is_done());
    p.cancel();
    assert!(p.is_done());
    assert_eq!(p.samples(), &[100]);
}

#[test]
fn preauth_zero_budget() {
    assert!(PreAuthProbe::new(0).is_done());
}

#[test]
fn preauth_first_attempt_counts_against_budget() {
    let mut p = PreAuthProbe::after_first_attempt(3, true, 90);
    assert_eq!(p.attempts(), 1);
    assert_eq!(p.samples(), &[90]);
    p.on_attempt::<u8, &str>(Classified::AuthRejected, 100);
    p.on_attempt::<u8, &str>(Classified::AuthRejected, 110);
    assert!(p.is_done());
    assert_eq!(p.samples(), &[90, 100, 110]);
}

#[test]
fn preauth_first_attempt_refused() {
    let mut p = PreAuthProbe::after_first_attempt(2, false, 90);
    assert_eq!(p.attempts(), 1);
    assert_eq!(p.samples(), &[] as &[u64]);
    let step = p.on_attempt::<u8, &str>(Classified::Authenticated(4), 200);
    assert_eq!(step, PreAuthStep::SwitchToEcho { session: 4, budget: 0 });
    assert_eq!(p.samples(), &[200]);
}

#[test]
fn preauth_first_attempt_with_zero_budget() {
    let p = PreAuthProbe::after_first_attempt(0, true, 90);
    assert!(p.is_done());
    assert_eq!(p.attempts(), 0);
    assert_eq!(p.samples(), &[] as &[u64]);
}
