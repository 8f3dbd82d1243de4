use launcher_core::health::HealthProbe;
use launcher_core::health::ProbeStep;
use launcher_core::health::check_backend_health;

#[test]
fn listening_server_succeeds_on_first_attempt() {
    // A listening backend answers the very first connect.
    let outcomes = vec![true, false, false, false, false];
    assert!(check_backend_health(5, &outcomes));
}

#[test]
fn silent_port_fails_after_budget_is_spent() {
    // Nothing listens: all five attempts fail and the probe gives up.
    let outcomes = vec![false; 5];
    assert!(!check_backend_health(5, &outcomes));
}

#[test]
fn slow_backend_succeeds_on_last_attempt() {
    let outcomes = vec![false, false, false, false, true];
    assert!(check_backend_health(5, &outcomes));
}

#[test]
fn probe_steps_count_attempts_and_sleeps() {
    // Four failures each ask for a delay and a retry; the fifth ends
    // the probe, so the waiting time is attempts times interval.
    let mut probe = HealthProbe::new(5);
    let mut delays = 0;
    loop {
        match probe.record_attempt(false) {
            ProbeStep::Healthy => unreachable!(),
            ProbeStep::RetryAfterDelay => delays += 1,
            ProbeStep::Unhealthy => break,
        }
    }
    assert_eq!(delays, 4);
    assert_eq!(probe.attempts_used(), 5);
}

#[test]
fn probe_reports_ready_at_once_on_success() {
    let mut probe = HealthProbe::new(5);
    assert_eq!(probe.record_attempt(false), ProbeStep::RetryAfterDelay);
    assert_eq!(probe.record_attempt(true), ProbeStep::Healthy);
}
