use zop::readiness::{probe_verdict, status_is_success, ProbeOutcome, ReadinessWaiter, WaitAction, PROBE_INTERVAL_MS};

/// Drives a wait against the verdicts; returns the final action and the
/// probes and sleeps performed.
fn drive(max_attempts: u32, verdicts: &[bool]) -> (WaitAction, usize, usize) {
    let (mut w, mut action) = ReadinessWaiter::new(max_attempts);
    let mut probes = 0;
    let mut sleeps = 0;
    loop {
        match action {
            WaitAction::Probe => {}
            WaitAction::Sleep => sleeps += 1,
            WaitAction::Ready | WaitAction::TimedOut => return (action, probes, sleeps),
        }
        let healthy = verdicts[probes];
        probes += 1;
        action = w.record_probe(healthy);
    }
}

#[test]
fn third_probe_healthy_after_two_intervals() {
    let (last, probes, sleeps) = drive(3, &[false, false, true]);
    assert_eq!(last, WaitAction::Ready);
    assert_eq!(probes, 3);
    assert_eq!(sleeps, 2);
    assert!(sleeps as u64 * PROBE_INTERVAL_MS >= 1000);
}

#[test]
fn first_healthy_probe_ends_wait() {
    let (last, probes, sleeps) = drive(5, &[false, true, false, false, false]);
    assert_eq!(last, WaitAction::Ready);
    assert_eq!(probes, 2);
    assert_eq!(sleeps, 1);
}

#[test]
fn healthy_at_once_needs_no_sleep() {
    let (last, probes, sleeps) = drive(20, &[true]);
    assert_eq!(last, WaitAction::Ready);
    assert_eq!(probes, 1);
    assert_eq!(sleeps, 0);
}

#[test]
fn never_healthy_times_out_without_final_sleep() {
    let (last, probes, sleeps) = drive(4, &[false; 4]);
    assert_eq!(last, WaitAction::TimedOut);
    assert_eq!(probes, 4);
    assert_eq!(sleeps, 3);
}

#[test]
fn healthy_only_on_last_attempt_succeeds() {
    let (last, probes, sleeps) = drive(3, &[false, false, true]);
    assert_eq!((last, probes, sleeps), (WaitAction::Ready, 3, 2));
    let (last, probes, sleeps) = drive(2, &[false, false, true]);
    assert_eq!((last, probes, sleeps), (WaitAction::TimedOut, 2, 1));
}

#[test]
fn zero_attempts_time_out_unprobed() {
    let (w, action) = ReadinessWaiter::new(0);
    assert_eq!(action, WaitAction::TimedOut);
    assert!(w.is_finished());
    assert_eq!(w.attempts(), 0);
}

#[test]
fn progress_notice_every_fourth_attempt() {
    let (mut w, _) = ReadinessWaiter::new(20);
    let mut due = Vec::new();
    for _ in 0..9 {
        w.record_probe(false);
        due.push(w.progress_due());
    }
    assert_eq!(due, vec![true, false, false, false, true, false, false, false, true]);
    assert_eq!(w.attempts(), 9);
    assert_eq!(w.max_attempts(), 20);
}

#[test]
fn probe_fails_on_transport_error() {
    assert!(!probe_verdict(ProbeOutcome::TransportFailed));
}

#[test]
fn probe_fails_after_deadline() {
    assert!(!probe_verdict(ProbeOutcome::DeadlinePassed));
}

#[test]
fn probe_fails_on_non_success_status() {
    for s in [300u16, 301, 404, 500, 503, 199, 100] {
        assert!(!probe_verdict(ProbeOutcome::Responded(s)), "status {}", s);
    }
}

#[test]
fn probe_succeeds_on_success_status() {
    for s in [200u16, 201, 204, 299] {
        assert!(probe_verdict(ProbeOutcome::Responded(s)), "status {}", s);
    }
    assert!(status_is_success(250));
    assert!(!status_is_success(300));
}
