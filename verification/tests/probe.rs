use std::time::Duration;

use rspeed::backend::BackendError;
use rspeed::latency::{LatencyProbe, ProbeAction, ProbeMethod};

fn run_http(probe: &mut LatencyProbe) -> usize {
    let mut measured = 0;
    while let ProbeAction::Measure(ProbeMethod::HttpRtt) = probe.next_action() {
        measured += 1;
        probe.record_measurement(Duration::from_millis(measured as u64));
    }
    measured
}

#[test]
fn probe_makes_one_warmup_measurement() {
    let mut probe = LatencyProbe::start(5);
    let measured = run_http(&mut probe);
    assert_eq!(measured, 6);
    assert_eq!(probe.next_action(), ProbeAction::Finished);
    let outcome = probe.finish();
    assert_eq!(outcome.method, "http_rtt");
    assert_eq!(outcome.samples.len(), 5);
    // The first (warm-up) measurement of 1 ms is dropped.
    assert_eq!(outcome.samples[0], Duration::from_millis(2));
}

#[test]
fn probe_falls_back_to_tcp_on_protocol_error() {
    let mut probe = LatencyProbe::start(3);
    probe.record_measurement(Duration::from_millis(1));
    probe.record_measurement(Duration::from_millis(1));
    let mut probe = probe
        .record_failure(BackendError::Protocol("ping returned status 404 Not Found".into()))
        .unwrap();
    assert_eq!(probe.method(), ProbeMethod::TcpConnect);
    let mut measured = 0;
    while let ProbeAction::Measure(m) = probe.next_action() {
        assert_eq!(m, ProbeMethod::TcpConnect);
        measured += 1;
        probe.record_measurement(Duration::from_millis(3));
    }
    assert_eq!(measured, 4);
    let outcome = probe.finish();
    assert_eq!(outcome.method, "tcp_connect");
    assert_eq!(outcome.samples, vec![Duration::from_millis(3); 3]);
}

#[test]
fn probe_falls_back_on_timeout() {
    let probe = LatencyProbe::start(2);
    let probe = probe.record_failure(BackendError::Timeout(Duration::from_secs(1))).unwrap();
    assert_eq!(probe.next_action(), ProbeAction::Measure(ProbeMethod::TcpConnect));
}

#[test]
fn probe_fails_when_tcp_fails_too() {
    let probe = LatencyProbe::start(3);
    let probe = probe.record_failure(BackendError::Timeout(Duration::from_secs(1))).unwrap();
    let r = probe.record_failure(BackendError::Protocol("tcp connect: refused".into()));
    assert!(matches!(r, Err(BackendError::Protocol(ref m)) if m == "tcp connect: refused"));
}

#[test]
fn probe_does_not_fall_back_on_not_implemented() {
    let probe = LatencyProbe::start(3);
    assert!(matches!(probe.record_failure(BackendError::NotImplemented), Err(BackendError::NotImplemented)));
}

#[test]
fn probe_method_labels() {
    assert_eq!(ProbeMethod::HttpRtt.label(), "http_rtt");
    assert_eq!(ProbeMethod::TcpConnect.label(), "tcp_connect");
}

#[test]
fn probe_for_zero_samples_still_warms_up() {
    let mut probe = LatencyProbe::start(0);
    assert_eq!(run_http(&mut probe), 1);
    assert!(probe.finish().samples.is_empty());
}
