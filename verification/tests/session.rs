use std::time::Duration;

use rspeed::backend::{BackendError, UploadResult};
use rspeed::config::{ColorWhen, Config, Format, IpVersion};
use rspeed::error::TestError;
use rspeed::metrics::AccumulatorState;
use rspeed::orchestrator::{
    measurement_window_nanos, on_download_event, phase_running, on_upload_result, remaining_nanos, SessionAction,
    SessionPlan, StreamEvent,
};
use rspeed::result::Phase;
use rspeed::orchestrator::SessionAction as A;

fn config(do_download: bool, do_upload: bool) -> Config {
    Config {
        duration_secs: 1,
        connections: 4,
        server: None,
        do_download,
        do_upload,
        format: Format::Json,
        color: ColorWhen::Never,
        ip_version: IpVersion::Auto,
        verbose: 0,
    }
}

fn actions(do_download: bool, do_upload: bool) -> Vec<SessionAction> {
    let mut plan = SessionPlan::new(&config(do_download, do_upload));
    let mut out = Vec::new();
    loop {
        let a = plan.next_action();
        out.push(a);
        if a == SessionAction::Finish {
            return out;
        }
        plan.complete_stage(Ok(())).unwrap();
    }
}

#[test]
fn session_runs_all_enabled_phases_in_order() {
    assert_eq!(actions(true, true), vec![A::ProbeLatency, A::RunDownload, A::RunUpload, A::Finish]);
}

#[test]
fn session_with_only_latency_skips_transfers() {
    assert_eq!(actions(false, false), vec![A::ProbeLatency, A::Finish]);
}

#[test]
fn session_skip_download_or_upload() {
    assert_eq!(actions(false, true), vec![A::ProbeLatency, A::RunUpload, A::Finish]);
    assert_eq!(actions(true, false), vec![A::ProbeLatency, A::RunDownload, A::Finish]);
}

#[test]
fn session_is_repeatable() {
    assert_eq!(actions(true, true), actions(true, true));
}

#[test]
fn latency_failure_becomes_latency_error() {
    let mut plan = SessionPlan::new(&config(true, true));
    let r = plan.complete_stage(Err(BackendError::Protocol("x".into())));
    assert!(matches!(r, Err(TestError::Latency(BackendError::Protocol(_)))));
}

#[test]
fn transfer_failures_are_tagged_by_phase() {
    let mut plan = SessionPlan::new(&config(true, true));
    plan.complete_stage(Ok(())).unwrap();
    assert_eq!(plan.phase(), Phase::Download);
    let r = plan.complete_stage(Err(BackendError::Timeout(Duration::from_millis(500))));
    assert!(matches!(r, Err(TestError::Download(BackendError::Timeout(_)))));

    let mut plan = SessionPlan::new(&config(false, true));
    plan.complete_stage(Ok(())).unwrap();
    assert_eq!(plan.phase(), Phase::Upload);
    let r = plan.complete_stage(Err(BackendError::Timeout(Duration::from_millis(500))));
    assert!(matches!(r, Err(TestError::Upload(BackendError::Timeout(_)))));
}

#[test]
fn download_events_drive_the_loop() {
    let mut acc = AccumulatorState::new();
    assert!(matches!(on_download_event(&mut acc, StreamEvent::Chunk(64 * 1024)), Ok(true)));
    assert_eq!(acc.total_bytes(), 64 * 1024);
    assert!(matches!(on_download_event(&mut acc, StreamEvent::Closed), Ok(false)));
    assert!(matches!(on_download_event(&mut acc, StreamEvent::DeadlineReached), Ok(false)));
    let r = on_download_event(&mut acc, StreamEvent::Failed(BackendError::Protocol("cut".into())));
    assert!(matches!(r, Err(TestError::Download(BackendError::Protocol(_)))));
    assert_eq!(acc.total_bytes(), 64 * 1024);
}

#[test]
fn upload_results_drive_the_loop() {
    let mut acc = AccumulatorState::new();
    let ok = UploadResult::new(4 * 16 * 1024, Duration::from_millis(3));
    assert!(on_upload_result(&mut acc, Ok(ok)).is_ok());
    assert_eq!(acc.total_bytes(), 65_536);
    let r = on_upload_result(&mut acc, Err(BackendError::Protocol("upload returned HTTP 500".into())));
    assert!(matches!(r, Err(TestError::Upload(BackendError::Protocol(_)))));
}

#[test]
fn phase_time_arithmetic() {
    assert_eq!(remaining_nanos(1_000, 400), Some(600));
    assert_eq!(remaining_nanos(1_000, 1_000), Some(0));
    assert_eq!(remaining_nanos(1_000, 1_001), None);
    assert!(phase_running(1_000, 999));
    assert!(!phase_running(1_000, 1_000));
    assert!(!phase_running(1_000, 5_000));
    assert_eq!(measurement_window_nanos(3_000, 2_000), 1_000);
    assert_eq!(measurement_window_nanos(1_000, 2_000), 0);
}
