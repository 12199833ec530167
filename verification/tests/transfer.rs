use std::time::Duration;

use rspeed::backend::{connection_count, http_status_error, BackendError, DownloadOpts, UploadOpts, UploadResult};

#[test]
fn zero_connections_are_refused_both_ways() {
    match DownloadOpts::new(1_000_000, 0).connection_count() {
        Err(BackendError::Protocol(m)) => assert_eq!(m, "connections must be > 0"),
        other => panic!("expected Protocol error for download, got {other:?}"),
    }
    match UploadOpts::new(1_000, 0).connection_count() {
        Err(BackendError::Protocol(m)) => assert_eq!(m, "connections must be > 0"),
        other => panic!("expected Protocol error for upload, got {other:?}"),
    }
}

#[test]
fn connection_count_passes_positive_counts() {
    assert_eq!(connection_count(4).unwrap(), 4);
    assert_eq!(DownloadOpts::new(256 * 1024, 32).connection_count().unwrap(), 32);
}

#[test]
fn upload_bytes_sent_is_body_times_connections() {
    assert_eq!(UploadOpts::new(16 * 1024, 4).bytes_sent(), 4 * 16 * 1024);
    assert_eq!(UploadOpts::new(64 * 1024, 1).bytes_sent(), 64 * 1024);
}

#[test]
fn opts_and_results_keep_their_fields() {
    let d = DownloadOpts::new(1_048_576, 1);
    assert_eq!((d.bytes_per_request, d.connections), (1_048_576, 1));
    let u = UploadOpts::new(10 * 1024 * 1024, 4);
    assert_eq!((u.bytes_per_request, u.connections), (10 * 1024 * 1024, 4));
    let r = UploadResult::new(65_536, Duration::from_millis(12));
    assert_eq!(r.bytes_sent, 65_536);
    assert_eq!(r.elapsed, Duration::from_millis(12));
}

#[test]
fn status_error_names_the_code() {
    match http_status_error("download", 500) {
        BackendError::Protocol(m) => assert_eq!(m, "download returned HTTP 500"),
        other => panic!("expected Protocol error, got {other:?}"),
    }
}
