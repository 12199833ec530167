use std::time::Duration;

use rspeed::backend::BackendError;
use rspeed::error::TestError;

#[test]
fn test_error_exit_code_mapping() {
    assert_eq!(TestError::Config("bad".to_string()).exit_code(), 2);

    assert_eq!(
        TestError::Backend(BackendError::Timeout(Duration::from_secs(1))).exit_code(),
        3
    );
    assert_eq!(
        TestError::Backend(BackendError::NotImplemented).exit_code(),
        4
    );

    assert_eq!(
        TestError::Latency(BackendError::Timeout(Duration::from_secs(1))).exit_code(),
        3
    );
    assert_eq!(
        TestError::Latency(BackendError::Protocol("p".to_string())).exit_code(),
        4
    );

    assert_eq!(
        TestError::Download(BackendError::Protocol("p".to_string())).exit_code(),
        4
    );

    assert_eq!(
        TestError::Upload(BackendError::NotImplemented).exit_code(),
        4
    );
}

#[test]
fn exit_code_upload_timeout_is_network_class() {
    assert_eq!(
        TestError::Upload(BackendError::Timeout(Duration::from_millis(500))).exit_code(),
        3
    );
    assert_eq!(
        TestError::Download(BackendError::Timeout(Duration::from_millis(500))).exit_code(),
        3
    );
}

#[test]
fn error_messages_name_phase_and_cause() {
    assert_eq!(
        TestError::Config("--server URL must end with a trailing slash (got: http://e/api)".to_string())
            .message(),
        "configuration error: --server URL must end with a trailing slash (got: http://e/api)"
    );
    assert_eq!(
        TestError::Download(BackendError::Protocol("download returned HTTP 500".to_string())).message(),
        "download failed: protocol error: download returned HTTP 500"
    );
    assert_eq!(
        TestError::Backend(BackendError::NotImplemented).message(),
        "backend init failed: not yet implemented"
    );
    let timeout = TestError::Upload(BackendError::Timeout(Duration::from_millis(500))).message();
    assert!(timeout.starts_with("upload failed: timed out after "), "{timeout}");
    assert!(timeout.contains("500ms"), "{timeout}");
    assert_eq!(
        TestError::Latency(BackendError::Protocol("tcp connect: refused".to_string())).message(),
        "latency probe failed: protocol error: tcp connect: refused"
    );
}
