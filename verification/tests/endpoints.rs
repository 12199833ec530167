use rspeed::backend::BackendError;
use rspeed::config::ServerUrl;
use rspeed::endpoints::{append_decimal, build_download_url, BackendEndpoints};

#[test]
fn generic_endpoints_under_base_url() {
    let base = ServerUrl::parse("http://127.0.0.1:8080/").unwrap();
    let e = BackendEndpoints::generic(&base).unwrap();
    assert_eq!(e.ping_url, "http://127.0.0.1:8080/ping");
    assert_eq!(e.download_url, "http://127.0.0.1:8080/download");
    assert_eq!(e.upload_url, "http://127.0.0.1:8080/upload");
    assert_eq!(e.tcp_target, "127.0.0.1:8080");
}

#[test]
fn generic_endpoints_use_default_port_and_subpath() {
    let base = ServerUrl::parse("https://example.com/speed/").unwrap();
    let e = BackendEndpoints::generic(&base).unwrap();
    assert_eq!(e.ping_url, "https://example.com/speed/ping");
    assert_eq!(e.tcp_target, "example.com:443");
}

#[test]
fn generic_endpoints_need_a_host() {
    let base = ServerUrl::parse("file:///tmp/").unwrap();
    match BackendEndpoints::generic(&base) {
        Err(BackendError::Protocol(m)) => assert_eq!(m, "base URL missing host"),
        other => panic!("expected Protocol error, got {other:?}"),
    }
}

#[test]
fn generic_endpoints_refuse_cannot_be_a_base_url() {
    let base = ServerUrl::parse("mailto:someone@example.com").unwrap();
    assert!(matches!(BackendEndpoints::generic(&base), Err(BackendError::Protocol(_))));
}

#[test]
fn cloudflare_endpoints() {
    let e = BackendEndpoints::cloudflare();
    assert_eq!(e.ping_url, "https://speed.cloudflare.com/__ping");
    assert_eq!(e.tcp_target, "speed.cloudflare.com:443");
    assert_eq!(e.download_url, "https://speed.cloudflare.com/__down");
    assert_eq!(e.upload_url, "https://speed.cloudflare.com/__up");
}

#[test]
fn download_url_carries_byte_count() {
    assert_eq!(
        build_download_url("http://127.0.0.1:3000/download", 1_048_576).unwrap(),
        "http://127.0.0.1:3000/download?bytes=1048576"
    );
    assert_eq!(
        build_download_url("https://speed.cloudflare.com/__down", 0).unwrap(),
        "https://speed.cloudflare.com/__down?bytes=0"
    );
}

#[test]
fn decimal_notation() {
    for n in [0u64, 7, 10, 443, 8080, 65535, u64::MAX] {
        let mut s = String::from("x");
        append_decimal(&mut s, n);
        assert_eq!(s, format!("x{n}"));
    }
}
