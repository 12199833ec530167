use rspeed::config::{BackendKind, Cli, ColorWhen, Config, Format, IpVersion, ServerUrl};
use rspeed::error::TestError;

fn config_with(server: Option<ServerUrl>) -> Config {
    Config {
        duration_secs: 10,
        connections: 4,
        server,
        do_download: true,
        do_upload: true,
        format: Format::Json,
        color: ColorWhen::Never,
        ip_version: IpVersion::Auto,
        verbose: 0,
    }
}

#[test]
fn config_validate_rejects_server_without_trailing_slash() {
    let no_slash = ServerUrl::parse("http://example.com/api").unwrap();
    let config = config_with(Some(no_slash));
    let err = config.validate().unwrap_err();
    assert!(matches!(err, TestError::Config(ref msg) if msg.contains("trailing slash")));

    let with_slash = ServerUrl::parse("http://example.com/").unwrap();
    let config2 = config_with(Some(with_slash));
    assert!(config2.validate().is_ok());

    let config3 = config_with(None);
    assert!(config3.validate().is_ok());
}

#[test]
fn validate_message_names_the_url() {
    let config = config_with(Some(ServerUrl::parse("http://example.com/api").unwrap()));
    match config.validate() {
        Err(TestError::Config(msg)) => assert_eq!(
            msg,
            "--server URL must end with a trailing slash (got: http://example.com/api)"
        ),
        other => panic!("expected a configuration error, got {other:?}"),
    }
    assert_eq!(config.validate().unwrap_err().exit_code(), 2);
}

#[test]
fn server_url_parse_normalises_bare_host() {
    let u = ServerUrl::parse("http://example.com").unwrap();
    assert_eq!(u.as_str(), "http://example.com/");
    assert_eq!(u.path(), "/");
    assert_eq!(u.host(), Some("example.com"));
    assert_eq!(u.port(), Some(80));
    assert!(u.path_ends_with_slash());
    assert!(config_with(Some(u)).validate().is_ok());
}

#[test]
fn server_url_parse_reads_explicit_port_and_path() {
    let u = ServerUrl::parse("https://127.0.0.1:8443/speed/api?x=1").unwrap();
    assert_eq!(u.host(), Some("127.0.0.1"));
    assert_eq!(u.port(), Some(8443));
    assert_eq!(u.path(), "/speed/api");
    assert!(!u.path_ends_with_slash());
}

#[test]
fn server_url_parse_refuses_non_url() {
    assert!(ServerUrl::parse("not a url").is_err());
}

#[test]
fn server_url_string_defaults_to_cloudflare() {
    assert_eq!(config_with(None).server_url_string(), "https://speed.cloudflare.com/");
    let u = ServerUrl::parse("http://10.0.0.1:9000/").unwrap();
    assert_eq!(config_with(Some(u)).server_url_string(), "http://10.0.0.1:9000/");
}

#[test]
fn ip_version_string_labels() {
    let mut c = config_with(None);
    assert_eq!(c.ip_version_string(), "auto");
    c.ip_version = IpVersion::V4;
    assert_eq!(c.ip_version_string(), "ipv4");
    c.ip_version = IpVersion::V6;
    assert_eq!(c.ip_version_string(), "ipv6");
}

#[test]
fn ip_version_from_flags_table() {
    assert_eq!(IpVersion::from_flags(true, false), IpVersion::V4);
    assert_eq!(IpVersion::from_flags(false, true), IpVersion::V6);
    assert_eq!(IpVersion::from_flags(false, false), IpVersion::Auto);
    assert_eq!(IpVersion::from_flags(true, true), IpVersion::Auto);
}

#[test]
fn config_from_cli_inverts_skip_flags() {
    let cli = Cli {
        duration: 7,
        connections: 3,
        server: None,
        no_upload: true,
        no_download: false,
        format: Format::Silent,
        color: ColorWhen::Always,
        ipv4: false,
        ipv6: true,
        verbose: 2,
    };
    let c = Config::from(cli);
    assert_eq!(c.duration_secs, 7);
    assert_eq!(c.connections, 3);
    assert!(c.server.is_none());
    assert!(!c.do_upload);
    assert!(c.do_download);
    assert_eq!(c.format, Format::Silent);
    assert_eq!(c.color, ColorWhen::Always);
    assert_eq!(c.ip_version, IpVersion::V6);
    assert_eq!(c.verbose, 2);
}

#[test]
fn backend_kind_follows_server_flag() {
    assert_eq!(config_with(None).backend_kind(), BackendKind::Cloudflare);
    let u = ServerUrl::parse("https://example.com").unwrap();
    assert_eq!(config_with(Some(u)).backend_kind(), BackendKind::Generic);
}
