//! Resolved, downstream-facing configuration, and the server URL it carries.

use crate::error::TestError;
use vstd::prelude::*;

verus! {

/// `url::ParseError` is handed back unchanged when a server URL does not parse.
#[verifier::external_type_specification]
#[verifier::external_body]
pub struct ExUrlParseError(url::ParseError);

pub open spec fn string_option_view(o: Option<String>) -> Option<Seq<char>> {
    match o {
        Some(s) => Some(s@),
        None => None,
    }
}

/// What `url::Url::parse` makes of an input: `None` where it refuses the
/// input, else the URL's serialization (`Url::as_str`), its path
/// (`Url::path`), its host (`Url::host_str`) and its port, explicit or the
/// scheme's default (`Url::port_or_known_default`).
pub uninterp spec fn parsed_url(input: Seq<char>) -> Option<(Seq<char>, Seq<char>, Option<Seq<char>>, Option<u16>)>;

/// Calls `url::Url::parse` and reads the parts of the URL it returns.
/// Trusted: the parts returned, or the refusal, are what `parsed_url` names
/// for the input; nothing more is claimed of the parser.
#[verifier::external_body]
fn parse_url_parts(input: &str) -> (r: Result<(String, String, Option<String>, Option<u16>), url::ParseError>)
    ensures
        match r {
            Ok((text, path, host, port)) => parsed_url(input@) == Some(
                (text@, path@, string_option_view(host), port),
            ),
            Err(_) => parsed_url(input@) is None,
        },
{
    match url::Url::parse(input) {
        Ok(u) => Ok((
            u.as_str().to_string(),
            u.path().to_string(),
            match u.host_str() {
                Some(h) => Some(h.to_string()),
                None => None,
            },
            u.port_or_known_default(),
        )),
        Err(e) => Err(e),
    }
}

/// The server URL given with `--server`, held as the plain values the
/// configuration and endpoint logic read.
#[derive(Debug, Clone)]
pub struct ServerUrl {
    text: String,
    path: String,
    host: Option<String>,
    port: Option<u16>,
}

pub struct ServerUrlView {
    pub text: Seq<char>,
    pub path: Seq<char>,
    pub host: Option<Seq<char>>,
    pub port: Option<u16>,
}

impl View for ServerUrl {
    type V = ServerUrlView;

    closed spec fn view(&self) -> ServerUrlView {
        ServerUrlView {
            text: self.text@,
            path: self.path@,
            host: string_option_view(self.host),
            port: self.port,
        }
    }
}

pub open spec fn ends_with_slash(s: Seq<char>) -> bool {
    s.len() > 0 && s.last() == '/'
}

impl ServerUrl {
    /// Parses an absolute URL.
    pub fn parse(input: &str) -> (r: Result<ServerUrl, url::ParseError>)
        ensures
            match r {
                Ok(u) => parsed_url(input@) == Some((u@.text, u@.path, u@.host, u@.port)),
                Err(_) => parsed_url(input@) is None,
            },
    {
        match parse_url_parts(input) {
            Ok((text, path, host, port)) => Ok(ServerUrl { text, path, host, port }),
            Err(e) => Err(e),
        }
    }

    /// The URL's serialization.
    pub fn as_str(&self) -> (s: &str)
        ensures
            s@ == self@.text,
    {
        self.text.as_str()
    }

    /// The URL's path.
    pub fn path(&self) -> (s: &str)
        ensures
            s@ == self@.path,
    {
        self.path.as_str()
    }

    /// The URL's host, if it has one.
    pub fn host(&self) -> (h: Option<&str>)
        ensures
            h matches Some(x) ==> self@.host == Some(x@),
            h is None <==> self@.host is None,
    {
        match &self.host {
            Some(h) => Some(h.as_str()),
            None => None,
        }
    }

    /// The URL's port, explicit or the scheme's default.
    pub fn port(&self) -> (p: Option<u16>)
        ensures
            p == self@.port,
    {
        self.port
    }

    pub fn path_ends_with_slash(&self) -> (b: bool)
        ensures
            b == ends_with_slash(self@.path),
            b <==> (self@.path.len() >= 1 && self@.path[self@.path.len() - 1] == '/'),
    {
        let p = self.path.as_str();
        let n = p.unicode_len();
        if n == 0 {
            false
        } else {
            p.get_char(n - 1) == '/'
        }
    }
}

/// Output format.
#[derive(Debug, Clone, Copy, PartialEq, Eq, Structural)]
pub enum Format {
    Human,
    Json,
    Silent,
}

/// Color output mode.
#[derive(Debug, Clone, Copy, PartialEq, Eq, Structural)]
pub enum ColorWhen {
    Auto,
    Always,
    Never,
}

/// Address family the user asked for.
#[derive(Debug, Clone, Copy, PartialEq, Eq, Structural)]
pub enum IpVersion {
    Auto,
    V4,
    V6,
}

/// Which backend a test runs against.
#[derive(Debug, Clone, Copy, PartialEq, Eq, Structural)]
pub enum BackendKind {
    Cloudflare,
    Generic,
}

/// The command line as plain values, after parsing.
#[derive(Debug)]
pub struct Cli {
    pub duration: u32,
    pub connections: u8,
    pub server: Option<ServerUrl>,
    pub no_upload: bool,
    pub no_download: bool,
    pub format: Format,
    pub color: ColorWhen,
    pub ipv4: bool,
    pub ipv6: bool,
    pub verbose: u8,
}

#[derive(Debug)]
pub struct Config {
    pub duration_secs: u32,
    pub connections: u8,
    pub server: Option<ServerUrl>,
    pub do_upload: bool,
    pub do_download: bool,
    pub format: Format,
    pub color: ColorWhen,
    pub ip_version: IpVersion,
    /// Verbosity count from `-v` / `-vv` / `-vvv`.
    pub verbose: u8,
}

/// The default server when `--server` is not given.
pub open spec fn default_server_url() -> Seq<char> {
    "https://speed.cloudflare.com/"@
}

pub open spec fn trailing_slash_message(url: Seq<char>) -> Seq<char> {
    "--server URL must end with a trailing slash (got: "@ + url + ")"@
}

pub open spec fn ip_version_label(v: IpVersion) -> Seq<char> {
    match v {
        IpVersion::Auto => "auto"@,
        IpVersion::V4 => "ipv4"@,
        IpVersion::V6 => "ipv6"@,
    }
}

/// `-4` alone asks for IPv4, `-6` alone for IPv6; neither or both leave the
/// choice to the resolver.
pub open spec fn ip_version_from_flags(ipv4: bool, ipv6: bool) -> IpVersion {
    if ipv4 && !ipv6 {
        IpVersion::V4
    } else if ipv6 && !ipv4 {
        IpVersion::V6
    } else {
        IpVersion::Auto
    }
}

pub open spec fn config_from_cli(c: Cli) -> Config {
    Config {
        duration_secs: c.duration,
        connections: c.connections,
        server: c.server,
        do_upload: !c.no_upload,
        do_download: !c.no_download,
        format: c.format,
        color: c.color,
        ip_version: ip_version_from_flags(c.ipv4, c.ipv6),
        verbose: c.verbose,
    }
}

impl IpVersion {
    pub fn from_flags(ipv4: bool, ipv6: bool) -> (v: IpVersion)
        ensures
            v == ip_version_from_flags(ipv4, ipv6),
    {
        match (ipv4, ipv6) {
            (true, false) => IpVersion::V4,
            (false, true) => IpVersion::V6,
            _ => IpVersion::Auto,
        }
    }
}

impl Config {
    /// Rejects a `--server` URL whose path does not end with `/`: the
    /// endpoints are joined onto it, and without the slash the last path
    /// segment would be replaced.
    pub fn validate(&self) -> (r: Result<(), TestError>)
        ensures
            r is Ok <==> (self.server matches Some(u) ==> ends_with_slash(u@.path)),
            r matches Err(e) ==> (e matches TestError::Config(msg)
                && self.server matches Some(u) && msg@ == trailing_slash_message(u@.text)),
    {
        match &self.server {
            Some(url) => {
                if !url.path_ends_with_slash() {
                    let mut msg = String::from_str("--server URL must end with a trailing slash (got: ");
                    msg.append(url.as_str());
                    msg.append(")");
                    return Err(TestError::Config(msg));
                }
                Ok(())
            },
            None => Ok(()),
        }
    }

    /// `--server` selects the generic HTTP backend against that URL; without
    /// it the test runs against Cloudflare.
    pub fn backend_kind(&self) -> (k: BackendKind)
        ensures
            k == (if self.server is Some {
                BackendKind::Generic
            } else {
                BackendKind::Cloudflare
            }),
    {
        match &self.server {
            Some(_) => BackendKind::Generic,
            None => BackendKind::Cloudflare,
        }
    }

    /// The URL the test runs against, as reported in the result.
    pub fn server_url_string(&self) -> (s: String)
        ensures
            s@ == match self.server {
                Some(u) => u@.text,
                None => default_server_url(),
            },
    {
        match &self.server {
            Some(u) => u.text.clone(),
            None => String::from_str("https://speed.cloudflare.com/"),
        }
    }

    /// The address family the user asked for (intent, not what the
    /// connection pool ended up using).
    pub fn ip_version_string(&self) -> (s: String)
        ensures
            s@ == ip_version_label(self.ip_version),
    {
        match self.ip_version {
            IpVersion::Auto => String::from_str("auto"),
            IpVersion::V4 => String::from_str("ipv4"),
            IpVersion::V6 => String::from_str("ipv6"),
        }
    }
}

impl From<Cli> for Config {
    fn from(c: Cli) -> (r: Config)
        ensures
            r.do_upload == !c.no_upload,
            r.do_download == !c.no_download,
            r.server == c.server,
            r.duration_secs == c.duration,
            r.connections == c.connections,
            r.format == c.format,
            r.color == c.color,
            r.verbose == c.verbose,
            c.ipv4 && !c.ipv6 ==> r.ip_version == IpVersion::V4,
            c.ipv6 && !c.ipv4 ==> r.ip_version == IpVersion::V6,
            c.ipv4 == c.ipv6 ==> r.ip_version == IpVersion::Auto,
    {
        let ip_version = IpVersion::from_flags(c.ipv4, c.ipv6);
        Config {
            duration_secs: c.duration,
            connections: c.connections,
            server: c.server,
            do_upload: !c.no_upload,
            do_download: !c.no_download,
            format: c.format,
            color: c.color,
            ip_version,
            verbose: c.verbose,
        }
    }
}

impl vstd::std_specs::convert::FromSpecImpl<Cli> for Config {
    open spec fn obeys_from_spec() -> bool {
        true
    }

    open spec fn from_spec(c: Cli) -> Config {
        config_from_cli(c)
    }
}

/// Resolving the command line: each phase runs unless its own skip flag is
/// given, whatever the other flag says; the server, duration, connection
/// count, output settings and verbosity are carried over as given; `-4`
/// alone means IPv4, `-6` alone IPv6, and neither or both leave it to the
/// resolver.
pub proof fn lemma_config_from_cli(c: Cli)
    ensures
        config_from_cli(c).do_upload == !c.no_upload,
        config_from_cli(c).do_download == !c.no_download,
        config_from_cli(c).server == c.server,
        config_from_cli(c).duration_secs == c.duration,
        config_from_cli(c).connections == c.connections,
        config_from_cli(c).format == c.format,
        config_from_cli(c).color == c.color,
        config_from_cli(c).verbose == c.verbose,
        c.ipv4 && !c.ipv6 ==> config_from_cli(c).ip_version == IpVersion::V4,
        c.ipv6 && !c.ipv4 ==> config_from_cli(c).ip_version == IpVersion::V6,
        c.ipv4 == c.ipv6 ==> config_from_cli(c).ip_version == IpVersion::Auto,
{
}

/// A path ends with a slash exactly when its last character is `/`,
/// whatever its length: appending `/` to any path gives one that does, and
/// appending any other character gives one that does not.
pub proof fn lemma_ends_with_slash(p: Seq<char>, c: char)
    ensures
        ends_with_slash(p) <==> (p.len() >= 1 && p[p.len() - 1] == '/'),
        ends_with_slash(p.push('/')),
        c != '/' ==> !ends_with_slash(p.push(c)),
        !ends_with_slash(Seq::<char>::empty()),
{
}

/// Validation refuses a configuration exactly when it names a server whose
/// path does not end with `/`.
pub proof fn lemma_validation_rule(config: Config)
    ensures
        (config.server matches Some(u) && !(u@.path.len() >= 1 && u@.path[u@.path.len() - 1] == '/'))
            <==> !(config.server matches Some(u) ==> ends_with_slash(u@.path)),
{
}

} // verus!
