//! The URLs and the TCP address a backend measures against.

use crate::backend::BackendError;
use crate::config::ServerUrl;
use vstd::prelude::*;

verus! {

/// What `url::Url::join` gives for `input` against the URL whose
/// serialization is `base` (parsed back with `url::Url::parse`): the
/// serialization of the joined URL, or `None` where either call refuses.
pub uninterp spec fn joined_url(base: Seq<char>, input: Seq<char>) -> Option<Seq<char>>;

/// Calls `url::Url::join` on the URL whose serialization is `base`.
/// Trusted: the serialization returned, or the refusal, is what `joined_url`
/// names for the arguments.
#[verifier::external_body]
fn join_url(base: &str, input: &str) -> (r: Result<String, url::ParseError>)
    ensures
        match r {
            Ok(t) => joined_url(base@, input@) == Some(t@),
            Err(_) => joined_url(base@, input@) is None,
        },
{
    match url::Url::parse(base) {
        Ok(b) => match b.join(input) {
            Ok(u) => Ok(u.as_str().to_string()),
            Err(e) => Err(e),
        },
        Err(e) => Err(e),
    }
}

/// The URL `base` (parsed back with `url::Url::parse`) with the pair
/// `key=value` appended to its query by `Url::query_pairs_mut().append_pair`,
/// serialized; `None` where the parse refuses.
pub uninterp spec fn url_with_query_pair(base: Seq<char>, key: Seq<char>, value: Seq<char>) -> Option<Seq<char>>;

/// Calls `url::form_urlencoded::Serializer::append_pair` through
/// `Url::query_pairs_mut` on the URL whose serialization is `base`.
/// Trusted: the serialization returned, or the refusal, is what
/// `url_with_query_pair` names for the arguments.
#[verifier::external_body]
fn append_query_pair(base: &str, key: &str, value: &str) -> (r: Result<String, url::ParseError>)
    ensures
        match r {
            Ok(t) => url_with_query_pair(base@, key@, value@) == Some(t@),
            Err(_) => url_with_query_pair(base@, key@, value@) is None,
        },
{
    match url::Url::parse(base) {
        Ok(mut u) => {
            u.query_pairs_mut().append_pair(key, value);
            Ok(u.as_str().to_string())
        },
        Err(e) => Err(e),
    }
}

/// The URL of one download request: `bytes=<count>` appended to the query of
/// the download endpoint.
pub fn build_download_url(base: &str, bytes: u64) -> (r: Result<String, BackendError>)
    ensures
        r is Ok <==> url_with_query_pair(base@, "bytes"@, decimal(bytes as nat)) is Some,
        r matches Ok(u) ==> url_with_query_pair(base@, "bytes"@, decimal(bytes as nat)) == Some(u@),
        r matches Err(e) ==> e is Protocol,
{
    let mut value = String::new();
    append_decimal(&mut value, bytes);
    proof {
        assert(value@ =~= decimal(bytes as nat));
    }
    match append_query_pair(base, "bytes", value.as_str()) {
        Ok(u) => Ok(u),
        Err(e) => Err(BackendError::Protocol(parse_error_text(&e))),
    }
}

/// The description `url::ParseError` displays. The text is not stated: it is
/// one fixed sentence per kind of parse error, and the error is opaque here.
#[verifier::external_body]
fn parse_error_text(e: &url::ParseError) -> String {
    e.to_string()
}

pub open spec fn decimal_digits() -> Seq<char> {
    seq!['0', '1', '2', '3', '4', '5', '6', '7', '8', '9']
}

/// The decimal notation of `n`, without leading zeros.
pub open spec fn decimal(n: nat) -> Seq<char>
    decreases n,
{
    if n < 10 {
        seq![decimal_digits()[n as int]]
    } else {
        decimal(n / 10).push(decimal_digits()[(n % 10) as int])
    }
}

fn digit_str(d: u64) -> (s: &'static str)
    requires
        d < 10,
    ensures
        s@ == seq![decimal_digits()[d as int]],
{
    proof {
        reveal_strlit("0");
        reveal_strlit("1");
        reveal_strlit("2");
        reveal_strlit("3");
        reveal_strlit("4");
        reveal_strlit("5");
        reveal_strlit("6");
        reveal_strlit("7");
        reveal_strlit("8");
        reveal_strlit("9");
    }
    match d {
        0 => "0",
        1 => "1",
        2 => "2",
        3 => "3",
        4 => "4",
        5 => "5",
        6 => "6",
        7 => "7",
        8 => "8",
        _ => "9",
    }
}

/// Appends the decimal notation of `n`.
pub fn append_decimal(s: &mut String, n: u64)
    ensures
        final(s)@ == old(s)@ + decimal(n as nat),
    decreases n,
{
    if n >= 10 {
        append_decimal(s, n / 10);
    }
    s.append(digit_str(n % 10));
    proof {
        if n >= 10 {
            assert(old(s)@ + decimal((n / 10) as nat) + seq![decimal_digits()[(n % 10) as int]]
                =~= old(s)@ + decimal(n as nat));
        } else {
            assert(old(s)@ + seq![decimal_digits()[(n % 10) as int]] =~= old(s)@ + decimal(n as nat));
        }
    }
}

/// The value of a decimal digit.
pub open spec fn digit_value(c: char) -> int {
    match c {
        '1' => 1,
        '2' => 2,
        '3' => 3,
        '4' => 4,
        '5' => 5,
        '6' => 6,
        '7' => 7,
        '8' => 8,
        '9' => 9,
        _ => 0,
    }
}

/// The number a string of decimal digits reads as.
pub open spec fn decimal_value(s: Seq<char>) -> int
    decreases s.len(),
{
    if s.len() == 0 {
        0
    } else {
        decimal_value(s.drop_last()) * 10 + digit_value(s.last())
    }
}

/// The decimal notation of `n` is made of digits only and reads back as `n`.
pub proof fn lemma_decimal_reads_back(n: nat)
    ensures
        decimal_value(decimal(n)) == n,
        decimal(n).len() >= 1,
        forall|i: int| 0 <= i < decimal(n).len() ==> '0' <= #[trigger] decimal(n)[i] <= '9',
    decreases n,
{
    let d = decimal_digits();
    assert(digit_value(d[0]) == 0 && digit_value(d[1]) == 1 && digit_value(d[2]) == 2);
    assert(digit_value(d[3]) == 3 && digit_value(d[4]) == 4 && digit_value(d[5]) == 5);
    assert(digit_value(d[6]) == 6 && digit_value(d[7]) == 7 && digit_value(d[8]) == 8);
    assert(digit_value(d[9]) == 9);
    assert forall|k: int| 0 <= k < 10 implies digit_value(#[trigger] d[k]) == k by {
        if k == 0 {} else if k == 1 {} else if k == 2 {} else if k == 3 {} else if k == 4 {}
        else if k == 5 {} else if k == 6 {} else if k == 7 {} else if k == 8 {} else {}
    }
    assert(forall|k: int| 0 <= k < 10 ==> '0' <= #[trigger] d[k] <= '9');
    if n < 10 {
        assert(decimal(n).drop_last() =~= Seq::<char>::empty());
        assert(digit_value(d[n as int]) == n);
        assert(decimal_value(Seq::<char>::empty()) == 0);
        assert(decimal(n).last() == d[n as int]);
        assert(decimal_value(decimal(n)) == decimal_value(decimal(n).drop_last()) * 10 + digit_value(
            decimal(n).last(),
        ));
    } else {
        lemma_decimal_reads_back(n / 10);
        assert(decimal(n).drop_last() =~= decimal(n / 10));
        assert(digit_value(d[(n % 10) as int]) == n % 10);
        assert(decimal(n).last() == d[(n % 10) as int]);
        assert(decimal_value(decimal(n)) == decimal_value(decimal(n).drop_last()) * 10 + digit_value(
            decimal(n).last(),
        ));
        assert((n / 10) as int * 10 + n % 10 == n);
    }
}

pub open spec fn tcp_target_of(host: Seq<char>, port: u16) -> Seq<char> {
    host + ":"@ + decimal(port as nat)
}

/// The TCP target names the host, then `:`, then digits that read back as the
/// port, for every host and port.
pub proof fn lemma_tcp_target_reads_back(host: Seq<char>, port: u16)
    ensures
        tcp_target_of(host, port).len() > host.len() + 1,
        tcp_target_of(host, port).subrange(0, host.len() as int) == host,
        tcp_target_of(host, port)[host.len() as int] == ':',
        decimal_value(tcp_target_of(host, port).skip(host.len() as int + 1)) == port,
{
    reveal_strlit(":");
    lemma_decimal_reads_back(port as nat);
    let t = tcp_target_of(host, port);
    assert(t.subrange(0, host.len() as int) =~= host);
    assert(t.skip(host.len() as int + 1) =~= decimal(port as nat));
}

/// Where a backend sends its latency pings, opens its TCP fallback
/// connections, downloads and uploads.
#[derive(Debug, Clone)]
pub struct BackendEndpoints {
    pub ping_url: String,
    pub tcp_target: String,
    pub download_url: String,
    pub upload_url: String,
}

pub open spec fn generic_endpoints_exist(base: Seq<char>, host: Option<Seq<char>>, port: Option<u16>) -> bool {
    &&& joined_url(base, "ping"@) is Some
    &&& host is Some
    &&& port is Some
    &&& joined_url(base, "download"@) is Some
    &&& joined_url(base, "upload"@) is Some
}

impl BackendEndpoints {
    /// The endpoints of the documented protocol under a user-supplied base
    /// URL: `ping`, `download` and `upload` joined onto it, and its host and
    /// port for the TCP fallback. A URL that cannot be joined onto, or that
    /// has no host or no port, is a protocol error.
    pub fn generic(base: &ServerUrl) -> (r: Result<BackendEndpoints, BackendError>)
        ensures
            r is Ok <==> generic_endpoints_exist(base@.text, base@.host, base@.port),
            r matches Ok(e) ==> {
                &&& joined_url(base@.text, "ping"@) == Some(e.ping_url@)
                &&& joined_url(base@.text, "download"@) == Some(e.download_url@)
                &&& joined_url(base@.text, "upload"@) == Some(e.upload_url@)
                &&& e.tcp_target@ == tcp_target_of(base@.host->0, base@.port->0)
                &&& e.tcp_target@.subrange(0, base@.host->0.len() as int) == base@.host->0
                &&& e.tcp_target@[base@.host->0.len() as int] == ':'
                &&& decimal_value(e.tcp_target@.skip(base@.host->0.len() as int + 1)) == base@.port->0
            },
            r matches Err(err) ==> err is Protocol,
            joined_url(base@.text, "ping"@) is Some && base@.host is None ==> (r matches Err(err)
                && err matches BackendError::Protocol(m) && m@ == "base URL missing host"@),
            joined_url(base@.text, "ping"@) is Some && base@.host is Some && base@.port is None ==> (
            r matches Err(err) && err matches BackendError::Protocol(m) && m@ == "base URL missing port"@),
    {
        let ping_url = match join_url(base.as_str(), "ping") {
            Ok(u) => u,
            Err(e) => return Err(BackendError::Protocol(parse_error_text(&e))),
        };
        let host = match base.host() {
            Some(h) => h,
            None => return Err(BackendError::Protocol(String::from_str("base URL missing host"))),
        };
        let port = match base.port() {
            Some(p) => p,
            None => return Err(BackendError::Protocol(String::from_str("base URL missing port"))),
        };
        let mut tcp_target = String::from_str(host);
        tcp_target.append(":");
        append_decimal(&mut tcp_target, port as u64);
        let download_url = match join_url(base.as_str(), "download") {
            Ok(u) => u,
            Err(e) => return Err(BackendError::Protocol(parse_error_text(&e))),
        };
        let upload_url = match join_url(base.as_str(), "upload") {
            Ok(u) => u,
            Err(e) => return Err(BackendError::Protocol(parse_error_text(&e))),
        };
        proof {
            lemma_tcp_target_reads_back(host@, port);
        }
        Ok(BackendEndpoints { ping_url, tcp_target, download_url, upload_url })
    }

    /// The endpoints of Cloudflare's speed test service.
    pub fn cloudflare() -> (e: BackendEndpoints)
        ensures
            e.ping_url@ == "https://speed.cloudflare.com/__ping"@,
            e.tcp_target@ == "speed.cloudflare.com:443"@,
            e.download_url@ == "https://speed.cloudflare.com/__down"@,
            e.upload_url@ == "https://speed.cloudflare.com/__up"@,
    {
        BackendEndpoints {
            ping_url: String::from_str("https://speed.cloudflare.com/__ping"),
            tcp_target: String::from_str("speed.cloudflare.com:443"),
            download_url: String::from_str("https://speed.cloudflare.com/__down"),
            upload_url: String::from_str("https://speed.cloudflare.com/__up"),
        }
    }
}

} // verus!
