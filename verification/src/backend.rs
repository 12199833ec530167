//! Values that cross the seam between the measurement logic and the
//! transports that reach a server, and the checks the transports make on
//! them before any request goes out.

use std::time::Duration;
use vstd::prelude::*;

verus! {

/// `reqwest::Error` is carried through unchanged inside `BackendError::Network`.
#[verifier::external_type_specification]
#[verifier::external_body]
pub struct ExReqwestError(reqwest::Error);

/// Errors crossing the backend boundary.
#[non_exhaustive]
#[derive(Debug)]
pub enum BackendError {
    NotImplemented,
    Network(reqwest::Error),
    Timeout(Duration),
    Protocol(String),
}

/// The text `reqwest::Error` displays. Not stated: it describes the failed
/// request and its cause, which nothing here can observe.
#[verifier::external_body]
fn network_error_text(e: &reqwest::Error) -> String {
    e.to_string()
}

/// `Duration`'s `Debug` text (such as `1.5s`). Not stated: the duration is
/// opaque here.
#[verifier::external_body]
fn duration_text(d: &Duration) -> String {
    format!("{d:?}")
}

pub open spec fn starts_with(s: Seq<char>, prefix: Seq<char>) -> bool {
    prefix.len() <= s.len() && s.subrange(0, prefix.len() as int) == prefix
}

/// What the message of a backend error says: a fixed sentence for the
/// variants without text, the protocol error's own text behind a prefix, and
/// a prefix naming the kind of failure before the details of a network error
/// or a timeout.
pub open spec fn backend_message_ok(e: BackendError, msg: Seq<char>) -> bool {
    match e {
        BackendError::NotImplemented => msg == "not yet implemented"@,
        BackendError::Protocol(m) => msg == "protocol error: "@ + m@,
        BackendError::Network(_) => starts_with(msg, "network error: "@),
        BackendError::Timeout(_) => starts_with(msg, "timed out after "@),
    }
}

impl BackendError {
    /// The one-line description the error is reported with.
    pub fn message(&self) -> (msg: String)
        ensures
            backend_message_ok(*self, msg@),
    {
        match self {
            BackendError::NotImplemented => String::from_str("not yet implemented"),
            BackendError::Network(e) => {
                let mut msg = String::from_str("network error: ");
                let ghost prefix = msg@;
                let detail = network_error_text(e);
                msg.append(detail.as_str());
                assert(msg@.subrange(0, prefix.len() as int) =~= prefix);
                msg
            },
            BackendError::Timeout(d) => {
                let mut msg = String::from_str("timed out after ");
                let ghost prefix = msg@;
                let detail = duration_text(d);
                msg.append(detail.as_str());
                assert(msg@.subrange(0, prefix.len() as int) =~= prefix);
                msg
            },
            BackendError::Protocol(m) => {
                let mut msg = String::from_str("protocol error: ");
                let ghost prefix = msg@;
                msg.append(m.as_str());
                msg
            },
        }
    }
}

pub open spec fn zero_connections_message() -> Seq<char> {
    "connections must be > 0"@
}

/// The error both transfer directions answer a request for zero connections with.
pub open spec fn is_zero_connections_error(e: BackendError) -> bool {
    e matches BackendError::Protocol(m) && m@ == zero_connections_message()
}

/// How many parallel requests to open: the configured count, or a protocol
/// error when it is zero.
pub fn connection_count(connections: u8) -> (r: Result<usize, BackendError>)
    ensures
        r is Ok <==> connections > 0,
        r matches Ok(n) ==> n == connections,
        r matches Err(e) ==> is_zero_connections_error(e),
{
    if connections == 0 {
        return Err(BackendError::Protocol(String::from_str("connections must be > 0")));
    }
    Ok(connections as usize)
}

pub open spec fn status_message(what: Seq<char>, code: u16) -> Seq<char> {
    what + " returned HTTP "@ + crate::endpoints::decimal(code as nat)
}

/// The protocol error for a transfer request answered with a non-success
/// HTTP status: `"<what> returned HTTP <code>"`.
pub fn http_status_error(what: &str, code: u16) -> (e: BackendError)
    ensures
        e matches BackendError::Protocol(m) && m@ == status_message(what@, code),
{
    let mut msg = String::from_str(what);
    msg.append(" returned HTTP ");
    crate::endpoints::append_decimal(&mut msg, code as u64);
    BackendError::Protocol(msg)
}

/// Options for one download fan-out.
#[non_exhaustive]
#[derive(Debug, Clone, Copy)]
pub struct DownloadOpts {
    pub bytes_per_request: u64,
    pub connections: u8,
}

impl DownloadOpts {
    pub fn new(bytes_per_request: u64, connections: u8) -> (r: Self)
        ensures
            r.bytes_per_request == bytes_per_request,
            r.connections == connections,
    {
        DownloadOpts { bytes_per_request, connections }
    }

    /// Number of parallel download streams to open.
    pub fn connection_count(&self) -> (r: Result<usize, BackendError>)
        ensures
            r is Ok <==> self.connections > 0,
            r matches Ok(n) ==> n == self.connections,
            r matches Err(e) ==> is_zero_connections_error(e),
    {
        connection_count(self.connections)
    }
}

/// Options for one upload fan-out.
#[non_exhaustive]
#[derive(Debug, Clone, Copy)]
pub struct UploadOpts {
    pub bytes_per_request: u64,
    pub connections: u8,
}

impl UploadOpts {
    pub fn new(bytes_per_request: u64, connections: u8) -> (r: Self)
        ensures
            r.bytes_per_request == bytes_per_request,
            r.connections == connections,
    {
        UploadOpts { bytes_per_request, connections }
    }

    /// Number of parallel upload requests to make.
    pub fn connection_count(&self) -> (r: Result<usize, BackendError>)
        ensures
            r is Ok <==> self.connections > 0,
            r matches Ok(n) ==> n == self.connections,
            r matches Err(e) ==> is_zero_connections_error(e),
    {
        connection_count(self.connections)
    }

    /// Bytes one completed fan-out has sent: one body per connection.
    pub fn bytes_sent(&self) -> (total: u64)
        requires
            self.bytes_per_request * self.connections <= u64::MAX,
        ensures
            total == self.bytes_per_request * self.connections,
    {
        self.bytes_per_request * (self.connections as u64)
    }
}

/// What one upload fan-out achieved.
#[non_exhaustive]
#[derive(Debug, Clone, Copy)]
pub struct UploadResult {
    pub bytes_sent: u64,
    pub elapsed: Duration,
}

impl UploadResult {
    pub fn new(bytes_sent: u64, elapsed: Duration) -> (r: Self)
        ensures
            r.bytes_sent == bytes_sent,
            r.elapsed == elapsed,
    {
        UploadResult { bytes_sent, elapsed }
    }
}

/// The samples of a latency probe and the method that took them
/// (`"http_rtt"` or `"tcp_connect"`).
#[non_exhaustive]
#[derive(Debug, Clone)]
pub struct LatencyProbeOutcome {
    pub method: &'static str,
    pub samples: Vec<Duration>,
}

impl LatencyProbeOutcome {
    pub fn new(method: &'static str, samples: Vec<Duration>) -> (r: Self)
        ensures
            r.method == method,
            r.samples == samples,
    {
        LatencyProbeOutcome { method, samples }
    }
}

} // verus!
