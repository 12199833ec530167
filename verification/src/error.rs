//! The error a speed test run ends with, and the process exit code it maps to.

use crate::backend::{backend_message_ok, BackendError};
use vstd::prelude::*;

verus! {

/// Why a test run stopped. Every variant but `Config` carries the backend
/// error of the phase that failed.
#[non_exhaustive]
#[derive(Debug)]
pub enum TestError {
    Config(String),
    Backend(BackendError),
    Latency(BackendError),
    Download(BackendError),
    Upload(BackendError),
}

/// Exit code class of a backend error: transient transport trouble (network,
/// timeout) is 3, a broken contract (protocol, not implemented) is 4.
pub open spec fn backend_exit_class(e: BackendError) -> i32 {
    match e {
        BackendError::Network(_) | BackendError::Timeout(_) => 3,
        BackendError::Protocol(_) | BackendError::NotImplemented => 4,
    }
}

/// Exit code of a failed run: 2 for configuration errors, otherwise the class
/// of the wrapped backend error, whatever phase it came from.
pub open spec fn exit_code_of(e: TestError) -> i32 {
    match e {
        TestError::Config(_) => 2,
        TestError::Backend(b) => backend_exit_class(b),
        TestError::Latency(b) => backend_exit_class(b),
        TestError::Download(b) => backend_exit_class(b),
        TestError::Upload(b) => backend_exit_class(b),
    }
}

/// The prefix a failure in each phase is reported with.
pub open spec fn phase_prefix(e: TestError) -> Seq<char> {
    match e {
        TestError::Config(_) => "configuration error: "@,
        TestError::Backend(_) => "backend init failed: "@,
        TestError::Latency(_) => "latency probe failed: "@,
        TestError::Download(_) => "download failed: "@,
        TestError::Upload(_) => "upload failed: "@,
    }
}

/// A test error's message: its phase prefix, then the configuration message
/// or the message of the backend error.
pub open spec fn test_message_ok(e: TestError, msg: Seq<char>) -> bool {
    let p = phase_prefix(e);
    &&& p.len() <= msg.len()
    &&& msg.subrange(0, p.len() as int) == p
    &&& match e {
        TestError::Config(m) => msg.skip(p.len() as int) == m@,
        TestError::Backend(b) => backend_message_ok(b, msg.skip(p.len() as int)),
        TestError::Latency(b) => backend_message_ok(b, msg.skip(p.len() as int)),
        TestError::Download(b) => backend_message_ok(b, msg.skip(p.len() as int)),
        TestError::Upload(b) => backend_message_ok(b, msg.skip(p.len() as int)),
    }
}

impl TestError {
    /// The one-line description the error is reported with.
    pub fn message(&self) -> (msg: String)
        ensures
            test_message_ok(*self, msg@),
    {
        let (mut msg, detail) = match self {
            TestError::Config(m) => (String::from_str("configuration error: "), m.clone()),
            TestError::Backend(b) => (String::from_str("backend init failed: "), b.message()),
            TestError::Latency(b) => (String::from_str("latency probe failed: "), b.message()),
            TestError::Download(b) => (String::from_str("download failed: "), b.message()),
            TestError::Upload(b) => (String::from_str("upload failed: "), b.message()),
        };
        let ghost prefix = msg@;
        msg.append(detail.as_str());
        proof {
            assert(msg@.subrange(0, prefix.len() as int) =~= prefix);
            assert(msg@.skip(prefix.len() as int) =~= detail@);
        }
        msg
    }

    pub fn exit_code(&self) -> (code: i32)
        ensures
            code == exit_code_of(*self),
            code == 2 <==> self is Config,
            2 <= code <= 4,
    {
        match self {
            TestError::Config(_) => 2,
            TestError::Backend(e) | TestError::Latency(e) | TestError::Download(e)
            | TestError::Upload(e) => match e {
                BackendError::Network(_) | BackendError::Timeout(_) => 3,
                BackendError::Protocol(_) | BackendError::NotImplemented => 4,
            },
        }
    }
}

/// The exit code table: configuration errors exit with 2; whatever phase
/// failed, network failures and timeouts exit with 3, and protocol failures
/// and unimplemented operations with 4.
pub proof fn lemma_exit_code_table(b: BackendError, m: String)
    ensures
        exit_code_of(TestError::Config(m)) == 2,
        (b is Network || b is Timeout) ==> {
            &&& exit_code_of(TestError::Backend(b)) == 3
            &&& exit_code_of(TestError::Latency(b)) == 3
            &&& exit_code_of(TestError::Download(b)) == 3
            &&& exit_code_of(TestError::Upload(b)) == 3
        },
        (b is Protocol || b is NotImplemented) ==> {
            &&& exit_code_of(TestError::Backend(b)) == 4
            &&& exit_code_of(TestError::Latency(b)) == 4
            &&& exit_code_of(TestError::Download(b)) == 4
            &&& exit_code_of(TestError::Upload(b)) == 4
        },
{
}

} // verus!
