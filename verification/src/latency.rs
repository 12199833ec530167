//! The latency probe as a state machine: HTTP round trips first, TCP
//! connects as the fallback.
//!
//! A probe for `n` samples makes `n + 1` measurements with one method and
//! discards the first, which only warms the connection up. When an HTTP
//! measurement fails with a timeout, a network error or a protocol error,
//! every HTTP sample taken so far is dropped and the probe restarts in TCP
//! mode, so the samples it returns all come from one method. Any other
//! failure, and any failure in TCP mode, ends the probe with that error.

use crate::backend::{BackendError, LatencyProbeOutcome};
use std::time::Duration;
use vstd::prelude::*;

verus! {

/// How a latency measurement is taken.
#[derive(Debug, Clone, Copy, PartialEq, Eq, Structural)]
pub enum ProbeMethod {
    HttpRtt,
    TcpConnect,
}

pub open spec fn method_label(m: ProbeMethod) -> Seq<char> {
    match m {
        ProbeMethod::HttpRtt => "http_rtt"@,
        ProbeMethod::TcpConnect => "tcp_connect"@,
    }
}

impl ProbeMethod {
    /// The method string reported in results.
    pub fn label(&self) -> (s: &'static str)
        ensures
            s@ == method_label(*self),
    {
        match self {
            ProbeMethod::HttpRtt => "http_rtt",
            ProbeMethod::TcpConnect => "tcp_connect",
        }
    }
}

/// Failures of an HTTP measurement after which the probe falls back to TCP.
pub open spec fn falls_back_to_tcp(e: BackendError) -> bool {
    e is Timeout || e is Network || e is Protocol
}

/// What the driver of a probe is to do next.
#[derive(Debug, Clone, Copy, PartialEq, Eq, Structural)]
pub enum ProbeAction {
    Measure(ProbeMethod),
    Finished,
}

pub struct LatencyProbeView {
    pub method: ProbeMethod,
    pub wanted: nat,
    pub attempts: nat,
    pub samples: Seq<Duration>,
}

/// A probe in progress: the method in use, how many samples are wanted, how
/// many measurements this method has completed, and the samples kept.
pub struct LatencyProbe {
    method: ProbeMethod,
    wanted: usize,
    attempts: usize,
    samples: Vec<Duration>,
}

impl View for LatencyProbe {
    type V = LatencyProbeView;

    closed spec fn view(&self) -> LatencyProbeView {
        LatencyProbeView {
            method: self.method,
            wanted: self.wanted as nat,
            attempts: self.attempts as nat,
            samples: self.samples@,
        }
    }
}

/// The probe's invariant: at most `wanted + 1` measurements, and every one
/// but the first kept as a sample.
pub open spec fn probe_inv(p: LatencyProbeView) -> bool {
    &&& p.wanted < usize::MAX
    &&& p.attempts <= p.wanted + 1
    &&& p.samples.len() == if p.attempts == 0 {
        0
    } else {
        p.attempts - 1
    }
}

pub open spec fn probe_finished(p: LatencyProbeView) -> bool {
    p.attempts == p.wanted + 1
}

pub open spec fn next_action_of(p: LatencyProbeView) -> ProbeAction {
    if probe_finished(p) {
        ProbeAction::Finished
    } else {
        ProbeAction::Measure(p.method)
    }
}

pub open spec fn measured_view(p: LatencyProbeView, elapsed: Duration) -> LatencyProbeView {
    LatencyProbeView {
        attempts: p.attempts + 1,
        samples: if p.attempts == 0 {
            p.samples
        } else {
            p.samples.push(elapsed)
        },
        ..p
    }
}

pub open spec fn restarted_in_tcp(p: LatencyProbeView) -> LatencyProbeView {
    LatencyProbeView { method: ProbeMethod::TcpConnect, attempts: 0, samples: Seq::empty(), ..p }
}

impl LatencyProbe {
    #[verifier::type_invariant]
    spec fn well_formed(&self) -> bool {
        probe_inv(self@)
    }

    /// A probe for `samples` samples, starting with HTTP round trips.
    pub fn start(samples: usize) -> (p: LatencyProbe)
        requires
            samples < usize::MAX,
        ensures
            p@ == (LatencyProbeView {
                method: ProbeMethod::HttpRtt,
                wanted: samples as nat,
                attempts: 0,
                samples: Seq::empty(),
            }),
    {
        LatencyProbe { method: ProbeMethod::HttpRtt, wanted: samples, attempts: 0, samples: Vec::new() }
    }

    pub fn method(&self) -> (m: ProbeMethod)
        ensures
            m == self@.method,
    {
        self.method
    }

    pub fn next_action(&self) -> (a: ProbeAction)
        ensures
            a == next_action_of(self@),
    {
        proof {
            use_type_invariant(self);
        }
        if self.attempts == self.wanted + 1 {
            ProbeAction::Finished
        } else {
            ProbeAction::Measure(self.method)
        }
    }

    /// A measurement succeeded after `elapsed`; the first of each method is
    /// the warm-up and is not kept.
    pub fn record_measurement(&mut self, elapsed: Duration)
        requires
            !probe_finished(old(self)@),
        ensures
            final(self)@ == measured_view(old(self)@, elapsed),
    {
        proof {
            use_type_invariant(&*self);
        }
        let mut current = LatencyProbe {
            method: self.method,
            wanted: self.wanted,
            attempts: 0,
            samples: Vec::new(),
        };
        std::mem::swap(&mut current, self);
        proof {
            use_type_invariant(&current);
        }
        let LatencyProbe { method, wanted, attempts, mut samples } = current;
        if attempts > 0 {
            samples.push(elapsed);
        }
        *self = LatencyProbe { method, wanted, attempts: attempts + 1, samples };
    }

    /// A measurement failed with `err`: an HTTP timeout, network or protocol
    /// failure restarts the probe in TCP mode with no samples; any other
    /// failure ends the probe with `err`.
    pub fn record_failure(self, err: BackendError) -> (r: Result<LatencyProbe, BackendError>)
        ensures
            self@.method == ProbeMethod::HttpRtt && falls_back_to_tcp(err) ==> (r matches Ok(p)
                && p@ == restarted_in_tcp(self@)),
            !(self@.method == ProbeMethod::HttpRtt && falls_back_to_tcp(err)) ==> r == Err::<
                LatencyProbe,
                BackendError,
            >(err),
            self@.method == ProbeMethod::HttpRtt && (err is Timeout || err is Network || err is Protocol)
                ==> (r matches Ok(p) && p@.method == ProbeMethod::TcpConnect && p@.attempts == 0
                && p@.samples.len() == 0 && p@.wanted == self@.wanted),
            err is NotImplemented ==> r is Err,
            self@.method == ProbeMethod::TcpConnect ==> r is Err,
    {
        proof {
            use_type_invariant(&self);
        }
        match self.method {
            ProbeMethod::HttpRtt => match err {
                BackendError::Timeout(_) | BackendError::Network(_) | BackendError::Protocol(_) => {
                    Ok(LatencyProbe {
                        method: ProbeMethod::TcpConnect,
                        wanted: self.wanted,
                        attempts: 0,
                        samples: Vec::new(),
                    })
                },
                _ => Err(err),
            },
            ProbeMethod::TcpConnect => Err(err),
        }
    }

    /// The probe's result, once every measurement is done.
    pub fn finish(self) -> (r: LatencyProbeOutcome)
        requires
            probe_finished(self@),
        ensures
            r.method@ == method_label(self@.method),
            r.samples@ == self@.samples,
            r.samples@.len() == self@.wanted,
    {
        proof {
            use_type_invariant(&self);
        }
        LatencyProbeOutcome::new(self.method.label(), self.samples)
    }
}

/// Driving a probe by its actions: from a probe with no measurements, `k`
/// successful measurements leave `k` attempts and `k - 1` samples, and the
/// probe asks for exactly `wanted + 1` measurements before it is finished,
/// so the outcome holds exactly `wanted` samples.
pub open spec fn after_measurements(p: LatencyProbeView, elapsed: Seq<Duration>) -> LatencyProbeView
    decreases elapsed.len(),
{
    if elapsed.len() == 0 {
        p
    } else {
        after_measurements(measured_view(p, elapsed[0]), elapsed.drop_first())
    }
}

/// One warm-up measurement plus one per sample: a fresh probe is finished
/// after exactly `wanted + 1` measurements, not before, and keeps every
/// measurement but the first, in order.
pub proof fn lemma_warmup_then_samples(p: LatencyProbeView, elapsed: Seq<Duration>)
    requires
        probe_inv(p),
        p.attempts == 0,
        elapsed.len() <= p.wanted + 1,
    ensures
        probe_inv(after_measurements(p, elapsed)),
        after_measurements(p, elapsed).attempts == elapsed.len(),
        probe_finished(after_measurements(p, elapsed)) <==> elapsed.len() == p.wanted + 1,
        elapsed.len() > 0 ==> after_measurements(p, elapsed).samples == elapsed.drop_first(),
        after_measurements(p, elapsed).method == p.method,
{
    lemma_measurements_extend(p, elapsed);
}

proof fn lemma_measurements_extend(p: LatencyProbeView, elapsed: Seq<Duration>)
    requires
        probe_inv(p),
        p.attempts + elapsed.len() <= p.wanted + 1,
    ensures
        probe_inv(after_measurements(p, elapsed)),
        after_measurements(p, elapsed).attempts == p.attempts + elapsed.len(),
        after_measurements(p, elapsed).method == p.method,
        after_measurements(p, elapsed).wanted == p.wanted,
        p.attempts == 0 && elapsed.len() > 0 ==> after_measurements(p, elapsed).samples
            == elapsed.drop_first(),
        p.attempts > 0 ==> after_measurements(p, elapsed).samples == p.samples + elapsed,
    decreases elapsed.len(),
{
    if elapsed.len() > 0 {
        let q = measured_view(p, elapsed[0]);
        lemma_measurements_extend(q, elapsed.drop_first());
        if p.attempts > 0 {
            assert(p.samples.push(elapsed[0]) + elapsed.drop_first() =~= p.samples + elapsed);
        } else {
            assert(q.samples =~= Seq::<Duration>::empty());
            if elapsed.len() > 1 {
                assert(Seq::<Duration>::empty() + elapsed.drop_first() =~= elapsed.drop_first());
            } else {
                assert(elapsed.drop_first() =~= Seq::<Duration>::empty());
            }
        }
    } else {
        assert(elapsed =~= Seq::<Duration>::empty());
        if p.attempts > 0 {
            assert(p.samples + elapsed =~= p.samples);
        }
    }
}

/// The fallback keeps the number of samples wanted, drops every HTTP sample,
/// and starts the TCP count from zero; a probe already in TCP mode never
/// falls back again.
pub proof fn lemma_fallback_restarts_cleanly(p: LatencyProbeView)
    requires
        probe_inv(p),
    ensures
        probe_inv(restarted_in_tcp(p)),
        restarted_in_tcp(p).wanted == p.wanted,
        restarted_in_tcp(p).samples.len() == 0,
        restarted_in_tcp(p).attempts == 0,
        next_action_of(restarted_in_tcp(p)) == ProbeAction::Measure(ProbeMethod::TcpConnect),
{
}

/// Which HTTP failures fall back to TCP: every kind but `NotImplemented`,
/// that is timeouts, network errors and protocol errors (a non-success
/// status among them).
pub proof fn lemma_fallback_kinds(e: BackendError)
    ensures
        falls_back_to_tcp(e) <==> (e is Timeout || e is Network || e is Protocol),
        falls_back_to_tcp(e) <==> !(e is NotImplemented),
{
}

} // verus!
