//! Byte counters of one measurement phase, and what each tick of the
//! sampling clock makes of them.
//!
//! The warm-up window is enforced by a baseline: on the first tick whose
//! elapsed time reaches the warm-up, the running total is captured, and the
//! phase's reported byte count is the total minus that baseline. Only ticks
//! from that one on contribute throughput samples.

use crate::result::{ascending, lemma_ascending, lemma_rank_bounds, sort_ascending, Phase};
use vstd::prelude::*;

verus! {

pub open spec fn sat_add(a: u64, b: u64) -> u64 {
    if a + b > u64::MAX {
        u64::MAX
    } else {
        (a + b) as u64
    }
}

/// Abstract state of the counters.
pub struct AccumulatorView {
    pub phase: Phase,
    pub interval_bytes: u64,
    pub total_bytes: u64,
    pub baseline: Option<u64>,
    pub samples: Seq<u64>,
}

/// The counters behind one phase's throughput measurement. `samples` holds
/// the bytes of each post-warm-up tick interval, in tick order.
pub struct AccumulatorState {
    phase: Phase,
    interval_bytes: u64,
    total_bytes: u64,
    bytes_at_warmup_end: Option<u64>,
    samples: Vec<u64>,
}

impl View for AccumulatorState {
    type V = AccumulatorView;

    closed spec fn view(&self) -> AccumulatorView {
        AccumulatorView {
            phase: self.phase,
            interval_bytes: self.interval_bytes,
            total_bytes: self.total_bytes,
            baseline: self.bytes_at_warmup_end,
            samples: self.samples@,
        }
    }
}

/// The baseline never exceeds the total it was taken from, and samples are
/// only taken once the baseline is set.
pub open spec fn accumulator_inv(s: AccumulatorView) -> bool {
    &&& (s.baseline matches Some(b) ==> b <= s.total_bytes)
    &&& (s.samples.len() > 0 ==> s.baseline is Some)
}

pub open spec fn initial_view() -> AccumulatorView {
    AccumulatorView {
        phase: Phase::Latency,
        interval_bytes: 0,
        total_bytes: 0,
        baseline: None,
        samples: Seq::empty(),
    }
}

pub open spec fn record_view(s: AccumulatorView, n: u64) -> AccumulatorView {
    AccumulatorView {
        interval_bytes: sat_add(s.interval_bytes, n),
        total_bytes: sat_add(s.total_bytes, n),
        ..s
    }
}

/// The baseline after a tick at `elapsed`: kept once set, else taken now if
/// the warm-up has run out.
pub open spec fn baseline_after_tick(s: AccumulatorView, elapsed: u128, warmup: u128) -> Option<u64> {
    if s.baseline is None && elapsed >= warmup {
        Some(s.total_bytes)
    } else {
        s.baseline
    }
}

pub open spec fn tick_view(s: AccumulatorView, elapsed: u128, warmup: u128) -> AccumulatorView {
    let baseline = baseline_after_tick(s, elapsed, warmup);
    AccumulatorView {
        interval_bytes: 0,
        baseline,
        samples: if baseline is Some {
            s.samples.push(s.interval_bytes)
        } else {
            s.samples
        },
        ..s
    }
}

/// Bytes counted after the warm-up boundary.
pub open spec fn post_warmup_bytes(s: AccumulatorView) -> u64 {
    match s.baseline {
        Some(b) => if s.total_bytes >= b {
            (s.total_bytes - b) as u64
        } else {
            0
        },
        None => 0,
    }
}

pub open spec fn p95_rank(n: nat) -> int {
    (n * 95) as int / 100
}

/// What one tick reports: the bytes of the interval that just ended, the
/// running total, and the phase.
#[derive(Debug, Clone, Copy)]
pub struct TickReport {
    pub interval_bytes: u64,
    pub bytes_so_far: u64,
    pub phase: Phase,
}

/// What a tick taken in state `s` reports.
pub open spec fn tick_report_of(s: AccumulatorView) -> TickReport {
    TickReport { interval_bytes: s.interval_bytes, bytes_so_far: s.total_bytes, phase: s.phase }
}

/// The integer part of a phase's throughput result: post-warm-up bytes and
/// the per-interval samples in ascending order, with the samples at ranks
/// `n / 2` and `n * 95 / 100` (both 0 when there are no samples).
#[derive(Debug, Clone)]
pub struct ThroughputSummary {
    pub bytes: u64,
    pub sorted_samples: Vec<u64>,
    pub p50_interval_bytes: u64,
    pub p95_interval_bytes: u64,
}

impl AccumulatorState {
    #[verifier::type_invariant]
    spec fn well_formed(&self) -> bool {
        accumulator_inv(self@)
    }

    pub fn new() -> (s: AccumulatorState)
        ensures
            s@ == initial_view(),
    {
        AccumulatorState {
            phase: Phase::Latency,
            interval_bytes: 0,
            total_bytes: 0,
            bytes_at_warmup_end: None,
            samples: Vec::new(),
        }
    }

    /// Adds `n` bytes to the current interval and to the running total,
    /// saturating at `u64::MAX`.
    pub fn record_bytes(&mut self, n: u64)
        ensures
            final(self)@ == record_view(old(self)@, n),
    {
        proof {
            use_type_invariant(&*self);
        }
        self.interval_bytes = self.interval_bytes.saturating_add(n);
        self.total_bytes = self.total_bytes.saturating_add(n);
    }

    pub fn set_phase(&mut self, phase: Phase)
        ensures
            final(self)@ == (AccumulatorView { phase, ..old(self)@ }),
    {
        proof {
            use_type_invariant(&*self);
        }
        self.phase = phase;
    }

    pub fn phase(&self) -> (p: Phase)
        ensures
            p == self@.phase,
    {
        self.phase
    }

    pub fn total_bytes(&self) -> (t: u64)
        ensures
            t == self@.total_bytes,
    {
        self.total_bytes
    }

    /// One tick of the sampling clock, `elapsed_nanos` after the phase
    /// started: closes the current interval, takes the baseline if the
    /// warm-up has just run out, and records the interval as a sample once
    /// the baseline is set.
    pub fn tick(&mut self, elapsed_nanos: u128, warmup_nanos: u128) -> (r: TickReport)
        ensures
            final(self)@ == tick_view(old(self)@, elapsed_nanos, warmup_nanos),
            r == tick_report_of(old(self)@),
            r.interval_bytes == old(self)@.interval_bytes,
            r.bytes_so_far == old(self)@.total_bytes,
            r.phase == old(self)@.phase,
    {
        proof {
            use_type_invariant(&*self);
        }
        let interval_bytes = self.interval_bytes;
        self.interval_bytes = 0;
        if self.bytes_at_warmup_end.is_none() && elapsed_nanos >= warmup_nanos {
            self.bytes_at_warmup_end = Some(self.total_bytes);
        }
        if self.bytes_at_warmup_end.is_some() {
            let mut samples: Vec<u64> = Vec::new();
            std::mem::swap(&mut samples, &mut self.samples);
            samples.push(interval_bytes);
            self.samples = samples;
        }
        TickReport { interval_bytes, bytes_so_far: self.total_bytes, phase: self.phase }
    }

    /// The phase's result in integers.
    pub fn summary(&self) -> (r: ThroughputSummary)
        ensures
            r.bytes == post_warmup_bytes(self@),
            r.sorted_samples@ == ascending(self@.samples),
            self@.samples.len() == 0 ==> r.p50_interval_bytes == 0 && r.p95_interval_bytes == 0,
            self@.samples.len() > 0 ==> r.p50_interval_bytes == ascending(self@.samples)[
                self@.samples.len() as int / 2]
                && r.p95_interval_bytes == ascending(self@.samples)[p95_rank(self@.samples.len())],
    {
        proof {
            use_type_invariant(self);
            lemma_ascending(self@.samples);
        }
        let baseline = match self.bytes_at_warmup_end {
            Some(b) => b,
            None => self.total_bytes,
        };
        let bytes = self.total_bytes.saturating_sub(baseline);
        let sorted = sort_ascending(&self.samples);
        let n = sorted.len();
        if n == 0 {
            ThroughputSummary { bytes, sorted_samples: sorted, p50_interval_bytes: 0, p95_interval_bytes: 0 }
        } else {
            let rank95 = percentile_95_rank(n);
            let p50 = sorted[n / 2];
            let p95 = sorted[rank95];
            ThroughputSummary { bytes, sorted_samples: sorted, p50_interval_bytes: p50, p95_interval_bytes: p95 }
        }
    }
}

/// `n * 95 / 100`, computed without overflowing.
pub fn percentile_95_rank(n: usize) -> (r: usize)
    requires
        n > 0,
    ensures
        r == p95_rank(n as nat),
        r < n,
{
    let q = n / 100;
    let m = n % 100;
    proof {
        assert(n * 95 == q * 9500 + m * 95) by (nonlinear_arith)
            requires
                q == n / 100,
                m == n % 100,
        ;
        assert((q * 9500 + m * 95) / 100 == q * 95 + (m * 95) / 100) by (nonlinear_arith)
            requires
                m < 100,
                q >= 0,
        ;
        assert(q * 95 + (m * 95) / 100 < n) by (nonlinear_arith)
            requires
                q == n / 100,
                m == n % 100,
                n > 0,
        ;
    }
    q * 95 + (m * 95) / 100
}

/// Recording bytes and ticking keep the counters' invariant.
pub proof fn lemma_accumulator_inv_preserved(
    s: AccumulatorView,
    n: u64,
    elapsed: u128,
    warmup: u128,
    phase: Phase,
)
    requires
        accumulator_inv(s),
    ensures
        accumulator_inv(initial_view()),
        accumulator_inv(record_view(s, n)),
        accumulator_inv(tick_view(s, elapsed, warmup)),
        accumulator_inv(AccumulatorView { phase, ..s }),
{
}

/// Bytes recorded before the warm-up boundary are not counted.
pub proof fn lemma_warmup_bytes_excluded(s: AccumulatorView, n: u64)
    requires
        s.baseline is None,
    ensures
        post_warmup_bytes(record_view(s, n)) == 0,
{
}

/// Once the boundary has passed, recorded bytes are counted exactly, as long
/// as the running total does not saturate.
pub proof fn lemma_post_warmup_bytes_counted(s: AccumulatorView, n: u64)
    requires
        accumulator_inv(s),
        s.baseline is Some,
        s.total_bytes + n <= u64::MAX,
    ensures
        post_warmup_bytes(record_view(s, n)) == post_warmup_bytes(s) + n,
{
}

/// A tick never changes the counted bytes: before the boundary there are
/// none, at the boundary the baseline is the total, and afterwards the
/// baseline stays where it was.
pub proof fn lemma_tick_keeps_counted_bytes(s: AccumulatorView, elapsed: u128, warmup: u128)
    requires
        accumulator_inv(s),
    ensures
        post_warmup_bytes(tick_view(s, elapsed, warmup)) == post_warmup_bytes(s),
{
}

/// The baseline is taken at most once: neither a tick nor recording moves
/// it once it is set, and the boundary tick is the first tick whose elapsed
/// time reaches the warm-up.
pub proof fn lemma_baseline_taken_once(s: AccumulatorView, n: u64, elapsed: u128, warmup: u128)
    ensures
        s.baseline is Some ==> tick_view(s, elapsed, warmup).baseline == s.baseline,
        record_view(s, n).baseline == s.baseline,
        s.baseline is None ==> (tick_view(s, elapsed, warmup).baseline is Some <==> elapsed >= warmup),
{
}

/// Each tick closes its interval: the next tick reports only the bytes
/// recorded after this one.
pub proof fn lemma_interval_reflects_last_tick_only(s: AccumulatorView, elapsed: u128, warmup: u128, n: u64)
    ensures
        tick_view(s, elapsed, warmup).interval_bytes == 0,
        record_view(tick_view(s, elapsed, warmup), n).interval_bytes == n,
{
}

/// A tick appends one sample, the interval it closes, exactly when the
/// baseline is set after it; earlier samples are kept.
pub proof fn lemma_tick_samples(s: AccumulatorView, elapsed: u128, warmup: u128)
    ensures
        baseline_after_tick(s, elapsed, warmup) is Some ==> tick_view(s, elapsed, warmup).samples
            == s.samples.push(s.interval_bytes),
        baseline_after_tick(s, elapsed, warmup) is None ==> tick_view(s, elapsed, warmup).samples
            == s.samples,
{
}

/// The median interval is never above the 95th-percentile interval, and both
/// lie between the smallest and the largest sample.
pub proof fn lemma_percentiles_ordered(samples: Seq<u64>)
    requires
        samples.len() > 0,
    ensures
        ascending(samples)[0] <= ascending(samples)[samples.len() as int / 2],
        ascending(samples)[samples.len() as int / 2] <= ascending(samples)[p95_rank(samples.len())],
        ascending(samples)[p95_rank(samples.len())] <= ascending(samples)[samples.len() - 1],
{
    let n = samples.len() as int;
    assert(n / 2 <= (n * 95) / 100 < n) by (nonlinear_arith)
        requires
            n > 0,
    ;
    lemma_rank_bounds(samples, 0, n / 2);
    lemma_rank_bounds(samples, n / 2, p95_rank(samples.len()));
    lemma_rank_bounds(samples, p95_rank(samples.len()), n - 1);
}

/// One thing that happens to the counters during a phase.
pub enum MeterEvent {
    Record(u64),
    SetPhase(Phase),
    Tick(u128),
}

pub open spec fn apply_event(s: AccumulatorView, e: MeterEvent, warmup: u128) -> AccumulatorView {
    match e {
        MeterEvent::Record(n) => record_view(s, n),
        MeterEvent::SetPhase(phase) => AccumulatorView { phase, ..s },
        MeterEvent::Tick(elapsed) => tick_view(s, elapsed, warmup),
    }
}

pub open spec fn apply_events(s: AccumulatorView, es: Seq<MeterEvent>, warmup: u128) -> AccumulatorView
    decreases es.len(),
{
    if es.len() == 0 {
        s
    } else {
        apply_events(apply_event(s, es[0], warmup), es.drop_first(), warmup)
    }
}

/// All bytes recorded by the events.
pub open spec fn recorded_total(es: Seq<MeterEvent>) -> int
    decreases es.len(),
{
    if es.len() == 0 {
        0
    } else {
        (match es[0] {
            MeterEvent::Record(n) => n as int,
            _ => 0,
        }) + recorded_total(es.drop_first())
    }
}

/// Bytes recorded after the warm-up boundary: after the first tick whose
/// elapsed time reaches the warm-up (`passed` says whether that tick has
/// already happened).
pub open spec fn recorded_after_boundary(es: Seq<MeterEvent>, warmup: u128, passed: bool) -> int
    decreases es.len(),
{
    if es.len() == 0 {
        0
    } else {
        match es[0] {
            MeterEvent::Record(n) => (if passed {
                n as int
            } else {
                0
            }) + recorded_after_boundary(es.drop_first(), warmup, passed),
            MeterEvent::SetPhase(_) => recorded_after_boundary(es.drop_first(), warmup, passed),
            MeterEvent::Tick(elapsed) => recorded_after_boundary(
                es.drop_first(),
                warmup,
                passed || elapsed >= warmup,
            ),
        }
    }
}

/// Warm-up bytes are excluded from the result: over any run of records and
/// ticks that does not saturate the running total, the bytes the phase
/// reports grow by exactly the bytes recorded after the first tick whose
/// elapsed time reaches the warm-up, whatever the order of records and
/// ticks.
pub proof fn lemma_reported_bytes_are_post_warmup(s: AccumulatorView, es: Seq<MeterEvent>, warmup: u128)
    requires
        accumulator_inv(s),
        s.total_bytes + recorded_total(es) <= u64::MAX,
    ensures
        post_warmup_bytes(apply_events(s, es, warmup)) == post_warmup_bytes(s)
            + recorded_after_boundary(es, warmup, s.baseline is Some),
        accumulator_inv(apply_events(s, es, warmup)),
    decreases es.len(),
{
    if es.len() > 0 {
        let s1 = apply_event(s, es[0], warmup);
        lemma_recorded_total_nonneg(es.drop_first());
        match es[0] {
            MeterEvent::Record(n) => {
                assert(s1.total_bytes == s.total_bytes + n);
            },
            MeterEvent::SetPhase(_) => {},
            MeterEvent::Tick(elapsed) => {
                assert(s1.baseline is Some <==> (s.baseline is Some || elapsed >= warmup));
            },
        }
        lemma_reported_bytes_are_post_warmup(s1, es.drop_first(), warmup);
    }
}

proof fn lemma_recorded_total_nonneg(es: Seq<MeterEvent>)
    ensures
        recorded_total(es) >= 0,
    decreases es.len(),
{
    if es.len() > 0 {
        lemma_recorded_total_nonneg(es.drop_first());
    }
}

/// `x` saturated at `u64::MAX`.
pub open spec fn cap(x: int) -> u64 {
    if x > u64::MAX {
        u64::MAX
    } else if x < 0 {
        0
    } else {
        x as u64
    }
}

/// The phase after the events: the last one set, else `p`.
pub open spec fn phase_after(p: Phase, es: Seq<MeterEvent>) -> Phase
    decreases es.len(),
{
    if es.len() == 0 {
        p
    } else {
        phase_after(
            match es[0] {
                MeterEvent::SetPhase(q) => q,
                _ => p,
            },
            es.drop_first(),
        )
    }
}

/// The bytes of the open interval after the events, without saturation:
/// `open` plus every byte recorded, restarting from zero at each tick.
pub open spec fn open_interval_after(open: int, es: Seq<MeterEvent>) -> int
    decreases es.len(),
{
    if es.len() == 0 {
        open
    } else {
        open_interval_after(
            match es[0] {
                MeterEvent::Record(n) => open + n,
                MeterEvent::Tick(_) => 0,
                MeterEvent::SetPhase(_) => open,
            },
            es.drop_first(),
        )
    }
}

proof fn lemma_open_interval_cap(x: int, y: int, es: Seq<MeterEvent>)
    requires
        x >= 0,
        y >= 0,
        cap(x) == cap(y),
    ensures
        cap(open_interval_after(x, es)) == cap(open_interval_after(y, es)),
        open_interval_after(x, es) >= 0,
    decreases es.len(),
{
    if es.len() > 0 {
        match es[0] {
            MeterEvent::Record(n) => lemma_open_interval_cap(x + n, y + n, es.drop_first()),
            MeterEvent::Tick(_) => lemma_open_interval_cap(0, 0, es.drop_first()),
            MeterEvent::SetPhase(_) => lemma_open_interval_cap(x, y, es.drop_first()),
        }
    }
}

proof fn lemma_run_state(s: AccumulatorView, es: Seq<MeterEvent>, warmup: u128)
    ensures
        apply_events(s, es, warmup).total_bytes == cap(s.total_bytes + recorded_total(es)),
        apply_events(s, es, warmup).interval_bytes == cap(open_interval_after(s.interval_bytes as int, es)),
        apply_events(s, es, warmup).phase == phase_after(s.phase, es),
    decreases es.len(),
{
    lemma_recorded_total_nonneg(es);
    if es.len() == 0 {
    } else {
        let s1 = apply_event(s, es[0], warmup);
        let rest = es.drop_first();
        lemma_run_state(s1, rest, warmup);
        lemma_recorded_total_nonneg(rest);
        match es[0] {
            MeterEvent::Record(n) => {
                lemma_open_interval_cap(s1.interval_bytes as int, s.interval_bytes + n, rest);
            },
            MeterEvent::Tick(_) => {
                lemma_open_interval_cap(0, 0, rest);
            },
            MeterEvent::SetPhase(_) => {
                lemma_open_interval_cap(s.interval_bytes as int, s.interval_bytes as int, rest);
            },
        }
    }
}

proof fn lemma_recorded_total_concat(a: Seq<MeterEvent>, b: Seq<MeterEvent>)
    ensures
        recorded_total(a + b) == recorded_total(a) + recorded_total(b),
    decreases a.len(),
{
    if a.len() > 0 {
        assert((a + b).drop_first() =~= a.drop_first() + b);
        lemma_recorded_total_concat(a.drop_first(), b);
    } else {
        assert(a + b =~= b);
    }
}

/// The counters over a whole run. After the first `k` of any sequence of
/// records, phase changes and ticks applied to a state `s`, the running total
/// is the saturating sum of `s`'s total and every byte recorded, the open
/// interval holds the saturating sum of the bytes recorded since the last tick
/// (added to `s`'s open interval when no tick has happened yet), and the
/// phase is the last one set. So a tick at position `k` (which reports
/// `tick_report_of` the state it is taken in) reports those values, and the
/// totals reported never decrease: the total after `j <= k` events is at most
/// the total after `k`.
pub proof fn lemma_whole_run(s: AccumulatorView, es: Seq<MeterEvent>, warmup: u128, j: int, k: int)
    requires
        0 <= j <= k <= es.len(),
    ensures
        apply_events(s, es.take(k), warmup).total_bytes == cap(s.total_bytes + recorded_total(es.take(k))),
        apply_events(s, es.take(k), warmup).interval_bytes == cap(
            open_interval_after(s.interval_bytes as int, es.take(k)),
        ),
        apply_events(s, es.take(k), warmup).phase == phase_after(s.phase, es.take(k)),
        tick_report_of(apply_events(s, es.take(k), warmup)) == (TickReport {
            interval_bytes: cap(open_interval_after(s.interval_bytes as int, es.take(k))),
            bytes_so_far: cap(s.total_bytes + recorded_total(es.take(k))),
            phase: phase_after(s.phase, es.take(k)),
        }),
        apply_events(s, es.take(j), warmup).total_bytes <= apply_events(s, es.take(k), warmup).total_bytes,
{
    lemma_run_state(s, es.take(k), warmup);
    lemma_run_state(s, es.take(j), warmup);
    assert(es.take(k) =~= es.take(j) + es.subrange(j, k));
    lemma_recorded_total_concat(es.take(j), es.subrange(j, k));
    lemma_recorded_total_nonneg(es.subrange(j, k));
    lemma_recorded_total_nonneg(es.take(j));
}

} // verus!
