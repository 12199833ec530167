//! Test phases and the order statistics that the reported results are built on.

use vstd::prelude::*;
use vstd::relations::{sorted_by, total_ordering};
use vstd::seq_lib::{to_multiset_build, to_multiset_contains, to_multiset_insert, to_multiset_len};

verus! {

/// The phase a test run is in.
#[non_exhaustive]
#[derive(Debug, Clone, Copy, PartialEq, Eq, Structural)]
pub enum Phase {
    Latency,
    Download,
    Upload,
}

impl Default for Phase {
    fn default() -> (p: Phase)
        ensures
            p == Phase::Latency,
    {
        Phase::Latency
    }
}

pub open spec fn is_ascending(s: Seq<u64>) -> bool {
    forall|i: int, j: int| 0 <= i <= j < s.len() ==> s[i] <= s[j]
}

pub open spec fn u64_le() -> spec_fn(u64, u64) -> bool {
    |a: u64, b: u64| a <= b
}

/// The samples in ascending order.
pub open spec fn ascending(s: Seq<u64>) -> Seq<u64> {
    s.sort_by(u64_le())
}

/// Two ascending sequences that hold the same elements, counted with
/// multiplicity, are the same sequence.
pub proof fn lemma_ascending_unique(a: Seq<u64>, b: Seq<u64>)
    requires
        is_ascending(a),
        is_ascending(b),
        a.to_multiset() == b.to_multiset(),
    ensures
        a == b,
    decreases a.len(),
{
    broadcast use to_multiset_len, to_multiset_contains, to_multiset_build;

    to_multiset_len(a);
    to_multiset_len(b);
    assert(a.len() == b.len());
    if a.len() > 0 {
        let x = a[0];
        let y = b[0];
        assert(a.to_multiset().count(x) > 0);
        assert(b.contains(x));
        assert(b.to_multiset().count(y) > 0);
        assert(a.contains(y));
        assert(x == y);
        let a1 = a.drop_first();
        let b1 = b.drop_first();
        assert(a =~= seq![x] + a1);
        assert(b =~= seq![x] + b1);
        assert(a.to_multiset() =~= a1.to_multiset().insert(x)) by {
            vstd::seq_lib::lemma_seq_union_to_multiset_commutative(seq![x], a1);
            assert(a1 + seq![x] =~= a1.push(x));
            vstd::seq_lib::lemma_multiset_commutative(seq![x], a1);
        }
        assert(b.to_multiset() =~= b1.to_multiset().insert(x)) by {
            vstd::seq_lib::lemma_seq_union_to_multiset_commutative(seq![x], b1);
            assert(b1 + seq![x] =~= b1.push(x));
            vstd::seq_lib::lemma_multiset_commutative(seq![x], b1);
        }
        assert(a1.to_multiset() =~= b1.to_multiset()) by {
            assert(a1.to_multiset() =~= a.to_multiset().remove(x));
            assert(b1.to_multiset() =~= b.to_multiset().remove(x));
        }
        lemma_ascending_unique(a1, b1);
        assert(a =~= b);
    }
}

/// `ascending(s)` is ascending and holds the elements of `s`.
pub proof fn lemma_ascending(s: Seq<u64>)
    ensures
        is_ascending(ascending(s)),
        ascending(s).to_multiset() == s.to_multiset(),
        ascending(s).len() == s.len(),
{
    broadcast use to_multiset_len;

    let leq = u64_le();
    assert(total_ordering(leq));
    s.lemma_sort_by_ensures(leq);
    let t = ascending(s);
    assert(t.to_multiset().len() == s.to_multiset().len());
    assert(sorted_by(t, leq));
    assert forall|i: int, j: int| 0 <= i <= j < t.len() implies t[i] <= t[j] by {
        if i < j {
            assert(leq(t[i], t[j]));
        }
    }
}

/// Each rank of the ascending order lies between the smallest and the
/// largest sample, and is itself one of the samples; the first rank is the
/// minimum of the samples and the last rank the maximum.
pub proof fn lemma_rank_bounds(s: Seq<u64>, i: int, j: int)
    requires
        0 <= i <= j < s.len(),
    ensures
        ascending(s)[i] <= ascending(s)[j],
        s.contains(ascending(s)[i]),
        forall|k: int| 0 <= k < s.len() ==> ascending(s)[0] <= #[trigger] s[k],
        forall|k: int| 0 <= k < s.len() ==> #[trigger] s[k] <= ascending(s)[s.len() - 1],
{
    broadcast use to_multiset_contains;

    lemma_ascending(s);
    let t = ascending(s);
    assert(t.contains(t[i]));
    assert(t.to_multiset().count(t[i]) > 0);
    assert forall|k: int| 0 <= k < s.len() implies t[0] <= #[trigger] s[k] by {
        assert(s.contains(s[k]));
        assert(s.to_multiset().count(s[k]) > 0);
        assert(t.contains(s[k]));
    }
    assert forall|k: int| 0 <= k < s.len() implies #[trigger] s[k] <= t[s.len() - 1] by {
        assert(s.contains(s[k]));
        assert(s.to_multiset().count(s[k]) > 0);
        assert(t.contains(s[k]));
    }
}

/// Sorts the samples in ascending order.
pub fn sort_ascending(v: &Vec<u64>) -> (r: Vec<u64>)
    ensures
        r@ == ascending(v@),
{
    broadcast use to_multiset_len;

    let mut r: Vec<u64> = Vec::new();
    let mut i: usize = 0;
    assert(r@ =~= v@.take(0));
    while i < v.len()
        invariant
            i <= v.len(),
            is_ascending(r@),
            r@.to_multiset() == v@.take(i as int).to_multiset(),
        decreases v.len() - i,
    {
        let x = v[i];
        let mut pos: usize = 0;
        while pos < r.len() && r[pos] <= x
            invariant
                pos <= r.len(),
                forall|k: int| 0 <= k < pos ==> r@[k] <= x,
            decreases r.len() - pos,
        {
            pos += 1;
        }
        let ghost old_r = r@;
        r.insert(pos, x);
        proof {
            assert(r@ =~= old_r.insert(pos as int, x));
            assert forall|a: int, b: int| 0 <= a <= b < r@.len() implies r@[a] <= r@[b] by {
                if pos < old_r.len() {
                    assert(old_r[pos as int] > x);
                }
            }
            to_multiset_insert(old_r, pos as int, x);
            assert(v@.take(i + 1) =~= v@.take(i as int).push(x));
            to_multiset_build(v@.take(i as int), x);
        }
        i += 1;
    }
    proof {
        assert(v@.take(v.len() as int) =~= v@);
        lemma_ascending(v@);
        lemma_ascending_unique(r@, ascending(v@));
    }
    r
}

/// Rank statistics of the latency samples, in nanoseconds.
#[derive(Debug, Clone, Copy)]
pub struct LatencyStats {
    pub samples: usize,
    pub min_nanos: u64,
    pub median_nanos: u64,
    pub max_nanos: u64,
}

/// Smallest, median (rank `n / 2` of the ascending order) and largest of the
/// samples.
pub fn latency_rank_stats(nanos: &Vec<u64>) -> (r: LatencyStats)
    requires
        nanos.len() > 0,
    ensures
        r.samples == nanos.len(),
        r.min_nanos == ascending(nanos@)[0],
        r.median_nanos == ascending(nanos@)[nanos.len() as int / 2],
        r.max_nanos == ascending(nanos@)[nanos.len() - 1],
{
    proof {
        lemma_ascending(nanos@);
    }
    let sorted = sort_ascending(nanos);
    let n = sorted.len();
    LatencyStats {
        samples: n,
        min_nanos: sorted[0],
        median_nanos: sorted[n / 2],
        max_nanos: sorted[n - 1],
    }
}

/// The reported minimum is no larger than the median, the median no larger
/// than the maximum, and all three are among the samples; no sample is below
/// the minimum or above the maximum.
pub proof fn lemma_latency_stats_ordered(nanos: Seq<u64>)
    requires
        nanos.len() > 0,
    ensures
        ascending(nanos)[0] <= ascending(nanos)[nanos.len() as int / 2] <= ascending(nanos)[nanos.len() - 1],
        nanos.contains(ascending(nanos)[0]),
        nanos.contains(ascending(nanos)[nanos.len() as int / 2]),
        nanos.contains(ascending(nanos)[nanos.len() - 1]),
        forall|k: int| 0 <= k < nanos.len() ==> ascending(nanos)[0] <= #[trigger] nanos[k],
        forall|k: int| 0 <= k < nanos.len() ==> #[trigger] nanos[k] <= ascending(nanos)[nanos.len() - 1],
{
    let n = nanos.len() as int;
    lemma_rank_bounds(nanos, 0, n / 2);
    lemma_rank_bounds(nanos, n / 2, n - 1);
    lemma_rank_bounds(nanos, n - 1, n - 1);
}

} // verus!
