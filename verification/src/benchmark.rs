//! Summary statistics of a session-parsing benchmark run. Durations are
//! held in nanoseconds.
use vstd::prelude::*;
use vstd::relations::{sorted_by, total_ordering};

verus! {

/// The order on durations.
pub open spec fn dur_leq() -> spec_fn(u128, u128) -> bool {
    |a: u128, b: u128| a <= b
}

proof fn lemma_dur_leq_total()
    ensures
        total_ordering(dur_leq()),
{
}

/// Durations sorted from shortest to longest.
fn sort_durations(v: &Vec<u128>) -> (r: Vec<u128>)
    ensures
        r@ == v@.sort_by(dur_leq()),
{
    broadcast use vstd::seq_lib::group_to_multiset_ensures;

    let mut out: Vec<u128> = Vec::new();
    let mut i: usize = 0;
    proof {
        assert(out@ =~= v@.subrange(0, 0));
    }
    while i < v.len()
        invariant
            i <= v.len(),
            sorted_by(out@, dur_leq()),
            out@.to_multiset() == v@.subrange(0, i as int).to_multiset(),
        decreases v.len() - i,
    {
        let x = v[i];
        let mut p: usize = 0;
        while p < out.len() && out[p] <= x
            invariant
                p <= out.len(),
                forall|k: int| 0 <= k < p ==> out@[k] <= x,
            decreases out.len() - p,
        {
            p = p + 1;
        }
        let ghost before = out@;
        out.insert(p, x);
        proof {
            assert(out@ == before.insert(p as int, x));
            assert forall|a: int, b: int| 0 <= a < b < out@.len() implies #[trigger] dur_leq()(
                out@[a],
                out@[b],
            ) by {
                if b < p {
                    assert(dur_leq()(before[a], before[b]));
                } else if b == p {
                    assert(out@[a] == before[a]);
                } else if a < p {
                    assert(out@[b] == before[b - 1]);
                    assert(out@[a] == before[a]);
                    if p < before.len() {
                        assert(before[p as int] > x);
                        assert(dur_leq()(before[p as int], before[b - 1]) || p == b - 1);
                    }
                } else if a == p {
                    assert(out@[b] == before[b - 1]);
                    assert(before[p as int] > x);
                    assert(dur_leq()(before[p as int], before[b - 1]) || p == b - 1);
                } else {
                    assert(dur_leq()(before[a - 1], before[b - 1]));
                }
            }
            assert(v@.subrange(0, i + 1) =~= v@.subrange(0, i as int).push(x));
            assert(v@.subrange(0, i as int).push(x) =~= v@.subrange(0, i as int).insert(
                i as int,
                x,
            ));
            vstd::seq_lib::to_multiset_insert(before, p as int, x);
            vstd::seq_lib::to_multiset_insert(v@.subrange(0, i as int), i as int, x);
        }
        i = i + 1;
    }
    proof {
        assert(v@.subrange(0, v.len() as int) =~= v@);
        lemma_dur_leq_total();
        v@.lemma_sort_by_ensures(dur_leq());
        vstd::seq_lib::lemma_sorted_unique(out@, v@.sort_by(dur_leq()), dur_leq());
    }
    out
}

/// The longest duration a `Duration` can hold, in nanoseconds.
pub const MAX_DURATION_NANOS: u128 = 18446744073709551615999999999u128;

/// What one parsed session contributed to the benchmark.
pub struct SessionResult {
    pub session_id: String,
    pub project_path: String,
    /// Parse time in nanoseconds.
    pub duration: u128,
    pub message_count: usize,
    pub entry_count: usize,
    pub file_size_bytes: u64,
}

/// Statistics of a benchmark run; times in nanoseconds.
pub struct BenchmarkStats {
    pub total_sessions: usize,
    pub successful_parses: usize,
    pub failed_parses: usize,
    pub total_time: u128,
    pub avg_time: u128,
    pub min_time: u128,
    pub max_time: u128,
    pub median_time: u128,
    pub p95_time: u128,
    pub p99_time: u128,
    /// Id, duration and message count of the slowest session.
    pub slowest_session: Option<(String, u128, usize)>,
    /// Id, message count and duration of the session with most messages.
    pub largest_session: Option<(String, usize, u128)>,
}

/// The parse times of the results, in order.
pub open spec fn durations_of(results: Seq<SessionResult>) -> Seq<u128> {
    results.map_values(|r: SessionResult| r.duration)
}

/// The sum of a sequence of durations.
pub open spec fn sum_of(s: Seq<u128>) -> int
    decreases s.len(),
{
    if s.len() == 0 {
        0
    } else {
        sum_of(s.drop_last()) + s.last()
    }
}

/// `i` is the last position holding the greatest key (what
/// `Iterator::max_by_key` picks).
pub open spec fn is_last_max(keys: Seq<int>, i: int) -> bool {
    &&& 0 <= i < keys.len()
    &&& forall|j: int| 0 <= j < keys.len() ==> keys[j] <= keys[i]
    &&& forall|j: int| i < j < keys.len() ==> keys[j] < keys[i]
}

/// Parse times as integers.
pub open spec fn duration_keys(results: Seq<SessionResult>) -> Seq<int> {
    results.map_values(|r: SessionResult| r.duration as int)
}

/// Message counts as integers.
pub open spec fn message_keys(results: Seq<SessionResult>) -> Seq<int> {
    results.map_values(|r: SessionResult| r.message_count as int)
}

/// The element at a percentile index, clamped to the last one.
pub open spec fn at_clamped(sorted: Seq<u128>, idx: int) -> u128 {
    if idx < sorted.len() - 1 {
        sorted[idx]
    } else {
        sorted[sorted.len() - 1]
    }
}

/// The divisor by which the total is averaged: the result count taken
/// modulo 2^32, as a `u32` count.
pub open spec fn average_divisor(n: nat) -> nat {
    n % 0x1_0000_0000
}

/// The statistics the benchmark reports for a set of results.
pub open spec fn stats_spec(
    total_sessions: usize,
    results: Seq<SessionResult>,
    failed_parses: usize,
    total_time: u128,
    p95_idx: usize,
    p99_idx: usize,
    r: BenchmarkStats,
) -> bool {
    &&& r.total_sessions == total_sessions
    &&& r.successful_parses == results.len()
    &&& r.failed_parses == failed_parses
    &&& r.total_time == total_time
    &&& if results.len() == 0 {
        &&& r.avg_time == 0 && r.min_time == 0 && r.max_time == 0 && r.median_time == 0
        &&& r.p95_time == 0 && r.p99_time == 0
        &&& r.slowest_session is None && r.largest_session is None
    } else {
        let d = durations_of(results).sort_by(dur_leq());
        &&& r.min_time == d[0]
        &&& r.max_time == d[d.len() - 1]
        &&& r.median_time == d[d.len() as int / 2]
        &&& r.p95_time == at_clamped(d, p95_idx as int)
        &&& r.p99_time == at_clamped(d, p99_idx as int)
        &&& r.avg_time == sum_of(durations_of(results)) / (average_divisor(results.len()) as int)
        &&& r.slowest_session matches Some(t) && exists|i: int|
            #![trigger results[i]]
            is_last_max(duration_keys(results), i) && t.0@ == results[i].session_id@ && t.1
                == results[i].duration && t.2 == results[i].message_count
        &&& r.largest_session matches Some(t) && exists|i: int|
            #![trigger results[i]]
            is_last_max(message_keys(results), i) && t.0@ == results[i].session_id@ && t.1
                == results[i].message_count && t.2 == results[i].duration
    }
}

proof fn lemma_sum_prefix_le(s: Seq<u128>, i: int)
    requires
        0 <= i <= s.len(),
    ensures
        sum_of(s.subrange(0, i)) <= sum_of(s),
        sum_of(s.subrange(0, i)) >= 0,
    decreases s.len() - i,
{
    if i < s.len() {
        lemma_sum_prefix_le(s, i + 1);
        assert(s.subrange(0, i + 1).drop_last() =~= s.subrange(0, i));
    } else {
        assert(s.subrange(0, i) =~= s);
    }
    lemma_sum_nonneg(s.subrange(0, i));
}

proof fn lemma_sum_nonneg(s: Seq<u128>)
    ensures
        sum_of(s) >= 0,
    decreases s.len(),
{
    if s.len() > 0 {
        lemma_sum_nonneg(s.drop_last());
    }
}

/// Index of the last result with the longest parse time.
fn last_slowest(results: &Vec<SessionResult>) -> (i: usize)
    requires
        results.len() > 0,
    ensures
        is_last_max(duration_keys(results@), i as int),
{
    let mut best: usize = 0;
    let mut k: usize = 1;
    while k < results.len()
        invariant
            0 <= best < k <= results.len(),
            forall|j: int| 0 <= j < k ==> results@[j].duration <= results@[best as int].duration,
            forall|j: int| best < j < k ==> results@[j].duration < results@[best as int].duration,
        decreases results.len() - k,
    {
        if results[k].duration >= results[best].duration {
            best = k;
        }
        k = k + 1;
    }
    best
}

/// Index of the last result with the most messages.
fn last_largest(results: &Vec<SessionResult>) -> (i: usize)
    requires
        results.len() > 0,
    ensures
        is_last_max(message_keys(results@), i as int),
{
    let mut best: usize = 0;
    let mut k: usize = 1;
    while k < results.len()
        invariant
            0 <= best < k <= results.len(),
            forall|j: int| 0 <= j < k ==> results@[j].message_count <= results@[best as int].message_count,
            forall|j: int| best < j < k ==> results@[j].message_count < results@[best as int].message_count,
        decreases results.len() - k,
    {
        if results[k].message_count >= results[best].message_count {
            best = k;
        }
        k = k + 1;
    }
    best
}

/// Each percentile is the parse time at its position in the sorted times:
/// `sorted[idx]` when the position lies inside the run, the longest time
/// when it lies past the end.
pub open spec fn percentiles_at_positions(
    results: Seq<SessionResult>,
    p95_idx: usize,
    p99_idx: usize,
    r: BenchmarkStats,
) -> bool {
    let d = durations_of(results).sort_by(dur_leq());
    let n = results.len() as int;
    n > 0 ==> {
        &&& d.len() == n
        &&& (p95_idx < n ==> r.p95_time == d[p95_idx as int])
        &&& (p95_idx >= n ==> r.p95_time == d[n - 1])
        &&& (p99_idx < n ==> r.p99_time == d[p99_idx as int])
        &&& (p99_idx >= n ==> r.p99_time == d[n - 1])
    }
}

/// A percentile is the sorted parse time at the percentile's position,
/// clamped to the last position; a position inside the run selects
/// exactly that order statistic, not the maximum.
pub proof fn law_percentile_positions(
    total_sessions: usize,
    results: Seq<SessionResult>,
    failed_parses: usize,
    total_time: u128,
    p95_idx: usize,
    p99_idx: usize,
    r: BenchmarkStats,
)
    requires
        stats_spec(total_sessions, results, failed_parses, total_time, p95_idx, p99_idx, r),
    ensures
        percentiles_at_positions(results, p95_idx, p99_idx, r),
{
    if results.len() > 0 {
        lemma_sorted_bounds(durations_of(results));
    }
}

/// What the summary says of a non-empty run: the minimum, median and
/// maximum are the first, middle and last sorted parse times; the mean is
/// the total divided by the `u32` count, rounded down; the slowest session
/// took the longest time and no later session took as long; the largest
/// session has the most messages and no later session has as many.
pub open spec fn summary_characterized(results: Seq<SessionResult>, r: BenchmarkStats) -> bool {
    let d = durations_of(results).sort_by(dur_leq());
    let n = results.len() as int;
    let c = (n % 0x1_0000_0000) as int;
    n > 0 ==> {
        &&& r.min_time == d[0]
        &&& r.max_time == d[n - 1]
        &&& r.median_time == d[n / 2]
        &&& r.avg_time * c <= sum_of(durations_of(results)) < (r.avg_time + 1) * c
        &&& r.slowest_session matches Some(t) && exists|i: int|
            #![trigger results[i]]
            0 <= i < n && t.0@ == results[i].session_id@ && t.1 == results[i].duration && t.2
                == results[i].message_count && (forall|j: int|
                0 <= j < n ==> results[j].duration <= t.1) && (forall|j: int|
                i < j < n ==> results[j].duration < t.1)
        &&& r.largest_session matches Some(t) && exists|i: int|
            #![trigger results[i]]
            0 <= i < n && t.0@ == results[i].session_id@ && t.1 == results[i].message_count && t.2
                == results[i].duration && (forall|j: int|
                0 <= j < n ==> results[j].message_count <= t.1) && (forall|j: int|
                i < j < n ==> results[j].message_count < t.1)
    }
}

/// The summary is the order statistics, floored mean and last maxima of
/// the run.
pub proof fn law_summary_characterized(
    total_sessions: usize,
    results: Seq<SessionResult>,
    failed_parses: usize,
    total_time: u128,
    p95_idx: usize,
    p99_idx: usize,
    r: BenchmarkStats,
)
    requires
        stats_spec(total_sessions, results, failed_parses, total_time, p95_idx, p99_idx, r),
        results.len() > 0 ==> average_divisor(results.len()) != 0,
    ensures
        summary_characterized(results, r),
{
    let n = results.len() as int;
    if n > 0 {
        let c = (n % 0x1_0000_0000) as int;
        let total = sum_of(durations_of(results));
        lemma_sum_nonneg(durations_of(results));
        assert(c > 0);
        let q = total / c;
        assert(r.avg_time == q);
        assert(q * c <= total < (q + 1) * c) by (nonlinear_arith)
            requires
                q == total / c,
                c > 0,
                total >= 0,
        ;
        let t = r.slowest_session->0;
        let i = choose|i: int|
            #![trigger results[i]]
            is_last_max(duration_keys(results), i) && t.0@ == results[i].session_id@ && t.1
                == results[i].duration && t.2 == results[i].message_count;
        assert forall|j: int| 0 <= j < n implies results[j].duration <= t.1 by {
            assert(duration_keys(results)[j] <= duration_keys(results)[i]);
        }
        assert forall|j: int| i < j < n implies results[j].duration < t.1 by {
            assert(duration_keys(results)[j] < duration_keys(results)[i]);
        }
        let u = r.largest_session->0;
        let k = choose|k: int|
            #![trigger results[k]]
            is_last_max(message_keys(results), k) && u.0@ == results[k].session_id@ && u.1
                == results[k].message_count && u.2 == results[k].duration;
        assert forall|j: int| 0 <= j < n implies results[j].message_count <= u.1 by {
            assert(message_keys(results)[j] <= message_keys(results)[k]);
        }
        assert forall|j: int| k < j < n implies results[j].message_count < u.1 by {
            assert(message_keys(results)[j] < message_keys(results)[k]);
        }
        let d = durations_of(results).sort_by(dur_leq());
        lemma_sorted_bounds(durations_of(results));
        assert(r.min_time == d[0]);
        assert(r.max_time == d[n - 1]);
        assert(r.median_time == d[n / 2]);
        assert(r.avg_time * c <= total < (r.avg_time + 1) * c);
        assert(0 <= i < n && t.0@ == results[i].session_id@);
        assert(0 <= k < n);
    }
}

/// Summarizes a benchmark run: the parse-time distribution of the
/// successful parses (minimum, maximum, median, the given percentile
/// positions of the sorted times, mean), and the slowest and largest
/// sessions. With no successful parse, every time is zero.
pub fn summarize(
    total_sessions: usize,
    results: &Vec<SessionResult>,
    failed_parses: usize,
    total_time: u128,
    p95_idx: usize,
    p99_idx: usize,
) -> (r: BenchmarkStats)
    requires
        results.len() > 0 ==> average_divisor(results.len() as nat) != 0,
        sum_of(durations_of(results@)) <= MAX_DURATION_NANOS,
    ensures
        stats_spec(total_sessions, results@, failed_parses, total_time, p95_idx, p99_idx, r),
        percentiles_at_positions(results@, p95_idx, p99_idx, r),
        summary_characterized(results@, r),
{
    if results.len() == 0 {
        return BenchmarkStats {
            total_sessions,
            successful_parses: 0,
            failed_parses,
            total_time,
            avg_time: 0,
            min_time: 0,
            max_time: 0,
            median_time: 0,
            p95_time: 0,
            p99_time: 0,
            slowest_session: None,
            largest_session: None,
        };
    }
    let mut durations: Vec<u128> = Vec::new();
    let mut total: u128 = 0;
    let mut k: usize = 0;
    while k < results.len()
        invariant
            k <= results.len(),
            durations@ == durations_of(results@).subrange(0, k as int),
            total == sum_of(durations@),
            sum_of(durations_of(results@)) <= MAX_DURATION_NANOS,
        decreases results.len() - k,
    {
        proof {
            lemma_sum_prefix_le(durations_of(results@), k + 1);
            assert(durations_of(results@).subrange(0, k + 1).drop_last() =~= durations@);
        }
        total = total + results[k].duration;
        durations.push(results[k].duration);
        proof {
            assert(durations@ =~= durations_of(results@).subrange(0, k + 1));
        }
        k = k + 1;
    }
    assert(durations@ =~= durations_of(results@));
    let sorted = sort_durations(&durations);
    proof {
        lemma_dur_leq_total();
    }
    assert(sorted@.len() == durations@.len()) by {
        broadcast use vstd::seq_lib::group_to_multiset_ensures;
        durations@.lemma_sort_by_ensures(dur_leq());
        assert(sorted@.to_multiset().len() == durations@.to_multiset().len());
    }
    let n = sorted.len();
    let p95 = if p95_idx < n - 1 { p95_idx } else { n - 1 };
    let p99 = if p99_idx < n - 1 { p99_idx } else { n - 1 };
    let len = results.len();
    let divisor: u32 = #[verifier::truncate] (len as u32);
    assert((#[verifier::truncate] (len as u32)) as int == len as int % 0x1_0000_0000) by (bit_vector);
    let avg = total / (divisor as u128);
    let slow = last_slowest(results);
    let large = last_largest(results);
    let ghost results_view = results@;
    let stats = BenchmarkStats {
        total_sessions,
        successful_parses: results.len(),
        failed_parses,
        total_time,
        avg_time: avg,
        min_time: sorted[0],
        max_time: sorted[n - 1],
        median_time: sorted[n / 2],
        p95_time: sorted[p95],
        p99_time: sorted[p99],
        slowest_session: Some(
            (results[slow].session_id.clone(), results[slow].duration, results[slow].message_count),
        ),
        largest_session: Some(
            (results[large].session_id.clone(), results[large].message_count, results[large].duration),
        ),
    };
    proof {
        law_summary_characterized(
            total_sessions,
            results_view,
            failed_parses,
            total_time,
            p95_idx,
            p99_idx,
            stats,
        );
        law_percentile_positions(
            total_sessions,
            results_view,
            failed_parses,
            total_time,
            p95_idx,
            p99_idx,
            stats,
        );
    }
    stats
}

proof fn lemma_sum_bounds(s: Seq<u128>, lo: int, hi: int)
    requires
        forall|i: int| 0 <= i < s.len() ==> lo <= #[trigger] s[i] <= hi,
    ensures
        s.len() * lo <= sum_of(s) <= s.len() * hi,
    decreases s.len(),
{
    if s.len() > 0 {
        let r = s.drop_last();
        assert forall|i: int| 0 <= i < r.len() implies lo <= #[trigger] r[i] <= hi by {
            assert(r[i] == s[i]);
        }
        lemma_sum_bounds(r, lo, hi);
        let n = r.len() as int;
        assert(n * lo + lo == (n + 1) * lo) by (nonlinear_arith);
        assert(n * hi + hi == (n + 1) * hi) by (nonlinear_arith);
    }
}

/// Every element of a sequence lies between the first and the last element
/// of its sorted copy.
proof fn lemma_sorted_bounds(s: Seq<u128>)
    requires
        s.len() > 0,
    ensures
        s.sort_by(dur_leq()).len() == s.len(),
        forall|i: int|
            0 <= i < s.len() ==> s.sort_by(dur_leq())[0] <= #[trigger] s[i] <= s.sort_by(
                dur_leq(),
            )[s.len() - 1],
{
    broadcast use vstd::seq_lib::group_to_multiset_ensures;

    lemma_dur_leq_total();
    s.lemma_sort_by_ensures(dur_leq());
    let d = s.sort_by(dur_leq());
    assert(d.len() == s.len()) by {
        assert(d.to_multiset().len() == s.to_multiset().len());
    }
    assert forall|i: int| 0 <= i < s.len() implies d[0] <= #[trigger] s[i] <= d[s.len() - 1] by {
        assert(s.to_multiset().count(s[i]) > 0);
        assert(d.to_multiset().count(s[i]) > 0);
        assert(d.contains(s[i]));
        let j = choose|j: int| 0 <= j < d.len() && d[j] == s[i];
        if j > 0 {
            assert(dur_leq()(d[0], d[j]));
        }
        if j < d.len() - 1 {
            assert(dur_leq()(d[j], d[d.len() - 1]));
        }
    }
}

/// The reported times are ordered as the distribution is: the minimum is
/// at most the median and each percentile, which are at most the maximum;
/// and, for fewer than 2^32 results, the mean lies between minimum and
/// maximum.
pub proof fn law_stats_ordered(
    total_sessions: usize,
    results: Seq<SessionResult>,
    failed_parses: usize,
    total_time: u128,
    p95_idx: usize,
    p99_idx: usize,
    r: BenchmarkStats,
)
    requires
        stats_spec(total_sessions, results, failed_parses, total_time, p95_idx, p99_idx, r),
        results.len() > 0,
    ensures
        r.min_time <= r.median_time <= r.max_time,
        r.min_time <= r.p95_time <= r.max_time,
        r.min_time <= r.p99_time <= r.max_time,
        results.len() < 0x1_0000_0000 ==> r.min_time <= r.avg_time <= r.max_time,
{
    let s = durations_of(results);
    lemma_sorted_bounds(s);
    lemma_dur_leq_total();
    s.lemma_sort_by_ensures(dur_leq());
    let d = s.sort_by(dur_leq());
    let n = d.len() as int;
    assert(forall|i: int, j: int| 0 <= i < j < n ==> #[trigger] dur_leq()(d[i], d[j]));
    assert(0 <= n / 2 < n);
    if n / 2 > 0 {
        assert(dur_leq()(d[0], d[n / 2]));
    }
    if n / 2 < n - 1 {
        assert(dur_leq()(d[n / 2], d[n - 1]));
    }
    let i95 = if (p95_idx as int) < n - 1 { p95_idx as int } else { n - 1 };
    if i95 > 0 {
        assert(dur_leq()(d[0], d[i95]));
    }
    if i95 < n - 1 {
        assert(dur_leq()(d[i95], d[n - 1]));
    }
    let i99 = if (p99_idx as int) < n - 1 { p99_idx as int } else { n - 1 };
    if i99 > 0 {
        assert(dur_leq()(d[0], d[i99]));
    }
    if i99 < n - 1 {
        assert(dur_leq()(d[i99], d[n - 1]));
    }
    if results.len() < 0x1_0000_0000 {
        let lo = d[0] as int;
        let hi = d[n - 1] as int;
        lemma_sum_bounds(s, lo, hi);
        let total = sum_of(s);
        assert(average_divisor(results.len()) == n);
        assert(lo <= total / n <= hi) by (nonlinear_arith)
            requires
                n * lo <= total <= n * hi,
                n > 0,
        ;
    }
}

/// `a` comes before `b` when ordering by key (descending or ascending),
/// ties kept in index order, as a stable sort leaves them.
pub open spec fn key_before(keys: Seq<u128>, descending: bool, a: int, b: int) -> bool {
    (if descending {
        keys[a] > keys[b]
    } else {
        keys[a] < keys[b]
    }) || (keys[a] == keys[b] && a < b)
}

/// `order` lists the positions `0..keys.len()` as a stable sort by key
/// orders them.
pub open spec fn is_stable_order(keys: Seq<u128>, descending: bool, order: Seq<usize>) -> bool {
    &&& order.len() == keys.len()
    &&& forall|i: int| 0 <= i < order.len() ==> #[trigger] order[i] < keys.len()
    &&& forall|i: int, j: int|
        0 <= i < j < order.len() ==> key_before(keys, descending, #[trigger] order[i] as int, #[trigger] order[j] as int)
}

/// Whether key `k` stays ahead of a later key `ki` in a stable order.
fn not_after(k: u128, ki: u128, descending: bool) -> (b: bool)
    ensures
        b == (if descending {
            k >= ki
        } else {
            k <= ki
        }),
{
    if descending {
        k >= ki
    } else {
        k <= ki
    }
}

/// The positions of `keys` in stable key order.
pub fn stable_order(keys: &Vec<u128>, descending: bool) -> (order: Vec<usize>)
    ensures
        is_stable_order(keys@, descending, order@),
{
    let mut order: Vec<usize> = Vec::new();
    let mut i: usize = 0;
    while i < keys.len()
        invariant
            i <= keys.len(),
            order.len() == i,
            forall|k: int| 0 <= k < order.len() ==> #[trigger] order@[k] < i,
            forall|a: int, b: int|
                0 <= a < b < order.len() ==> key_before(keys@, descending, #[trigger] order@[a] as int, #[trigger] order@[b] as int),
        decreases keys.len() - i,
    {
        let ki = keys[i];
        let mut p: usize = 0;
        while p < order.len() && not_after(keys[order[p]], ki, descending)
            invariant
                p <= order.len(),
                order.len() == i,
                i < keys.len(),
                ki == keys@[i as int],
                forall|k: int| 0 <= k < order.len() ==> #[trigger] order@[k] < i,
                forall|k: int| 0 <= k < p ==> key_before(keys@, descending, #[trigger] order@[k] as int, i as int),
            decreases order.len() - p,
        {
            p = p + 1;
        }
        let ghost before = order@;
        order.insert(p, i);
        proof {
            assert(order@ == before.insert(p as int, i));
            assert forall|k: int| 0 <= k < order.len() implies #[trigger] order@[k] < i + 1 by {
                if k < p {
                    assert(order@[k] == before[k]);
                } else if k > p {
                    assert(order@[k] == before[k - 1]);
                }
            }
            assert forall|a: int, b: int| 0 <= a < b < order.len() implies key_before(
                keys@,
                descending,
                #[trigger] order@[a] as int,
                #[trigger] order@[b] as int,
            ) by {
                if b < p {
                    assert(order@[a] == before[a] && order@[b] == before[b]);
                } else if b == p {
                    assert(order@[a] == before[a]);
                } else if a < p {
                    assert(order@[a] == before[a] && order@[b] == before[b - 1]);
                    if p < before.len() {
                        assert(!(if descending {
                            keys@[before[p as int] as int] >= ki
                        } else {
                            keys@[before[p as int] as int] <= ki
                        }));
                        if p < b - 1 {
                            assert(key_before(keys@, descending, before[p as int] as int, before[b - 1] as int));
                        }
                    }
                } else if a == p {
                    assert(order@[b] == before[b - 1]);
                    assert(!(if descending {
                        keys@[before[p as int] as int] >= ki
                    } else {
                        keys@[before[p as int] as int] <= ki
                    }));
                    if p < b - 1 {
                        assert(key_before(keys@, descending, before[p as int] as int, before[b - 1] as int));
                    }
                } else {
                    assert(order@[a] == before[a - 1] && order@[b] == before[b - 1]);
                }
            }
        }
        i = i + 1;
    }
    order
}

/// Result positions from slowest to fastest, ties in result order.
pub fn slowest_first(results: &Vec<SessionResult>) -> (order: Vec<usize>)
    ensures
        is_stable_order(durations_of(results@), true, order@),
{
    let mut keys: Vec<u128> = Vec::new();
    let mut k: usize = 0;
    while k < results.len()
        invariant
            k <= results.len(),
            keys@ == durations_of(results@).subrange(0, k as int),
        decreases results.len() - k,
    {
        keys.push(results[k].duration);
        assert(keys@ =~= durations_of(results@).subrange(0, k + 1));
        k = k + 1;
    }
    assert(keys@ =~= durations_of(results@));
    stable_order(&keys, true)
}

/// File sizes of the results, in order.
pub open spec fn sizes_of(results: Seq<SessionResult>) -> Seq<u128> {
    results.map_values(|r: SessionResult| r.file_size_bytes as u128)
}

/// Result positions from smallest to largest file, ties in result order.
pub fn smallest_first(results: &Vec<SessionResult>) -> (order: Vec<usize>)
    ensures
        is_stable_order(sizes_of(results@), false, order@),
{
    let mut keys: Vec<u128> = Vec::new();
    let mut k: usize = 0;
    while k < results.len()
        invariant
            k <= results.len(),
            keys@ == sizes_of(results@).subrange(0, k as int),
        decreases results.len() - k,
    {
        keys.push(results[k].file_size_bytes as u128);
        assert(keys@ =~= sizes_of(results@).subrange(0, k + 1));
        k = k + 1;
    }
    assert(keys@ =~= sizes_of(results@));
    stable_order(&keys, false)
}

/// The durations of the results at the given positions.
pub open spec fn durations_at(results: Seq<SessionResult>, positions: Seq<usize>) -> Seq<u128> {
    positions.map_values(|i: usize| results[i as int].duration)
}

/// The mean duration of a group (zero for an empty group), as `Duration`
/// division by the group's `u32` count computes it.
pub open spec fn group_average(d: Seq<u128>) -> int {
    if d.len() == 0 {
        0
    } else {
        sum_of(d) / (average_divisor(d.len()) as int)
    }
}

/// The mean parse time of the sessions at `positions[from..to]` (zero
/// for an empty range).
#[verifier::rlimit(30)]
pub fn group_average_duration(results: &Vec<SessionResult>, positions: &Vec<usize>, from: usize, to: usize) -> (r: u128)
    requires
        from <= to <= positions.len(),
        forall|i: int| 0 <= i < positions.len() ==> #[trigger] positions@[i] < results.len(),
        to - from > 0 ==> average_divisor((to - from) as nat) != 0,
        sum_of(durations_at(results@, positions@.subrange(from as int, to as int))) <= MAX_DURATION_NANOS,
    ensures
        r == group_average(durations_at(results@, positions@.subrange(from as int, to as int))),
{
    let ghost group = durations_at(results@, positions@.subrange(from as int, to as int));
    if from == to {
        return 0;
    }
    let mut total: u128 = 0;
    let mut k: usize = from;
    while k < to
        invariant
            from <= k <= to <= positions.len(),
            forall|i: int| 0 <= i < positions.len() ==> #[trigger] positions@[i] < results.len(),
            group == durations_at(results@, positions@.subrange(from as int, to as int)),
            sum_of(group) <= MAX_DURATION_NANOS,
            total == sum_of(group.subrange(0, k - from)),
        decreases to - k,
    {
        proof {
            lemma_sum_prefix_le(group, k - from + 1);
            assert(group.subrange(0, k - from + 1).drop_last() =~= group.subrange(0, k - from));
        }
        total = total + results[positions[k]].duration;
        k = k + 1;
    }
    assert(group.subrange(0, to - from) =~= group);
    let n = to - from;
    let divisor: u32 = #[verifier::truncate] (n as u32);
    assert((#[verifier::truncate] (n as u32)) as int == n as int % 0x1_0000_0000) by (bit_vector);
    total / (divisor as u128)
}

/// The boundaries that split `n` results, ordered by file size, into a
/// small, a medium and a large group: the small group is `[0, a)`, the
/// medium group `[a, b)` and the large group `[c, n)`.
pub fn tercile_bounds(n: usize) -> (r: (usize, usize, usize))
    requires
        2 * n <= usize::MAX,
    ensures
        r.0 == n / 3,
        r.1 == 2 * (n / 3),
        r.2 == 2 * n / 3,
        r.0 <= r.1 <= n,
        r.2 <= n,
{
    let a = n / 3;
    (a, a + a, 2 * n / 3)
}

} // verus!
