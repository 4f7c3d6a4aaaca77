//! Worker velocity: how long workers take to close beads, summarized per
//! (model, harness, issue_type), and how claim scoring picks an expected
//! duration. Reading and writing the `worker_sessions` and `velocity_stats`
//! tables is left to the caller; this module holds the computations.

use vstd::prelude::*;
use crate::dates::{naive_utc_instant, parse_naive_utc, parse_rfc3339, rfc3339_instant};
use crate::sorting::{i64_le, sort_i64};
use vstd::multiset::Multiset;
use vstd::relations::{sorted_by, total_ordering};
use crate::text::{
    chars_of, push_str_chars, push_u64_decimal, nat_to_decimal, string_from_chars, trim_spec,
    trim_vec,
};

verus! {

/// Worker session record from the `worker_sessions` table.
#[derive(Debug, Clone)]
pub struct WorkerSession {
    pub worker_id: String,
    pub model: Option<String>,
    pub harness: Option<String>,
    pub harness_version: Option<String>,
    pub claimed_at: String,
    pub bead_id: Option<String>,
    pub workspace_path: String,
    pub closed_at: Option<String>,
    pub duration_seconds: Option<i64>,
}

/// What the durations of completed sessions come to: their number, the
/// median (p50) and 90th-percentile (p90) durations, and their total (from
/// which the average is taken).
#[derive(Debug, Clone, Copy, PartialEq, Eq)]
pub struct VelocitySummary {
    pub sample_count: i64,
    pub p50_seconds: Option<i64>,
    pub p90_seconds: Option<i64>,
    pub total_seconds: Option<i128>,
}

/// The sum of a sequence of durations.
pub open spec fn seq_sum(s: Seq<i64>) -> int
    decreases s.len(),
{
    if s.len() == 0 {
        0
    } else {
        seq_sum(s.drop_last()) + s.last()
    }
}

/// The summary of `durations`: with `s` the durations in ascending order
/// and `n` their number, p50 is `s[n / 2]` and p90 is `s[9n / 10]` (that is,
/// `s[floor(n * 0.5)]` and `s[floor(n * 0.9)]`), p90 falling back to p50 for
/// a single sample; all three are absent when there are no durations.
pub open spec fn velocity_summary_spec(durations: Seq<i64>) -> VelocitySummary {
    let n = durations.len();
    let s = durations.sort_by(i64_le());
    if n == 0 {
        VelocitySummary { sample_count: 0, p50_seconds: None, p90_seconds: None, total_seconds: None }
    } else {
        VelocitySummary {
            sample_count: n as i64,
            p50_seconds: Some(s[(n / 2) as int]),
            p90_seconds: if n > 1 {
                Some(s[(9 * n / 10) as int])
            } else {
                Some(s[(n / 2) as int])
            },
            total_seconds: Some(seq_sum(durations) as i128),
        }
    }
}

proof fn lemma_seq_sum_bound(s: Seq<i64>)
    ensures
        s.len() * i64::MIN <= seq_sum(s) <= s.len() * i64::MAX,
    decreases s.len(),
{
    if s.len() > 0 {
        lemma_seq_sum_bound(s.drop_last());
    }
}

/// Summarize the durations of completed sessions (see
/// [`velocity_summary_spec`]). The percentile positions are the integer
/// `n / 2` and `9n / 10`; computed in binary64 as `floor(n * 0.5)` and
/// `floor(n * 0.9)` they are the same for every `n` below 2^49, far more
/// durations than memory can hold. The total is kept in 128 bits, which no
/// sum of `usize`-many `i64` values can overflow.
pub fn velocity_summary(durations: &Vec<i64>) -> (r: VelocitySummary)
    ensures
        r == velocity_summary_spec(durations@),
{
    let n = durations.len();
    if n == 0 {
        return VelocitySummary {
            sample_count: 0,
            p50_seconds: None,
            p90_seconds: None,
            total_seconds: None,
        };
    }
    let sorted = sort_i64(durations);
    proof {
        durations@.lemma_sort_by_ensures(i64_le());
        assert(sorted@.len() == n) by {
            broadcast use vstd::seq_lib::group_to_multiset_ensures;
            assert(sorted@.to_multiset().len() == durations@.to_multiset().len());
        }
    }
    let p50 = sorted[n / 2];
    let p90_idx = (n / 10) * 9 + (n % 10) * 9 / 10;
    assert(p90_idx == 9 * n / 10 && 9 * n / 10 < n) by (nonlinear_arith)
        requires
            n >= 1,
            p90_idx == (n / 10) * 9 + (n % 10) * 9 / 10,
    ;
    let p90 = if n > 1 {
        sorted[p90_idx]
    } else {
        p50
    };
    let mut total: i128 = 0;
    let mut i: usize = 0;
    while i < n
        invariant
            n == durations@.len(),
            0 <= i <= n,
            total == seq_sum(durations@.take(i as int)),
        decreases n - i,
    {
        proof {
            lemma_seq_sum_bound(durations@.take(i as int));
            assert(durations@.take(i + 1).drop_last() =~= durations@.take(i as int));
            assert(i * i64::MIN >= 0x1_0000_0000_0000_0000 * i64::MIN) by (nonlinear_arith)
                requires
                    i <= 0x1_0000_0000_0000_0000,
            ;
            assert(i * i64::MAX <= 0x1_0000_0000_0000_0000 * i64::MAX) by (nonlinear_arith)
                requires
                    i <= 0x1_0000_0000_0000_0000,
            ;
        }
        total = total + durations[i] as i128;
        i = i + 1;
    }
    assert(durations@.take(n as int) =~= durations@);
    VelocitySummary {
        sample_count: n as i64,
        p50_seconds: Some(p50),
        p90_seconds: Some(p90),
        total_seconds: Some(total),
    }
}

/// The expected duration used in claim scoring: the exact
/// (model, harness, issue_type) estimate when there is one, else the estimate
/// for the model with an empty harness, else the one for the issue type
/// alone.
pub open spec fn expected_seconds_spec(
    exact: Option<i64>,
    model_only: Option<i64>,
    type_only: Option<i64>,
) -> Option<i64> {
    if exact is Some {
        exact
    } else if model_only is Some {
        model_only
    } else {
        type_only
    }
}

/// Pick the expected duration from the three lookups, most specific first.
pub fn pick_expected_seconds(
    exact: Option<i64>,
    model_only: Option<i64>,
    type_only: Option<i64>,
) -> (r: Option<i64>)
    ensures
        r == expected_seconds_spec(exact, model_only, type_only),
{
    if exact.is_some() {
        exact
    } else if model_only.is_some() {
        model_only
    } else {
        type_only
    }
}

/// The base of the velocity statistics query.
pub open spec fn velocity_query_base() -> Seq<char> {
    "SELECT model, harness, issue_type, sample_count, p50_seconds, p90_seconds, avg_seconds, last_updated\n         FROM velocity_stats WHERE 1=1"@
}

/// The velocity statistics query with the given filters: a model filter
/// bound to `?1`, a harness filter bound to the next placeholder, ordered by
/// sample count, with the filter values as parameters in that order.
pub open spec fn velocity_query_spec(model: Option<Seq<char>>, harness: Option<Seq<char>>) -> (Seq<char>, Seq<Seq<char>>) {
    let (q1, p1, idx) = match model {
        Some(m) => (velocity_query_base() + " AND model = ?"@ + nat_to_decimal(1), seq![m], 2nat),
        None => (velocity_query_base(), Seq::<Seq<char>>::empty(), 1nat),
    };
    let (q2, p2) = match harness {
        Some(h) => (q1 + " AND harness = ?"@ + nat_to_decimal(idx), p1.push(h)),
        None => (q1, p1),
    };
    (q2 + " ORDER BY sample_count DESC"@, p2)
}

/// The velocity statistics query and its parameters for the given filters
/// (see [`velocity_query_spec`]).
pub fn velocity_stats_query(model_filter: Option<&str>, harness_filter: Option<&str>) -> (r: (String, Vec<String>))
    ensures
        r.0@ == velocity_query_spec(crate::text::opt_str_view(model_filter), crate::text::opt_str_view(harness_filter)).0,
        r.1@.map_values(|p: String| p@) == velocity_query_spec(crate::text::opt_str_view(model_filter), crate::text::opt_str_view(harness_filter)).1,
{
    let mut q: Vec<char> = Vec::new();
    push_str_chars(&mut q, "SELECT model, harness, issue_type, sample_count, p50_seconds, p90_seconds, avg_seconds, last_updated\n         FROM velocity_stats WHERE 1=1");
    let mut params: Vec<String> = Vec::new();
    let mut idx: u64 = 1;
    if let Some(model) = model_filter {
        push_str_chars(&mut q, " AND model = ?");
        push_u64_decimal(&mut q, idx);
        params.push(crate::text::to_owned_string(model));
        idx = idx + 1;
    }
    if let Some(harness) = harness_filter {
        push_str_chars(&mut q, " AND harness = ?");
        push_u64_decimal(&mut q, idx);
        params.push(crate::text::to_owned_string(harness));
    }
    push_str_chars(&mut q, " ORDER BY sample_count DESC");
    let ghost spec = velocity_query_spec(crate::text::opt_str_view(model_filter), crate::text::opt_str_view(harness_filter));
    assert(q@ =~= spec.0);
    assert(params@.map_values(|p: String| p@) =~= spec.1);
    (string_from_chars(q.as_slice()), params)
}


/// How a session's `claimed_at` text is read: trimmed; refused when empty;
/// RFC 3339 first, then SQLite's `YYYY-MM-DD HH:MM:SS` and
/// `YYYY-MM-DDTHH:MM:SS`, both taken as UTC.
pub open spec fn parse_datetime_spec(s: Seq<char>) -> Result<(i64, u32), Seq<char>> {
    let t = trim_spec(s);
    if t.len() == 0 {
        Err("Invalid claimed_at format: empty string"@)
    } else if rfc3339_instant(t) is Some {
        Ok(rfc3339_instant(t)->0)
    } else if naive_utc_instant(t, "%Y-%m-%d %H:%M:%S"@) is Some {
        Ok(naive_utc_instant(t, "%Y-%m-%d %H:%M:%S"@)->0)
    } else if naive_utc_instant(t, "%Y-%m-%dT%H:%M:%S"@) is Some {
        Ok(naive_utc_instant(t, "%Y-%m-%dT%H:%M:%S"@)->0)
    } else {
        Err("Invalid claimed_at format: "@ + t)
    }
}

/// Parse a datetime that may be RFC 3339 or SQLite's native format (see
/// [`parse_datetime_spec`]).
pub fn parse_datetime(s: &str) -> (r: Result<(i64, u32), String>)
    ensures
        match (r, parse_datetime_spec(s@)) {
            (Ok(a), Ok(b)) => a == b,
            (Err(m), Err(n)) => m@ == n,
            _ => false,
        },
{
    let t = trim_vec(&chars_of(s));
    let ts = string_from_chars(t.as_slice());
    if t.len() == 0 {
        return Err(crate::text::to_owned_string("Invalid claimed_at format: empty string"));
    }
    if let Some(i) = parse_rfc3339(ts.as_str()) {
        return Ok(i);
    }
    if let Some(i) = parse_naive_utc(ts.as_str(), "%Y-%m-%d %H:%M:%S") {
        return Ok(i);
    }
    if let Some(i) = parse_naive_utc(ts.as_str(), "%Y-%m-%dT%H:%M:%S") {
        return Ok(i);
    }
    let mut v: Vec<char> = Vec::new();
    push_str_chars(&mut v, "Invalid claimed_at format: ");
    push_str_chars(&mut v, ts.as_str());
    Err(string_from_chars(v.as_slice()))
}


/// The whole seconds from `claimed` to `closed` (each a Unix time in
/// seconds and nanoseconds), truncated toward zero as a signed duration's
/// whole seconds are.
pub open spec fn session_seconds_spec(claimed: (i64, u32), closed: (i64, u32)) -> int {
    let total = (closed.0 - claimed.0) * 1_000_000_000 + (closed.1 - claimed.1);
    if total >= 0 {
        total / 1_000_000_000
    } else {
        -((-total) / 1_000_000_000)
    }
}

/// How long a worker session ran, in whole seconds, from its claim to the
/// close of its bead (see [`session_seconds_spec`]). The times are those of
/// dates, whose seconds are far inside the range that `requires` asks for.
pub fn session_seconds(claimed: (i64, u32), closed: (i64, u32)) -> (d: i64)
    requires
        -0x4000_0000_0000_0000 <= closed.0 - claimed.0 <= 0x4000_0000_0000_0000,
    ensures
        d == session_seconds_spec(claimed, closed),
{
    let total: i128 = (closed.0 as i128 - claimed.0 as i128) * 1_000_000_000 + (closed.1 as i128
        - claimed.1 as i128);
    let r: i128 = if total >= 0 {
        total / 1_000_000_000
    } else {
        -((-total) / 1_000_000_000)
    };
    proof {
        let b: int = 0x4000_0000_0000_0000int * 1_000_000_000int + 0x1_0000_0000int;
        assert(-b <= total <= b) by (nonlinear_arith)
            requires
                total == (closed.0 - claimed.0) * 1_000_000_000 + (closed.1 - claimed.1),
                -0x4000_0000_0000_0000 <= closed.0 - claimed.0 <= 0x4000_0000_0000_0000,
                0 <= closed.1 <= 0xffff_ffff,
                0 <= claimed.1 <= 0xffff_ffff,
                b == 0x4000_0000_0000_0000 * 1_000_000_000 + 0x1_0000_0000,
        ;
        assert(b / 1_000_000_000 == 0x4000_0000_0000_0004);
        if total >= 0 {
            vstd::arithmetic::div_mod::lemma_div_is_ordered(total as int, b, 1_000_000_000);
        } else {
            vstd::arithmetic::div_mod::lemma_div_is_ordered(-total, b, 1_000_000_000);
        }
    }
    r as i64
}


/// The median never exceeds the 90th percentile, and both lie between the
/// shortest and the longest duration.
pub proof fn lemma_percentiles_ordered(durations: Seq<i64>)
    requires
        durations.len() > 0,
    ensures
        ({
            let r = velocity_summary_spec(durations);
            &&& r.p50_seconds matches Some(p50)
            &&& r.p90_seconds matches Some(p90)
            &&& p50 <= p90
            &&& exists|i: int| 0 <= i < durations.len() && durations[i] == p50
            &&& exists|i: int| 0 <= i < durations.len() && durations[i] == p90
        }),
{
    let leq = i64_le();
    assert(vstd::relations::total_ordering(leq));
    durations.lemma_sort_by_ensures(leq);
    let s = durations.sort_by(leq);
    let n = durations.len();
    assert(s.len() == n) by {
        durations.to_multiset_ensures();
        s.to_multiset_ensures();
    }
    assert(n / 2 <= 9 * n / 10 < n) by (nonlinear_arith)
        requires
            n > 0,
    ;
    if n > 1 {
        assert(leq(s[(n / 2) as int], s[(9 * n / 10) as int]) || n / 2 == 9 * n / 10);
    }
    let a = s[(n / 2) as int];
    let b = if n > 1 { s[(9 * n / 10) as int] } else { a };
    assert(s.contains(a));
    assert(s.contains(b));
    assert(durations.contains(a));
    assert(durations.contains(b));
}

/// At least `k` of the durations are at most `v`.
pub open spec fn at_least_at_most(d: Seq<i64>, v: i64, k: int) -> bool {
    exists|m: Multiset<i64>|
        #[trigger] m.subset_of(d.to_multiset()) && m.len() >= k && forall|x: i64| m.contains(x) ==> x <= v
}

/// At least `k` of the durations are at least `v`.
pub open spec fn at_least_at_least(d: Seq<i64>, v: i64, k: int) -> bool {
    exists|m: Multiset<i64>|
        #[trigger] m.subset_of(d.to_multiset()) && m.len() >= k && forall|x: i64| m.contains(x) ==> x >= v
}

/// The value at position `k` of the durations in ascending order has at
/// least `k + 1` durations at or below it and at least `n - k` at or above
/// it, and is one of the durations.
proof fn lemma_sorted_position(d: Seq<i64>, k: int)
    requires
        0 <= k < d.len(),
    ensures
        d.len() == d.sort_by(i64_le()).len(),
        d.contains(d.sort_by(i64_le())[k]),
        at_least_at_most(d, d.sort_by(i64_le())[k], k + 1),
        at_least_at_least(d, d.sort_by(i64_le())[k], d.len() - k),
{
    broadcast use vstd::seq_lib::group_to_multiset_ensures;
    broadcast use vstd::multiset::group_multiset_axioms;

    let leq = i64_le();
    assert(total_ordering(leq));
    d.lemma_sort_by_ensures(leq);
    let s = d.sort_by(leq);
    assert(s.len() == s.to_multiset().len());
    assert(d.len() == d.to_multiset().len());
    let v = s[k];
    assert(s.contains(v));
    assert(s.to_multiset().count(v) > 0);
    let lo_s = s.take(k + 1);
    let rest_lo = s.skip(k + 1);
    assert(s =~= lo_s + rest_lo);
    vstd::seq_lib::lemma_multiset_commutative(lo_s, rest_lo);
    let lo = lo_s.to_multiset();
    assert(lo.subset_of(d.to_multiset()));
    assert(lo.len() == k + 1);
    assert forall|x: i64| lo.contains(x) implies x <= v by {
        assert(lo_s.contains(x));
        let i = choose|i: int| 0 <= i < lo_s.len() && lo_s[i] == x;
        if i < k {
            assert(leq(s[i], s[k]));
        }
    }
    let hi_s = s.skip(k);
    let rest_hi = s.take(k);
    assert(s =~= rest_hi + hi_s);
    vstd::seq_lib::lemma_multiset_commutative(rest_hi, hi_s);
    let hi = hi_s.to_multiset();
    assert(hi.subset_of(d.to_multiset()));
    assert(hi.len() == d.len() - k);
    assert forall|x: i64| hi.contains(x) implies x >= v by {
        assert(hi_s.contains(x));
        let i = choose|i: int| 0 <= i < hi_s.len() && hi_s[i] == x;
        if i > 0 {
            assert(leq(s[k], s[k + i]));
        }
    }
}

/// The percentiles split the durations: p50 is a duration with at least half
/// of the durations at or below it and at least half at or above it; p90 is
/// a duration with at least nine tenths at or below it and at least one
/// tenth at or above it; the sample count is the number of durations.
pub proof fn lemma_percentiles_split_durations(d: Seq<i64>)
    requires
        0 < d.len() <= i64::MAX,
    ensures
        ({
            let r = velocity_summary_spec(d);
            let n = d.len() as int;
            &&& r.sample_count == n
            &&& r.p50_seconds matches Some(p) && d.contains(p) && at_least_at_most(d, p, n - n / 2)
                && at_least_at_least(d, p, n - n / 2)
            &&& r.p90_seconds matches Some(q) && d.contains(q) && at_least_at_most(
                d,
                q,
                n - n / 10,
            ) && at_least_at_least(d, q, n / 10)
        }),
{
    let n = d.len() as int;
    let s = d.sort_by(i64_le());
    lemma_sorted_position(d, n / 2);
    assert(n - n / 2 <= n / 2 + 1) by (nonlinear_arith)
        requires
            n > 0,
    ;
    assert(n / 2 <= 9 * n / 10 < n) by (nonlinear_arith)
        requires
            n > 0,
    ;
    lemma_sorted_position(d, 9 * n / 10);
    assert(n - n / 10 <= 9 * n / 10 + 1) by (nonlinear_arith)
        requires
            n > 0,
    ;
    assert(n / 10 <= n - 9 * n / 10) by (nonlinear_arith)
        requires
            n > 0,
    ;
    if n == 1 {
        assert(9 * n / 10 == 0 && n / 2 == 0);
    }
}

/// Whether `t` occurs in `q`.
pub open spec fn occurs_in(t: Seq<char>, q: Seq<char>) -> bool {
    exists|i: int| 0 <= i && i + t.len() <= q.len() && #[trigger] q.subrange(i, i + t.len()) == t
}

/// Filtering velocity statistics: a given model restricts the rows to that
/// model (`model = ?1`, bound to the first parameter) and a given harness to
/// that harness (`harness = ?k`, bound to the last, `k`-th parameter),
/// each whatever the other filter is; there is one parameter per filter
/// given.
pub proof fn lemma_velocity_filters_restrict(model: Option<Seq<char>>, harness: Option<Seq<char>>)
    ensures
        ({
            let (q, p) = velocity_query_spec(model, harness);
            &&& p.len() == (if model is Some { 1int } else { 0int }) + (if harness is Some {
                1int
            } else {
                0int
            })
            &&& model matches Some(m) ==> p[0] == m && occurs_in(" AND model = ?"@ + nat_to_decimal(1), q)
            &&& harness matches Some(h) ==> p[p.len() - 1] == h && occurs_in(
                " AND harness = ?"@ + nat_to_decimal(p.len() as nat),
                q,
            )
        }),
{
    let base = velocity_query_base();
    let (q, p) = velocity_query_spec(model, harness);
    let tm = " AND model = ?"@ + nat_to_decimal(1);
    let q1 = match model {
        Some(m) => base + tm,
        None => base,
    };
    if model is Some {
        assert(q.subrange(base.len() as int, base.len() as int + tm.len()) =~= tm);
    }
    if let Some(h) = harness {
        let th = " AND harness = ?"@ + nat_to_decimal(p.len() as nat);
        assert(q.subrange(q1.len() as int, q1.len() as int + th.len()) =~= th);
    }
}

proof fn lemma_sum_remove(s: Seq<i64>, i: int)
    requires
        0 <= i < s.len(),
    ensures
        seq_sum(s) == seq_sum(s.remove(i)) + s[i],
    decreases s.len(),
{
    if i == s.len() - 1 {
        assert(s.remove(i) =~= s.drop_last());
    } else {
        lemma_sum_remove(s.drop_last(), i);
        assert(s.remove(i).drop_last() =~= s.drop_last().remove(i));
        assert(s.remove(i).last() == s.last());
    }
}

proof fn lemma_sum_permutation(a: Seq<i64>, b: Seq<i64>)
    requires
        a.to_multiset() == b.to_multiset(),
    ensures
        seq_sum(a) == seq_sum(b),
    decreases a.len(),
{
    broadcast use vstd::seq_lib::group_to_multiset_ensures;
    broadcast use vstd::multiset::group_multiset_axioms;

    assert(a.len() == a.to_multiset().len());
    assert(b.len() == b.to_multiset().len());
    if a.len() > 0 {
        let x = a.last();
        assert(a.to_multiset().count(x) > 0);
        assert(b.contains(x));
        let i = choose|i: int| 0 <= i < b.len() && b[i] == x;
        let a2 = a.drop_last();
        let b2 = b.remove(i);
        assert(a =~= a2.push(x));
        assert(a2.to_multiset() =~= a.to_multiset().remove(x));
        assert(b2.to_multiset() =~= b.to_multiset().remove(b[i]));
        lemma_sum_permutation(a2, b2);
        lemma_sum_remove(b, i);
    }
}

/// The summary depends only on which durations there are, not on their
/// order: durations that are a reordering of each other have the same
/// sample count, p50, p90 and total.
pub proof fn lemma_summary_ignores_order(d1: Seq<i64>, d2: Seq<i64>)
    requires
        d1.to_multiset() == d2.to_multiset(),
    ensures
        velocity_summary_spec(d1) == velocity_summary_spec(d2),
{
    broadcast use vstd::seq_lib::group_to_multiset_ensures;

    let leq = i64_le();
    assert(total_ordering(leq));
    d1.lemma_sort_by_ensures(leq);
    d2.lemma_sort_by_ensures(leq);
    vstd::seq_lib::lemma_sorted_unique(d1.sort_by(leq), d2.sort_by(leq), leq);
    assert(d1.len() == d1.to_multiset().len());
    assert(d2.len() == d2.to_multiset().len());
    lemma_sum_permutation(d1, d2);
}

/// One more duration adds one sample and adds its length to the total.
pub proof fn lemma_summary_of_one_more(d: Seq<i64>, x: i64)
    requires
        d.len() < i64::MAX,
    ensures
        velocity_summary_spec(d.push(x)).sample_count == velocity_summary_spec(d).sample_count + 1,
        velocity_summary_spec(d.push(x)).total_seconds == Some(
            (match velocity_summary_spec(d).total_seconds {
                Some(t) => t as int,
                None => 0,
            } + x) as i128,
        ),
{
    assert(d.push(x).drop_last() =~= d);
    lemma_seq_sum_bound(d);
    if d.len() > 0 {
        assert(d.len() * i64::MIN >= i64::MAX * i64::MIN) by (nonlinear_arith)
            requires
                0 <= d.len() <= i64::MAX,
        ;
        assert(d.len() * i64::MAX <= i64::MAX * i64::MAX) by (nonlinear_arith)
            requires
                0 <= d.len() <= i64::MAX,
        ;
    }
}

} // verus!
