//! Turns the indicator series into one flattened feature row per labelled bar.
use vstd::prelude::*;
use std::collections::BTreeMap;
use crate::data::market_data::MarketData;
use crate::float_bits::{is_nan, spec_is_nan, ZERO_BITS};
use crate::indicators::specs::IndicatorSpec;
pub use crate::labels::label_fns::LabelContext;

verus! {

broadcast use vstd::laws_cmp::group_laws_cmp;

/// An experiment: the window length, the indicators, the labelling rule and
/// the rule that turns a predicted label into a trade signal.
pub struct ExperimentSpec<L, P> {
    pub window_size: usize,
    pub indicators: Vec<IndicatorSpec>,
    pub label_fn: L,
    pub prediction_to_signal: P,
}

/// One feature row per kept bar, its label, and the bar it came from.
pub struct FeatureDataset {
    pub features: Vec<Vec<u64>>,
    pub labels: Vec<i32>,
    pub feature_indices: Vec<usize>,
    pub feature_count: usize,
}

/// Counts of what the build kept and dropped.
pub struct FeatureBuildReport {
    pub features_before_clean: usize,
    pub rows_with_nan: usize,
    pub skipped_by_label: usize,
    pub label_counts: BTreeMap<i32, usize>,
}

/// A missing indicator reading enters the features as `0.0`.
pub open spec fn fill(v: Option<u64>) -> u64 {
    match v {
        Some(x) => x,
        None => ZERO_BITS,
    }
}

/// One indicator row with missing readings filled.
pub open spec fn filled_row(row: Seq<Option<u64>>) -> Seq<u64> {
    row.map_values(|v: Option<u64>| fill(v))
}

/// The filled rows `lo .. hi` (exclusive) laid end to end.
pub open spec fn window_values(rows: Seq<Vec<Option<u64>>>, lo: int, hi: int) -> Seq<u64>
    decreases hi - lo,
{
    if hi <= lo {
        Seq::empty()
    } else {
        window_values(rows, lo, hi - 1) + filled_row(rows[hi - 1]@)
    }
}

/// The feature row of bar `idx`: the `window` indicator rows ending at `idx`.
pub open spec fn feature_row(md: MarketData, idx: int, window: int) -> Seq<u64> {
    window_values(md.indicator_values@, idx + 1 - window, idx + 1)
}

/// Whether any value of `f` is NaN.
pub open spec fn has_nan(f: Seq<u64>) -> bool {
    exists|j: int| 0 <= j < f.len() && spec_is_nan(#[trigger] f[j])
}

/// The dataset after the first `k` candidate bars (`window - 1`, `window`, ...),
/// with `outs[k]` the labelling rule's answer for candidate `k`:
/// (features, labels, indices, rows before cleaning, rows with NaN, rows skipped by the label).
pub open spec fn spec_scan(md: MarketData, window: int, outs: Seq<Option<i32>>, k: int)
    -> (Seq<Seq<u64>>, Seq<i32>, Seq<usize>, nat, nat, nat)
    decreases k,
{
    if k <= 0 {
        (Seq::empty(), Seq::empty(), Seq::empty(), 0, 0, 0)
    } else {
        let prev = spec_scan(md, window, outs, k - 1);
        let idx = window - 1 + (k - 1);
        match outs[k - 1] {
            None => (prev.0, prev.1, prev.2, prev.3, prev.4, prev.5 + 1),
            Some(label) => {
                let f = feature_row(md, idx, window);
                if has_nan(f) {
                    (prev.0, prev.1, prev.2, prev.3 + 1, prev.4 + 1, prev.5)
                } else {
                    (prev.0.push(f), prev.1.push(label), prev.2.push(idx as usize), prev.3 + 1, prev.4, prev.5)
                }
            },
        }
    }
}

/// The number of candidate bars: `window - 1 .. len`.
pub open spec fn candidate_count(md: MarketData, window: int) -> int {
    md.closes@.len() - (window - 1)
}

/// How often `l` occurs in `s`.
pub open spec fn occurrences(s: Seq<i32>, l: i32) -> nat
    decreases s.len(),
{
    if s.len() == 0 {
        0
    } else {
        occurrences(s.drop_last(), l) + if s.last() == l { 1nat } else { 0nat }
    }
}

/// The label histogram of `s`: each label that occurs, with its count.
pub open spec fn label_histogram(s: Seq<i32>) -> Map<i32, usize> {
    Map::new(|l: i32| s.contains(l), |l: i32| occurrences(s, l) as usize)
}

/// Whether `r` is what building from `md` gives when the labelling rule
/// answered `outs` for the candidate bars.
pub open spec fn build_result(
    md: MarketData,
    window: int,
    n_indicators: int,
    outs: Seq<Option<i32>>,
    r: Option<(FeatureDataset, FeatureBuildReport)>,
) -> bool {
    let m = spec_scan(md, window, outs, candidate_count(md, window));
    if m.0.len() == 0 {
        r is None
    } else {
        match r {
            Some((ds, rep)) => {
                &&& ds.features@.map_values(|v: Vec<u64>| v@) == m.0
                &&& ds.labels@ == m.1
                &&& ds.feature_indices@ == m.2
                &&& ds.feature_count == window * n_indicators
                &&& rep.features_before_clean == m.3
                &&& rep.rows_with_nan == m.4
                &&& rep.skipped_by_label == m.5
                &&& rep.label_counts@ == label_histogram(m.1)
            },
            None => false,
        }
    }
}


/// What the scan after `k` candidates counts: every candidate is either
/// skipped by its label or examined, and NaN rows are among the examined.
pub proof fn lemma_scan_counts(md: MarketData, window: int, outs: Seq<Option<i32>>, k: int)
    requires
        0 <= k <= outs.len(),
    ensures
        spec_scan(md, window, outs, k).3 + spec_scan(md, window, outs, k).5 == k,
        spec_scan(md, window, outs, k).4 <= spec_scan(md, window, outs, k).3,
        spec_scan(md, window, outs, k).0.len() + spec_scan(md, window, outs, k).4
            == spec_scan(md, window, outs, k).3,
        spec_scan(md, window, outs, k).1.len() == spec_scan(md, window, outs, k).0.len(),
        spec_scan(md, window, outs, k).2.len() == spec_scan(md, window, outs, k).0.len(),
    decreases k,
{
    if k > 0 {
        lemma_scan_counts(md, window, outs, k - 1);
    }
}

/// The scan of the first `k` candidates reads only the first `k` answers.
pub proof fn lemma_scan_prefix(md: MarketData, window: int, outs: Seq<Option<i32>>, o: Option<i32>, k: int)
    requires
        0 <= k <= outs.len(),
    ensures
        spec_scan(md, window, outs.push(o), k) == spec_scan(md, window, outs, k),
    decreases k,
{
    if k > 0 {
        lemma_scan_prefix(md, window, outs, o, k - 1);
        assert(outs.push(o)[k - 1] == outs[k - 1]);
    }
}

/// A label occurs no more often than the sequence is long.
pub proof fn lemma_occurrences_bound(s: Seq<i32>, l: i32)
    ensures
        occurrences(s, l) <= s.len(),
        occurrences(s, l) > 0 <==> s.contains(l),
    decreases s.len(),
{
    if s.len() > 0 {
        lemma_occurrences_bound(s.drop_last(), l);
        if s.last() == l {
            assert(s[s.len() - 1] == l);
        }
        if s.drop_last().contains(l) {
            let j = choose|j: int| 0 <= j < s.drop_last().len() && s.drop_last()[j] == l;
            assert(s[j] == l);
        }
        if s.contains(l) && s.last() != l {
            let j = choose|j: int| 0 <= j < s.len() && s[j] == l;
            assert(s.drop_last()[j] == l);
        }
    }
}

/// What every kept row of the scan after `k` candidates satisfies: it is the
/// window ending at its bar, holds no NaN, its bar is a candidate the rule
/// labelled with the kept label, and the bars increase.
pub proof fn lemma_scan_rows(md: MarketData, window: int, outs: Seq<Option<i32>>, k: int)
    requires
        0 <= k <= outs.len(),
        window >= 1,
        window - 1 + k <= usize::MAX,
    ensures
        ({
            let m = spec_scan(md, window, outs, k);
            forall|j: int|
                0 <= j < m.0.len() ==> {
                    &&& m.0[j] == feature_row(md, m.2[j] as int, window)
                    &&& !has_nan(#[trigger] m.0[j])
                    &&& window - 1 <= m.2[j] < window - 1 + k
                    &&& outs[m.2[j] - (window - 1)] == Some(m.1[j])
                    &&& j > 0 ==> m.2[j - 1] < m.2[j]
                }
        }),
    decreases k,
{
    lemma_scan_counts(md, window, outs, k);
    if k > 0 {
        lemma_scan_rows(md, window, outs, k - 1);
        lemma_scan_counts(md, window, outs, k - 1);
        let prev = spec_scan(md, window, outs, k - 1);
        let m = spec_scan(md, window, outs, k);
        let idx = window - 1 + (k - 1);
        match outs[k - 1] {
            None => {
                assert(m.0 == prev.0 && m.1 == prev.1 && m.2 == prev.2);
                assert forall|j: int| 0 <= j < m.0.len() implies {
                    &&& m.0[j] == feature_row(md, m.2[j] as int, window)
                    &&& !has_nan(#[trigger] m.0[j])
                    &&& window - 1 <= m.2[j] < window - 1 + k
                    &&& outs[m.2[j] - (window - 1)] == Some(m.1[j])
                    &&& j > 0 ==> m.2[j - 1] < m.2[j]
                } by {
                    assert(!has_nan(prev.0[j]));
                }
            },
            Some(label) => {
                let f = feature_row(md, idx, window);
                if has_nan(f) {
                    assert(m.0 == prev.0 && m.1 == prev.1 && m.2 == prev.2);
                    assert forall|j: int| 0 <= j < m.0.len() implies {
                        &&& m.0[j] == feature_row(md, m.2[j] as int, window)
                        &&& !has_nan(#[trigger] m.0[j])
                        &&& window - 1 <= m.2[j] < window - 1 + k
                        &&& outs[m.2[j] - (window - 1)] == Some(m.1[j])
                        &&& j > 0 ==> m.2[j - 1] < m.2[j]
                    } by {
                        assert(!has_nan(prev.0[j]));
                    }
                } else {
                    assert(m.0 == prev.0.push(f));
                    assert(m.1 == prev.1.push(label));
                    assert(m.2 == prev.2.push(idx as usize));
                    assert forall|j: int| 0 <= j < m.0.len() implies {
                        &&& m.0[j] == feature_row(md, m.2[j] as int, window)
                        &&& !has_nan(#[trigger] m.0[j])
                        &&& window - 1 <= m.2[j] < window - 1 + k
                        &&& outs[m.2[j] - (window - 1)] == Some(m.1[j])
                        &&& j > 0 ==> m.2[j - 1] < m.2[j]
                    } by {
                        if j < prev.0.len() {
                            assert(m.0[j] == prev.0[j]);
                            assert(m.1[j] == prev.1[j]);
                            assert(m.2[j] == prev.2[j]);
                            assert(!has_nan(prev.0[j]));
                            if j > 0 {
                                assert(m.2[j - 1] == prev.2[j - 1]);
                            }
                        } else {
                            assert(m.2[j] as int == idx);
                            assert(m.1[j] == label);
                            if j > 0 {
                                assert(m.2[j - 1] == prev.2[j - 1]);
                                assert(!has_nan(prev.0[j - 1]));
                            }
                        }
                    }
                }
            },
        }
    }
}

/// Each kept row is the window of indicator rows ending at its bar (missing
/// readings as `0.0`), holds no NaN, and carries the label the rule gave
/// that bar; the bars are candidates in strictly increasing order.
pub proof fn law_rows_are_clean_windows(
    md: MarketData,
    window: int,
    n_indicators: int,
    outs: Seq<Option<i32>>,
    ds: FeatureDataset,
    rep: FeatureBuildReport,
)
    requires
        window >= 1,
        md.closes@.len() <= usize::MAX,
        outs.len() == candidate_count(md, window),
        candidate_count(md, window) >= 0,
        build_result(md, window, n_indicators, outs, Some((ds, rep))),
    ensures
        forall|j: int|
            0 <= j < ds.features@.len() ==> {
                &&& (#[trigger] ds.features@[j])@ == feature_row(md, ds.feature_indices@[j] as int, window)
                &&& !has_nan(ds.features@[j]@)
                &&& window - 1 <= ds.feature_indices@[j] < md.closes@.len()
                &&& outs[ds.feature_indices@[j] - (window - 1)] == Some(ds.labels@[j])
                &&& j > 0 ==> ds.feature_indices@[j - 1] < ds.feature_indices@[j]
            },
{
    let k = candidate_count(md, window);
    lemma_scan_rows(md, window, outs, k);
    lemma_scan_counts(md, window, outs, k);
    let m = spec_scan(md, window, outs, k);
    assert forall|j: int| 0 <= j < ds.features@.len() implies (#[trigger] ds.features@[j])@ == m.0[j] by {
        assert(ds.features@.map_values(|v: Vec<u64>| v@)[j] == ds.features@[j]@);
    }
}

/// Every candidate bar is accounted for exactly once: kept, dropped for a
/// NaN, or skipped by its label; features, labels and bar indices line up.
pub proof fn law_rows_accounted(
    md: MarketData,
    window: int,
    n_indicators: int,
    outs: Seq<Option<i32>>,
    ds: FeatureDataset,
    rep: FeatureBuildReport,
)
    requires
        outs.len() == candidate_count(md, window),
        candidate_count(md, window) >= 0,
        build_result(md, window, n_indicators, outs, Some((ds, rep))),
    ensures
        ds.features@.len() + rep.rows_with_nan + rep.skipped_by_label == candidate_count(md, window),
        rep.features_before_clean == ds.features@.len() + rep.rows_with_nan,
        ds.labels@.len() == ds.features@.len(),
        ds.feature_indices@.len() == ds.features@.len(),
        ds.features@.len() > 0,
{
    let k = candidate_count(md, window);
    lemma_scan_counts(md, window, outs, k);
    let m = spec_scan(md, window, outs, k);
    assert(ds.features@.map_values(|v: Vec<u64>| v@).len() == ds.features@.len());
}

/// The feature row of a bar has `window * n` values when every indicator
/// row in its window has `n` readings.
pub proof fn lemma_window_len(rows: Seq<Vec<Option<u64>>>, lo: int, hi: int, n: int)
    requires
        0 <= lo <= hi <= rows.len(),
        forall|i: int| lo <= i < hi ==> (#[trigger] rows[i])@.len() == n,
    ensures
        window_values(rows, lo, hi).len() == (hi - lo) * n,
    decreases hi - lo,
{
    if hi <= lo {
        assert((hi - lo) * n == 0) by (nonlinear_arith)
            requires
                hi == lo,
        ;
    } else {
        lemma_window_len(rows, lo, hi - 1, n);
        assert(window_values(rows, lo, hi) == window_values(rows, lo, hi - 1) + filled_row(rows[hi - 1]@));
        assert(filled_row(rows[hi - 1]@).len() == n);
        assert((hi - lo) * n == (hi - 1 - lo) * n + n) by (nonlinear_arith);
    }
}

/// When every bar has one reading per indicator, every kept row has exactly
/// `feature_count` (window length times indicator count) values.
pub proof fn law_row_width(
    md: MarketData,
    window: int,
    n_indicators: int,
    outs: Seq<Option<i32>>,
    ds: FeatureDataset,
    rep: FeatureBuildReport,
)
    requires
        window >= 1,
        md.closes@.len() <= usize::MAX,
        md.indicator_values@.len() >= md.closes@.len(),
        forall|i: int| 0 <= i < md.indicator_values@.len()
            ==> (#[trigger] md.indicator_values@[i])@.len() == n_indicators,
        outs.len() == candidate_count(md, window),
        candidate_count(md, window) >= 0,
        build_result(md, window, n_indicators, outs, Some((ds, rep))),
    ensures
        forall|j: int| 0 <= j < ds.features@.len() ==> (#[trigger] ds.features@[j])@.len() == ds.feature_count,
{
    law_rows_are_clean_windows(md, window, n_indicators, outs, ds, rep);
    law_rows_accounted(md, window, n_indicators, outs, ds, rep);
    assert forall|j: int| 0 <= j < ds.features@.len() implies (#[trigger] ds.features@[j])@.len() == ds.feature_count by {
        assert(ds.features@[j]@ == feature_row(md, ds.feature_indices@[j] as int, window));
        assert(window - 1 <= ds.feature_indices@[j] < md.closes@.len());
        let idx = ds.feature_indices@[j] as int;
        lemma_window_len(md.indicator_values@, idx + 1 - window, idx + 1, n_indicators);
        assert(window * n_indicators == (idx + 1 - (idx + 1 - window)) * n_indicators);
    }
}

/// Position `(b - lo) * n + j` of the laid-out rows `lo .. hi` holds reading
/// `j` of row `b`, or the bits of `+0.0` (all zero) when that reading is missing.
pub proof fn lemma_window_value_at(rows: Seq<Vec<Option<u64>>>, lo: int, hi: int, n: int, b: int, j: int)
    requires
        0 <= lo <= b < hi <= rows.len(),
        0 <= j < n,
        forall|i: int| lo <= i < hi ==> (#[trigger] rows[i])@.len() == n,
    ensures
        window_values(rows, lo, hi).len() == (hi - lo) * n,
        window_values(rows, lo, hi)[(b - lo) * n + j] == (match rows[b]@[j] {
            Some(x) => x,
            None => 0u64,
        }),
    decreases hi - lo,
{
    lemma_window_len(rows, lo, hi, n);
    lemma_window_len(rows, lo, hi - 1, n);
    let prev = window_values(rows, lo, hi - 1);
    assert(window_values(rows, lo, hi) == prev + filled_row(rows[hi - 1]@));
    if b < hi - 1 {
        lemma_window_value_at(rows, lo, hi - 1, n, b, j);
        assert((b - lo) * n + j < (hi - 1 - lo) * n) by (nonlinear_arith)
            requires
                0 <= b - lo < hi - 1 - lo,
                0 <= j < n,
        ;
        assert(0 <= (b - lo) * n + j) by (nonlinear_arith)
            requires
                0 <= b - lo,
                0 <= j,
                0 < n,
        ;
    } else {
        assert((b - lo) * n + j == (hi - 1 - lo) * n + j);
        assert(filled_row(rows[hi - 1]@)[j] == fill(rows[hi - 1]@[j]));
    }
}

/// The feature row of bar `idx` lists the readings of the `window` bars
/// ending at `idx`, oldest bar first and in indicator order within a bar:
/// position `(b - (idx + 1 - window)) * n + j` holds reading `j` of bar `b`,
/// with a missing reading as `+0.0` (all-zero bits).
pub proof fn law_feature_row_layout(md: MarketData, idx: int, window: int, n: int, b: int, j: int)
    requires
        1 <= window <= idx + 1,
        idx < md.indicator_values@.len(),
        idx + 1 - window <= b <= idx,
        0 <= j < n,
        forall|i: int| idx + 1 - window <= i <= idx ==> (#[trigger] md.indicator_values@[i])@.len() == n,
    ensures
        feature_row(md, idx, window).len() == window * n,
        feature_row(md, idx, window)[(b - (idx + 1 - window)) * n + j] == (match md.indicator_values@[b]@[j] {
            Some(x) => x,
            None => 0u64,
        }),
{
    lemma_window_value_at(md.indicator_values@, idx + 1 - window, idx + 1, n, b, j);
}

fn any_nan(f: &Vec<u64>) -> (r: bool)
    ensures
        r == has_nan(f@),
{
    let mut j: usize = 0;
    while j < f.len()
        invariant
            j <= f@.len(),
            forall|i: int| 0 <= i < j ==> !spec_is_nan(#[trigger] f@[i]),
        decreases f@.len() - j,
    {
        if is_nan(f[j]) {
            return true;
        }
        j = j + 1;
    }
    false
}

fn window_feature_row(md: &MarketData, idx: usize, window: usize) -> (f: Vec<u64>)
    requires
        1 <= window <= idx + 1,
        idx < md.indicator_values@.len(),
    ensures
        f@ == feature_row(*md, idx as int, window as int),
{
    let ghost rows = md.indicator_values@;
    let nrows = md.indicator_values.len();
    assert(idx < nrows);
    let lo = idx + 1 - window;
    let mut f: Vec<u64> = Vec::new();
    let mut b = lo;
    let end = idx + 1;
    while b < end
        invariant
            end == idx + 1,
            lo <= b <= idx + 1,
            lo == idx + 1 - window,
            idx < md.indicator_values@.len(),
            rows == md.indicator_values@,
            f@ == window_values(rows, lo as int, b as int),
        decreases end - b,
    {
        let row = &md.indicator_values[b];
        let ghost before = f@;
        let mut j: usize = 0;
        while j < row.len()
            invariant
                j <= row@.len(),
                f@ == before + filled_row(row@).take(j as int),
            decreases row@.len() - j,
        {
            let v = match row[j] {
                Some(x) => x,
                None => ZERO_BITS,
            };
            f.push(v);
            proof {
                assert(filled_row(row@).take(j + 1) =~= filled_row(row@).take(j as int).push(v));
            }
            j = j + 1;
        }
        proof {
            assert(filled_row(row@).take(j as int) =~= filled_row(row@));
            assert(rows[b as int] == *row);
        }
        b = b + 1;
    }
    f
}

fn count_labels(labels: &Vec<i32>) -> (r: BTreeMap<i32, usize>)
    ensures
        r@ == label_histogram(labels@),
{
    let mut counts: BTreeMap<i32, usize> = BTreeMap::new();
    let mut i: usize = 0;
    while i < labels.len()
        invariant
            i <= labels@.len(),
            counts@ =~= label_histogram(labels@.take(i as int)),
        decreases labels@.len() - i,
    {
        let l = labels[i];
        let ghost prefix = labels@.take(i as int);
        let ghost next = labels@.take(i + 1);
        proof {
            assert(next.drop_last() =~= prefix);
            assert(next.last() == l);
            lemma_occurrences_bound(prefix, l);
        }
        let c: usize = match counts.get(&l) {
            Some(c) => *c,
            None => 0,
        };
        counts.insert(l, c + 1);
        proof {
            assert forall|x: i32| #[trigger] next.contains(x) <==> prefix.contains(x) || x == l by {
                if next.contains(x) && x != l {
                    let j = choose|j: int| 0 <= j < next.len() && next[j] == x;
                    assert(prefix[j] == x);
                }
                if prefix.contains(x) {
                    let j = choose|j: int| 0 <= j < prefix.len() && prefix[j] == x;
                    assert(next[j] == x);
                }
                if x == l {
                    assert(next[i as int] == l);
                }
            }
            assert(counts@ =~= label_histogram(next));
        }
        i = i + 1;
    }
    proof {
        assert(labels@.take(i as int) =~= labels@);
    }
    counts
}

/// Builds one feature row per candidate bar (`window_size - 1 ..` the last
/// bar) that the labelling rule labels and whose window holds no NaN; the row
/// is the window's indicator rows laid end to end, missing readings as `0.0`.
/// There is no dataset when the window is empty, there are no indicators,
/// there are fewer bars than the window, or no row survives. Every bar the
/// rule labels must have an indicator row (the window is read from it).
pub fn build_feature_dataset<'a, L, P>(
    market_data: &'a MarketData,
    spec: &ExperimentSpec<L, P>,
) -> (r: Option<(FeatureDataset, FeatureBuildReport)>)
    where
        L: Fn(&LabelContext<'a>) -> Option<i32>,
    requires
        spec.window_size * spec.indicators@.len() <= usize::MAX,
        forall|i: usize|
            call_requires(spec.label_fn, (&LabelContext::spec_new(i, market_data),)),
        forall|i: usize, o: Option<i32>|
            #![trigger call_ensures(spec.label_fn, (&LabelContext::spec_new(i, market_data),), o)]
            i < market_data.closes@.len() && o is Some && call_ensures(
                spec.label_fn,
                (&LabelContext::spec_new(i, market_data),),
                o,
            ) ==> i < market_data.indicator_values@.len(),
    ensures
        spec.window_size == 0 || spec.indicators@.len() == 0
            || market_data.closes@.len() < spec.window_size ==> r is None,
        !(spec.window_size == 0 || spec.indicators@.len() == 0
            || market_data.closes@.len() < spec.window_size) ==> exists|outs: Seq<Option<i32>>|
            {
                &&& outs.len() == candidate_count(*market_data, spec.window_size as int)
                &&& forall|k: int|
                    0 <= k < outs.len() ==> call_ensures(
                        spec.label_fn,
                        (&LabelContext::spec_new((spec.window_size - 1 + k) as usize, market_data),),
                        #[trigger] outs[k],
                    )
                &&& build_result(
                    *market_data,
                    spec.window_size as int,
                    spec.indicators@.len() as int,
                    outs,
                    r,
                )
            },
{
    let window = spec.window_size;
    let feature_count = window * spec.indicators.len();
    if window == 0 || spec.indicators.len() == 0 || market_data.len() < window {
        return None;
    }
    let ghost md = *market_data;
    let n = market_data.len();
    let mut features: Vec<Vec<u64>> = Vec::new();
    let mut labels: Vec<i32> = Vec::new();
    let mut feature_indices: Vec<usize> = Vec::new();
    let mut rows_with_nan: usize = 0;
    let mut skipped_by_label: usize = 0;
    let mut features_before_clean: usize = 0;
    let ghost mut outs: Seq<Option<i32>> = Seq::empty();
    let mut idx = window - 1;
    while idx < n
        invariant
            1 <= window <= n,
            n == md.closes@.len(),
            md == *market_data,
            window == spec.window_size,
            forall|i: usize, o: Option<i32>|
                #![trigger call_ensures(spec.label_fn, (&LabelContext::spec_new(i, market_data),), o)]
                i < n && o is Some && call_ensures(
                    spec.label_fn,
                    (&LabelContext::spec_new(i, market_data),),
                    o,
                ) ==> i < market_data.indicator_values@.len(),
            window - 1 <= idx <= n,
            outs.len() == idx - (window - 1),
            forall|i: usize|
                call_requires(spec.label_fn, (&LabelContext::spec_new(i, market_data),)),
            forall|k: int|
                0 <= k < outs.len() ==> call_ensures(
                    spec.label_fn,
                    (&LabelContext::spec_new((window - 1 + k) as usize, market_data),),
                    #[trigger] outs[k],
                ),
            spec_scan(md, window as int, outs, outs.len() as int) == (
                features@.map_values(|v: Vec<u64>| v@),
                labels@,
                feature_indices@,
                features_before_clean as nat,
                rows_with_nan as nat,
                skipped_by_label as nat,
            ),
        decreases n - idx,
    {
        let ctx = LabelContext::new(idx, market_data);
        let out = (spec.label_fn)(&ctx);
        let ghost k = outs.len() as int;
        proof {
            lemma_scan_prefix(md, window as int, outs, out, k);
            lemma_scan_counts(md, window as int, outs, k);
            outs = outs.push(out);
            assert(outs[k] == out);
        }
        match out {
            None => {
                skipped_by_label = skipped_by_label + 1;
            },
            Some(label) => {
                let feature_vec = window_feature_row(market_data, idx, window);
                features_before_clean = features_before_clean + 1;
                if any_nan(&feature_vec) {
                    rows_with_nan = rows_with_nan + 1;
                } else {
                    let ghost fv = feature_vec@;
                    features.push(feature_vec);
                    labels.push(label);
                    feature_indices.push(idx);
                    proof {
                        assert(features@.map_values(|v: Vec<u64>| v@) =~= spec_scan(
                            md,
                            window as int,
                            outs,
                            k,
                        ).0.push(fv));
                    }
                }
            },
        }
        idx = idx + 1;
    }
    proof {
        assert(outs.len() == candidate_count(md, window as int));
    }
    if features.len() == 0 {
        proof {
            assert(build_result(md, window as int, spec.indicators@.len() as int, outs, None));
        }
        return None;
    }
    let label_counts = count_labels(&labels);
    let r = Some(
        (
            FeatureDataset { features, labels, feature_indices, feature_count },
            FeatureBuildReport {
                features_before_clean,
                rows_with_nan,
                skipped_by_label,
                label_counts,
            },
        ),
    );
    proof {
        assert(build_result(md, window as int, spec.indicators@.len() as int, outs, r));
    }
    r
}

} // verus!
