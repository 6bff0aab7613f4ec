//! Accuracy accounting of a prediction run and the bars on which it holds a position.
use vstd::prelude::*;
use std::collections::BTreeMap;
use crate::ml::predict::Prediction;

verus! {

broadcast use vstd::laws_cmp::group_laws_cmp;

/// How often one true label occurred and how often it was predicted.
#[derive(Debug, Clone, Copy, PartialEq, Eq, Structural)]
pub struct LabelMetrics {
    pub total: usize,
    pub correct: usize,
}

/// The counts of a backtest and, per prediction, whether it holds a long
/// position over the next price step.
pub struct BacktestMetrics {
    pub total_predictions: usize,
    pub correct_predictions: usize,
    pub label_metrics: BTreeMap<i32, LabelMetrics>,
    pub positions: Vec<bool>,
}

/// Whether a prediction got its true label.
pub open spec fn is_correct(p: Prediction) -> bool {
    p.actual == Some(p.predicted)
}

/// The number of correct predictions in `s`.
pub open spec fn correct_count(s: Seq<Prediction>) -> nat
    decreases s.len(),
{
    if s.len() == 0 {
        0
    } else {
        correct_count(s.drop_last()) + if is_correct(s.last()) { 1nat } else { 0nat }
    }
}

/// The number of predictions in `s` whose true label is `l`.
pub open spec fn label_total(s: Seq<Prediction>, l: i32) -> nat
    decreases s.len(),
{
    if s.len() == 0 {
        0
    } else {
        label_total(s.drop_last(), l) + if s.last().actual == Some(l) { 1nat } else { 0nat }
    }
}

/// The number of predictions in `s` whose true label is `l` and that predicted `l`.
pub open spec fn label_correct(s: Seq<Prediction>, l: i32) -> nat
    decreases s.len(),
{
    if s.len() == 0 {
        0
    } else {
        label_correct(s.drop_last(), l) + if s.last().actual == Some(l) && s.last().predicted == l {
            1nat
        } else {
            0nat
        }
    }
}

/// Whether `l` is the true label of some prediction in `s`.
pub open spec fn has_actual(s: Seq<Prediction>, l: i32) -> bool {
    exists|i: int| 0 <= i < s.len() && (#[trigger] s[i]).actual == Some(l)
}

/// Per true label: how often it occurred and how often it was predicted.
pub open spec fn spec_label_metrics(s: Seq<Prediction>) -> Map<i32, LabelMetrics> {
    Map::new(
        |l: i32| has_actual(s, l),
        |l: i32| LabelMetrics { total: label_total(s, l) as usize, correct: label_correct(s, l) as usize },
    )
}

/// Counting lemma: the counts are bounded by the length and the correct ones by the totals.
pub proof fn lemma_counts_bounded(s: Seq<Prediction>, l: i32)
    ensures
        label_correct(s, l) <= label_total(s, l),
        label_total(s, l) <= s.len(),
        correct_count(s) <= s.len(),
        label_total(s, l) > 0 <==> has_actual(s, l),
    decreases s.len(),
{
    if s.len() > 0 {
        let d = s.drop_last();
        lemma_counts_bounded(d, l);
        if has_actual(d, l) {
            let j = choose|j: int| 0 <= j < d.len() && (#[trigger] d[j]).actual == Some(l);
            assert(s[j] == d[j]);
        }
        if has_actual(s, l) && s.last().actual != Some(l) {
            let j = choose|j: int| 0 <= j < s.len() && (#[trigger] s[j]).actual == Some(l);
            assert(d[j] == s[j]);
        }
        if s.last().actual == Some(l) {
            assert(s[s.len() - 1].actual == Some(l));
        }
    }
}

/// Per true label, how often it occurred and how often it was predicted.
pub fn label_metrics(predictions: &Vec<Prediction>) -> (r: BTreeMap<i32, LabelMetrics>)
    ensures
        r@ == spec_label_metrics(predictions@),
{
    let mut counts: BTreeMap<i32, LabelMetrics> = BTreeMap::new();
    let mut i: usize = 0;
    while i < predictions.len()
        invariant
            i <= predictions@.len(),
            counts@ =~= spec_label_metrics(predictions@.take(i as int)),
        decreases predictions@.len() - i,
    {
        let p = predictions[i];
        let ghost prefix = predictions@.take(i as int);
        let ghost next = predictions@.take(i + 1);
        proof {
            assert(next.drop_last() =~= prefix);
            assert(next.last() == p);
        }
        match p.actual {
            None => {
                proof {
                    assert forall|l: i32| #[trigger] has_actual(next, l) <==> has_actual(prefix, l) by {
                        if has_actual(next, l) {
                            let j = choose|j: int| 0 <= j < next.len() && (#[trigger] next[j]).actual == Some(l);
                            assert(prefix[j] == next[j]);
                        }
                        if has_actual(prefix, l) {
                            let j = choose|j: int| 0 <= j < prefix.len() && (#[trigger] prefix[j]).actual == Some(l);
                            assert(next[j] == prefix[j]);
                        }
                    }
                    assert(counts@ =~= spec_label_metrics(next));
                }
            },
            Some(actual) => {
                proof {
                    lemma_counts_bounded(prefix, actual);
                }
                let old_m = match counts.get(&actual) {
                    Some(m) => *m,
                    None => LabelMetrics { total: 0, correct: 0 },
                };
                let correct = if p.predicted == actual { old_m.correct + 1 } else { old_m.correct };
                counts.insert(actual, LabelMetrics { total: old_m.total + 1, correct });
                proof {
                    assert forall|l: i32| #[trigger] has_actual(next, l) <==> (has_actual(prefix, l) || l == actual) by {
                        if has_actual(next, l) && l != actual {
                            let j = choose|j: int| 0 <= j < next.len() && (#[trigger] next[j]).actual == Some(l);
                            assert(prefix[j] == next[j]);
                        }
                        if has_actual(prefix, l) {
                            let j = choose|j: int| 0 <= j < prefix.len() && (#[trigger] prefix[j]).actual == Some(l);
                            assert(next[j] == prefix[j]);
                        }
                        if l == actual {
                            assert(next[i as int].actual == Some(l));
                        }
                    }
                    assert(counts@ =~= spec_label_metrics(next));
                }
            },
        }
        i = i + 1;
    }
    proof {
        assert(predictions@.take(i as int) =~= predictions@);
    }
    counts
}

/// Whether `r` is the outcome of a backtest of `predictions` over `n_prices`
/// prices when the signal rule answered `signals` for the predictions.
pub open spec fn backtest_result(
    predictions: Seq<Prediction>,
    n_prices: int,
    signals: Seq<i32>,
    r: BacktestMetrics,
) -> bool {
    &&& r.total_predictions == predictions.len()
    &&& r.correct_predictions == correct_count(predictions)
    &&& r.label_metrics@ == spec_label_metrics(predictions)
    &&& r.positions@.len() == predictions.len()
    &&& forall|i: int|
        0 <= i < predictions.len() ==> #[trigger] r.positions@[i] == (signals[i] == 1 && i + 1 < n_prices)
}

/// A backtest never counts more correct predictions than predictions; for
/// every true label it reports, the label occurred and was predicted at most
/// as often as it occurred; it reports exactly the labels that occur as true
/// labels; and it never holds a position on the last price step.
pub proof fn law_metrics_bounded(predictions: Seq<Prediction>, n_prices: int, signals: Seq<i32>, r: BacktestMetrics)
    requires
        backtest_result(predictions, n_prices, signals, r),
    ensures
        r.correct_predictions <= r.total_predictions,
        forall|l: i32| #[trigger] r.label_metrics@.contains_key(l) <==> has_actual(predictions, l),
        forall|l: i32| #[trigger] r.label_metrics@.contains_key(l) ==> {
            &&& 0 < r.label_metrics@[l].total <= r.total_predictions
            &&& r.label_metrics@[l].correct <= r.label_metrics@[l].total
        },
        forall|i: int| 0 <= i < r.positions@.len() && #[trigger] r.positions@[i] ==> i + 1 < n_prices,
{
    lemma_counts_bounded(predictions, 0);
    assert forall|l: i32| #[trigger] r.label_metrics@.contains_key(l) implies {
        &&& 0 < r.label_metrics@[l].total <= r.total_predictions
        &&& r.label_metrics@[l].correct <= r.label_metrics@[l].total
    } by {
        lemma_counts_bounded(predictions, l);
    }
}

/// Per label, the predictions that got label `l` right are among those that
/// got their label right; when every prediction predicts `l`, they are all of them.
pub proof fn lemma_label_correct_within_correct(s: Seq<Prediction>, l: i32)
    ensures
        label_correct(s, l) <= correct_count(s),
        (forall|k: int| 0 <= k < s.len() ==> (#[trigger] s[k]).predicted == l) ==> label_correct(s, l)
            == correct_count(s),
        (forall|k: int| 0 <= k < s.len() ==> (#[trigger] s[k]).actual == Some(s[k].predicted))
            ==> correct_count(s) == s.len(),
    decreases s.len(),
{
    if s.len() > 0 {
        let d = s.drop_last();
        lemma_label_correct_within_correct(d, l);
        if forall|k: int| 0 <= k < s.len() ==> (#[trigger] s[k]).predicted == l {
            assert forall|k: int| 0 <= k < d.len() implies (#[trigger] d[k]).predicted == l by {
                assert(d[k] == s[k]);
            }
            assert(s[s.len() - 1].predicted == l);
        }
        if forall|k: int| 0 <= k < s.len() ==> (#[trigger] s[k]).actual == Some(s[k].predicted) {
            assert forall|k: int| 0 <= k < d.len() implies (#[trigger] d[k]).actual == Some(d[k].predicted) by {
                assert(d[k] == s[k]);
            }
            assert(s[s.len() - 1].actual == Some(s[s.len() - 1].predicted));
        }
    }
}

/// A backtest counts as correct exactly the predictions whose true label is
/// the predicted one: every reported label's correct count is part of the
/// overall correct count; when all predictions predict one label, the
/// overall correct count is that label's correct count; and when every
/// prediction is right, all are counted correct.
pub proof fn law_correct_count(predictions: Seq<Prediction>, n_prices: int, signals: Seq<i32>, r: BacktestMetrics, l: i32)
    requires
        backtest_result(predictions, n_prices, signals, r),
    ensures
        r.label_metrics@.contains_key(l) ==> r.label_metrics@[l].correct <= r.correct_predictions,
        r.label_metrics@.contains_key(l) && (forall|k: int|
            0 <= k < predictions.len() ==> (#[trigger] predictions[k]).predicted == l)
            ==> r.label_metrics@[l].correct == r.correct_predictions,
        (forall|k: int| 0 <= k < predictions.len() ==> (#[trigger] predictions[k]).actual == Some(predictions[k].predicted))
            ==> r.correct_predictions == r.total_predictions,
{
    lemma_label_correct_within_correct(predictions, l);
    lemma_counts_bounded(predictions, l);
}

/// When every prediction's true label is `l`, that label occurred once per prediction.
pub proof fn lemma_label_total_all(s: Seq<Prediction>, l: i32)
    requires
        forall|k: int| 0 <= k < s.len() ==> (#[trigger] s[k]).actual == Some(l),
    ensures
        label_total(s, l) == s.len(),
    decreases s.len(),
{
    if s.len() > 0 {
        let d = s.drop_last();
        assert forall|k: int| 0 <= k < d.len() implies (#[trigger] d[k]).actual == Some(l) by {
            assert(d[k] == s[k]);
        }
        lemma_label_total_all(d, l);
        assert(s[s.len() - 1].actual == Some(l));
    }
}

/// A backtest holds a long position over step `i` exactly when the trade
/// signal of prediction `i` is 1 and a next price exists; and when every
/// true label is `l`, it reports `l` as having occurred once per prediction.
pub proof fn law_positions_and_totals(predictions: Seq<Prediction>, n_prices: int, signals: Seq<i32>, r: BacktestMetrics, l: i32)
    requires
        backtest_result(predictions, n_prices, signals, r),
    ensures
        forall|i: int| 0 <= i < predictions.len() ==> (#[trigger] r.positions@[i] <==> (signals[i] == 1 && i + 1 < n_prices)),
        predictions.len() > 0 && (forall|k: int| 0 <= k < predictions.len() ==> (#[trigger] predictions[k]).actual == Some(l))
            ==> r.label_metrics@.contains_key(l) && r.label_metrics@[l].total == r.total_predictions,
{
    if predictions.len() > 0 && (forall|k: int| 0 <= k < predictions.len() ==> (#[trigger] predictions[k]).actual == Some(l)) {
        lemma_label_total_all(predictions, l);
        assert(predictions[0].actual == Some(l));
        assert(has_actual(predictions, l));
    }
}

/// Scores `predictions` against their true labels and marks the steps on
/// which the trade signal of the prediction is long (1) and a next price
/// exists; the prices themselves only enter the equity arithmetic.
pub fn evaluate<F>(predictions: &Vec<Prediction>, prices: &Vec<u64>, prediction_to_signal: F) -> (r: BacktestMetrics)
    where
        F: Fn(i32) -> i32,
    requires
        forall|x: i32| call_requires(prediction_to_signal, (x,)),
    ensures
        exists|signals: Seq<i32>|
            {
                &&& signals.len() == predictions@.len()
                &&& forall|i: int|
                    0 <= i < signals.len() ==> call_ensures(
                        prediction_to_signal,
                        (predictions@[i].predicted,),
                        #[trigger] signals[i],
                    )
                &&& backtest_result(predictions@, prices@.len() as int, signals, r)
            },
{
    let total = predictions.len();
    let mut correct: usize = 0;
    let mut positions: Vec<bool> = Vec::new();
    let ghost mut signals: Seq<i32> = Seq::empty();
    let mut i: usize = 0;
    while i < total
        invariant
            total == predictions@.len(),
            i <= total,
            correct == correct_count(predictions@.take(i as int)),
            correct <= i,
            signals.len() == i,
            positions@.len() == i,
            forall|x: i32| call_requires(prediction_to_signal, (x,)),
            forall|j: int|
                0 <= j < i ==> call_ensures(
                    prediction_to_signal,
                    (predictions@[j].predicted,),
                    #[trigger] signals[j],
                ),
            forall|j: int| 0 <= j < i ==> #[trigger] positions@[j] == (signals[j] == 1 && j + 1 < prices@.len()),
        decreases total - i,
    {
        let p = predictions[i];
        proof {
            let prefix = predictions@.take(i as int);
            let next = predictions@.take(i + 1);
            assert(next.drop_last() =~= prefix);
            assert(next.last() == p);
        }
        if p.actual == Some(p.predicted) {
            correct = correct + 1;
        }
        let signal = prediction_to_signal(p.predicted);
        proof {
            signals = signals.push(signal);
        }
        positions.push(signal == 1 && i + 1 < prices.len());
        i = i + 1;
    }
    proof {
        assert(predictions@.take(i as int) =~= predictions@);
    }
    let label_metrics = label_metrics(predictions);
    let r = BacktestMetrics {
        total_predictions: total,
        correct_predictions: correct,
        label_metrics,
        positions,
    };
    proof {
        assert(backtest_result(predictions@, prices@.len() as int, signals, r));
    }
    r
}

} // verus!
