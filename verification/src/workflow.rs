//! The steps of a run between reading the data and drawing the charts:
//! collecting bars, splitting the dataset in time, and lining predictions
//! up with the bars they were made for.
use vstd::prelude::*;
use crate::data::market_data::MarketData;
use crate::data::reader::CsvRow;
use crate::features::builder::FeatureDataset;
use crate::ml::predict::Prediction;

verus! {

/// How many bars the charts show at most.
pub const DISPLAY_BARS: usize = 500;

impl MarketData {
    /// Appends one bar: its prices, volume, timestamp text and indicator readings.
    pub fn push_bar(&mut self, row: CsvRow, indicator_vals: Vec<Option<u64>>)
        ensures
            final(self).opens@ == old(self).opens@.push(row.open),
            final(self).highs@ == old(self).highs@.push(row.high),
            final(self).lows@ == old(self).lows@.push(row.low),
            final(self).closes@ == old(self).closes@.push(row.close),
            final(self).volumes@ == old(self).volumes@.push(row.volume),
            final(self).timestamps@ == old(self).timestamps@.push(row.timestamp),
            final(self).indicator_values@ == old(self).indicator_values@.push(indicator_vals),
    {
        self.opens.push(row.open);
        self.highs.push(row.high);
        self.lows.push(row.low);
        self.closes.push(row.close);
        self.volumes.push(row.volume);
        self.timestamps.push(row.timestamp);
        self.indicator_values.push(indicator_vals);
    }
}

/// The training and test parts of a dataset split at row `train_size`.
pub struct TrainTestSplit {
    pub train_features: Vec<Vec<u64>>,
    pub train_labels: Vec<i32>,
    pub test_features: Vec<Vec<u64>>,
    pub test_labels: Vec<i32>,
}

/// Splits the rows in time order: the first `train_size` rows train, the rest test.
pub fn split_train_test(dataset: FeatureDataset, train_size: usize) -> (r: TrainTestSplit)
    requires
        train_size <= dataset.features@.len(),
        train_size <= dataset.labels@.len(),
    ensures
        r.train_features@ == dataset.features@.subrange(0, train_size as int),
        r.test_features@ == dataset.features@.subrange(train_size as int, dataset.features@.len() as int),
        r.train_labels@ == dataset.labels@.subrange(0, train_size as int),
        r.test_labels@ == dataset.labels@.subrange(train_size as int, dataset.labels@.len() as int),
{
    let mut features = dataset.features;
    let mut labels = dataset.labels;
    let test_features = features.split_off(train_size);
    let test_labels = labels.split_off(train_size);
    TrainTestSplit { train_features: features, train_labels: labels, test_features, test_labels }
}

/// Splitting loses and reorders nothing: training rows followed by test
/// rows are the dataset's rows, and likewise for the labels.
pub proof fn law_split_rejoins(dataset: FeatureDataset, train_size: usize, r: TrainTestSplit)
    requires
        train_size <= dataset.features@.len(),
        train_size <= dataset.labels@.len(),
        r.train_features@ == dataset.features@.subrange(0, train_size as int),
        r.test_features@ == dataset.features@.subrange(train_size as int, dataset.features@.len() as int),
        r.train_labels@ == dataset.labels@.subrange(0, train_size as int),
        r.test_labels@ == dataset.labels@.subrange(train_size as int, dataset.labels@.len() as int),
    ensures
        r.train_features@ + r.test_features@ == dataset.features@,
        r.train_labels@ + r.test_labels@ == dataset.labels@,
        r.train_features@.len() == train_size,
{
    assert(r.train_features@ + r.test_features@ =~= dataset.features@);
    assert(r.train_labels@ + r.test_labels@ =~= dataset.labels@);
}

/// The bars of the test rows: the row bars after the first `train_size`.
pub fn align_test_indices(dataset: &FeatureDataset, train_size: usize) -> (r: Vec<usize>)
    ensures
        train_size <= dataset.feature_indices@.len() ==> r@ == dataset.feature_indices@.subrange(
            train_size as int,
            dataset.feature_indices@.len() as int,
        ),
        train_size > dataset.feature_indices@.len() ==> r@.len() == 0,
{
    let mut out: Vec<usize> = Vec::new();
    let n = dataset.feature_indices.len();
    if train_size > n {
        return out;
    }
    let mut i = train_size;
    while i < n
        invariant
            train_size <= i <= n,
            n == dataset.feature_indices@.len(),
            out@ == dataset.feature_indices@.subrange(train_size as int, i as int),
        decreases n - i,
    {
        out.push(dataset.feature_indices[i]);
        proof {
            assert(dataset.feature_indices@.subrange(train_size as int, i + 1) =~= dataset.feature_indices@.subrange(
                train_size as int,
                i as int,
            ).push(dataset.feature_indices@[i as int]));
        }
        i = i + 1;
    }
    out
}

/// The closes at the given bars.
pub fn prices_at(closes: &Vec<u64>, indices: &Vec<usize>) -> (r: Vec<u64>)
    requires
        forall|i: int| 0 <= i < indices@.len() ==> #[trigger] indices@[i] < closes@.len(),
    ensures
        r@.len() == indices@.len(),
        forall|i: int| 0 <= i < indices@.len() ==> #[trigger] r@[i] == closes@[indices@[i] as int],
{
    let mut out: Vec<u64> = Vec::new();
    let mut i: usize = 0;
    while i < indices.len()
        invariant
            i <= indices@.len(),
            forall|j: int| 0 <= j < indices@.len() ==> #[trigger] indices@[j] < closes@.len(),
            out@.len() == i,
            forall|j: int| 0 <= j < i ==> #[trigger] out@[j] == closes@[indices@[j] as int],
        decreases indices@.len() - i,
    {
        out.push(closes[indices[i]]);
        i = i + 1;
    }
    out
}

/// The bar a prediction was made for: its test bar, or 0 past the last one.
pub open spec fn bar_of(indices: Seq<usize>, i: int) -> usize {
    if 0 <= i < indices.len() {
        indices[i]
    } else {
        0
    }
}

/// Each prediction's bar and its trade signal, in prediction order.
pub fn prediction_signals<F>(predictions: &Vec<Prediction>, test_indices: &Vec<usize>, prediction_to_signal: F) -> (r: Vec<(usize, i32)>)
    where
        F: Fn(i32) -> i32,
    requires
        forall|x: i32| call_requires(prediction_to_signal, (x,)),
    ensures
        r@.len() == predictions@.len(),
        forall|i: int|
            0 <= i < r@.len() ==> {
                &&& (#[trigger] r@[i]).0 == bar_of(test_indices@, i)
                &&& call_ensures(prediction_to_signal, (predictions@[i].predicted,), r@[i].1)
            },
{
    let mut out: Vec<(usize, i32)> = Vec::new();
    let mut i: usize = 0;
    while i < predictions.len()
        invariant
            i <= predictions@.len(),
            forall|x: i32| call_requires(prediction_to_signal, (x,)),
            out@.len() == i,
            forall|j: int|
                0 <= j < i ==> {
                    &&& (#[trigger] out@[j]).0 == bar_of(test_indices@, j)
                    &&& call_ensures(prediction_to_signal, (predictions@[j].predicted,), out@[j].1)
                },
        decreases predictions@.len() - i,
    {
        let bar = if i < test_indices.len() { test_indices[i] } else { 0 };
        let signal = prediction_to_signal(predictions[i].predicted);
        out.push((bar, signal));
        i = i + 1;
    }
    out
}

/// The signals whose bar is among the first `display_count` bars, in order.
pub fn dashboard_signals(pred_signals: &Vec<(usize, i32)>, display_count: usize) -> (r: Vec<(usize, i32)>)
    ensures
        r@ == pred_signals@.filter(|s: (usize, i32)| s.0 < display_count),
{
    let mut out: Vec<(usize, i32)> = Vec::new();
    let mut i: usize = 0;
    while i < pred_signals.len()
        invariant
            i <= pred_signals@.len(),
            out@ == pred_signals@.take(i as int).filter(|s: (usize, i32)| s.0 < display_count),
        decreases pred_signals@.len() - i,
    {
        let s = pred_signals[i];
        proof {
            reveal(Seq::filter);
            assert(pred_signals@.take(i + 1).drop_last() =~= pred_signals@.take(i as int));
            assert(pred_signals@.take(i + 1).last() == s);
        }
        if s.0 < display_count {
            out.push(s);
        }
        i = i + 1;
    }
    proof {
        assert(pred_signals@.take(i as int) =~= pred_signals@);
    }
    out
}

/// How many bars the charts show: all of them up to `DISPLAY_BARS`.
pub fn display_count(n_bars: usize) -> (r: usize)
    ensures
        r == (if n_bars < DISPLAY_BARS { n_bars } else { DISPLAY_BARS }),
{
    if n_bars < DISPLAY_BARS {
        n_bars
    } else {
        DISPLAY_BARS
    }
}

} // verus!
