use data_analysis::data::market_data::MarketData;
use data_analysis::features::builder::{build_feature_dataset, ExperimentSpec, LabelContext};
use data_analysis::indicators::specs::{IndicatorKind, IndicatorSpec};

fn b(x: f64) -> u64 {
    x.to_bits()
}

fn fixture_market_data() -> MarketData {
    MarketData {
        opens: vec![b(1.0), b(2.0), b(3.0), b(4.0)],
        highs: vec![b(1.5), b(2.5), b(3.5), b(4.5)],
        lows: vec![b(0.5), b(1.5), b(2.5), b(3.5)],
        closes: vec![b(1.0), b(2.0), b(3.0), b(4.0)],
        volumes: vec![b(10.0), b(20.0), b(30.0), b(40.0)],
        timestamps: vec!["0".into(), "1".into(), "2".into(), "3".into()],
        indicator_values: vec![
            vec![Some(b(10.0)), Some(b(20.0))],
            vec![Some(b(11.0)), Some(b(21.0))],
            vec![Some(b(12.0)), Some(b(22.0))],
            vec![Some(b(13.0)), Some(b(23.0))],
        ],
    }
}

fn label_next_close(ctx: &LabelContext<'_>) -> Option<i32> {
    let current = f64::from_bits(ctx.close(ctx.index)?);
    let next = f64::from_bits(ctx.close(ctx.index + 1)?);
    Some(if next > current { 1 } else { 0 })
}

fn default_prediction_to_signal(label: i32) -> i32 {
    if label == 1 {
        1
    } else {
        0
    }
}

fn two_sma_spec() -> ExperimentSpec<fn(&LabelContext<'_>) -> Option<i32>, fn(i32) -> i32> {
    ExperimentSpec {
        window_size: 2,
        indicators: vec![
            IndicatorSpec::new("a", IndicatorKind::Sma { period: 2 }),
            IndicatorSpec::new("b", IndicatorKind::Sma { period: 2 }),
        ],
        label_fn: label_next_close,
        prediction_to_signal: default_prediction_to_signal,
    }
}

#[test]
fn label_context_returns_none_out_of_range() {
    let market_data = fixture_market_data();
    let ctx = LabelContext::new(2, &market_data);

    assert_eq!(ctx.open(2), Some(b(3.0)));
    assert_eq!(ctx.high(2), Some(b(3.5)));
    assert_eq!(ctx.low(2), Some(b(2.5)));
    assert_eq!(ctx.close(2), Some(b(3.0)));
    assert_eq!(ctx.volume(2), Some(b(30.0)));
    assert_eq!(ctx.close(99), None);
    assert_eq!(ctx.indicator(1, 0), Some(b(11.0)));
    assert_eq!(ctx.indicator(1, 99), None);
}

#[test]
fn builds_windowed_features_and_indices() {
    let market_data = fixture_market_data();
    let spec = two_sma_spec();

    let (dataset, report) = build_feature_dataset(&market_data, &spec).unwrap();

    assert_eq!(dataset.feature_count, 4);
    assert_eq!(dataset.features.len(), 2);
    assert_eq!(dataset.features[0], vec![b(10.0), b(20.0), b(11.0), b(21.0)]);
    assert_eq!(dataset.feature_indices, vec![1, 2]);
    assert_eq!(dataset.labels, vec![1, 1]);
    assert_eq!(report.skipped_by_label, 1);
}

#[test]
fn skips_nan_rows() {
    let mut market_data = fixture_market_data();
    market_data.indicator_values[0][0] = Some(b(f64::NAN));
    let spec = two_sma_spec();

    let (dataset, report) = build_feature_dataset(&market_data, &spec).unwrap();

    assert_eq!(report.rows_with_nan, 1);
    assert_eq!(dataset.feature_indices, vec![2]);
}

#[test]
fn no_dataset_for_empty_window_or_short_series() {
    let market_data = fixture_market_data();
    let mut spec = two_sma_spec();
    spec.window_size = 0;
    assert!(build_feature_dataset(&market_data, &spec).is_none());
    spec.window_size = 5;
    assert!(build_feature_dataset(&market_data, &spec).is_none());
    spec.window_size = 2;
    spec.indicators.clear();
    assert!(build_feature_dataset(&market_data, &spec).is_none());
}

#[test]
fn no_dataset_when_every_row_is_dropped() {
    let mut market_data = fixture_market_data();
    for row in market_data.indicator_values.iter_mut() {
        row[1] = Some(b(f64::NAN));
    }
    let spec = two_sma_spec();
    assert!(build_feature_dataset(&market_data, &spec).is_none());
}

#[test]
fn missing_readings_fill_with_zero_and_report_counts() {
    let mut market_data = fixture_market_data();
    market_data.indicator_values[1][1] = None;
    let spec = two_sma_spec();
    let (dataset, report) = build_feature_dataset(&market_data, &spec).unwrap();
    assert_eq!(dataset.features[0], vec![b(10.0), b(20.0), b(11.0), b(0.0)]);
    assert_eq!(dataset.features[1], vec![b(11.0), b(0.0), b(12.0), b(22.0)]);
    assert_eq!(report.features_before_clean, 2);
    assert_eq!(report.rows_with_nan, 0);
    assert_eq!(report.label_counts.get(&1), Some(&2));
    assert_eq!(report.label_counts.len(), 1);
    for row in &dataset.features {
        assert_eq!(row.len(), dataset.feature_count);
    }
}

#[test]
fn label_counts_tally_each_label() {
    let mut market_data = fixture_market_data();
    market_data.closes = vec![b(1.0), b(3.0), b(2.0), b(4.0)];
    let mut spec = two_sma_spec();
    spec.window_size = 1;
    let (dataset, report) = build_feature_dataset(&market_data, &spec).unwrap();
    assert_eq!(dataset.labels, vec![1, 0, 1]);
    assert_eq!(dataset.feature_indices, vec![0, 1, 2]);
    assert_eq!(report.label_counts.get(&1), Some(&2));
    assert_eq!(report.label_counts.get(&0), Some(&1));
    assert_eq!(report.skipped_by_label, 1);
    assert_eq!(
        dataset.features.len() + report.rows_with_nan + report.skipped_by_label,
        market_data.closes.len() - (spec.window_size - 1)
    );
}
