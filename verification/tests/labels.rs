use data_analysis::data::market_data::MarketData;
use data_analysis::labels::label_fns::{
    default_prediction_to_signal, first_barrier_touch, label_next_close_direction, LabelContext,
};
use data_analysis::labels::{is_triple_barrier, label_by_name, LabelKind};

fn b(x: f64) -> u64 {
    x.to_bits()
}

fn series(closes: &[f64], highs: &[f64], lows: &[f64]) -> MarketData {
    let n = closes.len();
    MarketData {
        opens: closes.iter().map(|&x| b(x)).collect(),
        highs: highs.iter().map(|&x| b(x)).collect(),
        lows: lows.iter().map(|&x| b(x)).collect(),
        closes: closes.iter().map(|&x| b(x)).collect(),
        volumes: vec![b(1.0); n],
        timestamps: (0..n).map(|i| i.to_string()).collect(),
        indicator_values: vec![vec![]; n],
    }
}

#[test]
fn default_signal_is_long_only_on_label_one() {
    assert_eq!(default_prediction_to_signal(1), 1);
    assert_eq!(default_prediction_to_signal(0), 0);
    assert_eq!(default_prediction_to_signal(2), 0);
    assert_eq!(default_prediction_to_signal(-1), 0);
}

#[test]
fn label_lookup_by_name() {
    assert_eq!(label_by_name("triple_barrier"), Some(LabelKind::TripleBarrier));
    assert_eq!(label_by_name("next_close_direction"), Some(LabelKind::NextCloseDirection));
    assert_eq!(label_by_name("future_return_5"), Some(LabelKind::FutureReturn5));
    assert_eq!(label_by_name("nope"), None);
    assert_eq!(label_by_name(""), None);
    assert!(is_triple_barrier("triple_barrier"));
    assert!(!is_triple_barrier("next_close_direction"));
}

#[test]
fn next_close_direction_labels() {
    let md = series(&[1.0, 2.0, 2.0, 1.5], &[1.0, 2.0, 2.0, 1.5], &[1.0, 2.0, 2.0, 1.5]);
    assert_eq!(label_next_close_direction(&LabelContext::new(0, &md)), Some(1));
    assert_eq!(label_next_close_direction(&LabelContext::new(1, &md)), Some(0));
    assert_eq!(label_next_close_direction(&LabelContext::new(2, &md)), Some(0));
    assert_eq!(label_next_close_direction(&LabelContext::new(3, &md)), None);
    assert_eq!(label_next_close_direction(&LabelContext::new(9, &md)), None);
}

#[test]
fn next_close_direction_with_negative_and_nan_closes() {
    let md = series(&[-2.0, -1.0, f64::NAN, 3.0], &[0.0; 4], &[0.0; 4]);
    assert_eq!(label_next_close_direction(&LabelContext::new(0, &md)), Some(1));
    assert_eq!(label_next_close_direction(&LabelContext::new(1, &md)), Some(0));
    assert_eq!(label_next_close_direction(&LabelContext::new(2, &md)), Some(0));
}

#[test]
fn barrier_touch_upper_lower_and_none() {
    let closes = [10.0, 10.0, 10.0, 10.0, 10.0];
    let md_up = series(&closes, &[10.0, 10.5, 12.0, 10.0, 10.0], &[10.0, 9.5, 9.0, 10.0, 10.0]);
    let ctx = LabelContext::new(0, &md_up);
    assert_eq!(first_barrier_touch(&ctx, b(12.0), b(8.0), 20), Some(1));
    let md_down = series(&closes, &[10.0, 10.5, 11.0, 10.0, 10.0], &[10.0, 9.5, 8.0, 10.0, 10.0]);
    let ctx = LabelContext::new(0, &md_down);
    assert_eq!(first_barrier_touch(&ctx, b(12.0), b(8.0), 20), Some(0));
    assert_eq!(first_barrier_touch(&ctx, b(12.0), b(8.0), 1), Some(2));
    let ctx_last = LabelContext::new(4, &md_down);
    assert_eq!(first_barrier_touch(&ctx_last, b(12.0), b(8.0), 20), Some(2));
    let mut md_gap = series(&closes, &[10.0; 5], &[10.0; 5]);
    md_gap.highs.truncate(2);
    let ctx = LabelContext::new(0, &md_gap);
    assert_eq!(first_barrier_touch(&ctx, b(12.0), b(8.0), 20), None);
}

#[test]
fn barrier_touch_checks_upper_first() {
    let md = series(&[10.0, 10.0], &[10.0, 13.0], &[10.0, 7.0]);
    let ctx = LabelContext::new(0, &md);
    assert_eq!(first_barrier_touch(&ctx, b(12.0), b(8.0), 20), Some(1));
}
