use data_analysis::ml::backtest::{evaluate, label_metrics, LabelMetrics};
use data_analysis::ml::predict::{pair_predictions, Prediction};
use data_analysis::ml::train::{check_feature_table, FeatureTableError};

fn b(x: f64) -> u64 {
    x.to_bits()
}

fn accuracy(m: &LabelMetrics) -> f64 {
    if m.total > 0 {
        m.correct as f64 / m.total as f64
    } else {
        0.0
    }
}

fn long_only(label: i32) -> i32 {
    if label == 2 {
        1
    } else {
        0
    }
}

#[test]
fn reports_multiclass_label_metrics() {
    let predictions = vec![
        Prediction { predicted: 0, actual: Some(0) },
        Prediction { predicted: 2, actual: Some(1) },
        Prediction { predicted: 2, actual: Some(2) },
        Prediction { predicted: 1, actual: Some(2) },
    ];
    let prices = vec![b(1.0), b(1.1), b(1.2), b(1.3)];
    let metrics = evaluate(&predictions, &prices, long_only);

    assert_eq!(metrics.correct_predictions, 2);
    assert_eq!(metrics.label_metrics[&0].total, 1);
    assert_eq!(accuracy(&metrics.label_metrics[&1]), 0.0);
    assert_eq!(metrics.label_metrics[&2].total, 2);
    assert_eq!(metrics.label_metrics[&2].correct, 1);
}

#[test]
fn positions_follow_signals_and_stop_at_last_price() {
    let predictions = vec![
        Prediction { predicted: 2, actual: Some(2) },
        Prediction { predicted: 0, actual: None },
        Prediction { predicted: 2, actual: Some(0) },
    ];
    let metrics = evaluate(&predictions, &vec![b(1.0), b(2.0), b(3.0)], long_only);
    assert_eq!(metrics.positions, vec![true, false, false]);
    assert_eq!(metrics.total_predictions, 3);
    assert_eq!(metrics.correct_predictions, 1);
    assert_eq!(metrics.label_metrics.len(), 2);
    assert_eq!(metrics.label_metrics[&0], LabelMetrics { total: 1, correct: 0 });
    let empty = evaluate(&vec![], &vec![], long_only);
    assert_eq!(empty.total_predictions, 0);
    assert!(empty.label_metrics.is_empty());
}

#[test]
fn label_metrics_skip_unknown_truth() {
    let predictions = vec![
        Prediction { predicted: 1, actual: None },
        Prediction { predicted: 1, actual: Some(1) },
        Prediction { predicted: 0, actual: Some(1) },
    ];
    let m = label_metrics(&predictions);
    assert_eq!(m.len(), 1);
    assert_eq!(m[&1], LabelMetrics { total: 2, correct: 1 });
}

#[test]
fn predictions_pair_with_labels() {
    let r = pair_predictions(&vec![1, 0, 2], &vec![1, 1, 2]);
    assert_eq!(
        r,
        vec![
            Prediction { predicted: 1, actual: Some(1) },
            Prediction { predicted: 0, actual: Some(1) },
            Prediction { predicted: 2, actual: Some(2) },
        ]
    );
}

#[test]
fn feature_table_checks() {
    let rows = vec![vec![1.0, 2.0], vec![3.0, 4.0]];
    assert_eq!(check_feature_table(&rows, &vec![0, 1]), Ok(2));
    assert_eq!(
        check_feature_table(&rows, &vec![0]),
        Err(FeatureTableError::CountMismatch { features: 2, labels: 1 })
    );
    let empty: Vec<Vec<f64>> = vec![];
    assert_eq!(check_feature_table(&empty, &vec![]), Err(FeatureTableError::Empty));
    let ragged = vec![vec![1.0, 2.0], vec![3.0]];
    assert_eq!(check_feature_table(&ragged, &vec![0, 1]), Err(FeatureTableError::RaggedRows));
}
