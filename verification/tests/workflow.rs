use data_analysis::data::market_data::MarketData;
use data_analysis::data::reader::CsvRow;
use data_analysis::error::DataAnalysisError;
use data_analysis::features::builder::FeatureDataset;
use data_analysis::ml::predict::Prediction;
use data_analysis::workflow::{
    align_test_indices, dashboard_signals, display_count, prediction_signals, prices_at,
    split_train_test,
};

fn dataset() -> FeatureDataset {
    FeatureDataset {
        features: vec![vec![1], vec![2], vec![3], vec![4], vec![5]],
        labels: vec![0, 1, 0, 1, 1],
        feature_indices: vec![10, 11, 13, 14, 20],
        feature_count: 1,
    }
}

#[test]
fn split_keeps_time_order() {
    let s = split_train_test(dataset(), 3);
    assert_eq!(s.train_features, vec![vec![1], vec![2], vec![3]]);
    assert_eq!(s.test_features, vec![vec![4], vec![5]]);
    assert_eq!(s.train_labels, vec![0, 1, 0]);
    assert_eq!(s.test_labels, vec![1, 1]);
    let all_test = split_train_test(dataset(), 0);
    assert_eq!(all_test.test_labels.len(), 5);
}

#[test]
fn test_indices_follow_training_rows() {
    assert_eq!(align_test_indices(&dataset(), 3), vec![14, 20]);
    assert_eq!(align_test_indices(&dataset(), 5), Vec::<usize>::new());
    assert_eq!(align_test_indices(&dataset(), 9), Vec::<usize>::new());
}

#[test]
fn prices_and_signals_line_up() {
    let closes = vec![100u64, 101, 102, 103];
    assert_eq!(prices_at(&closes, &vec![3, 0, 2]), vec![103, 100, 102]);
    let preds = vec![
        Prediction { predicted: 1, actual: Some(1) },
        Prediction { predicted: 0, actual: Some(1) },
        Prediction { predicted: 1, actual: None },
    ];
    let sig = prediction_signals(&preds, &vec![7, 9], |l: i32| if l == 1 { 1 } else { 0 });
    assert_eq!(sig, vec![(7, 1), (9, 0), (0, 1)]);
    assert_eq!(dashboard_signals(&vec![(1, 1), (600, 0), (499, 1)], 500), vec![(1, 1), (499, 1)]);
    assert_eq!(display_count(10), 10);
    assert_eq!(display_count(1000), 500);
}

#[test]
fn bars_are_appended() {
    let mut md = MarketData::new();
    md.push_bar(
        CsvRow { timestamp: "t0".to_string(), open: 1, high: 2, low: 3, close: 4, volume: 5 },
        vec![Some(9), None],
    );
    assert_eq!(md.len(), 1);
    assert_eq!(md.opens, vec![1]);
    assert_eq!(md.highs, vec![2]);
    assert_eq!(md.lows, vec![3]);
    assert_eq!(md.closes, vec![4]);
    assert_eq!(md.volumes, vec![5]);
    assert_eq!(md.timestamps, vec!["t0".to_string()]);
    assert_eq!(md.indicator_values, vec![vec![Some(9), None]]);
}

#[test]
fn errors_convert() {
    let e: DataAnalysisError = String::from("boom").into();
    assert!(matches!(e, DataAnalysisError::Other(ref m) if m == "boom"));
    let e = DataAnalysisError::from_message("oops");
    assert!(matches!(e, DataAnalysisError::Other(ref m) if m == "oops"));
    let io = std::io::Error::new(std::io::ErrorKind::Other, "io");
    assert!(matches!(DataAnalysisError::from(io), DataAnalysisError::Io(_)));
}
