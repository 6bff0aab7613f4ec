use chrono::{DateTime, NaiveDate, NaiveDateTime};
use data_analysis::data::market_data::MarketData;
use data_analysis::data::reader::{timestamp_nanos_or_zero, CsvRow};
use data_analysis::data::writer::header_record;

fn row(ts: &str) -> CsvRow {
    CsvRow { timestamp: ts.to_string(), open: 0, high: 0, low: 0, close: 0, volume: 0 }
}

#[test]
fn timestamps_in_each_format() {
    let fmt = |s: &str, f: &str| NaiveDateTime::parse_from_str(s, f).unwrap();
    assert_eq!(
        row("2024-01-02 03:04:05.123").parse_timestamp(),
        Some(fmt("2024-01-02 03:04:05.123", "%Y-%m-%d %H:%M:%S%.3f"))
    );
    assert_eq!(row("2024-01-02 03:04:05").parse_timestamp(), Some(fmt("2024-01-02 03:04:05", "%Y-%m-%d %H:%M:%S")));
    assert_eq!(row("2024-01-02T03:04:05").parse_timestamp(), Some(fmt("2024-01-02T03:04:05", "%Y-%m-%dT%H:%M:%S")));
    assert_eq!(
        row("  2024-01-02 \t").parse_timestamp(),
        NaiveDate::from_ymd_opt(2024, 1, 2).unwrap().and_hms_opt(0, 0, 0)
    );
    assert_eq!(
        row("1700000000").parse_timestamp(),
        Some(DateTime::from_timestamp(1_700_000_000, 0).unwrap().naive_utc())
    );
    assert_eq!(row("not a time").parse_timestamp(), None);
    assert_eq!(row("").parse_timestamp(), None);
}

#[test]
fn timestamp_nanos() {
    let dt = row("1970-01-01 00:00:01").parse_timestamp();
    assert_eq!(timestamp_nanos_or_zero(&dt), 1_000_000_000);
    assert_eq!(timestamp_nanos_or_zero(&None), 0);
    let far = NaiveDate::from_ymd_opt(3000, 1, 1).unwrap().and_hms_opt(0, 0, 0);
    assert_eq!(timestamp_nanos_or_zero(&far), 0);
}

#[test]
fn enhanced_header() {
    let h = header_record(&vec!["sma20".to_string(), "rsi14".to_string()]);
    assert_eq!(h, vec!["timestamp", "open", "high", "low", "close", "volume", "sma20", "rsi14"]);
    assert_eq!(header_record(&vec![]).len(), 6);
}

#[test]
fn market_data_starts_empty() {
    let md = MarketData::new();
    assert_eq!(md.len(), 0);
    assert!(md.timestamps.is_empty());
}
