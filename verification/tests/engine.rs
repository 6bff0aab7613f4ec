use data_analysis::indicators::engine::{indicator_values, IndicatorEngine};
use data_analysis::indicators::specs::{IndicatorKind, IndicatorSpec};
use fin_primitives::signals::indicators::Sma;
use fin_primitives::signals::pipeline::SignalPipeline;
use fin_primitives::ohlcv::OhlcvBar;
use fin_primitives::types::{NanoTimestamp, Price, Quantity, Symbol};
use rust_decimal::Decimal;

fn d(v: i64) -> Decimal {
    Decimal::from(v)
}

#[test]
fn engine_refuses_bad_symbols_and_parameters() {
    let sma = vec![IndicatorSpec::new("sma2", IndicatorKind::Sma { period: 2 })];
    assert!(IndicatorEngine::new("", &sma).is_err());
    assert!(IndicatorEngine::new("A B", &sma).is_err());
    assert!(IndicatorEngine::new("SYM", &sma).is_ok());
    let zero = vec![IndicatorSpec::new("z", IndicatorKind::Sma { period: 0 })];
    assert!(IndicatorEngine::new("SYM", &zero).is_err());
    let chaikin = vec![IndicatorSpec::new("c", IndicatorKind::ChaikinOsc { fast_period: 10, slow_period: 3 })];
    assert!(IndicatorEngine::new("SYM", &chaikin).is_err());
    let macd = vec![IndicatorSpec::new("m", IndicatorKind::Macd { fast_period: 26, slow_period: 12, signal_period: 9 })];
    assert!(IndicatorEngine::new("SYM", &macd).is_err());
    let ok_macd = vec![IndicatorSpec::new("m", IndicatorKind::Macd { fast_period: 12, slow_period: 26, signal_period: 9 })];
    assert!(IndicatorEngine::new("SYM", &ok_macd).is_ok());
}

#[test]
fn engine_reports_values_by_name() {
    let specs = vec![
        IndicatorSpec::new("sma2", IndicatorKind::Sma { period: 2 }),
        IndicatorSpec::new("sma3", IndicatorKind::Sma { period: 3 }),
        IndicatorSpec::new("obv", IndicatorKind::Obv),
    ];
    let mut engine = IndicatorEngine::new("SYM", &specs).unwrap();
    assert_eq!(engine.num_indicators(), 3);
    assert_eq!(engine.indicator_names(), &vec!["sma2".to_string(), "sma3".to_string(), "obv".to_string()]);
    let first = engine.update(0, d(10), d(10), d(10), d(10), d(1));
    assert_eq!(first.len(), 3);
    assert_eq!(first[0], None);
    assert_eq!(first[1], None);
    let second = engine.update(60_000_000_000, d(20), d(20), d(20), d(20), d(1));
    assert_eq!(second[0], Some(d(15)));
    assert_eq!(second[1], None);
    let third = engine.update(120_000_000_000, d(30), d(30), d(30), d(30), d(1));
    assert_eq!(third[0], Some(d(25)));
    assert_eq!(third[1], Some(d(20)));
}

#[test]
fn values_are_read_by_name_from_a_signal_map() {
    let mut pipeline = SignalPipeline::new().add(Sma::new("s", 1).unwrap());
    let bar_map = {
        let p = Price::new(d(7)).unwrap();
        let bar = OhlcvBar {
            symbol: Symbol::new("X").unwrap(),
            open: p,
            high: p,
            low: p,
            close: p,
            volume: Quantity::new(d(1)).unwrap(),
            ts_open: NanoTimestamp::new(0),
            ts_close: NanoTimestamp::new(1),
            tick_count: 1,
        };
        pipeline.update(&bar)
    };
    let vals = indicator_values(&bar_map, &vec!["s".to_string(), "missing".to_string()]);
    assert_eq!(vals, vec![Some(d(7)), None]);
}

#[test]
fn spec_name_and_build() {
    let s = IndicatorSpec::new("rsi14", IndicatorKind::Rsi { period: 14 });
    assert_eq!(s.name(), "rsi14");
    assert!(s.build(SignalPipeline::new()).is_ok());
    let bad = IndicatorSpec::new("r", IndicatorKind::Rsi { period: 0 });
    assert!(bad.build(SignalPipeline::new()).is_err());
}

#[test]
fn try_update_refuses_non_positive_prices_and_negative_volume() {
    let specs = vec![IndicatorSpec::new("sma1", IndicatorKind::Sma { period: 1 })];
    let mut engine = IndicatorEngine::new("SYM", &specs).unwrap();
    assert!(engine.try_update(0, d(0), d(10), d(10), d(10), d(1)).is_none());
    assert!(engine.try_update(0, d(10), d(10), d(-1), d(10), d(1)).is_none());
    assert!(engine.try_update(0, d(10), d(10), d(10), d(10), d(-1)).is_none());
    assert!(engine.try_update(i64::MAX, d(10), d(10), d(10), d(10), d(1)).is_none());
    let ok = engine.try_update(0, d(10), d(10), d(10), d(10), d(0)).unwrap();
    assert_eq!(ok, vec![Some(d(10))]);
}

#[test]
fn build_appends_the_named_indicator_and_reports_its_constructor_error() {
    let p = IndicatorSpec::new("first", IndicatorKind::Sma { period: 2 }).build(SignalPipeline::new()).unwrap();
    let p = IndicatorSpec::new("second", IndicatorKind::Obv).build(p).unwrap();
    let names: Vec<&str> = p.signal_names().collect();
    assert_eq!(names, vec!["first", "second"]);
    let macd = IndicatorSpec::new("m", IndicatorKind::Macd { fast_period: 26, slow_period: 12, signal_period: 9 });
    assert!(matches!(macd.build(SignalPipeline::new()), Err(fin_primitives::FinError::InvalidPeriod(26))));
    let zero = IndicatorSpec::new("z", IndicatorKind::Rsi { period: 0 });
    assert!(matches!(zero.build(SignalPipeline::new()), Err(fin_primitives::FinError::InvalidPeriod(0))));
    let chaikin = IndicatorSpec::new("c", IndicatorKind::ChaikinOsc { fast_period: 10, slow_period: 3 });
    assert!(matches!(chaikin.build(SignalPipeline::new()), Err(fin_primitives::FinError::InvalidInput(_))));
}

#[test]
fn engine_new_reports_the_symbol_error_then_the_first_bad_indicator() {
    let specs = vec![
        IndicatorSpec::new("ok", IndicatorKind::Sma { period: 2 }),
        IndicatorSpec::new("bad_fast", IndicatorKind::Macd { fast_period: 30, slow_period: 20, signal_period: 9 }),
        IndicatorSpec::new("bad_zero", IndicatorKind::Ema { period: 0 }),
    ];
    assert!(matches!(IndicatorEngine::new("A B", &specs), Err(fin_primitives::FinError::InvalidSymbol(ref s)) if s == "A B"));
    assert!(matches!(IndicatorEngine::new("SYM", &specs), Err(fin_primitives::FinError::InvalidPeriod(30))));
}

#[test]
fn panic_free_indicators_take_extreme_bars() {
    let specs = vec![
        IndicatorSpec::new("sma2", IndicatorKind::Sma { period: 2 }),
        IndicatorSpec::new("mom1", IndicatorKind::Momentum { period: 1 }),
        IndicatorSpec::new("aroon2", IndicatorKind::Aroon { period: 2 }),
    ];
    let mut engine = IndicatorEngine::new("SYM", &specs).unwrap();
    let big = Decimal::MAX;
    let tiny = Decimal::new(1, 28);
    for i in 0..6i64 {
        let p = if i % 2 == 0 { big } else { tiny };
        let vals = engine.update(i * 60_000_000_000, p, p, p, p, big);
        assert_eq!(vals.len(), 3);
    }
}
