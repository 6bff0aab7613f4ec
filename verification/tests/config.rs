use data_analysis::config::{
    indicator_specs_of, log_level, CliArgs, Config, ExperimentConfig, IndicatorConfig, MlConfig,
    PathsConfig, TomlConfig, DEFAULT_TRAIN_SPLIT_BITS,
};
use data_analysis::indicators::specs::IndicatorKind;
use rust_decimal::Decimal;

fn entry(t: &str, name: &str, period: Option<usize>) -> IndicatorConfig {
    IndicatorConfig {
        indicator_type: t.to_string(),
        name: name.to_string(),
        period,
        fast_period: None,
        slow_period: None,
        signal_period: None,
        std_dev: None,
        multiplier: None,
    }
}

fn empty_cli() -> CliArgs {
    CliArgs {
        config: None,
        csv_input: None,
        python_bin: None,
        window_size: None,
        train_split: None,
        n_trees: None,
        verbose: None,
    }
}

#[test]
fn default_train_split_is_point_six() {
    assert_eq!(f64::from_bits(DEFAULT_TRAIN_SPLIT_BITS), 0.6);
}

#[test]
fn indicator_entries_become_specs() {
    let spec = Config::as_indicator_spec(&entry("sma", "s", Some(20))).unwrap();
    assert_eq!(spec.name, "s");
    assert!(matches!(spec.kind, IndicatorKind::Sma { period: 20 }));
    assert!(Config::as_indicator_spec(&entry("sma", "s", None)).is_none());
    assert!(Config::as_indicator_spec(&entry("unknown", "u", Some(3))).is_none());
    assert!(matches!(Config::as_indicator_spec(&entry("obv", "o", None)).unwrap().kind, IndicatorKind::Obv));
    let bb = Config::as_indicator_spec(&entry("bb", "bb", Some(20))).unwrap();
    match bb.kind {
        IndicatorKind::BollingerB { period, std_dev } => {
            assert_eq!(period, 20);
            assert_eq!(std_dev, Decimal::from(2));
        }
        _ => panic!("not bollinger"),
    }
    let mut k = entry("keltner", "k", Some(10));
    k.multiplier = Some(Decimal::new(15, 1));
    match Config::as_indicator_spec(&k).unwrap().kind {
        IndicatorKind::KeltnerChannel { period, multiplier } => {
            assert_eq!(period, 10);
            assert_eq!(multiplier, Decimal::new(15, 1));
        }
        _ => panic!("not keltner"),
    }
    let mut macd = entry("macd", "m", None);
    macd.fast_period = Some(12);
    macd.slow_period = Some(26);
    assert!(Config::as_indicator_spec(&macd).is_none());
    macd.signal_period = Some(9);
    assert!(matches!(
        Config::as_indicator_spec(&macd).unwrap().kind,
        IndicatorKind::Macd { fast_period: 12, slow_period: 26, signal_period: 9 }
    ));
    let specs = indicator_specs_of(&vec![entry("ema", "e", Some(3)), entry("bad", "x", None), entry("vwap", "v", None)]);
    assert_eq!(specs.len(), 2);
    assert_eq!(specs[0].name, "e");
    assert_eq!(specs[1].name, "v");
}

#[test]
fn defaults_when_nothing_is_configured() {
    let c = Config::resolve(empty_cli(), None);
    assert_eq!(c.csv_input, "data/input.csv");
    assert_eq!(c.csv_output, "output/enhanced.csv");
    assert_eq!(c.png_output, "output/chart.svg");
    assert_eq!(c.html_output, "output/dashboard.html");
    assert_eq!(c.train_features_output, "output/train_features.csv");
    assert_eq!(c.test_features_output, "output/test_features.csv");
    assert_eq!(c.model_output, "output/model.onnx");
    assert_eq!(c.train_metrics_output, "output/train_metrics.json");
    assert_eq!(c.python_bin, "python3");
    assert_eq!(f64::from_bits(c.train_split), 0.6);
    assert_eq!(c.n_trees, 300);
    assert_eq!(c.max_depth, None);
    assert_eq!(c.symbol, "SYM");
    assert_eq!(c.window_size, 60);
    assert_eq!(c.label_fn_name, "next_close_direction");
    let names = c.indicator_names();
    assert_eq!(names.len(), 24);
    assert_eq!(names[0], "sma20");
    assert_eq!(names[5], "macd");
    assert_eq!(names[23], "elder13");
}

#[test]
fn default_tables() {
    let p = Config::default_paths();
    assert_eq!(p.csv_input, None);
    assert_eq!(p.model_output.as_deref(), Some("output/model.onnx"));
    let e = Config::default_experiment();
    assert_eq!(e.window_size, Some(60));
    let ind = e.indicators.unwrap();
    assert_eq!(ind.len(), 24);
    assert_eq!(ind[10].indicator_type, "bb");
    assert_eq!(ind[10].std_dev, Some(Decimal::from(2)));
    assert_eq!(ind[17].fast_period, Some(3));
    assert_eq!(ind[17].slow_period, Some(10));
}

#[test]
fn precedence_of_command_line_and_file() {
    let mut cli = empty_cli();
    cli.csv_input = Some("cli.csv".to_string());
    cli.python_bin = Some("cli-python".to_string());
    cli.window_size = Some(7);
    cli.n_trees = Some(11);
    cli.train_split = Some(0.8f64.to_bits());
    let toml = TomlConfig {
        paths: Some(PathsConfig {
            csv_input: Some("file.csv".to_string()),
            csv_output: None,
            png_output: Some("p.svg".to_string()),
            html_output: None,
            train_features_output: None,
            test_features_output: None,
            model_output: None,
            train_metrics_output: None,
        }),
        experiment: Some(ExperimentConfig {
            window_size: None,
            label_fn: Some("triple_barrier".to_string()),
            indicators: None,
        }),
        ml: Some(MlConfig {
            python_bin: Some("file-python".to_string()),
            train_split: None,
            n_trees: None,
            max_depth: Some(4),
            min_samples_leaf: None,
            symbol: None,
        }),
    };
    let c = Config::resolve(cli, Some(toml));
    assert_eq!(c.csv_input, "cli.csv");
    assert_eq!(c.csv_output, "output/enhanced.csv");
    assert_eq!(c.png_output, "p.svg");
    assert_eq!(c.python_bin, "file-python");
    assert_eq!(f64::from_bits(c.train_split), 0.8);
    assert_eq!(c.n_trees, 11);
    assert_eq!(c.max_depth, Some(4));
    assert_eq!(c.window_size, 7);
    assert_eq!(c.label_fn_name, "triple_barrier");
    assert!(c.indicator_specs.is_empty());
}

#[test]
fn missing_experiment_table_ignores_cli_window() {
    let mut cli = empty_cli();
    cli.window_size = Some(7);
    let c = Config::resolve(cli, Some(TomlConfig { paths: None, experiment: None, ml: None }));
    assert_eq!(c.window_size, 60);
}

#[test]
fn log_levels() {
    assert_eq!(log_level(0), "warn");
    assert_eq!(log_level(1), "info");
    assert_eq!(log_level(2), "debug");
    assert_eq!(log_level(9), "debug");
}
