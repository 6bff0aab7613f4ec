//! Run configuration: defaults, the indicator table of an experiment, and
//! how command-line values, the TOML file and defaults are merged.
use vstd::prelude::*;
use rust_decimal::Decimal;
use crate::indicators::specs::{decimal_from_i64, spec_decimal_from_i64, IndicatorKind, IndicatorSpec};
use crate::text::str_equals;

verus! {

/// One `[[experiment.indicators]]` entry of the configuration file.
pub struct IndicatorConfig {
    pub indicator_type: String,
    pub name: String,
    pub period: Option<usize>,
    pub fast_period: Option<usize>,
    pub slow_period: Option<usize>,
    pub signal_period: Option<usize>,
    pub std_dev: Option<Decimal>,
    pub multiplier: Option<Decimal>,
}

/// The `[experiment]` table.
pub struct ExperimentConfig {
    pub window_size: Option<usize>,
    pub label_fn: Option<String>,
    pub indicators: Option<Vec<IndicatorConfig>>,
}

/// The `[paths]` table.
pub struct PathsConfig {
    pub csv_input: Option<String>,
    pub csv_output: Option<String>,
    pub png_output: Option<String>,
    pub html_output: Option<String>,
    pub train_features_output: Option<String>,
    pub test_features_output: Option<String>,
    pub model_output: Option<String>,
    pub train_metrics_output: Option<String>,
}

/// The `[ml]` table; `train_split` is a binary64 bit pattern.
pub struct MlConfig {
    pub python_bin: Option<String>,
    pub train_split: Option<u64>,
    pub n_trees: Option<u32>,
    pub max_depth: Option<u32>,
    pub min_samples_leaf: Option<u32>,
    pub symbol: Option<String>,
}

/// The whole configuration file; every table may be missing.
pub struct TomlConfig {
    pub paths: Option<PathsConfig>,
    pub experiment: Option<ExperimentConfig>,
    pub ml: Option<MlConfig>,
}

/// The command-line options; `train_split` is a binary64 bit pattern.
pub struct CliArgs {
    pub config: Option<String>,
    pub csv_input: Option<String>,
    pub python_bin: Option<String>,
    pub window_size: Option<usize>,
    pub train_split: Option<u64>,
    pub n_trees: Option<u32>,
    pub verbose: Option<u8>,
}

/// The resolved run configuration; `train_split` is a binary64 bit pattern.
pub struct Config {
    pub csv_input: String,
    pub csv_output: String,
    pub png_output: String,
    pub html_output: String,
    pub train_features_output: String,
    pub test_features_output: String,
    pub model_output: String,
    pub train_metrics_output: String,
    pub python_bin: String,
    pub train_split: u64,
    pub n_trees: u32,
    pub max_depth: Option<u32>,
    pub min_samples_leaf: Option<u32>,
    pub symbol: String,
    pub window_size: usize,
    pub label_fn_name: String,
    pub indicator_specs: Vec<IndicatorSpec>,
}

/// The bit pattern of `0.6`, the default share of rows used for training.
pub const DEFAULT_TRAIN_SPLIT_BITS: u64 = 0x3FE3_3333_3333_3333;

/// The text of an optional string, or `d` when it is missing.
pub open spec fn text_or(a: Option<String>, d: Seq<char>) -> Seq<char> {
    match a {
        Some(s) => s@,
        None => d,
    }
}

/// The first present of `a` and `b`, or `d` when both are missing.
pub open spec fn first_text_or(a: Option<String>, b: Option<String>, d: Seq<char>) -> Seq<char> {
    match a {
        Some(s) => s@,
        None => text_or(b, d),
    }
}

/// The first present of `a` and `b`, or `d` when both are missing.
pub open spec fn first_or<T>(a: Option<T>, b: Option<T>, d: T) -> T {
    match a {
        Some(x) => x,
        None => match b {
            Some(y) => y,
            None => d,
        },
    }
}

/// The indicator an entry describes, when its type is known and the
/// parameters that type needs are present. Bollinger and Keltner default
/// their width to 2.
pub open spec fn spec_indicator_kind(cfg: IndicatorConfig) -> Option<IndicatorKind> {
    let t = cfg.indicator_type@;
    let two = spec_decimal_from_i64(2);
    if t == "sma"@ {
        match cfg.period { Some(p) => Some(IndicatorKind::Sma { period: p }), None => None }
    } else if t == "ema"@ {
        match cfg.period { Some(p) => Some(IndicatorKind::Ema { period: p }), None => None }
    } else if t == "rsi"@ {
        match cfg.period { Some(p) => Some(IndicatorKind::Rsi { period: p }), None => None }
    } else if t == "macd"@ {
        match (cfg.fast_period, cfg.slow_period, cfg.signal_period) {
            (Some(f), Some(s), Some(g)) => Some(
                IndicatorKind::Macd { fast_period: f, slow_period: s, signal_period: g },
            ),
            _ => None,
        }
    } else if t == "stoch_k"@ {
        match cfg.period { Some(p) => Some(IndicatorKind::StochasticK { period: p }), None => None }
    } else if t == "willr"@ {
        match cfg.period { Some(p) => Some(IndicatorKind::WilliamsR { period: p }), None => None }
    } else if t == "cci"@ {
        match cfg.period { Some(p) => Some(IndicatorKind::Cci { period: p }), None => None }
    } else if t == "roc"@ {
        match cfg.period { Some(p) => Some(IndicatorKind::Roc { period: p }), None => None }
    } else if t == "bb"@ {
        match cfg.period {
            Some(p) => Some(IndicatorKind::BollingerB {
                period: p,
                std_dev: match cfg.std_dev { Some(d) => d, None => two },
            }),
            None => None,
        }
    } else if t == "atr"@ {
        match cfg.period { Some(p) => Some(IndicatorKind::Atr { period: p }), None => None }
    } else if t == "obv"@ {
        Some(IndicatorKind::Obv)
    } else if t == "mfi"@ {
        match cfg.period { Some(p) => Some(IndicatorKind::Mfi { period: p }), None => None }
    } else if t == "adx"@ {
        match cfg.period { Some(p) => Some(IndicatorKind::Adx { period: p }), None => None }
    } else if t == "aroon"@ {
        match cfg.period { Some(p) => Some(IndicatorKind::Aroon { period: p }), None => None }
    } else if t == "force"@ {
        match cfg.period { Some(p) => Some(IndicatorKind::ForceIndex { period: p }), None => None }
    } else if t == "chaikin"@ {
        match (cfg.fast_period, cfg.slow_period) {
            (Some(f), Some(s)) => Some(IndicatorKind::ChaikinOsc { fast_period: f, slow_period: s }),
            _ => None,
        }
    } else if t == "vwap"@ {
        Some(IndicatorKind::Vwap)
    } else if t == "mom"@ {
        match cfg.period { Some(p) => Some(IndicatorKind::Momentum { period: p }), None => None }
    } else if t == "trix"@ {
        match cfg.period { Some(p) => Some(IndicatorKind::Trix { period: p }), None => None }
    } else if t == "keltner"@ {
        match cfg.period {
            Some(p) => Some(IndicatorKind::KeltnerChannel {
                period: p,
                multiplier: match cfg.multiplier { Some(d) => d, None => two },
            }),
            None => None,
        }
    } else if t == "wad"@ {
        Some(IndicatorKind::WilliamsAD)
    } else if t == "elder"@ {
        match cfg.period { Some(p) => Some(IndicatorKind::ElderRay { period: p }), None => None }
    } else {
        None
    }
}

/// The named indicator an entry describes, if any.
pub open spec fn spec_as_indicator_spec(cfg: IndicatorConfig) -> Option<IndicatorSpec> {
    match spec_indicator_kind(cfg) {
        Some(k) => Some(IndicatorSpec { name: cfg.name, kind: k }),
        None => None,
    }
}

/// The indicators of a list of entries, skipping the entries that describe none.
pub open spec fn spec_indicator_specs(cfgs: Seq<IndicatorConfig>) -> Seq<IndicatorSpec>
    decreases cfgs.len(),
{
    if cfgs.len() == 0 {
        Seq::empty()
    } else {
        let prev = spec_indicator_specs(cfgs.drop_last());
        match spec_as_indicator_spec(cfgs.last()) {
            Some(s) => prev.push(s),
            None => prev,
        }
    }
}


/// The indicator entries of the default experiment:
/// (type, name, period, fast, slow, signal, width 2 as std_dev, width 2 as multiplier).
pub open spec fn default_indicator_table() -> Seq<(Seq<char>, Seq<char>, Option<usize>, Option<usize>, Option<usize>, Option<usize>, bool, bool)> {
    seq![
        ("sma"@, "sma20"@, Some(20usize), None, None, None, false, false),
        ("sma"@, "sma50"@, Some(50usize), None, None, None, false, false),
        ("ema"@, "ema12"@, Some(12usize), None, None, None, false, false),
        ("ema"@, "ema26"@, Some(26usize), None, None, None, false, false),
        ("rsi"@, "rsi14"@, Some(14usize), None, None, None, false, false),
        ("macd"@, "macd"@, None, Some(12usize), Some(26usize), Some(9usize), false, false),
        ("stoch_k"@, "stoch_k"@, Some(14usize), None, None, None, false, false),
        ("willr"@, "willr14"@, Some(14usize), None, None, None, false, false),
        ("cci"@, "cci20"@, Some(20usize), None, None, None, false, false),
        ("roc"@, "roc10"@, Some(10usize), None, None, None, false, false),
        ("bb"@, "bb_sma"@, Some(20usize), None, None, None, true, false),
        ("atr"@, "atr14"@, Some(14usize), None, None, None, false, false),
        ("obv"@, "obv"@, None, None, None, None, false, false),
        ("mfi"@, "mfi14"@, Some(14usize), None, None, None, false, false),
        ("adx"@, "adx14"@, Some(14usize), None, None, None, false, false),
        ("aroon"@, "aroon14"@, Some(14usize), None, None, None, false, false),
        ("force"@, "force13"@, Some(13usize), None, None, None, false, false),
        ("chaikin"@, "chaikin"@, None, Some(3usize), Some(10usize), None, false, false),
        ("vwap"@, "vwap"@, None, None, None, None, false, false),
        ("mom"@, "mom10"@, Some(10usize), None, None, None, false, false),
        ("trix"@, "trix15"@, Some(15usize), None, None, None, false, false),
        ("keltner"@, "keltner20"@, Some(20usize), None, None, None, false, true),
        ("wad"@, "wad"@, None, None, None, None, false, false),
        ("elder"@, "elder13"@, Some(13usize), None, None, None, false, false)
    ]
}

/// Whether an entry is the given row of the default table.
pub open spec fn entry_matches(
    c: IndicatorConfig,
    row: (Seq<char>, Seq<char>, Option<usize>, Option<usize>, Option<usize>, Option<usize>, bool, bool),
) -> bool {
    &&& c.indicator_type@ == row.0
    &&& c.name@ == row.1
    &&& c.period == row.2
    &&& c.fast_period == row.3
    &&& c.slow_period == row.4
    &&& c.signal_period == row.5
    &&& c.std_dev == (if row.6 { Some(spec_decimal_from_i64(2)) } else { None })
    &&& c.multiplier == (if row.7 { Some(spec_decimal_from_i64(2)) } else { None })
}

/// Whether `e` is the default experiment: a 60-bar window, labels by the
/// next close's direction, and the indicators of the default table.
pub open spec fn is_default_experiment(e: ExperimentConfig) -> bool {
    &&& e.window_size == Some(60usize)
    &&& text_or(e.label_fn, Seq::empty()) == "next_close_direction"@
    &&& e.label_fn is Some
    &&& match e.indicators {
        Some(v) => {
            &&& v@.len() == default_indicator_table().len()
            &&& forall|i: int| 0 <= i < v@.len() ==> entry_matches(#[trigger] v@[i], default_indicator_table()[i])
        },
        None => false,
    }
}

/// Whether `p` is the default `[paths]` table: no input, and the output
/// files under `output/`.
pub open spec fn is_default_paths(p: PathsConfig) -> bool {
    &&& p.csv_input is None
    &&& p.csv_output matches Some(s) && s@ == "output/enhanced.csv"@
    &&& p.png_output matches Some(s) && s@ == "output/chart.svg"@
    &&& p.html_output matches Some(s) && s@ == "output/dashboard.html"@
    &&& p.train_features_output matches Some(s) && s@ == "output/train_features.csv"@
    &&& p.test_features_output matches Some(s) && s@ == "output/test_features.csv"@
    &&& p.model_output matches Some(s) && s@ == "output/model.onnx"@
    &&& p.train_metrics_output matches Some(s) && s@ == "output/train_metrics.json"@
}

fn owned_some(s: &str) -> (r: Option<String>)
    ensures
        r matches Some(x) && x@ == s@,
{
    Some(s.to_owned())
}

fn default_entry(
    t: &str,
    name: &str,
    period: Option<usize>,
    fast_period: Option<usize>,
    slow_period: Option<usize>,
    signal_period: Option<usize>,
    std_dev_two: bool,
    multiplier_two: bool,
) -> (r: IndicatorConfig)
    ensures
        entry_matches(r, (t@, name@, period, fast_period, slow_period, signal_period, std_dev_two, multiplier_two)),
{
    IndicatorConfig {
        indicator_type: t.to_owned(),
        name: name.to_owned(),
        period,
        fast_period,
        slow_period,
        signal_period,
        std_dev: if std_dev_two { Some(decimal_from_i64(2)) } else { None },
        multiplier: if multiplier_two { Some(decimal_from_i64(2)) } else { None },
    }
}

fn default_indicators() -> (r: Vec<IndicatorConfig>)
    ensures
        r@.len() == default_indicator_table().len(),
        forall|i: int| 0 <= i < r@.len() ==> entry_matches(#[trigger] r@[i], default_indicator_table()[i]),
{
    let mut v: Vec<IndicatorConfig> = Vec::new();
    v.push(default_entry("sma", "sma20", Some(20), None, None, None, false, false));
    v.push(default_entry("sma", "sma50", Some(50), None, None, None, false, false));
    v.push(default_entry("ema", "ema12", Some(12), None, None, None, false, false));
    v.push(default_entry("ema", "ema26", Some(26), None, None, None, false, false));
    v.push(default_entry("rsi", "rsi14", Some(14), None, None, None, false, false));
    v.push(default_entry("macd", "macd", None, Some(12), Some(26), Some(9), false, false));
    v.push(default_entry("stoch_k", "stoch_k", Some(14), None, None, None, false, false));
    v.push(default_entry("willr", "willr14", Some(14), None, None, None, false, false));
    v.push(default_entry("cci", "cci20", Some(20), None, None, None, false, false));
    v.push(default_entry("roc", "roc10", Some(10), None, None, None, false, false));
    v.push(default_entry("bb", "bb_sma", Some(20), None, None, None, true, false));
    v.push(default_entry("atr", "atr14", Some(14), None, None, None, false, false));
    v.push(default_entry("obv", "obv", None, None, None, None, false, false));
    v.push(default_entry("mfi", "mfi14", Some(14), None, None, None, false, false));
    v.push(default_entry("adx", "adx14", Some(14), None, None, None, false, false));
    v.push(default_entry("aroon", "aroon14", Some(14), None, None, None, false, false));
    v.push(default_entry("force", "force13", Some(13), None, None, None, false, false));
    v.push(default_entry("chaikin", "chaikin", None, Some(3), Some(10), None, false, false));
    v.push(default_entry("vwap", "vwap", None, None, None, None, false, false));
    v.push(default_entry("mom", "mom10", Some(10), None, None, None, false, false));
    v.push(default_entry("trix", "trix15", Some(15), None, None, None, false, false));
    v.push(default_entry("keltner", "keltner20", Some(20), None, None, None, false, true));
    v.push(default_entry("wad", "wad", None, None, None, None, false, false));
    v.push(default_entry("elder", "elder13", Some(13), None, None, None, false, false));
    v
}

/// The level `RUST_LOG` is set to for a count of `-v` flags.
pub fn log_level(verbose: u8) -> (r: &'static str)
    ensures
        r@ == (if verbose == 0 { "warn"@ } else if verbose == 1 { "info"@ } else { "debug"@ }),
{
    if verbose == 0 {
        "warn"
    } else if verbose == 1 {
        "info"
    } else {
        "debug"
    }
}

/// The indicators of a list of entries, skipping those that describe none.
pub fn indicator_specs_of(cfgs: &Vec<IndicatorConfig>) -> (r: Vec<IndicatorSpec>)
    ensures
        r@ == spec_indicator_specs(cfgs@),
{
    let mut out: Vec<IndicatorSpec> = Vec::new();
    let mut i: usize = 0;
    while i < cfgs.len()
        invariant
            i <= cfgs@.len(),
            out@ == spec_indicator_specs(cfgs@.take(i as int)),
        decreases cfgs@.len() - i,
    {
        proof {
            assert(cfgs@.take(i + 1).drop_last() =~= cfgs@.take(i as int));
            assert(cfgs@.take(i + 1).last() == cfgs@[i as int]);
        }
        match Config::as_indicator_spec(&cfgs[i]) {
            Some(spec) => out.push(spec),
            None => {},
        }
        i = i + 1;
    }
    proof {
        assert(cfgs@.take(i as int) =~= cfgs@);
    }
    out
}

/// The indicator entries of an experiment table, none when the list is missing.
pub open spec fn entries_of(e: ExperimentConfig) -> Seq<IndicatorConfig> {
    match e.indicators {
        Some(v) => v@,
        None => Seq::empty(),
    }
}

/// The `[ml]` value of a field, when the table and the field are present.
pub open spec fn ml_field<T>(ml: Option<MlConfig>, f: spec_fn(MlConfig) -> Option<T>) -> Option<T> {
    match ml {
        Some(m) => f(m),
        None => None,
    }
}

/// The path a field resolves to: the `[paths]` entry when the table is
/// present (and the entry is), else the default file name.
pub open spec fn path_field(paths: Option<PathsConfig>, f: spec_fn(PathsConfig) -> Option<String>, d: Seq<char>) -> Seq<char> {
    match paths {
        Some(p) => text_or(f(p), d),
        None => d,
    }
}

/// Whether `r` is the configuration that `cli` and `toml` resolve to: the
/// input file from the command line before the file; `[ml]` values before
/// the command line; the experiment table (or the default experiment) before
/// the command-line window; built-in defaults last.
pub open spec fn resolves_to(cli: CliArgs, toml: Option<TomlConfig>, r: Config) -> bool {
    let paths = match toml { Some(t) => t.paths, None => None };
    let exp = match toml { Some(t) => t.experiment, None => None };
    let ml = match toml { Some(t) => t.ml, None => None };
    &&& r.csv_input@ == (match cli.csv_input {
        Some(s) => s@,
        None => match paths {
            Some(p) => text_or(p.csv_input, "data/input.csv"@),
            None => "data/input.csv"@,
        },
    })
    &&& r.csv_output@ == path_field(paths, |p: PathsConfig| p.csv_output, "output/enhanced.csv"@)
    &&& r.png_output@ == path_field(paths, |p: PathsConfig| p.png_output, "output/chart.svg"@)
    &&& r.html_output@ == path_field(paths, |p: PathsConfig| p.html_output, "output/dashboard.html"@)
    &&& r.train_features_output@ == path_field(paths, |p: PathsConfig| p.train_features_output, "output/train_features.csv"@)
    &&& r.test_features_output@ == path_field(paths, |p: PathsConfig| p.test_features_output, "output/test_features.csv"@)
    &&& r.model_output@ == path_field(paths, |p: PathsConfig| p.model_output, "output/model.onnx"@)
    &&& r.train_metrics_output@ == path_field(paths, |p: PathsConfig| p.train_metrics_output, "output/train_metrics.json"@)
    &&& r.python_bin@ == first_text_or(ml_field(ml, |m: MlConfig| m.python_bin), cli.python_bin, "python3"@)
    &&& r.train_split == first_or(ml_field(ml, |m: MlConfig| m.train_split), cli.train_split, DEFAULT_TRAIN_SPLIT_BITS)
    &&& r.n_trees == first_or(ml_field(ml, |m: MlConfig| m.n_trees), cli.n_trees, 300u32)
    &&& r.max_depth == ml_field(ml, |m: MlConfig| m.max_depth)
    &&& r.min_samples_leaf == ml_field(ml, |m: MlConfig| m.min_samples_leaf)
    &&& r.symbol@ == text_or(ml_field(ml, |m: MlConfig| m.symbol), "SYM"@)
    &&& match exp {
        Some(e) => {
            &&& r.window_size == first_or(e.window_size, cli.window_size, 60usize)
            &&& r.label_fn_name@ == text_or(e.label_fn, "next_close_direction"@)
            &&& r.indicator_specs@ == spec_indicator_specs(entries_of(e))
        },
        None => exists|d: ExperimentConfig| {
            &&& is_default_experiment(d)
            &&& r.window_size == 60
            &&& r.label_fn_name@ == "next_close_direction"@
            &&& r.indicator_specs@ == spec_indicator_specs(entries_of(d))
        },
    }
}

fn take_text_or(a: Option<String>, d: &str) -> (r: String)
    ensures
        r@ == text_or(a, d@),
{
    match a {
        Some(s) => s,
        None => d.to_owned(),
    }
}

fn first_take_text_or(a: Option<String>, b: Option<String>, d: &str) -> (r: String)
    ensures
        r@ == first_text_or(a, b, d@),
{
    match a {
        Some(s) => s,
        None => take_text_or(b, d),
    }
}

fn take_first_or<T>(a: Option<T>, b: Option<T>, d: T) -> (r: T)
    ensures
        r == first_or(a, b, d),
{
    match a {
        Some(x) => x,
        None => match b {
            Some(y) => y,
            None => d,
        },
    }
}

impl Config {
    /// The `[paths]` table used when the file has none.
    pub fn default_paths() -> (r: PathsConfig)
        ensures
            is_default_paths(r),
    {
        PathsConfig {
            csv_input: None,
            csv_output: owned_some("output/enhanced.csv"),
            png_output: owned_some("output/chart.svg"),
            html_output: owned_some("output/dashboard.html"),
            train_features_output: owned_some("output/train_features.csv"),
            test_features_output: owned_some("output/test_features.csv"),
            model_output: owned_some("output/model.onnx"),
            train_metrics_output: owned_some("output/train_metrics.json"),
        }
    }

    /// The `[experiment]` table used when the file has none.
    pub fn default_experiment() -> (r: ExperimentConfig)
        ensures
            is_default_experiment(r),
    {
        ExperimentConfig {
            window_size: Some(60),
            label_fn: owned_some("next_close_direction"),
            indicators: Some(default_indicators()),
        }
    }

    /// Merges the command line and the configuration file (when one was
    /// read and parsed) into the run configuration.
    pub fn resolve(cli: CliArgs, toml_config: Option<TomlConfig>) -> (r: Config)
        ensures
            resolves_to(cli, toml_config, r),
    {
        let (paths_opt, exp_opt, ml) = match toml_config {
            Some(t) => (t.paths, t.experiment, t.ml),
            None => (None, None, None),
        };
        let paths = match paths_opt {
            Some(p) => p,
            None => Config::default_paths(),
        };
        let had_experiment = exp_opt.is_some();
        let experiment = match exp_opt {
            Some(e) => e,
            None => Config::default_experiment(),
        };
        let ghost exp0 = experiment;
        let (ml_python, ml_split, ml_trees, ml_depth, ml_leaf, ml_symbol) = match ml {
            Some(m) => (m.python_bin, m.train_split, m.n_trees, m.max_depth, m.min_samples_leaf, m.symbol),
            None => (None, None, None, None, None, None),
        };
        let indicator_specs = match &experiment.indicators {
            Some(v) => indicator_specs_of(v),
            None => Vec::new(),
        };
        let csv_input = match cli.csv_input {
            Some(s) => s,
            None => take_text_or(paths.csv_input, "data/input.csv"),
        };
        let r = Config {
            csv_input,
            csv_output: take_text_or(paths.csv_output, "output/enhanced.csv"),
            png_output: take_text_or(paths.png_output, "output/chart.svg"),
            html_output: take_text_or(paths.html_output, "output/dashboard.html"),
            train_features_output: take_text_or(paths.train_features_output, "output/train_features.csv"),
            test_features_output: take_text_or(paths.test_features_output, "output/test_features.csv"),
            model_output: take_text_or(paths.model_output, "output/model.onnx"),
            train_metrics_output: take_text_or(paths.train_metrics_output, "output/train_metrics.json"),
            python_bin: first_take_text_or(ml_python, cli.python_bin, "python3"),
            train_split: take_first_or(ml_split, cli.train_split, DEFAULT_TRAIN_SPLIT_BITS),
            n_trees: take_first_or(ml_trees, cli.n_trees, 300),
            max_depth: ml_depth,
            min_samples_leaf: ml_leaf,
            symbol: take_text_or(ml_symbol, "SYM"),
            window_size: take_first_or(experiment.window_size, cli.window_size, 60),
            label_fn_name: take_text_or(experiment.label_fn, "next_close_direction"),
            indicator_specs,
        };
        proof {
            if !had_experiment {
                assert(is_default_experiment(exp0));
            }
        }
        r
    }

    /// The names of the configured indicators, in order.
    pub fn indicator_names(&self) -> (r: Vec<String>)
        ensures
            r@.len() == self.indicator_specs@.len(),
            forall|i: int| 0 <= i < r@.len() ==> #[trigger] r@[i] == self.indicator_specs@[i].name,
    {
        let mut out: Vec<String> = Vec::new();
        let mut i: usize = 0;
        while i < self.indicator_specs.len()
            invariant
                i <= self.indicator_specs@.len(),
                out@.len() == i,
                forall|j: int| 0 <= j < i ==> #[trigger] out@[j] == self.indicator_specs@[j].name,
            decreases self.indicator_specs@.len() - i,
        {
            out.push(self.indicator_specs[i].name.clone());
            i = i + 1;
        }
        out
    }
    /// The indicator an entry describes: `None` for an unknown type or when
    /// a parameter its type needs is missing.
    pub fn as_indicator_spec(cfg: &IndicatorConfig) -> (r: Option<IndicatorSpec>)
        ensures
            r == spec_as_indicator_spec(*cfg),
    {
        let t = cfg.indicator_type.as_str();
        let kind = if str_equals(t, "sma") {
            match cfg.period { Some(p) => Some(IndicatorKind::Sma { period: p }), None => None }
        } else if str_equals(t, "ema") {
            match cfg.period { Some(p) => Some(IndicatorKind::Ema { period: p }), None => None }
        } else if str_equals(t, "rsi") {
            match cfg.period { Some(p) => Some(IndicatorKind::Rsi { period: p }), None => None }
        } else if str_equals(t, "macd") {
            match (cfg.fast_period, cfg.slow_period, cfg.signal_period) {
                (Some(f), Some(s), Some(g)) => Some(
                    IndicatorKind::Macd { fast_period: f, slow_period: s, signal_period: g },
                ),
                _ => None,
            }
        } else if str_equals(t, "stoch_k") {
            match cfg.period { Some(p) => Some(IndicatorKind::StochasticK { period: p }), None => None }
        } else if str_equals(t, "willr") {
            match cfg.period { Some(p) => Some(IndicatorKind::WilliamsR { period: p }), None => None }
        } else if str_equals(t, "cci") {
            match cfg.period { Some(p) => Some(IndicatorKind::Cci { period: p }), None => None }
        } else if str_equals(t, "roc") {
            match cfg.period { Some(p) => Some(IndicatorKind::Roc { period: p }), None => None }
        } else if str_equals(t, "bb") {
            match cfg.period {
                Some(p) => Some(IndicatorKind::BollingerB {
                    period: p,
                    std_dev: match cfg.std_dev { Some(d) => d, None => decimal_from_i64(2) },
                }),
                None => None,
            }
        } else if str_equals(t, "atr") {
            match cfg.period { Some(p) => Some(IndicatorKind::Atr { period: p }), None => None }
        } else if str_equals(t, "obv") {
            Some(IndicatorKind::Obv)
        } else if str_equals(t, "mfi") {
            match cfg.period { Some(p) => Some(IndicatorKind::Mfi { period: p }), None => None }
        } else if str_equals(t, "adx") {
            match cfg.period { Some(p) => Some(IndicatorKind::Adx { period: p }), None => None }
        } else if str_equals(t, "aroon") {
            match cfg.period { Some(p) => Some(IndicatorKind::Aroon { period: p }), None => None }
        } else if str_equals(t, "force") {
            match cfg.period { Some(p) => Some(IndicatorKind::ForceIndex { period: p }), None => None }
        } else if str_equals(t, "chaikin") {
            match (cfg.fast_period, cfg.slow_period) {
                (Some(f), Some(s)) => Some(IndicatorKind::ChaikinOsc { fast_period: f, slow_period: s }),
                _ => None,
            }
        } else if str_equals(t, "vwap") {
            Some(IndicatorKind::Vwap)
        } else if str_equals(t, "mom") {
            match cfg.period { Some(p) => Some(IndicatorKind::Momentum { period: p }), None => None }
        } else if str_equals(t, "trix") {
            match cfg.period { Some(p) => Some(IndicatorKind::Trix { period: p }), None => None }
        } else if str_equals(t, "keltner") {
            match cfg.period {
                Some(p) => Some(IndicatorKind::KeltnerChannel {
                    period: p,
                    multiplier: match cfg.multiplier { Some(d) => d, None => decimal_from_i64(2) },
                }),
                None => None,
            }
        } else if str_equals(t, "wad") {
            Some(IndicatorKind::WilliamsAD)
        } else if str_equals(t, "elder") {
            match cfg.period { Some(p) => Some(IndicatorKind::ElderRay { period: p }), None => None }
        } else {
            None
        };
        match kind {
            Some(k) => Some(IndicatorSpec { name: cfg.name.clone(), kind: k }),
            None => None,
        }
    }
}


/// The type string under which an indicator kind is configured.
pub open spec fn kind_type_name(k: IndicatorKind) -> Seq<char> {
    match k {
        IndicatorKind::Sma { .. } => "sma"@,
        IndicatorKind::Ema { .. } => "ema"@,
        IndicatorKind::Rsi { .. } => "rsi"@,
        IndicatorKind::Macd { .. } => "macd"@,
        IndicatorKind::StochasticK { .. } => "stoch_k"@,
        IndicatorKind::WilliamsR { .. } => "willr"@,
        IndicatorKind::Cci { .. } => "cci"@,
        IndicatorKind::Roc { .. } => "roc"@,
        IndicatorKind::BollingerB { .. } => "bb"@,
        IndicatorKind::Atr { .. } => "atr"@,
        IndicatorKind::Obv => "obv"@,
        IndicatorKind::Mfi { .. } => "mfi"@,
        IndicatorKind::Adx { .. } => "adx"@,
        IndicatorKind::Aroon { .. } => "aroon"@,
        IndicatorKind::ForceIndex { .. } => "force"@,
        IndicatorKind::ChaikinOsc { .. } => "chaikin"@,
        IndicatorKind::Vwap => "vwap"@,
        IndicatorKind::Momentum { .. } => "mom"@,
        IndicatorKind::Trix { .. } => "trix"@,
        IndicatorKind::KeltnerChannel { .. } => "keltner"@,
        IndicatorKind::WilliamsAD => "wad"@,
        IndicatorKind::ElderRay { .. } => "elder"@,
    }
}

/// Whether the parameters of kind `k` are those the entry gives: each period
/// from the entry's field of that name, and a Bollinger or Keltner width from
/// the entry or else 2.
pub open spec fn kind_params_from(k: IndicatorKind, cfg: IndicatorConfig) -> bool {
    match k {
        IndicatorKind::Macd { fast_period, slow_period, signal_period } => cfg.fast_period == Some(fast_period)
            && cfg.slow_period == Some(slow_period) && cfg.signal_period == Some(signal_period),
        IndicatorKind::ChaikinOsc { fast_period, slow_period } => cfg.fast_period == Some(fast_period)
            && cfg.slow_period == Some(slow_period),
        IndicatorKind::BollingerB { period, std_dev } => cfg.period == Some(period) && std_dev == (
        match cfg.std_dev {
            Some(d) => d,
            None => spec_decimal_from_i64(2),
        }),
        IndicatorKind::KeltnerChannel { period, multiplier } => cfg.period == Some(period) && multiplier == (
        match cfg.multiplier {
            Some(d) => d,
            None => spec_decimal_from_i64(2),
        }),
        IndicatorKind::Obv | IndicatorKind::Vwap | IndicatorKind::WilliamsAD => true,
        IndicatorKind::Sma { period } | IndicatorKind::Ema { period } | IndicatorKind::Rsi { period }
        | IndicatorKind::StochasticK { period } | IndicatorKind::WilliamsR { period }
        | IndicatorKind::Cci { period } | IndicatorKind::Roc { period } | IndicatorKind::Atr { period }
        | IndicatorKind::Mfi { period } | IndicatorKind::Adx { period } | IndicatorKind::Aroon { period }
        | IndicatorKind::ForceIndex { period } | IndicatorKind::Momentum { period }
        | IndicatorKind::Trix { period } | IndicatorKind::ElderRay { period } => cfg.period == Some(period),
    }
}

/// Whether the entry's type string names a known indicator and the entry
/// has the parameters that indicator needs.
pub open spec fn entry_complete(cfg: IndicatorConfig) -> bool {
    let t = cfg.indicator_type@;
    ||| (t == "obv"@ || t == "vwap"@ || t == "wad"@)
    ||| (t == "macd"@ && cfg.fast_period is Some && cfg.slow_period is Some && cfg.signal_period is Some)
    ||| (t == "chaikin"@ && cfg.fast_period is Some && cfg.slow_period is Some)
    ||| ((t == "sma"@ || t == "ema"@ || t == "rsi"@ || t == "stoch_k"@ || t == "willr"@ || t == "cci"@
        || t == "roc"@ || t == "bb"@ || t == "atr"@ || t == "mfi"@ || t == "adx"@ || t == "aroon"@
        || t == "force"@ || t == "mom"@ || t == "trix"@ || t == "keltner"@ || t == "elder"@)
        && cfg.period is Some)
}

/// An entry becomes an indicator exactly when its type is known and its
/// parameters are there; the indicator keeps the entry's name, is the kind
/// its type string names (an "ema" entry is an EMA, never another average),
/// and takes its parameters from the entry.
pub proof fn law_entry_becomes_its_kind(cfg: IndicatorConfig)
    ensures
        spec_as_indicator_spec(cfg) is Some <==> entry_complete(cfg),
        spec_as_indicator_spec(cfg) matches Some(s) ==> {
            &&& s.name == cfg.name
            &&& kind_type_name(s.kind) == cfg.indicator_type@
            &&& kind_params_from(s.kind, cfg)
        },
{
    reveal_strlit("sma");
    assert("sma"@[0] == 's' && "sma"@[1] == 'm');
    reveal_strlit("ema");
    assert("ema"@[0] == 'e' && "ema"@[1] == 'm');
    reveal_strlit("rsi");
    assert("rsi"@[0] == 'r' && "rsi"@[1] == 's');
    reveal_strlit("macd");
    assert("macd"@[0] == 'm' && "macd"@[1] == 'a');
    reveal_strlit("stoch_k");
    assert("stoch_k"@[0] == 's' && "stoch_k"@[1] == 't');
    reveal_strlit("willr");
    assert("willr"@[0] == 'w' && "willr"@[1] == 'i');
    reveal_strlit("cci");
    assert("cci"@[0] == 'c' && "cci"@[1] == 'c');
    reveal_strlit("roc");
    assert("roc"@[0] == 'r' && "roc"@[1] == 'o');
    reveal_strlit("bb");
    assert("bb"@[0] == 'b' && "bb"@[1] == 'b');
    reveal_strlit("atr");
    assert("atr"@[0] == 'a' && "atr"@[1] == 't');
    reveal_strlit("obv");
    assert("obv"@[0] == 'o' && "obv"@[1] == 'b');
    reveal_strlit("mfi");
    assert("mfi"@[0] == 'm' && "mfi"@[1] == 'f');
    reveal_strlit("adx");
    assert("adx"@[0] == 'a' && "adx"@[1] == 'd');
    reveal_strlit("aroon");
    assert("aroon"@[0] == 'a' && "aroon"@[1] == 'r');
    reveal_strlit("force");
    assert("force"@[0] == 'f' && "force"@[1] == 'o');
    reveal_strlit("chaikin");
    assert("chaikin"@[0] == 'c' && "chaikin"@[1] == 'h');
    reveal_strlit("vwap");
    assert("vwap"@[0] == 'v' && "vwap"@[1] == 'w');
    reveal_strlit("mom");
    assert("mom"@[0] == 'm' && "mom"@[1] == 'o');
    reveal_strlit("trix");
    assert("trix"@[0] == 't' && "trix"@[1] == 'r');
    reveal_strlit("keltner");
    assert("keltner"@[0] == 'k' && "keltner"@[1] == 'e');
    reveal_strlit("wad");
    assert("wad"@[0] == 'w' && "wad"@[1] == 'a');
    reveal_strlit("elder");
    assert("elder"@[0] == 'e' && "elder"@[1] == 'l');
}


/// The file's `[ml]` table, when there is a file and it has one.
pub open spec fn ml_table(toml: Option<TomlConfig>) -> Option<MlConfig> {
    match toml {
        Some(t) => t.ml,
        None => None,
    }
}

/// The file's `[experiment]` table, when there is a file and it has one.
pub open spec fn experiment_table(toml: Option<TomlConfig>) -> Option<ExperimentConfig> {
    match toml {
        Some(t) => t.experiment,
        None => None,
    }
}

/// Where each setting comes from: an input file given on the command line
/// always wins; values of the file's `[ml]` table win over the command line;
/// the file's experiment window wins over the command line's; without a
/// file, every path and the experiment are the built-in defaults and the
/// command line supplies what it gives.
pub proof fn law_resolve_precedence(cli: CliArgs, toml: Option<TomlConfig>, r: Config)
    requires
        resolves_to(cli, toml, r),
    ensures
        cli.csv_input matches Some(s) ==> r.csv_input@ == s@,
        ml_table(toml) matches Some(m) ==> (m.python_bin matches Some(pb) ==> r.python_bin@ == pb@),
        ml_table(toml) matches Some(m) ==> (m.n_trees matches Some(n) ==> r.n_trees == n),
        ml_table(toml) matches Some(m) ==> (m.train_split matches Some(x) ==> r.train_split == x),
        experiment_table(toml) matches Some(e) ==> (e.window_size matches Some(w) ==> r.window_size == w),
        toml is None ==> {
            &&& r.csv_input@ == (match cli.csv_input {
                Some(s) => s@,
                None => "data/input.csv"@,
            })
            &&& r.csv_output@ == "output/enhanced.csv"@
            &&& r.png_output@ == "output/chart.svg"@
            &&& r.html_output@ == "output/dashboard.html"@
            &&& r.train_features_output@ == "output/train_features.csv"@
            &&& r.test_features_output@ == "output/test_features.csv"@
            &&& r.model_output@ == "output/model.onnx"@
            &&& r.train_metrics_output@ == "output/train_metrics.json"@
            &&& r.python_bin@ == (match cli.python_bin {
                Some(s) => s@,
                None => "python3"@,
            })
            &&& r.train_split == (match cli.train_split {
                Some(x) => x,
                None => 0x3FE3_3333_3333_3333u64,
            })
            &&& r.n_trees == (match cli.n_trees {
                Some(n) => n,
                None => 300u32,
            })
            &&& r.max_depth is None
            &&& r.min_samples_leaf is None
            &&& r.symbol@ == "SYM"@
            &&& r.window_size == 60
            &&& r.label_fn_name@ == "next_close_direction"@
        },
{
    if let Some(t) = toml {
        if let Some(m) = t.ml {
            assert(ml_field(t.ml, |m: MlConfig| m.python_bin) == m.python_bin);
            assert(ml_field(t.ml, |m: MlConfig| m.n_trees) == m.n_trees);
            assert(ml_field(t.ml, |m: MlConfig| m.train_split) == m.train_split);
        }
    }
}
} // verus!
