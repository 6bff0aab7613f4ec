# data_analysis

Financial time-series analysis with a machine-learning backtest: read OHLCV
bars from CSV, run a configurable set of technical indicators
(`fin-primitives`), label bars, build windowed feature rows, train a random
forest, backtest its predictions and draw charts.

The library under `src/` is written in Verus; every function in it carries a
contract that the verifier proves, except the thin wrappers around `chrono`,
`fin-primitives`, `rust_decimal` and a few `std` string functions (marked
`external_body`): their contracts are trusted, stated from those crates'
sources and documentation.

- `config` — merging command-line options, the TOML file and the defaults;
  the default indicator set; turning indicator entries into specs.
- `data` — the bar series, CSV rows and timestamp parsing (`chrono`), the
  enhanced-CSV header.
- `indicators` — indicator kinds and their validity, the engine that feeds
  bars through a `fin-primitives` signal pipeline.
- `labels` — per-bar labelling rules and the barrier scan of the
  triple-barrier rule.
- `features` — the feature-row builder, with laws on what each kept row is
  and how every candidate bar is accounted for.
- `ml` — pairing predictions with labels, per-label accuracy counts and
  position bookkeeping of the backtest, checks on a training table.
- `workflow` — the steps between those modules: train/test split, aligning
  test rows with bars, chart windows.
- `float_bits` — IEEE-754 binary64 values are carried as their bit patterns;
  NaN tests and ordering on them.

`app/` is the program around the library: argument and file handling, CSV
and JSON I/O, the floating-point arithmetic (returns, ATR, equity curve,
Sharpe ratio, drawdown), model fitting and chart rendering.
