//! Financial time-series analysis: indicator bookkeeping, windowed feature
//! datasets, labelling rules and backtest accounting, with the numeric
//! series carried as IEEE-754 binary64 bit patterns.

pub mod float_bits;
pub mod text;
pub mod config;
pub mod error;
pub mod data;
pub mod labels;
pub mod indicators;
pub mod features;
pub mod ml;
pub mod workflow;
