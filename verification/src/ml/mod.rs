//! Prediction bookkeeping, training-table checks and backtest accounting.
pub mod backtest;
pub mod predict;
pub mod train;
