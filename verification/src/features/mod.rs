//! Windowed feature datasets built from indicator series.
pub mod builder;
