//! Market data held in memory and the row and record shapes of the CSV files.
pub mod market_data;
pub mod reader;
pub mod writer;
