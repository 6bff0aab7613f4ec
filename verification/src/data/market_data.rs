//! The in-memory bar series that feature building, labelling and backtests read.
use vstd::prelude::*;

verus! {

/// Column-wise bar data. Prices, volumes and indicator readings are
/// binary64 bit patterns (see `float_bits`); `None` marks an indicator
/// that had no value yet on that bar.
pub struct MarketData {
    pub opens: Vec<u64>,
    pub highs: Vec<u64>,
    pub lows: Vec<u64>,
    pub closes: Vec<u64>,
    pub volumes: Vec<u64>,
    pub timestamps: Vec<String>,
    pub indicator_values: Vec<Vec<Option<u64>>>,
}

impl MarketData {
    /// An empty series.
    pub fn new() -> (r: Self)
        ensures
            r.opens@.len() == 0,
            r.highs@.len() == 0,
            r.lows@.len() == 0,
            r.closes@.len() == 0,
            r.volumes@.len() == 0,
            r.timestamps@.len() == 0,
            r.indicator_values@.len() == 0,
    {
        MarketData {
            opens: Vec::new(),
            highs: Vec::new(),
            lows: Vec::new(),
            closes: Vec::new(),
            volumes: Vec::new(),
            timestamps: Vec::new(),
            indicator_values: Vec::new(),
        }
    }

    /// The number of bars, counted by the close series.
    pub fn len(&self) -> (r: usize)
        ensures
            r == self.closes@.len(),
    {
        self.closes.len()
    }
}

} // verus!
