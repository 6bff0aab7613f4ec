//! What each configured indicator is and how it is parameterised.
use vstd::prelude::*;
use rust_decimal::Decimal;
use fin_primitives::FinError;
use fin_primitives::signals::pipeline::SignalPipeline;
use crate::indicators::fin::{
    pipeline_add, pipeline_signals, period_in_range, entry_tag, spec_invalid_period, spec_chaikin_order_error, SignalEntry,
    spec_sma, spec_ema, spec_rsi, spec_macd, spec_stochastic_k, spec_williams_r, spec_cci, spec_roc, spec_bollinger_b, spec_atr, spec_obv, spec_mfi, spec_adx, spec_aroon, spec_force_index, spec_chaikin_osc, spec_vwap, spec_momentum, spec_trix, spec_keltner_channel, spec_williams_a_d, spec_elder_ray, adx_new, aroon_new, atr_new, bollinger_b_new, cci_new, chaikin_osc_new, elder_ray_new, ema_new, force_index_new, keltner_channel_new, macd_new, mfi_new, momentum_new, obv_new, roc_new, rsi_new, sma_new, stochastic_k_new, trix_new, vwap_new, williams_a_d_new, williams_r_new,
};

verus! {

/// `rust_decimal::Decimal`, carried through as an opaque value.
#[verifier::external_type_specification]
#[verifier::external_body]
pub struct ExDecimal(Decimal);

/// `Decimal::clone`: `Decimal` derives `Clone` and `Copy`, so a clone is the same value.
pub assume_specification[ <Decimal as Clone>::clone ](d: &Decimal) -> (r: Decimal)
    ensures
        r == *d,
;

/// The `Decimal` that `Decimal::from` makes of the integer `v`.
pub uninterp spec fn spec_decimal_from_i64(v: i64) -> Decimal;

/// `<Decimal as From<i64>>::from`: the decimal with integer value `v`
/// (scale 0); which value it is, is named by `spec_decimal_from_i64`.
#[verifier::external_body]
pub fn decimal_from_i64(v: i64) -> (r: Decimal)
    ensures
        r == spec_decimal_from_i64(v),
{
    Decimal::from(v)
}

/// The indicator families the engine can evaluate, with their parameters.
#[derive(Debug, Clone)]
pub enum IndicatorKind {
    Sma { period: usize },
    Ema { period: usize },
    Rsi { period: usize },
    Macd { fast_period: usize, slow_period: usize, signal_period: usize },
    StochasticK { period: usize },
    WilliamsR { period: usize },
    Cci { period: usize },
    Roc { period: usize },
    BollingerB { period: usize, std_dev: Decimal },
    Atr { period: usize },
    Obv,
    Mfi { period: usize },
    Adx { period: usize },
    Aroon { period: usize },
    ForceIndex { period: usize },
    ChaikinOsc { fast_period: usize, slow_period: usize },
    Vwap,
    Momentum { period: usize },
    Trix { period: usize },
    KeltnerChannel { period: usize, multiplier: Decimal },
    WilliamsAD,
    ElderRay { period: usize },
}

/// Whether the indicator's constructor accepts its parameters: every period
/// positive, and for MACD and the Chaikin oscillator the fast period below the slow.
pub open spec fn kind_valid(k: IndicatorKind) -> bool {
    match k {
        IndicatorKind::Sma { period } => period > 0,
        IndicatorKind::Ema { period } => period > 0,
        IndicatorKind::Rsi { period } => period > 0,
        IndicatorKind::Macd { fast_period, slow_period, signal_period } => fast_period > 0 && slow_period > 0 && signal_period > 0 && fast_period < slow_period,
        IndicatorKind::StochasticK { period } => period > 0,
        IndicatorKind::WilliamsR { period } => period > 0,
        IndicatorKind::Cci { period } => period > 0,
        IndicatorKind::Roc { period } => period > 0,
        IndicatorKind::BollingerB { period, .. } => period > 0,
        IndicatorKind::Atr { period } => period > 0,
        IndicatorKind::Obv => true,
        IndicatorKind::Mfi { period } => period > 0,
        IndicatorKind::Adx { period } => period > 0,
        IndicatorKind::Aroon { period } => period > 0,
        IndicatorKind::ForceIndex { period } => period > 0,
        IndicatorKind::ChaikinOsc { fast_period, slow_period } => fast_period > 0 && slow_period > 0 && fast_period < slow_period,
        IndicatorKind::Vwap => true,
        IndicatorKind::Momentum { period } => period > 0,
        IndicatorKind::Trix { period } => period > 0,
        IndicatorKind::KeltnerChannel { period, .. } => period > 0,
        IndicatorKind::WilliamsAD => true,
        IndicatorKind::ElderRay { period } => period > 0,
    }
}

/// Whether every period of the indicator is one its constructor can take
/// without an integer conversion dividing by zero or overflowing.
pub open spec fn kind_in_range(k: IndicatorKind) -> bool {
    match k {
        IndicatorKind::Sma { period } => period_in_range(period),
        IndicatorKind::Ema { period } => period_in_range(period),
        IndicatorKind::Rsi { period } => period_in_range(period),
        IndicatorKind::Macd { fast_period, slow_period, signal_period } => period_in_range(fast_period) && period_in_range(slow_period) && period_in_range(signal_period),
        IndicatorKind::StochasticK { period } => period_in_range(period),
        IndicatorKind::WilliamsR { period } => period_in_range(period),
        IndicatorKind::Cci { period } => period_in_range(period),
        IndicatorKind::Roc { period } => period_in_range(period),
        IndicatorKind::BollingerB { period, .. } => period_in_range(period),
        IndicatorKind::Atr { period } => period_in_range(period),
        IndicatorKind::Obv => true,
        IndicatorKind::Mfi { period } => period_in_range(period),
        IndicatorKind::Adx { period } => period_in_range(period),
        IndicatorKind::Aroon { period } => period_in_range(period),
        IndicatorKind::ForceIndex { period } => period_in_range(period),
        IndicatorKind::ChaikinOsc { fast_period, slow_period } => period_in_range(fast_period) && period_in_range(slow_period),
        IndicatorKind::Vwap => true,
        IndicatorKind::Momentum { period } => period_in_range(period),
        IndicatorKind::Trix { period } => period_in_range(period),
        IndicatorKind::KeltnerChannel { period, .. } => period_in_range(period),
        IndicatorKind::WilliamsAD => true,
        IndicatorKind::ElderRay { period } => period_in_range(period),
    }
}

/// The pipeline signal an indicator called `name` of kind `k` is added as:
/// the value its constructor builds for that name and those parameters.
pub open spec fn kind_entry(name: Seq<char>, k: IndicatorKind) -> SignalEntry {
    match k {
        IndicatorKind::Sma { period } => SignalEntry::Sma(spec_sma(name, period)),
        IndicatorKind::Ema { period } => SignalEntry::Ema(spec_ema(name, period)),
        IndicatorKind::Rsi { period } => SignalEntry::Rsi(spec_rsi(name, period)),
        IndicatorKind::Macd { fast_period, slow_period, signal_period } => SignalEntry::Macd(spec_macd(name, fast_period, slow_period, signal_period)),
        IndicatorKind::StochasticK { period } => SignalEntry::StochasticK(spec_stochastic_k(name, period)),
        IndicatorKind::WilliamsR { period } => SignalEntry::WilliamsR(spec_williams_r(name, period)),
        IndicatorKind::Cci { period } => SignalEntry::Cci(spec_cci(name, period)),
        IndicatorKind::Roc { period } => SignalEntry::Roc(spec_roc(name, period)),
        IndicatorKind::BollingerB { period, std_dev } => SignalEntry::BollingerB(spec_bollinger_b(name, period, std_dev)),
        IndicatorKind::Atr { period } => SignalEntry::Atr(spec_atr(name, period)),
        IndicatorKind::Obv => SignalEntry::Obv(spec_obv(name)),
        IndicatorKind::Mfi { period } => SignalEntry::Mfi(spec_mfi(name, period)),
        IndicatorKind::Adx { period } => SignalEntry::Adx(spec_adx(name, period)),
        IndicatorKind::Aroon { period } => SignalEntry::Aroon(spec_aroon(name, period)),
        IndicatorKind::ForceIndex { period } => SignalEntry::ForceIndex(spec_force_index(name, period)),
        IndicatorKind::ChaikinOsc { fast_period, slow_period } => SignalEntry::ChaikinOsc(spec_chaikin_osc(name, fast_period, slow_period)),
        IndicatorKind::Vwap => SignalEntry::Vwap(spec_vwap(name)),
        IndicatorKind::Momentum { period } => SignalEntry::Momentum(spec_momentum(name, period)),
        IndicatorKind::Trix { period } => SignalEntry::Trix(spec_trix(name, period)),
        IndicatorKind::KeltnerChannel { period, multiplier } => SignalEntry::KeltnerChannel(spec_keltner_channel(name, period, multiplier)),
        IndicatorKind::WilliamsAD => SignalEntry::WilliamsAD(spec_williams_a_d(name)),
        IndicatorKind::ElderRay { period } => SignalEntry::ElderRay(spec_elder_ray(name, period)),
    }
}

/// The error the constructor of a kind answers when it refuses the
/// parameters: the zero period, or for MACD the fast period when it is not
/// below the slow one, or for the Chaikin oscillator its order error.
pub open spec fn kind_error(k: IndicatorKind) -> FinError {
    match k {
        IndicatorKind::Macd { fast_period, slow_period, signal_period } => spec_invalid_period(
            if fast_period == 0 || slow_period == 0 || signal_period == 0 { 0 } else { fast_period },
        ),
        IndicatorKind::ChaikinOsc { fast_period, slow_period } => if fast_period == 0 || slow_period == 0 {
            spec_invalid_period(0)
        } else {
            spec_chaikin_order_error(fast_period, slow_period)
        },
        _ => spec_invalid_period(0),
    }
}

/// Which indicator family a kind is, as a number (its position in `IndicatorKind`).
pub open spec fn kind_tag(k: IndicatorKind) -> int {
    match k {
        IndicatorKind::Sma { .. } => 0,
        IndicatorKind::Ema { .. } => 1,
        IndicatorKind::Rsi { .. } => 2,
        IndicatorKind::Macd { .. } => 3,
        IndicatorKind::StochasticK { .. } => 4,
        IndicatorKind::WilliamsR { .. } => 5,
        IndicatorKind::Cci { .. } => 6,
        IndicatorKind::Roc { .. } => 7,
        IndicatorKind::BollingerB { .. } => 8,
        IndicatorKind::Atr { .. } => 9,
        IndicatorKind::Obv => 10,
        IndicatorKind::Mfi { .. } => 11,
        IndicatorKind::Adx { .. } => 12,
        IndicatorKind::Aroon { .. } => 13,
        IndicatorKind::ForceIndex { .. } => 14,
        IndicatorKind::ChaikinOsc { .. } => 15,
        IndicatorKind::Vwap => 16,
        IndicatorKind::Momentum { .. } => 17,
        IndicatorKind::Trix { .. } => 18,
        IndicatorKind::KeltnerChannel { .. } => 19,
        IndicatorKind::WilliamsAD => 20,
        IndicatorKind::ElderRay { .. } => 21,
    }
}

/// The signal a spec adds is an indicator of the spec's own family: a
/// moving-average spec adds a moving average, never another indicator.
pub proof fn law_entry_is_its_family(name: Seq<char>, k: IndicatorKind)
    ensures
        entry_tag(kind_entry(name, k)) == kind_tag(k),
{
}

impl IndicatorKind {
    /// Whether every period is one the indicator constructors can take
    /// (see `kind_in_range`).
    pub fn periods_in_range(&self) -> (r: bool)
        ensures
            r == kind_in_range(*self),
    {
        match self {
            IndicatorKind::Sma { period } => in_range(*period),
            IndicatorKind::Ema { period } => in_range(*period),
            IndicatorKind::Rsi { period } => in_range(*period),
            IndicatorKind::Macd { fast_period, slow_period, signal_period } => in_range(*fast_period) && in_range(*slow_period) && in_range(*signal_period),
            IndicatorKind::StochasticK { period } => in_range(*period),
            IndicatorKind::WilliamsR { period } => in_range(*period),
            IndicatorKind::Cci { period } => in_range(*period),
            IndicatorKind::Roc { period } => in_range(*period),
            IndicatorKind::BollingerB { period, .. } => in_range(*period),
            IndicatorKind::Atr { period } => in_range(*period),
            IndicatorKind::Obv => true,
            IndicatorKind::Mfi { period } => in_range(*period),
            IndicatorKind::Adx { period } => in_range(*period),
            IndicatorKind::Aroon { period } => in_range(*period),
            IndicatorKind::ForceIndex { period } => in_range(*period),
            IndicatorKind::ChaikinOsc { fast_period, slow_period } => in_range(*fast_period) && in_range(*slow_period),
            IndicatorKind::Vwap => true,
            IndicatorKind::Momentum { period } => in_range(*period),
            IndicatorKind::Trix { period } => in_range(*period),
            IndicatorKind::KeltnerChannel { period, .. } => in_range(*period),
            IndicatorKind::WilliamsAD => true,
            IndicatorKind::ElderRay { period } => in_range(*period),
        }
    }
}

fn in_range(p: usize) -> (r: bool)
    ensures
        r == period_in_range(p),
{
    p < 0xFFFF_FFFF
}

/// A named indicator: the name is the column it fills.
#[derive(Debug, Clone)]
pub struct IndicatorSpec {
    pub name: String,
    pub kind: IndicatorKind,
}

impl IndicatorSpec {
    /// An indicator called `name` of the given kind.
    pub fn new(name: &str, kind: IndicatorKind) -> (r: Self)
        ensures
            r.name@ == name@,
            r.kind == kind,
    {
        IndicatorSpec { name: name.to_owned(), kind }
    }

    /// Adds this indicator, under its name, as the last signal of `pipeline`;
    /// fails, with its constructor's error, when the constructor refuses the
    /// parameters.
    pub fn build(&self, pipeline: SignalPipeline) -> (r: Result<SignalPipeline, FinError>)
        requires
            kind_in_range(self.kind),
        ensures
            r is Ok <==> kind_valid(self.kind),
            r matches Ok(p) ==> pipeline_signals(p) == pipeline_signals(pipeline).push(
                kind_entry(self.name@, self.kind),
            ),
            r matches Err(e) ==> e == kind_error(self.kind),
    {
        match &self.kind {
            IndicatorKind::Sma { period } => match sma_new(self.name.as_str(), *period) {
                Ok(s) => Ok(pipeline_add(pipeline, s)),
                Err(e) => Err(e),
            },
            IndicatorKind::Ema { period } => match ema_new(self.name.as_str(), *period) {
                Ok(s) => Ok(pipeline_add(pipeline, s)),
                Err(e) => Err(e),
            },
            IndicatorKind::Rsi { period } => match rsi_new(self.name.as_str(), *period) {
                Ok(s) => Ok(pipeline_add(pipeline, s)),
                Err(e) => Err(e),
            },
            IndicatorKind::Macd { fast_period, slow_period, signal_period } => match macd_new(self.name.as_str(), *fast_period, *slow_period, *signal_period) {
                Ok(s) => Ok(pipeline_add(pipeline, s)),
                Err(e) => Err(e),
            },
            IndicatorKind::StochasticK { period } => match stochastic_k_new(self.name.as_str(), *period) {
                Ok(s) => Ok(pipeline_add(pipeline, s)),
                Err(e) => Err(e),
            },
            IndicatorKind::WilliamsR { period } => match williams_r_new(self.name.as_str(), *period) {
                Ok(s) => Ok(pipeline_add(pipeline, s)),
                Err(e) => Err(e),
            },
            IndicatorKind::Cci { period } => match cci_new(self.name.as_str(), *period) {
                Ok(s) => Ok(pipeline_add(pipeline, s)),
                Err(e) => Err(e),
            },
            IndicatorKind::Roc { period } => match roc_new(self.name.as_str(), *period) {
                Ok(s) => Ok(pipeline_add(pipeline, s)),
                Err(e) => Err(e),
            },
            IndicatorKind::BollingerB { period, std_dev } => match bollinger_b_new(self.name.as_str(), *period, *std_dev) {
                Ok(s) => Ok(pipeline_add(pipeline, s)),
                Err(e) => Err(e),
            },
            IndicatorKind::Atr { period } => match atr_new(self.name.as_str(), *period) {
                Ok(s) => Ok(pipeline_add(pipeline, s)),
                Err(e) => Err(e),
            },
            IndicatorKind::Obv => Ok(pipeline_add(pipeline, obv_new(self.name.as_str()))),
            IndicatorKind::Mfi { period } => match mfi_new(self.name.as_str(), *period) {
                Ok(s) => Ok(pipeline_add(pipeline, s)),
                Err(e) => Err(e),
            },
            IndicatorKind::Adx { period } => match adx_new(self.name.as_str(), *period) {
                Ok(s) => Ok(pipeline_add(pipeline, s)),
                Err(e) => Err(e),
            },
            IndicatorKind::Aroon { period } => match aroon_new(self.name.as_str(), *period) {
                Ok(s) => Ok(pipeline_add(pipeline, s)),
                Err(e) => Err(e),
            },
            IndicatorKind::ForceIndex { period } => match force_index_new(self.name.as_str(), *period) {
                Ok(s) => Ok(pipeline_add(pipeline, s)),
                Err(e) => Err(e),
            },
            IndicatorKind::ChaikinOsc { fast_period, slow_period } => match chaikin_osc_new(self.name.as_str(), *fast_period, *slow_period) {
                Ok(s) => Ok(pipeline_add(pipeline, s)),
                Err(e) => Err(e),
            },
            IndicatorKind::Vwap => Ok(pipeline_add(pipeline, vwap_new(self.name.as_str()))),
            IndicatorKind::Momentum { period } => match momentum_new(self.name.as_str(), *period) {
                Ok(s) => Ok(pipeline_add(pipeline, s)),
                Err(e) => Err(e),
            },
            IndicatorKind::Trix { period } => match trix_new(self.name.as_str(), *period) {
                Ok(s) => Ok(pipeline_add(pipeline, s)),
                Err(e) => Err(e),
            },
            IndicatorKind::KeltnerChannel { period, multiplier } => match keltner_channel_new(self.name.as_str(), *period, *multiplier) {
                Ok(s) => Ok(pipeline_add(pipeline, s)),
                Err(e) => Err(e),
            },
            IndicatorKind::WilliamsAD => Ok(pipeline_add(pipeline, williams_a_d_new(self.name.as_str()))),
            IndicatorKind::ElderRay { period } => match elder_ray_new(self.name.as_str(), *period) {
                Ok(s) => Ok(pipeline_add(pipeline, s)),
                Err(e) => Err(e),
            },
        }
    }

    /// The indicator's name.
    pub fn name(&self) -> (r: &str)
        ensures
            r@ == self.name@,
    {
        self.name.as_str()
    }
}

} // verus!
