//! The indicator constructors of `fin_primitives` and the pipeline that
//! runs them, as the engine sees them.
use vstd::prelude::*;
use rust_decimal::Decimal;
use fin_primitives::FinError;
use fin_primitives::signals::pipeline::SignalPipeline;
use fin_primitives::signals::{Signal, SignalValue};
use fin_primitives::signals::pipeline::SignalMap;
use fin_primitives::ohlcv::OhlcvBar;
use fin_primitives::types::{NanoTimestamp, Price, Quantity, Symbol};
use fin_primitives::signals::indicators::{
    Adx, Aroon, Atr, BollingerB, Cci, ChaikinOsc, ElderRay, Ema, ForceIndex, KeltnerChannel,
    Macd, Mfi, Momentum, Obv, Roc, Rsi, Sma, StochasticK, Trix, Vwap, WilliamsAD, WilliamsR,
};

verus! {

/// `fin_primitives::FinError`, carried through as an opaque value.
#[verifier::external_type_specification]
#[verifier::external_body]
pub struct ExFinError(FinError);

/// `fin_primitives::signals::pipeline::SignalPipeline`: the ordered list of
/// signals that one bar update runs.
#[verifier::external_type_specification]
#[verifier::external_body]
pub struct ExSignalPipeline(SignalPipeline);

/// The signals of a pipeline, in the order they were added, each as the
/// indicator value it was added as (with whatever state updates gave it).
pub uninterp spec fn pipeline_signals(p: SignalPipeline) -> Seq<SignalEntry>;

/// `SignalPipeline::new`: a pipeline with no signals.
#[verifier::external_body]
pub fn pipeline_new() -> (r: SignalPipeline)
    ensures
        pipeline_signals(r) == Seq::<SignalEntry>::empty(),
{
    SignalPipeline::new()
}

/// `SignalPipeline::add`: pushes `s` (boxed) as the last signal and keeps
/// the others, in order.
#[verifier::external_body]
pub fn pipeline_add<S: Signal + PipelineEntry + 'static>(p: SignalPipeline, s: S) -> (r: SignalPipeline)
    ensures
        pipeline_signals(r) == pipeline_signals(p).push(s.entry()),
{
    p.add(s)
}

/// `FinError::InvalidPeriod(n)`: what an indicator constructor answers for
/// a period it refuses.
pub uninterp spec fn spec_invalid_period(n: usize) -> FinError;

/// The `FinError::InvalidInput` that `ChaikinOsc::new` answers when the fast
/// period is not below the slow one; its message names both periods.
pub uninterp spec fn spec_chaikin_order_error(fast: usize, slow: usize) -> FinError;

/// The periods the constructors are handed: below `2^32 - 1`. Several
/// indicators turn a period (or a period plus one) into a `u32`, and the
/// ADX, Chaikin and Elder-ray constructors divide by that value, which from
/// `2^32 - 1` on wraps to zero or overflows.
pub open spec fn period_in_range(p: usize) -> bool {
    p < 0xFFFF_FFFF
}

/// `fin_primitives::signals::indicators::Sma`.
#[verifier::external_type_specification]
#[verifier::external_body]
pub struct ExSma(Sma);

/// The `Sma` that `Sma::new` builds for a name and parameters it accepts.
pub uninterp spec fn spec_sma(name: Seq<char>, period: usize) -> Sma;

/// `Sma::new`: fails exactly when the period is 0, with `InvalidPeriod(0)`.
#[verifier::external_body]
pub fn sma_new(name: &str, period: usize) -> (r: Result<Sma, FinError>)
    requires
        period_in_range(period),
    ensures
        r is Err <==> (period == 0),
        r matches Err(e) ==> e == spec_invalid_period(0),
        r matches Ok(x) ==> x == spec_sma(name@, period),
{
    Sma::new(name, period)
}


/// `fin_primitives::signals::indicators::Ema`.
#[verifier::external_type_specification]
#[verifier::external_body]
pub struct ExEma(Ema);

/// The `Ema` that `Ema::new` builds for a name and parameters it accepts.
pub uninterp spec fn spec_ema(name: Seq<char>, period: usize) -> Ema;

/// `Ema::new`: fails exactly when the period is 0, with `InvalidPeriod(0)`.
#[verifier::external_body]
pub fn ema_new(name: &str, period: usize) -> (r: Result<Ema, FinError>)
    requires
        period_in_range(period),
    ensures
        r is Err <==> (period == 0),
        r matches Err(e) ==> e == spec_invalid_period(0),
        r matches Ok(x) ==> x == spec_ema(name@, period),
{
    Ema::new(name, period)
}


/// `fin_primitives::signals::indicators::Rsi`.
#[verifier::external_type_specification]
#[verifier::external_body]
pub struct ExRsi(Rsi);

/// The `Rsi` that `Rsi::new` builds for a name and parameters it accepts.
pub uninterp spec fn spec_rsi(name: Seq<char>, period: usize) -> Rsi;

/// `Rsi::new`: fails exactly when the period is 0, with `InvalidPeriod(0)`.
#[verifier::external_body]
pub fn rsi_new(name: &str, period: usize) -> (r: Result<Rsi, FinError>)
    requires
        period_in_range(period),
    ensures
        r is Err <==> (period == 0),
        r matches Err(e) ==> e == spec_invalid_period(0),
        r matches Ok(x) ==> x == spec_rsi(name@, period),
{
    Rsi::new(name, period)
}


/// `fin_primitives::signals::indicators::Macd`.
#[verifier::external_type_specification]
#[verifier::external_body]
pub struct ExMacd(Macd);

/// The `Macd` that `Macd::new` builds for a name and parameters it accepts.
pub uninterp spec fn spec_macd(name: Seq<char>, fast_period: usize, slow_period: usize, signal_period: usize) -> Macd;

/// `Macd::new`: fails when a period is 0 (with that period) or
/// `fast_period >= slow_period` (with the fast period).
#[verifier::external_body]
pub fn macd_new(name: &str, fast_period: usize, slow_period: usize, signal_period: usize) -> (r: Result<Macd, FinError>)
    requires
        period_in_range(fast_period),
        period_in_range(slow_period),
        period_in_range(signal_period),
    ensures
        r is Err <==> (fast_period == 0 || slow_period == 0 || signal_period == 0 || fast_period >= slow_period),
        r matches Err(e) ==> e == spec_invalid_period(
            if fast_period == 0 || slow_period == 0 || signal_period == 0 { 0 } else { fast_period },
        ),
        r matches Ok(x) ==> x == spec_macd(name@, fast_period, slow_period, signal_period),
{
    Macd::new(name, fast_period, slow_period, signal_period)
}


/// `fin_primitives::signals::indicators::StochasticK`.
#[verifier::external_type_specification]
#[verifier::external_body]
pub struct ExStochasticK(StochasticK);

/// The `StochasticK` that `StochasticK::new` builds for a name and parameters it accepts.
pub uninterp spec fn spec_stochastic_k(name: Seq<char>, period: usize) -> StochasticK;

/// `StochasticK::new`: fails exactly when the period is 0, with `InvalidPeriod(0)`.
#[verifier::external_body]
pub fn stochastic_k_new(name: &str, period: usize) -> (r: Result<StochasticK, FinError>)
    requires
        period_in_range(period),
    ensures
        r is Err <==> (period == 0),
        r matches Err(e) ==> e == spec_invalid_period(0),
        r matches Ok(x) ==> x == spec_stochastic_k(name@, period),
{
    StochasticK::new(name, period)
}


/// `fin_primitives::signals::indicators::WilliamsR`.
#[verifier::external_type_specification]
#[verifier::external_body]
pub struct ExWilliamsR(WilliamsR);

/// The `WilliamsR` that `WilliamsR::new` builds for a name and parameters it accepts.
pub uninterp spec fn spec_williams_r(name: Seq<char>, period: usize) -> WilliamsR;

/// `WilliamsR::new`: fails exactly when the period is 0, with `InvalidPeriod(0)`.
#[verifier::external_body]
pub fn williams_r_new(name: &str, period: usize) -> (r: Result<WilliamsR, FinError>)
    requires
        period_in_range(period),
    ensures
        r is Err <==> (period == 0),
        r matches Err(e) ==> e == spec_invalid_period(0),
        r matches Ok(x) ==> x == spec_williams_r(name@, period),
{
    WilliamsR::new(name, period)
}


/// `fin_primitives::signals::indicators::Cci`.
#[verifier::external_type_specification]
#[verifier::external_body]
pub struct ExCci(Cci);

/// The `Cci` that `Cci::new` builds for a name and parameters it accepts.
pub uninterp spec fn spec_cci(name: Seq<char>, period: usize) -> Cci;

/// `Cci::new`: fails exactly when the period is 0, with `InvalidPeriod(0)`.
#[verifier::external_body]
pub fn cci_new(name: &str, period: usize) -> (r: Result<Cci, FinError>)
    requires
        period_in_range(period),
    ensures
        r is Err <==> (period == 0),
        r matches Err(e) ==> e == spec_invalid_period(0),
        r matches Ok(x) ==> x == spec_cci(name@, period),
{
    Cci::new(name, period)
}


/// `fin_primitives::signals::indicators::Roc`.
#[verifier::external_type_specification]
#[verifier::external_body]
pub struct ExRoc(Roc);

/// The `Roc` that `Roc::new` builds for a name and parameters it accepts.
pub uninterp spec fn spec_roc(name: Seq<char>, period: usize) -> Roc;

/// `Roc::new`: fails exactly when the period is 0, with `InvalidPeriod(0)`.
#[verifier::external_body]
pub fn roc_new(name: &str, period: usize) -> (r: Result<Roc, FinError>)
    requires
        period_in_range(period),
    ensures
        r is Err <==> (period == 0),
        r matches Err(e) ==> e == spec_invalid_period(0),
        r matches Ok(x) ==> x == spec_roc(name@, period),
{
    Roc::new(name, period)
}


/// `fin_primitives::signals::indicators::BollingerB`.
#[verifier::external_type_specification]
#[verifier::external_body]
pub struct ExBollingerB(BollingerB);

/// The `BollingerB` that `BollingerB::new` builds for a name and parameters it accepts.
pub uninterp spec fn spec_bollinger_b(name: Seq<char>, period: usize, multiplier: Decimal) -> BollingerB;

/// `BollingerB::new`: fails exactly when the period is 0, with `InvalidPeriod(0)`.
#[verifier::external_body]
pub fn bollinger_b_new(name: &str, period: usize, multiplier: Decimal) -> (r: Result<BollingerB, FinError>)
    requires
        period_in_range(period),
    ensures
        r is Err <==> (period == 0),
        r matches Err(e) ==> e == spec_invalid_period(0),
        r matches Ok(x) ==> x == spec_bollinger_b(name@, period, multiplier),
{
    BollingerB::new(name, period, multiplier)
}


/// `fin_primitives::signals::indicators::Atr`.
#[verifier::external_type_specification]
#[verifier::external_body]
pub struct ExAtr(Atr);

/// The `Atr` that `Atr::new` builds for a name and parameters it accepts.
pub uninterp spec fn spec_atr(name: Seq<char>, period: usize) -> Atr;

/// `Atr::new`: fails exactly when the period is 0, with `InvalidPeriod(0)`.
#[verifier::external_body]
pub fn atr_new(name: &str, period: usize) -> (r: Result<Atr, FinError>)
    requires
        period_in_range(period),
    ensures
        r is Err <==> (period == 0),
        r matches Err(e) ==> e == spec_invalid_period(0),
        r matches Ok(x) ==> x == spec_atr(name@, period),
{
    Atr::new(name, period)
}


/// `fin_primitives::signals::indicators::Obv`.
#[verifier::external_type_specification]
#[verifier::external_body]
pub struct ExObv(Obv);

/// The `Obv` that `Obv::new` builds for a name.
pub uninterp spec fn spec_obv(name: Seq<char>) -> Obv;

/// `Obv::new`: cannot fail.
#[verifier::external_body]
pub fn obv_new(name: &str) -> (r: Obv)
    ensures
        r == spec_obv(name@),
{
    Obv::new(name)
}


/// `fin_primitives::signals::indicators::Mfi`.
#[verifier::external_type_specification]
#[verifier::external_body]
pub struct ExMfi(Mfi);

/// The `Mfi` that `Mfi::new` builds for a name and parameters it accepts.
pub uninterp spec fn spec_mfi(name: Seq<char>, period: usize) -> Mfi;

/// `Mfi::new`: fails exactly when the period is 0, with `InvalidPeriod(0)`.
#[verifier::external_body]
pub fn mfi_new(name: &str, period: usize) -> (r: Result<Mfi, FinError>)
    requires
        period_in_range(period),
    ensures
        r is Err <==> (period == 0),
        r matches Err(e) ==> e == spec_invalid_period(0),
        r matches Ok(x) ==> x == spec_mfi(name@, period),
{
    Mfi::new(name, period)
}


/// `fin_primitives::signals::indicators::Adx`.
#[verifier::external_type_specification]
#[verifier::external_body]
pub struct ExAdx(Adx);

/// The `Adx` that `Adx::new` builds for a name and parameters it accepts.
pub uninterp spec fn spec_adx(name: Seq<char>, period: usize) -> Adx;

/// `Adx::new`: fails exactly when the period is 0, with `InvalidPeriod(0)`.
#[verifier::external_body]
pub fn adx_new(name: &str, period: usize) -> (r: Result<Adx, FinError>)
    requires
        period_in_range(period),
    ensures
        r is Err <==> (period == 0),
        r matches Err(e) ==> e == spec_invalid_period(0),
        r matches Ok(x) ==> x == spec_adx(name@, period),
{
    Adx::new(name, period)
}


/// `fin_primitives::signals::indicators::Aroon`.
#[verifier::external_type_specification]
#[verifier::external_body]
pub struct ExAroon(Aroon);

/// The `Aroon` that `Aroon::new` builds for a name and parameters it accepts.
pub uninterp spec fn spec_aroon(name: Seq<char>, period: usize) -> Aroon;

/// `Aroon::new`: fails exactly when the period is 0, with `InvalidPeriod(0)`.
#[verifier::external_body]
pub fn aroon_new(name: &str, period: usize) -> (r: Result<Aroon, FinError>)
    requires
        period_in_range(period),
    ensures
        r is Err <==> (period == 0),
        r matches Err(e) ==> e == spec_invalid_period(0),
        r matches Ok(x) ==> x == spec_aroon(name@, period),
{
    Aroon::new(name, period)
}


/// `fin_primitives::signals::indicators::ForceIndex`.
#[verifier::external_type_specification]
#[verifier::external_body]
pub struct ExForceIndex(ForceIndex);

/// The `ForceIndex` that `ForceIndex::new` builds for a name and parameters it accepts.
pub uninterp spec fn spec_force_index(name: Seq<char>, period: usize) -> ForceIndex;

/// `ForceIndex::new`: fails exactly when the period is 0, with `InvalidPeriod(0)`.
#[verifier::external_body]
pub fn force_index_new(name: &str, period: usize) -> (r: Result<ForceIndex, FinError>)
    requires
        period_in_range(period),
    ensures
        r is Err <==> (period == 0),
        r matches Err(e) ==> e == spec_invalid_period(0),
        r matches Ok(x) ==> x == spec_force_index(name@, period),
{
    ForceIndex::new(name, period)
}


/// `fin_primitives::signals::indicators::ChaikinOsc`.
#[verifier::external_type_specification]
#[verifier::external_body]
pub struct ExChaikinOsc(ChaikinOsc);

/// The `ChaikinOsc` that `ChaikinOsc::new` builds for a name and parameters it accepts.
pub uninterp spec fn spec_chaikin_osc(name: Seq<char>, fast: usize, slow: usize) -> ChaikinOsc;

/// `ChaikinOsc::new`: fails when a period is 0 (with that period) or
/// `fast >= slow` (with an invalid-input error naming both).
#[verifier::external_body]
pub fn chaikin_osc_new(name: &str, fast: usize, slow: usize) -> (r: Result<ChaikinOsc, FinError>)
    requires
        period_in_range(fast),
        period_in_range(slow),
    ensures
        r is Err <==> (fast == 0 || slow == 0 || fast >= slow),
        r matches Err(e) ==> e == (if fast == 0 || slow == 0 {
            spec_invalid_period(0)
        } else {
            spec_chaikin_order_error(fast, slow)
        }),
        r matches Ok(x) ==> x == spec_chaikin_osc(name@, fast, slow),
{
    ChaikinOsc::new(name, fast, slow)
}


/// `fin_primitives::signals::indicators::Vwap`.
#[verifier::external_type_specification]
#[verifier::external_body]
pub struct ExVwap(Vwap);

/// The `Vwap` that `Vwap::new` builds for a name.
pub uninterp spec fn spec_vwap(name: Seq<char>) -> Vwap;

/// `Vwap::new`: cannot fail.
#[verifier::external_body]
pub fn vwap_new(name: &str) -> (r: Vwap)
    ensures
        r == spec_vwap(name@),
{
    Vwap::new(name)
}


/// `fin_primitives::signals::indicators::Momentum`.
#[verifier::external_type_specification]
#[verifier::external_body]
pub struct ExMomentum(Momentum);

/// The `Momentum` that `Momentum::new` builds for a name and parameters it accepts.
pub uninterp spec fn spec_momentum(name: Seq<char>, period: usize) -> Momentum;

/// `Momentum::new`: fails exactly when the period is 0, with `InvalidPeriod(0)`.
#[verifier::external_body]
pub fn momentum_new(name: &str, period: usize) -> (r: Result<Momentum, FinError>)
    requires
        period_in_range(period),
    ensures
        r is Err <==> (period == 0),
        r matches Err(e) ==> e == spec_invalid_period(0),
        r matches Ok(x) ==> x == spec_momentum(name@, period),
{
    Momentum::new(name, period)
}


/// `fin_primitives::signals::indicators::Trix`.
#[verifier::external_type_specification]
#[verifier::external_body]
pub struct ExTrix(Trix);

/// The `Trix` that `Trix::new` builds for a name and parameters it accepts.
pub uninterp spec fn spec_trix(name: Seq<char>, period: usize) -> Trix;

/// `Trix::new`: fails exactly when the period is 0, with `InvalidPeriod(0)`.
#[verifier::external_body]
pub fn trix_new(name: &str, period: usize) -> (r: Result<Trix, FinError>)
    requires
        period_in_range(period),
    ensures
        r is Err <==> (period == 0),
        r matches Err(e) ==> e == spec_invalid_period(0),
        r matches Ok(x) ==> x == spec_trix(name@, period),
{
    Trix::new(name, period)
}


/// `fin_primitives::signals::indicators::KeltnerChannel`.
#[verifier::external_type_specification]
#[verifier::external_body]
pub struct ExKeltnerChannel(KeltnerChannel);

/// The `KeltnerChannel` that `KeltnerChannel::new` builds for a name and parameters it accepts.
pub uninterp spec fn spec_keltner_channel(name: Seq<char>, period: usize, multiplier: Decimal) -> KeltnerChannel;

/// `KeltnerChannel::new`: fails exactly when the period is 0, with `InvalidPeriod(0)`.
#[verifier::external_body]
pub fn keltner_channel_new(name: &str, period: usize, multiplier: Decimal) -> (r: Result<KeltnerChannel, FinError>)
    requires
        period_in_range(period),
    ensures
        r is Err <==> (period == 0),
        r matches Err(e) ==> e == spec_invalid_period(0),
        r matches Ok(x) ==> x == spec_keltner_channel(name@, period, multiplier),
{
    KeltnerChannel::new(name, period, multiplier)
}


/// `fin_primitives::signals::indicators::WilliamsAD`.
#[verifier::external_type_specification]
#[verifier::external_body]
pub struct ExWilliamsAD(WilliamsAD);

/// The `WilliamsAD` that `WilliamsAD::new` builds for a name.
pub uninterp spec fn spec_williams_a_d(name: Seq<char>) -> WilliamsAD;

/// `WilliamsAD::new`: cannot fail.
#[verifier::external_body]
pub fn williams_a_d_new(name: &str) -> (r: WilliamsAD)
    ensures
        r == spec_williams_a_d(name@),
{
    WilliamsAD::new(name)
}


/// `fin_primitives::signals::indicators::ElderRay`.
#[verifier::external_type_specification]
#[verifier::external_body]
pub struct ExElderRay(ElderRay);

/// The `ElderRay` that `ElderRay::new` builds for a name and parameters it accepts.
pub uninterp spec fn spec_elder_ray(name: Seq<char>, period: usize) -> ElderRay;

/// `ElderRay::new`: fails exactly when the period is 0, with `InvalidPeriod(0)`.
#[verifier::external_body]
pub fn elder_ray_new(name: &str, period: usize) -> (r: Result<ElderRay, FinError>)
    requires
        period_in_range(period),
    ensures
        r is Err <==> (period == 0),
        r matches Err(e) ==> e == spec_invalid_period(0),
        r matches Ok(x) ==> x == spec_elder_ray(name@, period),
{
    ElderRay::new(name, period)
}



/// One signal of a pipeline: the indicator it is, with its value.
pub enum SignalEntry {
    Sma(Sma),
    Ema(Ema),
    Rsi(Rsi),
    Macd(Macd),
    StochasticK(StochasticK),
    WilliamsR(WilliamsR),
    Cci(Cci),
    Roc(Roc),
    BollingerB(BollingerB),
    Atr(Atr),
    Obv(Obv),
    Mfi(Mfi),
    Adx(Adx),
    Aroon(Aroon),
    ForceIndex(ForceIndex),
    ChaikinOsc(ChaikinOsc),
    Vwap(Vwap),
    Momentum(Momentum),
    Trix(Trix),
    KeltnerChannel(KeltnerChannel),
    WilliamsAD(WilliamsAD),
    ElderRay(ElderRay),
}

/// The indicators a pipeline can hold, each with how it is listed among the
/// pipeline's signals.
pub trait PipelineEntry {
    /// This indicator as a pipeline signal.
    spec fn entry(&self) -> SignalEntry;
}

impl PipelineEntry for Sma {
    open spec fn entry(&self) -> SignalEntry {
        SignalEntry::Sma(*self)
    }
}

impl PipelineEntry for Ema {
    open spec fn entry(&self) -> SignalEntry {
        SignalEntry::Ema(*self)
    }
}

impl PipelineEntry for Rsi {
    open spec fn entry(&self) -> SignalEntry {
        SignalEntry::Rsi(*self)
    }
}

impl PipelineEntry for Macd {
    open spec fn entry(&self) -> SignalEntry {
        SignalEntry::Macd(*self)
    }
}

impl PipelineEntry for StochasticK {
    open spec fn entry(&self) -> SignalEntry {
        SignalEntry::StochasticK(*self)
    }
}

impl PipelineEntry for WilliamsR {
    open spec fn entry(&self) -> SignalEntry {
        SignalEntry::WilliamsR(*self)
    }
}

impl PipelineEntry for Cci {
    open spec fn entry(&self) -> SignalEntry {
        SignalEntry::Cci(*self)
    }
}

impl PipelineEntry for Roc {
    open spec fn entry(&self) -> SignalEntry {
        SignalEntry::Roc(*self)
    }
}

impl PipelineEntry for BollingerB {
    open spec fn entry(&self) -> SignalEntry {
        SignalEntry::BollingerB(*self)
    }
}

impl PipelineEntry for Atr {
    open spec fn entry(&self) -> SignalEntry {
        SignalEntry::Atr(*self)
    }
}

impl PipelineEntry for Obv {
    open spec fn entry(&self) -> SignalEntry {
        SignalEntry::Obv(*self)
    }
}

impl PipelineEntry for Mfi {
    open spec fn entry(&self) -> SignalEntry {
        SignalEntry::Mfi(*self)
    }
}

impl PipelineEntry for Adx {
    open spec fn entry(&self) -> SignalEntry {
        SignalEntry::Adx(*self)
    }
}

impl PipelineEntry for Aroon {
    open spec fn entry(&self) -> SignalEntry {
        SignalEntry::Aroon(*self)
    }
}

impl PipelineEntry for ForceIndex {
    open spec fn entry(&self) -> SignalEntry {
        SignalEntry::ForceIndex(*self)
    }
}

impl PipelineEntry for ChaikinOsc {
    open spec fn entry(&self) -> SignalEntry {
        SignalEntry::ChaikinOsc(*self)
    }
}

impl PipelineEntry for Vwap {
    open spec fn entry(&self) -> SignalEntry {
        SignalEntry::Vwap(*self)
    }
}

impl PipelineEntry for Momentum {
    open spec fn entry(&self) -> SignalEntry {
        SignalEntry::Momentum(*self)
    }
}

impl PipelineEntry for Trix {
    open spec fn entry(&self) -> SignalEntry {
        SignalEntry::Trix(*self)
    }
}

impl PipelineEntry for KeltnerChannel {
    open spec fn entry(&self) -> SignalEntry {
        SignalEntry::KeltnerChannel(*self)
    }
}

impl PipelineEntry for WilliamsAD {
    open spec fn entry(&self) -> SignalEntry {
        SignalEntry::WilliamsAD(*self)
    }
}

impl PipelineEntry for ElderRay {
    open spec fn entry(&self) -> SignalEntry {
        SignalEntry::ElderRay(*self)
    }
}

/// `fin_primitives::types::Symbol`, carried through as an opaque value.
#[verifier::external_type_specification]
#[verifier::external_body]
pub struct ExSymbol(Symbol);

/// `fin_primitives::types::Price`, carried through as an opaque value.
#[verifier::external_type_specification]
#[verifier::external_body]
pub struct ExPrice(Price);

/// `fin_primitives::types::Quantity`, carried through as an opaque value.
#[verifier::external_type_specification]
#[verifier::external_body]
pub struct ExQuantity(Quantity);

/// `fin_primitives::types::NanoTimestamp`, carried through as an opaque value.
#[verifier::external_type_specification]
#[verifier::external_body]
pub struct ExNanoTimestamp(NanoTimestamp);

/// `fin_primitives::ohlcv::OhlcvBar`, carried through as an opaque value.
#[verifier::external_type_specification]
#[verifier::external_body]
pub struct ExOhlcvBar(OhlcvBar);

/// `fin_primitives::signals::pipeline::SignalMap`: the signal values of one update.
#[verifier::external_type_specification]
#[verifier::external_body]
pub struct ExSignalMap(SignalMap);

/// `char::is_whitespace`: the Unicode `White_Space` property.
pub open spec fn is_white_space(c: char) -> bool {
    ||| ('\u{9}' <= c && c <= '\u{d}')
    ||| c == ' '
    ||| c == '\u{85}'
    ||| c == '\u{a0}'
    ||| c == '\u{1680}'
    ||| ('\u{2000}' <= c && c <= '\u{200a}')
    ||| c == '\u{2028}'
    ||| c == '\u{2029}'
    ||| c == '\u{202f}'
    ||| c == '\u{205f}'
    ||| c == '\u{3000}'
}

/// Whether `Symbol::new` accepts `s`: it is not empty and has no white space.
pub open spec fn symbol_text_valid(s: Seq<char>) -> bool {
    s.len() > 0 && forall|i: int| 0 <= i < s.len() ==> !is_white_space(#[trigger] s[i])
}

/// The `Symbol` that `Symbol::new` makes of the text `s`.
pub uninterp spec fn spec_symbol(s: Seq<char>) -> Symbol;

/// `FinError::InvalidSymbol(s)`: what `Symbol::new` answers for text it refuses.
pub uninterp spec fn spec_invalid_symbol(s: Seq<char>) -> FinError;

/// `Symbol::new`: refuses empty text and text with white space, with
/// `InvalidSymbol` of that text; otherwise the symbol of that text.
#[verifier::external_body]
pub fn symbol_new(s: &str) -> (r: Result<Symbol, FinError>)
    ensures
        r is Ok <==> symbol_text_valid(s@),
        r matches Ok(sym) ==> sym == spec_symbol(s@),
        r matches Err(e) ==> e == spec_invalid_symbol(s@),
{
    Symbol::new(s)
}

/// `Symbol::clone`: `Symbol` derives `Clone` over an `Arc<str>`, so a clone
/// shares the same text.
pub assume_specification[ <Symbol as Clone>::clone ](s: &Symbol) -> (r: Symbol)
    ensures
        r == *s,
;

/// Whether a decimal is above zero (`d > Decimal::ZERO`).
pub uninterp spec fn spec_decimal_positive(d: Decimal) -> bool;

/// Whether a decimal is below zero (`d < Decimal::ZERO`).
pub uninterp spec fn spec_decimal_negative(d: Decimal) -> bool;

/// `d > Decimal::ZERO`.
#[verifier::external_body]
pub fn decimal_is_positive(d: &Decimal) -> (r: bool)
    ensures
        r == spec_decimal_positive(*d),
{
    *d > Decimal::ZERO
}

/// `d < Decimal::ZERO`.
#[verifier::external_body]
pub fn decimal_is_negative(d: &Decimal) -> (r: bool)
    ensures
        r == spec_decimal_negative(*d),
{
    *d < Decimal::ZERO
}

/// The `Price` that `Price::new` makes of `d`.
pub uninterp spec fn spec_price(d: Decimal) -> Price;

/// The `Quantity` that `Quantity::new` makes of `d`.
pub uninterp spec fn spec_quantity(d: Decimal) -> Quantity;

/// `Price::new`: refuses a decimal that is not above zero.
#[verifier::external_body]
pub fn price_new(d: Decimal) -> (r: Result<Price, FinError>)
    ensures
        r is Ok <==> spec_decimal_positive(d),
        r matches Ok(p) ==> p == spec_price(d),
{
    Price::new(d)
}

/// `Quantity::new`: refuses a decimal below zero.
#[verifier::external_body]
pub fn quantity_new(d: Decimal) -> (r: Result<Quantity, FinError>)
    ensures
        r is Ok <==> !spec_decimal_negative(d),
        r matches Ok(q) ==> q == spec_quantity(d),
{
    Quantity::new(d)
}

/// The `NanoTimestamp` that `NanoTimestamp::new` makes of `n`.
pub uninterp spec fn spec_nano_timestamp(n: i64) -> NanoTimestamp;

/// `NanoTimestamp::new`.
#[verifier::external_body]
pub fn nano_timestamp_new(n: i64) -> (r: NanoTimestamp)
    ensures
        r == spec_nano_timestamp(n),
{
    NanoTimestamp::new(n)
}

/// The bar with the given fields.
pub uninterp spec fn spec_ohlcv_bar(
    symbol: Symbol,
    open: Price,
    high: Price,
    low: Price,
    close: Price,
    volume: Quantity,
    ts_open: NanoTimestamp,
    ts_close: NanoTimestamp,
    tick_count: u64,
) -> OhlcvBar;

/// An `OhlcvBar` made of its fields.
#[verifier::external_body]
pub fn ohlcv_bar(
    symbol: Symbol,
    open: Price,
    high: Price,
    low: Price,
    close: Price,
    volume: Quantity,
    ts_open: NanoTimestamp,
    ts_close: NanoTimestamp,
    tick_count: u64,
) -> (r: OhlcvBar)
    ensures
        r == spec_ohlcv_bar(symbol, open, high, low, close, volume, ts_open, ts_close, tick_count),
{
    OhlcvBar { symbol, open, high, low, close, volume, ts_open, ts_close, tick_count }
}

/// The scalar that `SignalPipeline::update` on state `p` with `bar` reports
/// under `name` (nothing when no signal has that name or its value is not a
/// scalar). The map it is read from is a fresh `HashMap` per call, so only
/// what it holds under each name is named, not the map itself.
pub uninterp spec fn spec_pipeline_scalar(p: SignalPipeline, bar: OhlcvBar, name: Seq<char>) -> Option<Decimal>;

/// The state `SignalPipeline::update` leaves after `bar` from state `p`.
pub uninterp spec fn spec_pipeline_next(p: SignalPipeline, bar: OhlcvBar) -> SignalPipeline;

/// Whether `SignalPipeline::update` on state `p` finishes for `bar`. Several
/// indicators keep running `Decimal` sums, products and quotients with the
/// unchecked operators (the on-balance volume adds each bar's volume to its
/// total; the money-flow index divides one window sum by another), and those
/// panic when a result leaves `Decimal`'s range; whether that happens
/// depends on every bar the pipeline has seen.
pub uninterp spec fn spec_pipeline_update_fits(p: SignalPipeline, bar: OhlcvBar) -> bool;

/// Which indicator a signal is, as a number (its position in `SignalEntry`).
pub open spec fn entry_tag(e: SignalEntry) -> int {
    match e {
        SignalEntry::Sma(_) => 0,
        SignalEntry::Ema(_) => 1,
        SignalEntry::Rsi(_) => 2,
        SignalEntry::Macd(_) => 3,
        SignalEntry::StochasticK(_) => 4,
        SignalEntry::WilliamsR(_) => 5,
        SignalEntry::Cci(_) => 6,
        SignalEntry::Roc(_) => 7,
        SignalEntry::BollingerB(_) => 8,
        SignalEntry::Atr(_) => 9,
        SignalEntry::Obv(_) => 10,
        SignalEntry::Mfi(_) => 11,
        SignalEntry::Adx(_) => 12,
        SignalEntry::Aroon(_) => 13,
        SignalEntry::ForceIndex(_) => 14,
        SignalEntry::ChaikinOsc(_) => 15,
        SignalEntry::Vwap(_) => 16,
        SignalEntry::Momentum(_) => 17,
        SignalEntry::Trix(_) => 18,
        SignalEntry::KeltnerChannel(_) => 19,
        SignalEntry::WilliamsAD(_) => 20,
        SignalEntry::ElderRay(_) => 21,
    }
}

/// Which indicators a pipeline holds, in order.
pub open spec fn signal_tags(p: SignalPipeline) -> Seq<int> {
    pipeline_signals(p).map_values(|e: SignalEntry| entry_tag(e))
}

/// Whether an indicator's update cannot panic on any bar: the simple moving
/// average uses checked arithmetic only, momentum takes one difference of
/// two prices (both positive, so it stays in range), and Aroon divides bar
/// counts by its period.
pub open spec fn tag_update_cannot_panic(t: int) -> bool {
    t == 0 || t == 13 || t == 17
}

/// Whether every signal of the pipeline is one whose update cannot panic.
pub open spec fn pipeline_cannot_panic(p: SignalPipeline) -> bool {
    forall|i: int| 0 <= i < signal_tags(p).len() ==> tag_update_cannot_panic(#[trigger] signal_tags(p)[i])
}

/// `SignalPipeline::update`: feeds `bar` to every signal, in order, and
/// collects their values by signal name; the signals stay the same
/// indicators. It is called only where the update finishes: where
/// `spec_pipeline_update_fits` holds, which nothing here can test, or where
/// every signal is one whose update cannot panic.
#[verifier::external_body]
pub fn pipeline_update(p: &mut SignalPipeline, bar: &OhlcvBar) -> (r: SignalMap)
    requires
        spec_pipeline_update_fits(*old(p), *bar) || pipeline_cannot_panic(*old(p)),
    ensures
        forall|name: Seq<char>|
            #[trigger] spec_signal_scalar(r, name) == spec_pipeline_scalar(*old(p), *bar, name),
        *final(p) == spec_pipeline_next(*old(p), *bar),
        signal_tags(*final(p)) == signal_tags(*old(p)),
        spec_pipeline_update_fits(*old(p), *bar),
{
    p.update(bar)
}

/// The scalar a signal map holds under `name`: nothing when the name is
/// absent or the signal was not yet available.
pub uninterp spec fn spec_signal_scalar(m: SignalMap, name: Seq<char>) -> Option<Decimal>;

/// `SignalMap::get`, keeping the value only when it is a scalar.
#[verifier::external_body]
pub fn signal_map_scalar(m: &SignalMap, name: &str) -> (r: Option<Decimal>)
    ensures
        r == spec_signal_scalar(*m, name@),
{
    match m.get(name) {
        Some(SignalValue::Scalar(v)) => Some(*v),
        _ => None,
    }
}

} // verus!
