//! Runs the configured indicators over one bar at a time.
use vstd::prelude::*;
use rust_decimal::Decimal;
use fin_primitives::FinError;
use fin_primitives::signals::pipeline::{SignalMap, SignalPipeline};
use fin_primitives::types::Symbol;
use crate::indicators::fin::{
    decimal_is_negative, decimal_is_positive, nano_timestamp_new, ohlcv_bar, pipeline_new, pipeline_signals, spec_invalid_symbol, spec_pipeline_update_fits, pipeline_update, price_new,
    quantity_new, signal_map_scalar, spec_decimal_negative, spec_decimal_positive,
    spec_nano_timestamp, spec_ohlcv_bar, spec_pipeline_next, spec_pipeline_scalar, spec_price, pipeline_cannot_panic, signal_tags, tag_update_cannot_panic,
    spec_quantity, spec_signal_scalar, spec_symbol, symbol_new, symbol_text_valid,
};
use crate::indicators::specs::{kind_entry, kind_error, kind_in_range, kind_valid, IndicatorKind, IndicatorSpec};

verus! {

/// The length of a bar in nanoseconds: bars are closed one minute after they open.
pub const BAR_NANOS: i64 = 60_000_000_000;

/// The indicator pipeline of one symbol and the names of its columns.
pub struct IndicatorEngine {
    pipeline: SignalPipeline,
    names: Vec<String>,
    symbol: Symbol,
}

/// The value each named column takes in a signal map.
pub open spec fn spec_indicator_values(m: SignalMap, names: Seq<String>) -> Seq<Option<Decimal>> {
    names.map_values(|n: String| spec_signal_scalar(m, n@))
}

/// The value each named column takes when pipeline state `p` is fed `bar`.
pub open spec fn spec_update_values(p: SignalPipeline, bar: fin_primitives::ohlcv::OhlcvBar, names: Seq<String>) -> Seq<Option<Decimal>> {
    names.map_values(|n: String| spec_pipeline_scalar(p, bar, n@))
}

/// Whether the engine may feed `bar` to pipeline state `p`: the update
/// finishes (`spec_pipeline_update_fits`), or every indicator of the
/// pipeline is one whose update cannot panic.
pub open spec fn update_finishes(p: SignalPipeline, bar: fin_primitives::ohlcv::OhlcvBar) -> bool {
    spec_pipeline_update_fits(p, bar) || pipeline_cannot_panic(p)
}

/// The bar the engine feeds for the given inputs.
pub open spec fn engine_bar(
    symbol: Symbol,
    ts_nanos: i64,
    open: Decimal,
    high: Decimal,
    low: Decimal,
    close: Decimal,
    volume: Decimal,
) -> fin_primitives::ohlcv::OhlcvBar {
    spec_ohlcv_bar(
        symbol,
        spec_price(open),
        spec_price(high),
        spec_price(low),
        spec_price(close),
        spec_quantity(volume),
        spec_nano_timestamp(ts_nanos),
        spec_nano_timestamp((ts_nanos + BAR_NANOS) as i64),
        1,
    )
}

/// Every update answers one value per column, in column order: the value of
/// column `i` is the scalar the signal map holds under the name of column `i`.
pub proof fn law_values_match_columns(m: SignalMap, names: Seq<String>)
    ensures
        spec_indicator_values(m, names).len() == names.len(),
        forall|i: int|
            0 <= i < names.len() ==> #[trigger] spec_indicator_values(m, names)[i]
                == spec_signal_scalar(m, names[i]@),
{
}

/// The bar `update` feeds is built from the call's own arguments, field by
/// field of `OhlcvBar`: the engine's symbol; the given open, high, low and
/// close as the bar's open, high, low and close prices (never one in
/// another's place); the given volume as its quantity; opening at `ts_nanos`
/// and closing one minute later; one tick.
pub proof fn law_engine_bar_fields(
    symbol: Symbol,
    ts_nanos: i64,
    open: Decimal,
    high: Decimal,
    low: Decimal,
    close: Decimal,
    volume: Decimal,
)
    requires
        ts_nanos + BAR_NANOS <= i64::MAX,
    ensures
        engine_bar(symbol, ts_nanos, open, high, low, close, volume) == spec_ohlcv_bar(
            symbol,
            spec_price(open),
            spec_price(high),
            spec_price(low),
            spec_price(close),
            spec_quantity(volume),
            spec_nano_timestamp(ts_nanos),
            spec_nano_timestamp((ts_nanos + 60_000_000_000) as i64),
            1,
        ),
{
}

/// Whether an indicator kind is one whose update cannot panic on any bar.
pub open spec fn kind_cannot_panic(k: IndicatorKind) -> bool {
    k is Sma || k is Momentum || k is Aroon
}

/// An engine built only from simple moving averages, momentum and Aroon
/// indicators can be fed any bar its price and quantity types accept: its
/// pipeline cannot panic, and stays so after an update that keeps the
/// indicators (as `update` does).
pub proof fn law_panic_free_engine(specs: Seq<IndicatorSpec>, p: SignalPipeline, q: SignalPipeline)
    requires
        pipeline_signals(p) == specs.map_values(|s: IndicatorSpec| kind_entry(s.name@, s.kind)),
        forall|i: int| 0 <= i < specs.len() ==> kind_cannot_panic(#[trigger] specs[i].kind),
        signal_tags(q) == signal_tags(p),
    ensures
        pipeline_cannot_panic(p),
        pipeline_cannot_panic(q),
{
    assert forall|i: int| 0 <= i < signal_tags(p).len() implies tag_update_cannot_panic(
        #[trigger] signal_tags(p)[i],
    ) by {
        assert(pipeline_signals(p)[i] == kind_entry(specs[i].name@, specs[i].kind));
        assert(kind_cannot_panic(specs[i].kind));
    }
}

/// The value of each named column in a signal map: the scalar stored under
/// the name, or nothing when the name is absent or the signal was not ready.
pub fn indicator_values(m: &SignalMap, names: &Vec<String>) -> (r: Vec<Option<Decimal>>)
    ensures
        r@ == spec_indicator_values(*m, names@),
{
    let mut out: Vec<Option<Decimal>> = Vec::new();
    let mut i: usize = 0;
    while i < names.len()
        invariant
            i <= names@.len(),
            out@ == spec_indicator_values(*m, names@.take(i as int)),
        decreases names@.len() - i,
    {
        let v = signal_map_scalar(m, names[i].as_str());
        out.push(v);
        proof {
            assert(spec_indicator_values(*m, names@.take(i + 1)) =~= spec_indicator_values(
                *m,
                names@.take(i as int),
            ).push(v));
        }
        i = i + 1;
    }
    proof {
        assert(names@.take(i as int) =~= names@);
    }
    out
}

impl IndicatorEngine {
    /// The signal pipeline.
    pub closed spec fn pipeline(&self) -> SignalPipeline {
        self.pipeline
    }

    /// The column names.
    pub closed spec fn names(&self) -> Seq<String> {
        self.names@
    }

    /// The symbol bars are built for.
    pub closed spec fn symbol(&self) -> Symbol {
        self.symbol
    }

    /// An engine running `specs`, in order, for the symbol `symbol_name`.
    /// Fails when the symbol is empty or has white space (with the symbol
    /// error), or else with the error of the first indicator whose
    /// constructor refuses its parameters.
    pub fn new(symbol_name: &str, specs: &Vec<IndicatorSpec>) -> (r: Result<Self, FinError>)
        requires
            forall|i: int| 0 <= i < specs@.len() ==> kind_in_range(#[trigger] specs@[i].kind),
        ensures
            r is Ok <==> (symbol_text_valid(symbol_name@) && forall|i: int|
                0 <= i < specs@.len() ==> kind_valid(#[trigger] specs@[i].kind)),
            r matches Ok(e) ==> {
                &&& e.symbol() == spec_symbol(symbol_name@)
                &&& pipeline_signals(e.pipeline()) == specs@.map_values(
                    |s: IndicatorSpec| kind_entry(s.name@, s.kind),
                )
                &&& e.names().len() == specs@.len()
                &&& forall|i: int| 0 <= i < specs@.len() ==> #[trigger] e.names()[i] == specs@[i].name
            },
            r matches Err(err) ==> if !symbol_text_valid(symbol_name@) {
                err == spec_invalid_symbol(symbol_name@)
            } else {
                exists|i: int|
                    0 <= i < specs@.len() && !kind_valid(#[trigger] specs@[i].kind) && (forall|j: int|
                        0 <= j < i ==> kind_valid(#[trigger] specs@[j].kind)) && err == kind_error(specs@[i].kind)
            },
    {
        let symbol = match symbol_new(symbol_name) {
            Ok(s) => s,
            Err(e) => return Err(e),
        };
        let mut pipeline = pipeline_new();
        let mut names: Vec<String> = Vec::new();
        let mut i: usize = 0;
        while i < specs.len()
            invariant
                i <= specs@.len(),
                forall|j: int| 0 <= j < specs@.len() ==> kind_in_range(#[trigger] specs@[j].kind),
                forall|j: int| 0 <= j < i ==> kind_valid(#[trigger] specs@[j].kind),
                pipeline_signals(pipeline) == specs@.take(i as int).map_values(
                    |s: IndicatorSpec| kind_entry(s.name@, s.kind),
                ),
                symbol_text_valid(symbol_name@),
                names@.len() == i,
                forall|j: int| 0 <= j < i ==> #[trigger] names@[j] == specs@[j].name,
            decreases specs@.len() - i,
        {
            pipeline = match specs[i].build(pipeline) {
                Ok(p) => p,
                Err(e) => {
                    assert(!kind_valid(specs@[i as int].kind));
                    return Err(e);
                },
            };
            proof {
                assert(specs@.take(i + 1).map_values(|s: IndicatorSpec| kind_entry(s.name@, s.kind))
                    =~= specs@.take(i as int).map_values(|s: IndicatorSpec| kind_entry(s.name@, s.kind)).push(
                    kind_entry(specs@[i as int].name@, specs@[i as int].kind),
                ));
            }
            names.push(specs[i].name.clone());
            i = i + 1;
        }
        proof {
            assert(specs@.take(i as int) =~= specs@);
        }
        Ok(IndicatorEngine { pipeline, names, symbol })
    }

    /// The column names, in the order of the specs.
    pub fn indicator_names(&self) -> (r: &Vec<String>)
        ensures
            r@ == self.names(),
    {
        &self.names
    }

    /// The number of indicators.
    pub fn num_indicators(&self) -> (r: usize)
        ensures
            r == self.names().len(),
    {
        self.names.len()
    }

    /// Feeds one bar (opening at `ts_nanos`, closing a minute later) to every
    /// indicator and returns each column's value after it, in column order.
    /// Prices must be above zero and the volume not below zero, as the bar's
    /// price and quantity types demand, and the update must finish: the
    /// indicators' running `Decimal` arithmetic must stay in range on this bar
    /// (which nothing here can test), unless every indicator is one whose
    /// update cannot panic (simple moving average, momentum, Aroon).
    pub fn update(
        &mut self,
        ts_nanos: i64,
        open: Decimal,
        high: Decimal,
        low: Decimal,
        close: Decimal,
        volume: Decimal,
    ) -> (r: Vec<Option<Decimal>>)
        requires
            ts_nanos + BAR_NANOS <= i64::MAX,
            spec_decimal_positive(open),
            spec_decimal_positive(high),
            spec_decimal_positive(low),
            spec_decimal_positive(close),
            !spec_decimal_negative(volume),
            update_finishes(
                old(self).pipeline(),
                engine_bar(old(self).symbol(), ts_nanos, open, high, low, close, volume),
            ),
        ensures
            final(self).names() == old(self).names(),
            final(self).symbol() == old(self).symbol(),
            final(self).pipeline() == spec_pipeline_next(
                old(self).pipeline(),
                engine_bar(old(self).symbol(), ts_nanos, open, high, low, close, volume),
            ),
            signal_tags(final(self).pipeline()) == signal_tags(old(self).pipeline()),
            r@ == spec_update_values(
                old(self).pipeline(),
                engine_bar(old(self).symbol(), ts_nanos, open, high, low, close, volume),
                old(self).names(),
            ),
    {
        let open_p = price_new(open).unwrap();
        let high_p = price_new(high).unwrap();
        let low_p = price_new(low).unwrap();
        let close_p = price_new(close).unwrap();
        let volume_q = quantity_new(volume).unwrap();
        let bar = ohlcv_bar(
            self.symbol.clone(),
            open_p,
            high_p,
            low_p,
            close_p,
            volume_q,
            nano_timestamp_new(ts_nanos),
            nano_timestamp_new(ts_nanos + BAR_NANOS),
            1,
        );
        let ghost p0 = self.pipeline;
        let signal_map = pipeline_update(&mut self.pipeline, &bar);
        let r = indicator_values(&signal_map, &self.names);
        proof {
            assert(r@ =~= spec_update_values(p0, bar, self.names@));
        }
        r
    }

    /// `update` when the bar is one it takes: prices above zero, volume not
    /// below zero, and a close time that fits; otherwise nothing, and the
    /// engine is left as it was. A bar it takes must be one on which the
    /// update finishes (see `update`).
    pub fn try_update(
        &mut self,
        ts_nanos: i64,
        open: Decimal,
        high: Decimal,
        low: Decimal,
        close: Decimal,
        volume: Decimal,
    ) -> (r: Option<Vec<Option<Decimal>>>)
        requires
            ts_nanos + BAR_NANOS <= i64::MAX && spec_decimal_positive(open) && spec_decimal_positive(high)
                && spec_decimal_positive(low) && spec_decimal_positive(close) && !spec_decimal_negative(volume)
                ==> update_finishes(
                old(self).pipeline(),
                engine_bar(old(self).symbol(), ts_nanos, open, high, low, close, volume),
            ),
        ensures
            ({
                let ok = ts_nanos + BAR_NANOS <= i64::MAX && spec_decimal_positive(open)
                    && spec_decimal_positive(high) && spec_decimal_positive(low)
                    && spec_decimal_positive(close) && !spec_decimal_negative(volume);
                &&& ok <==> r is Some
                &&& !ok ==> *final(self) == *old(self)
                &&& final(self).names() == old(self).names()
                &&& final(self).symbol() == old(self).symbol()
                &&& ok ==> final(self).pipeline() == spec_pipeline_next(
                    old(self).pipeline(),
                    engine_bar(old(self).symbol(), ts_nanos, open, high, low, close, volume),
                )
                &&& signal_tags(final(self).pipeline()) == signal_tags(old(self).pipeline())
                &&& r matches Some(v) ==> v@ == spec_update_values(
                    old(self).pipeline(),
                    engine_bar(old(self).symbol(), ts_nanos, open, high, low, close, volume),
                    old(self).names(),
                )
            }),
    {
        if ts_nanos > i64::MAX - BAR_NANOS || !decimal_is_positive(&open) || !decimal_is_positive(&high)
            || !decimal_is_positive(&low) || !decimal_is_positive(&close) || decimal_is_negative(&volume) {
            return None;
        }
        Some(self.update(ts_nanos, open, high, low, close, volume))
    }
}

} // verus!
