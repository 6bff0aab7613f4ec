//! Read access to the bar series around one bar, and the labelling rules that
//! need no arithmetic on prices.
use vstd::prelude::*;
use crate::data::market_data::MarketData;
use crate::float_bits::{ge, le, lt, spec_le, spec_lt};

verus! {

/// `v[i]` when `i` is in range.
pub open spec fn seq_get<T>(v: Seq<T>, i: int) -> Option<T> {
    if 0 <= i < v.len() {
        Some(v[i])
    } else {
        None
    }
}

/// The bar at `index` and read access to the whole series.
pub struct LabelContext<'a> {
    pub index: usize,
    market_data: &'a MarketData,
}

impl<'a> LabelContext<'a> {
    /// The series this context reads.
    pub closed spec fn data(&self) -> MarketData {
        *self.market_data
    }

    /// The bar this context is about.
    pub closed spec fn bar(&self) -> usize {
        self.index
    }

    /// The bar this context is about.
    pub fn index(&self) -> (r: usize)
        ensures
            r == self.bar(),
    {
        self.index
    }

    /// The context for bar `index` of `market_data`.
    pub closed spec fn spec_new(index: usize, market_data: &'a MarketData) -> Self {
        LabelContext { index, market_data }
    }

    /// A context for bar `index` of `market_data`.
    pub fn new(index: usize, market_data: &'a MarketData) -> (r: Self)
        ensures
            r == Self::spec_new(index, market_data),
            r.bar() == index,
            r.data() == *market_data,
    {
        LabelContext { index, market_data }
    }

    /// The open of bar `index`, if there is one.
    pub fn open(&self, index: usize) -> (r: Option<u64>)
        ensures
            r == seq_get(self.data().opens@, index as int),
    {
        if index < self.market_data.opens.len() {
            Some(self.market_data.opens[index])
        } else {
            None
        }
    }

    /// The high of bar `index`, if there is one.
    pub fn high(&self, index: usize) -> (r: Option<u64>)
        ensures
            r == seq_get(self.data().highs@, index as int),
    {
        if index < self.market_data.highs.len() {
            Some(self.market_data.highs[index])
        } else {
            None
        }
    }

    /// The low of bar `index`, if there is one.
    pub fn low(&self, index: usize) -> (r: Option<u64>)
        ensures
            r == seq_get(self.data().lows@, index as int),
    {
        if index < self.market_data.lows.len() {
            Some(self.market_data.lows[index])
        } else {
            None
        }
    }

    /// The close of bar `index`, if there is one.
    pub fn close(&self, index: usize) -> (r: Option<u64>)
        ensures
            r == seq_get(self.data().closes@, index as int),
    {
        if index < self.market_data.closes.len() {
            Some(self.market_data.closes[index])
        } else {
            None
        }
    }

    /// The volume of bar `index`, if there is one.
    pub fn volume(&self, index: usize) -> (r: Option<u64>)
        ensures
            r == seq_get(self.data().volumes@, index as int),
    {
        if index < self.market_data.volumes.len() {
            Some(self.market_data.volumes[index])
        } else {
            None
        }
    }

    /// Indicator `indicator_index` on bar `index`: `None` when either index is
    /// out of range or the indicator had no value on that bar.
    pub fn indicator(&self, index: usize, indicator_index: usize) -> (r: Option<u64>)
        ensures
            r == match seq_get(self.data().indicator_values@, index as int) {
                Some(row) => match seq_get(row@, indicator_index as int) {
                    Some(v) => v,
                    None => None,
                },
                None => None,
            },
    {
        if index < self.market_data.indicator_values.len() {
            let row = &self.market_data.indicator_values[index];
            if indicator_index < row.len() {
                row[indicator_index]
            } else {
                None
            }
        } else {
            None
        }
    }
}

/// 1 when the next close is above the close of bar `index`, 0 when it is not,
/// and nothing when either close is missing.
pub open spec fn spec_next_close_direction(md: MarketData, index: int) -> Option<i32> {
    match (seq_get(md.closes@, index), seq_get(md.closes@, index + 1)) {
        (Some(current), Some(next)) => Some(if spec_lt(current, next) { 1i32 } else { 0i32 }),
        _ => None,
    }
}

/// Labels bar `ctx.index` by the direction of the next close.
pub fn label_next_close_direction(ctx: &LabelContext<'_>) -> (r: Option<i32>)
    ensures
        r == spec_next_close_direction(ctx.data(), ctx.bar() as int),
{
    let current = match ctx.close(ctx.index) {
        Some(v) => v,
        None => return None,
    };
    let n = ctx.market_data.closes.len();
    assert(ctx.index < n);
    let next = match ctx.close(ctx.index + 1) {
        Some(v) => v,
        None => return None,
    };
    Some(if lt(current, next) { 1 } else { 0 })
}

/// The barrier outcome from bar `i` to bar `stop` (inclusive): 1 when a high
/// reaches `upper` first, 0 when a low reaches `lower` first (the upper test
/// is made first on each bar), 2 when neither is touched, and nothing when a
/// high or low is missing before a touch.
pub open spec fn spec_barrier_scan(md: MarketData, i: int, stop: int, upper: u64, lower: u64) -> Option<i32>
    decreases stop - i + 1,
{
    if i > stop {
        Some(2i32)
    } else {
        match (seq_get(md.highs@, i), seq_get(md.lows@, i)) {
            (Some(hi), Some(lo)) => {
                if spec_le(upper, hi) {
                    Some(1i32)
                } else if spec_le(lo, lower) {
                    Some(0i32)
                } else {
                    spec_barrier_scan(md, i + 1, stop, upper, lower)
                }
            },
            _ => None,
        }
    }
}

/// The last bar a position entered at `index` can be held to.
pub open spec fn barrier_horizon(md: MarketData, index: int, max_hold: int) -> int {
    if index + max_hold < md.closes@.len() - 1 {
        index + max_hold
    } else {
        md.closes@.len() - 1
    }
}

/// Scans the bars after `ctx.index`, up to `max_hold` bars ahead and no
/// further than the last close, for the first touch of the `upper` or
/// `lower` barrier (the barriers of the triple-barrier rule).
pub fn first_barrier_touch(ctx: &LabelContext<'_>, upper: u64, lower: u64, max_hold: usize) -> (r: Option<i32>)
    requires
        ctx.bar() < ctx.data().closes@.len(),
        ctx.bar() + max_hold <= usize::MAX,
    ensures
        r == spec_barrier_scan(
            ctx.data(),
            ctx.bar() + 1,
            barrier_horizon(ctx.data(), ctx.bar() as int, max_hold as int),
            upper,
            lower,
        ),
{
    let end = ctx.index + max_hold;
    let last = ctx.market_data.closes.len() - 1;
    let stop = if end < last { end } else { last };
    let ghost md = ctx.data();
    let mut i = ctx.index + 1;
    while i <= stop
        invariant
            ctx.bar() + 1 <= i <= stop + 1,
            stop < ctx.data().closes@.len(),
            stop < usize::MAX,
            md == ctx.data(),
            stop == barrier_horizon(md, ctx.bar() as int, max_hold as int),
            spec_barrier_scan(md, ctx.bar() + 1, stop as int, upper, lower)
                == spec_barrier_scan(md, i as int, stop as int, upper, lower),
        decreases stop + 1 - i,
    {
        let hi = match ctx.high(i) {
            Some(v) => v,
            None => return None,
        };
        let lo = match ctx.low(i) {
            Some(v) => v,
            None => return None,
        };
        if ge(hi, upper) {
            return Some(1);
        }
        if le(lo, lower) {
            return Some(0);
        }
        i = i + 1;
    }
    Some(2)
}

/// The next-close rule labels a bar exactly when it and the next bar have
/// closes, and then only with 0 or 1.
pub proof fn law_next_close_binary(md: MarketData, index: int)
    ensures
        spec_next_close_direction(md, index) is Some <==> 0 <= index && index + 1 < md.closes@.len(),
        spec_next_close_direction(md, index) matches Some(l) ==> (l == 0 || l == 1),
{
}

/// A barrier scan answers 1 (upper touched first), 0 (lower touched first)
/// or 2 (neither touched), unless a high or low is missing.
pub proof fn law_barrier_outcomes(md: MarketData, i: int, stop: int, upper: u64, lower: u64)
    ensures
        spec_barrier_scan(md, i, stop, upper, lower) matches Some(l) ==> (l == 0 || l == 1 || l == 2),
        i > stop ==> spec_barrier_scan(md, i, stop, upper, lower) == Some(2i32),
    decreases stop - i + 1,
{
    if i <= stop {
        law_barrier_outcomes(md, i + 1, stop, upper, lower);
    }
}

/// The next-close label reads only the closes: two series with the same
/// closes get the same label on every bar, and the label is 1 exactly when
/// the next close is above the bar's close (as binary64 values).
pub proof fn law_next_close_reads_closes(md1: MarketData, md2: MarketData, index: int)
    ensures
        md1.closes@ == md2.closes@ ==> spec_next_close_direction(md1, index) == spec_next_close_direction(
            md2,
            index,
        ),
        spec_next_close_direction(md1, index) == Some(1i32) <==> (0 <= index && index + 1 < md1.closes@.len()
            && spec_lt(md1.closes@[index], md1.closes@[index + 1])),
        spec_next_close_direction(md1, index) == Some(0i32) <==> (0 <= index && index + 1 < md1.closes@.len()
            && !spec_lt(md1.closes@[index], md1.closes@[index + 1])),
{
}

/// The holding window ends `max_hold` bars after the entry bar, or at the
/// last bar when that comes first.
pub proof fn law_barrier_horizon(md: MarketData, index: int, max_hold: int)
    requires
        0 <= index < md.closes@.len(),
        0 <= max_hold,
    ensures
        index <= barrier_horizon(md, index, max_hold),
        barrier_horizon(md, index, max_hold) <= index + max_hold,
        barrier_horizon(md, index, max_hold) <= md.closes@.len() - 1,
        barrier_horizon(md, index, max_hold) == index + max_hold
            || barrier_horizon(md, index, max_hold) == md.closes@.len() - 1,
{
}

/// Whether bar `k` has a high and a low and touches neither barrier.
pub open spec fn bar_untouched(md: MarketData, k: int, upper: u64, lower: u64) -> bool {
    &&& 0 <= k < md.highs@.len()
    &&& 0 <= k < md.lows@.len()
    &&& !spec_le(upper, md.highs@[k])
    &&& !spec_le(md.lows@[k], lower)
}

/// Scanning bars `i ..= stop`: when bars `i .. j` have their highs and lows
/// and touch neither barrier and bar `j` has both, the answer is decided at
/// bar `j`: 1 when its high reaches the upper barrier, else 0 when its low
/// reaches the lower one; and when no bar up to `stop` touches, the answer is 2.
pub proof fn law_barrier_first_touch(md: MarketData, i: int, j: int, stop: int, upper: u64, lower: u64)
    requires
        i <= j,
        forall|k: int| i <= k < j ==> #[trigger] bar_untouched(md, k, upper, lower),
    ensures
        j <= stop && 0 <= j < md.highs@.len() && 0 <= j < md.lows@.len() && spec_le(upper, md.highs@[j])
            ==> spec_barrier_scan(md, i, stop, upper, lower) == Some(1i32),
        j <= stop && 0 <= j < md.highs@.len() && 0 <= j < md.lows@.len() && !spec_le(upper, md.highs@[j])
            && spec_le(md.lows@[j], lower) ==> spec_barrier_scan(md, i, stop, upper, lower) == Some(0i32),
        j == stop + 1 ==> spec_barrier_scan(md, i, stop, upper, lower) == Some(2i32),
    decreases j - i,
{
    if i < j {
        assert(bar_untouched(md, i, upper, lower));
        if i <= stop {
            law_barrier_first_touch(md, i + 1, j, stop, upper, lower);
        }
    }
}

/// The triple-barrier scan from bar `index` with a holding period of
/// `max_hold` answers 1 when the first bar after `index` that touches a
/// barrier lies within `max_hold` bars and the last bar and reaches the
/// upper barrier with its high (0 when it only reaches the lower one with
/// its low).
pub proof fn law_barrier_touch_within_hold(md: MarketData, index: int, max_hold: int, j: int, upper: u64, lower: u64)
    requires
        0 <= index < md.closes@.len(),
        index < j <= index + max_hold,
        j < md.closes@.len(),
        j < md.highs@.len(),
        j < md.lows@.len(),
        forall|k: int| index < k < j ==> #[trigger] bar_untouched(md, k, upper, lower),
    ensures
        spec_le(upper, md.highs@[j]) ==> spec_barrier_scan(
            md,
            index + 1,
            barrier_horizon(md, index, max_hold),
            upper,
            lower,
        ) == Some(1i32),
        !spec_le(upper, md.highs@[j]) && spec_le(md.lows@[j], lower) ==> spec_barrier_scan(
            md,
            index + 1,
            barrier_horizon(md, index, max_hold),
            upper,
            lower,
        ) == Some(0i32),
{
    law_barrier_horizon(md, index, max_hold);
    law_barrier_first_touch(md, index + 1, j, barrier_horizon(md, index, max_hold), upper, lower);
}

/// The trade signal for a predicted label: go long (1) on label 1, stay flat (0) otherwise.
pub fn default_prediction_to_signal(label: i32) -> (r: i32)
    ensures
        r == (if label == 1 { 1i32 } else { 0i32 }),
{
    if label == 1 {
        1
    } else {
        0
    }
}

} // verus!
