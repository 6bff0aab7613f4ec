//! IEEE-754 binary64 values held by their bit patterns.
//!
//! Prices, volumes and indicator readings enter the library as the `u64`
//! produced by `f64::to_bits`. The library never does arithmetic on them;
//! it moves them, recognises NaN and compares them the way `f64` does.
use vstd::prelude::*;

verus! {

/// 2^52: the weight of the lowest exponent bit.
pub const MANTISSA_SPAN: u64 = 0x10_0000_0000_0000;

/// 2^63: the sign bit.
pub const SIGN_BIT: u64 = 0x8000_0000_0000_0000;

/// The bit pattern of `0.0`.
pub const ZERO_BITS: u64 = 0;

/// The 11-bit biased exponent field.
pub open spec fn exponent_field(b: u64) -> int {
    (b as int / MANTISSA_SPAN as int) % 2048
}

/// The 52-bit fraction field.
pub open spec fn fraction_field(b: u64) -> int {
    b as int % MANTISSA_SPAN as int
}

/// `f64::from_bits(b).is_nan()`: all exponent bits set and a non-zero fraction.
pub open spec fn spec_is_nan(b: u64) -> bool {
    exponent_field(b) == 2047 && fraction_field(b) != 0
}

/// A key whose integer order is the order of the (non-NaN) float values:
/// the magnitude bits, negated when the sign bit is set. Both zeros map to 0.
pub open spec fn order_key(b: u64) -> int {
    if b >= SIGN_BIT {
        -(b as int - SIGN_BIT as int)
    } else {
        b as int
    }
}

/// `f64::from_bits(a) < f64::from_bits(b)`.
pub open spec fn spec_lt(a: u64, b: u64) -> bool {
    !spec_is_nan(a) && !spec_is_nan(b) && order_key(a) < order_key(b)
}

/// `f64::from_bits(a) <= f64::from_bits(b)`.
pub open spec fn spec_le(a: u64, b: u64) -> bool {
    !spec_is_nan(a) && !spec_is_nan(b) && order_key(a) <= order_key(b)
}

/// Comparison on bit patterns orders the values as `f64` does: `<` is
/// irreflexive and transitive, `<=` is `<` or equal in value (so `0.0` and
/// `-0.0` are equal), any two non-NaN values are comparable, and NaN is
/// comparable with nothing.
pub proof fn law_float_order(a: u64, b: u64, c: u64)
    ensures
        !spec_lt(a, a),
        spec_lt(a, b) && spec_lt(b, c) ==> spec_lt(a, c),
        spec_lt(a, b) ==> !spec_le(b, a),
        spec_le(a, b) <==> (spec_lt(a, b) || (!spec_is_nan(a) && !spec_is_nan(b) && order_key(a) == order_key(b))),
        !spec_is_nan(a) && !spec_is_nan(b) ==> spec_le(a, b) || spec_le(b, a),
        spec_is_nan(a) ==> !spec_le(a, b) && !spec_le(b, a),
        spec_le(ZERO_BITS, SIGN_BIT) && spec_le(SIGN_BIT, ZERO_BITS),
{
}

/// Whether the value with bit pattern `b` is NaN.
pub fn is_nan(b: u64) -> (r: bool)
    ensures
        r == spec_is_nan(b),
{
    (b / MANTISSA_SPAN) % 2048 == 2047 && b % MANTISSA_SPAN != 0
}

fn key_parts(b: u64) -> (r: (bool, u64))
    ensures
        r.0 == (b >= SIGN_BIT),
        r.0 ==> order_key(b) == -(r.1 as int),
        !r.0 ==> order_key(b) == r.1 as int,
{
    if b >= SIGN_BIT {
        (true, b - SIGN_BIT)
    } else {
        (false, b)
    }
}

/// `a < b` on the float values whose bit patterns are `a` and `b`.
pub fn lt(a: u64, b: u64) -> (r: bool)
    ensures
        r == spec_lt(a, b),
{
    if is_nan(a) || is_nan(b) {
        return false;
    }
    let (na, ma) = key_parts(a);
    let (nb, mb) = key_parts(b);
    if na && nb {
        mb < ma
    } else if na && !nb {
        !(ma == 0 && mb == 0)
    } else if !na && nb {
        false
    } else {
        ma < mb
    }
}

/// `a <= b` on the float values whose bit patterns are `a` and `b`.
pub fn le(a: u64, b: u64) -> (r: bool)
    ensures
        r == spec_le(a, b),
{
    if is_nan(a) || is_nan(b) {
        return false;
    }
    let (na, ma) = key_parts(a);
    let (nb, mb) = key_parts(b);
    if na && nb {
        mb <= ma
    } else if na && !nb {
        true
    } else if !na && nb {
        ma == 0 && mb == 0
    } else {
        ma <= mb
    }
}

/// `a >= b` on the float values whose bit patterns are `a` and `b`.
pub fn ge(a: u64, b: u64) -> (r: bool)
    ensures
        r == spec_le(b, a),
{
    le(b, a)
}

} // verus!
