//! Ordering of IEEE-754 binary64 values held as their bit patterns.
//!
//! The engine never does arithmetic on quantities: it only orders them,
//! compares them bit for bit and tells finite values from the rest. All of
//! that is exact integer logic on the 64-bit pattern.
use vstd::prelude::*;

verus! {

/// Two to the 52nd: the weight of the lowest exponent bit.
pub const EXPONENT_UNIT: u64 = 0x0010_0000_0000_0000;

/// Two to the 63rd: the weight of the sign bit.
pub const SIGN_BIT: u64 = 0x8000_0000_0000_0000;

/// The exponent field when every bit of it is set (infinities and NaNs).
pub const EXPONENT_ALL_ONES: u64 = 0x7ff;

/// Bit pattern of positive zero.
pub const ZERO: u64 = 0;

/// Bit pattern of negative infinity.
pub const NEG_INFINITY: u64 = 0xfff0_0000_0000_0000;

/// Whether the sign bit is set.
pub open spec fn negative(b: u64) -> bool {
    b >= SIGN_BIT
}

/// Everything but the sign bit.
pub open spec fn magnitude(b: u64) -> int {
    (b % SIGN_BIT) as int
}

/// The eleven exponent bits.
pub open spec fn exponent(b: u64) -> int {
    magnitude(b) / (EXPONENT_UNIT as int)
}

/// The fifty-two fraction bits.
pub open spec fn fraction(b: u64) -> int {
    magnitude(b) % (EXPONENT_UNIT as int)
}

pub open spec fn is_nan(b: u64) -> bool {
    exponent(b) == EXPONENT_ALL_ONES && fraction(b) != 0
}

/// Neither an infinity nor a NaN.
pub open spec fn is_finite(b: u64) -> bool {
    exponent(b) != EXPONENT_ALL_ONES
}

/// A key whose integer order is the order of the values, for every value
/// that is not a NaN: both zeros get key 0, and the infinities sit beyond
/// every finite value.
pub open spec fn order_key(b: u64) -> int {
    if negative(b) { -magnitude(b) } else { magnitude(b) }
}

/// `a >= b` as IEEE-754 compares: false whenever either side is a NaN.
pub open spec fn ge(a: u64, b: u64) -> bool {
    !is_nan(a) && !is_nan(b) && order_key(a) >= order_key(b)
}

/// `a < b` as IEEE-754 compares: false whenever either side is a NaN.
pub open spec fn lt(a: u64, b: u64) -> bool {
    !is_nan(a) && !is_nan(b) && order_key(a) < order_key(b)
}

/// Whether the value is a NaN.
pub fn nan(b: u64) -> (r: bool)
    ensures
        r == is_nan(b),
{
    let m = b % SIGN_BIT;
    m / EXPONENT_UNIT == EXPONENT_ALL_ONES && m % EXPONENT_UNIT != 0
}

/// Whether the value is finite.
pub fn finite(b: u64) -> (r: bool)
    ensures
        r == is_finite(b),
{
    (b % SIGN_BIT) / EXPONENT_UNIT != EXPONENT_ALL_ONES
}

/// `a >= b` on the values the bit patterns stand for.
pub fn greater_or_equal(a: u64, b: u64) -> (r: bool)
    ensures
        r == ge(a, b),
{
    if nan(a) || nan(b) {
        return false;
    }
    let ma = a % SIGN_BIT;
    let mb = b % SIGN_BIT;
    let na = a >= SIGN_BIT;
    let nb = b >= SIGN_BIT;
    if !na && !nb {
        ma >= mb
    } else if na && nb {
        ma <= mb
    } else if !na {
        true
    } else {
        ma == 0 && mb == 0
    }
}

/// `a < b` on the values the bit patterns stand for.
pub fn less_than(a: u64, b: u64) -> (r: bool)
    ensures
        r == lt(a, b),
{
    !nan(a) && !nan(b) && !greater_or_equal(a, b)
}

} // verus!
