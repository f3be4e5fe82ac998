//! Prices and quantities travel through the library as the IEEE-754 bit
//! patterns of their `f64` values. This module orders those bit patterns the
//! way the service orders prices, and decides which quantities are positive.
use vstd::prelude::*;

verus! {

/// The sign bit of an `f64` bit pattern.
pub const SIGN_BIT: u64 = 0x8000_0000_0000_0000;

/// The bit pattern of `f64::INFINITY`: every larger magnitude is a NaN.
pub const INFINITY_BITS: u64 = 0x7FF0_0000_0000_0000;

/// Whether the sign bit is set.
pub open spec fn is_negative_bits(bits: u64) -> bool {
    bits >= SIGN_BIT
}

/// The bit pattern with the sign bit cleared.
pub open spec fn magnitude(bits: u64) -> int {
    if is_negative_bits(bits) {
        bits - SIGN_BIT
    } else {
        bits as int
    }
}

/// Whether the bit pattern encodes a NaN.
pub open spec fn is_nan_bits(bits: u64) -> bool {
    magnitude(bits) > INFINITY_BITS
}

/// IEEE-754 `a < b` for two bit patterns that are not NaN: sign-magnitude
/// order, in which `-0.0` and `+0.0` are equal.
pub open spec fn float_lt(a: u64, b: u64) -> bool {
    if !is_negative_bits(a) && !is_negative_bits(b) {
        magnitude(a) < magnitude(b)
    } else if is_negative_bits(a) && is_negative_bits(b) {
        magnitude(a) > magnitude(b)
    } else if is_negative_bits(a) {
        magnitude(a) != 0 || magnitude(b) != 0
    } else {
        false
    }
}

/// The strict order that the book puts on prices: the order of `f64` values,
/// with every NaN equal to every other NaN and above every number.
pub open spec fn price_lt(a: u64, b: u64) -> bool {
    if is_nan_bits(a) {
        false
    } else if is_nan_bits(b) {
        true
    } else {
        float_lt(a, b)
    }
}

/// Two prices that the book treats as the same price: equal values
/// (`-0.0` is `+0.0`), or two NaNs.
pub open spec fn price_eq(a: u64, b: u64) -> bool {
    if is_nan_bits(a) || is_nan_bits(b) {
        is_nan_bits(a) && is_nan_bits(b)
    } else {
        !float_lt(a, b) && !float_lt(b, a)
    }
}

/// IEEE-754 `q > 0.0`.
pub open spec fn is_positive_bits(q: u64) -> bool {
    0 < q <= INFINITY_BITS
}

/// The integer under which a price is stored in the book.
pub open spec fn price_key_spec(bits: u64) -> u64 {
    if is_nan_bits(bits) {
        u64::MAX
    } else if is_negative_bits(bits) && magnitude(bits) != 0 {
        (SIGN_BIT - 1 - magnitude(bits)) as u64
    } else {
        (SIGN_BIT + magnitude(bits)) as u64
    }
}

/// The integer key under which the book stores a price given by its bit
/// pattern. Keys compare as the prices do (see `lemma_price_key_orders_prices`).
pub fn price_key(bits: u64) -> (key: u64)
    ensures
        key == price_key_spec(bits),
{
    let negative = bits >= SIGN_BIT;
    let mag = if negative {
        bits - SIGN_BIT
    } else {
        bits
    };
    if mag > INFINITY_BITS {
        u64::MAX
    } else if negative && mag != 0 {
        SIGN_BIT - 1 - mag
    } else {
        SIGN_BIT + mag
    }
}

/// Whether a quantity, given by its bit pattern, is greater than zero.
pub fn is_positive_quantity(bits: u64) -> (positive: bool)
    ensures
        positive == is_positive_bits(bits),
{
    0 < bits && bits <= INFINITY_BITS
}

/// Keys order prices exactly as the book does: a price is below another if and
/// only if its key is smaller, and two prices share a key if and only if the
/// book treats them as the same price.
pub proof fn lemma_price_key_orders_prices(a: u64, b: u64)
    ensures
        (price_key_spec(a) < price_key_spec(b)) == price_lt(a, b),
        (price_key_spec(a) == price_key_spec(b)) == price_eq(a, b),
{
}

/// A quantity is positive exactly when it is a number that is greater than zero.
pub proof fn lemma_positive_means_above_zero(q: u64)
    ensures
        is_positive_bits(q) == (!is_nan_bits(q) && float_lt(0, q)),
{
}

} // verus!
