//! IEEE-754 binary64 values held by their bit patterns.
//!
//! The settings that this library checks and normalises are doubles. The
//! library never does arithmetic on them: it only classifies them (finite,
//! NaN) and compares them. Both depend on the bit pattern alone, so a value
//! is carried here as the `u64` that `f64::to_bits` gives, and the order of
//! doubles is stated over an integer key of that pattern.
//!
//! For a pattern `b`, the sign is the top bit and the magnitude is the other
//! 63 bits. Positive doubles grow with their magnitude bits, negative ones
//! shrink, and both zeros have magnitude 0, so the key is the magnitude,
//! negated when the sign is set. A pattern is NaN when its magnitude lies
//! above that of infinity. Two doubles that are not NaN compare as their keys
//! do; a NaN compares false with everything, itself included.
use vstd::prelude::*;

verus! {

/// The sign bit of a binary64 pattern.
pub const SIGN_BIT: u64 = 0x8000_0000_0000_0000;

/// The pattern of positive infinity; every larger magnitude is a NaN.
pub const INFINITY_BITS: u64 = 0x7FF0_0000_0000_0000;

/// `0.0`
pub const ZERO: u64 = 0;

/// `0.001`
pub const ONE_THOUSANDTH: u64 = 0x3F50_624D_D2F1_A9FC;

/// `0.005`
pub const FIVE_THOUSANDTHS: u64 = 0x3F74_7AE1_47AE_147B;

/// `0.05`
pub const ONE_TWENTIETH: u64 = 0x3FA9_9999_9999_999A;

/// `0.1`
pub const ONE_TENTH: u64 = 0x3FB9_9999_9999_999A;

/// `0.5`
pub const ONE_HALF: u64 = 0x3FE0_0000_0000_0000;

/// `1.0`
pub const ONE: u64 = 0x3FF0_0000_0000_0000;

/// `1.5`
pub const ONE_AND_A_HALF: u64 = 0x3FF8_0000_0000_0000;

/// `2.0`
pub const TWO: u64 = 0x4000_0000_0000_0000;

/// `5.0`
pub const FIVE: u64 = 0x4014_0000_0000_0000;

/// `15.0`
pub const FIFTEEN: u64 = 0x402E_0000_0000_0000;

/// `1000.0`
pub const ONE_THOUSAND: u64 = 0x408F_4000_0000_0000;

/// The magnitude bits of a pattern: everything but the sign.
pub open spec fn magnitude(b: u64) -> int {
    if b >= SIGN_BIT {
        b - SIGN_BIT
    } else {
        b as int
    }
}

/// The sign bit is set.
pub open spec fn sign_set(b: u64) -> bool {
    b >= SIGN_BIT
}

/// The pattern is a NaN.
pub open spec fn spec_is_nan(b: u64) -> bool {
    magnitude(b) > INFINITY_BITS
}

/// The pattern is neither infinite nor NaN.
pub open spec fn spec_is_finite(b: u64) -> bool {
    magnitude(b) < INFINITY_BITS
}

/// The key by which the patterns that are not NaN are ordered as doubles.
pub open spec fn order_key(b: u64) -> int {
    if sign_set(b) {
        -magnitude(b)
    } else {
        magnitude(b)
    }
}

/// `a < b` on doubles.
pub open spec fn spec_lt(a: u64, b: u64) -> bool {
    !spec_is_nan(a) && !spec_is_nan(b) && order_key(a) < order_key(b)
}

/// `a <= b` on doubles.
pub open spec fn spec_le(a: u64, b: u64) -> bool {
    !spec_is_nan(a) && !spec_is_nan(b) && order_key(a) <= order_key(b)
}

/// `a == b` on doubles (so `-0.0 == 0.0`, and a NaN equals nothing).
pub open spec fn spec_eq(a: u64, b: u64) -> bool {
    !spec_is_nan(a) && !spec_is_nan(b) && order_key(a) == order_key(b)
}

/// The magnitude bits of `b`.
pub fn magnitude_of(b: u64) -> (m: u64)
    ensures
        m == magnitude(b),
        m < SIGN_BIT,
{
    if b >= SIGN_BIT {
        b - SIGN_BIT
    } else {
        b
    }
}

/// Whether `b` is a NaN (`f64::is_nan`).
pub fn is_nan(b: u64) -> (r: bool)
    ensures
        r == spec_is_nan(b),
{
    magnitude_of(b) > INFINITY_BITS
}

/// Whether `b` is finite (`f64::is_finite`).
pub fn is_finite(b: u64) -> (r: bool)
    ensures
        r == spec_is_finite(b),
{
    magnitude_of(b) < INFINITY_BITS
}

/// The order key of `b`.
pub fn key_of(b: u64) -> (k: i64)
    ensures
        k == order_key(b),
{
    let m = magnitude_of(b);
    let mi = m as i64;
    if b >= SIGN_BIT {
        -mi
    } else {
        mi
    }
}

/// `a < b` on doubles.
pub fn lt(a: u64, b: u64) -> (r: bool)
    ensures
        r == spec_lt(a, b),
{
    !is_nan(a) && !is_nan(b) && key_of(a) < key_of(b)
}

/// `a <= b` on doubles.
pub fn le(a: u64, b: u64) -> (r: bool)
    ensures
        r == spec_le(a, b),
{
    !is_nan(a) && !is_nan(b) && key_of(a) <= key_of(b)
}

/// `a == b` on doubles.
pub fn eq(a: u64, b: u64) -> (r: bool)
    ensures
        r == spec_eq(a, b),
{
    !is_nan(a) && !is_nan(b) && key_of(a) == key_of(b)
}

/// Among doubles that are not NaN, `<` is a strict total order up to `==`.
pub proof fn lemma_trichotomy(a: u64, b: u64)
    requires
        !spec_is_nan(a),
        !spec_is_nan(b),
    ensures
        spec_lt(a, b) || spec_eq(a, b) || spec_lt(b, a),
        !(spec_lt(a, b) && spec_lt(b, a)),
        spec_le(a, b) <==> !spec_lt(b, a),
{
}

/// `<` is transitive on doubles.
pub proof fn lemma_lt_transitive(a: u64, b: u64, c: u64)
    requires
        spec_lt(a, b),
        spec_lt(b, c),
    ensures
        spec_lt(a, c),
{
}

} // verus!
