//! IEEE-754 double precision values held by their bit pattern.
//!
//! Confidence scores and ratios travel through the library as the 64-bit
//! pattern of the `f64` they stand for (`f64::to_bits`).  The library never
//! computes with them; it only compares them, with the ordering that IEEE-754
//! gives the values the patterns encode.

use vstd::prelude::*;

verus! {

/// The sign bit of a double.
pub const SIGN_BIT: u64 = 0x8000_0000_0000_0000;

/// The bit pattern of positive infinity.
pub const INFINITY_BITS: u64 = 0x7FF0_0000_0000_0000;

/// The bit pattern of `0.5`.
pub const HALF_BITS: u64 = 0x3FE0_0000_0000_0000;

/// The bit pattern of `0.0`.
pub const ZERO_BITS: u64 = 0;

/// The magnitude part of a pattern (the pattern without its sign bit).
pub open spec fn magnitude(b: u64) -> int {
    if b >= SIGN_BIT {
        b - SIGN_BIT
    } else {
        b as int
    }
}

/// The pattern encodes a NaN.
pub open spec fn is_nan(b: u64) -> bool {
    magnitude(b) > INFINITY_BITS
}

/// Position of a non-NaN value on the real line: larger keys are larger
/// values, and `-0.0` and `+0.0` share a key.
pub open spec fn order_key(b: u64) -> int {
    if b >= SIGN_BIT {
        -magnitude(b)
    } else {
        b as int
    }
}

/// The double encoded by `a` is less than the one encoded by `b`.
pub open spec fn f64_lt(a: u64, b: u64) -> bool {
    !is_nan(a) && !is_nan(b) && order_key(a) < order_key(b)
}

/// `a < b` on the doubles the two patterns encode.
pub fn bits_lt(a: u64, b: u64) -> (r: bool)
    ensures
        r == f64_lt(a, b),
{
    let ma: u64 = if a >= SIGN_BIT { a - SIGN_BIT } else { a };
    let mb: u64 = if b >= SIGN_BIT { b - SIGN_BIT } else { b };
    if ma > INFINITY_BITS || mb > INFINITY_BITS {
        return false;
    }
    let a_neg = a >= SIGN_BIT;
    let b_neg = b >= SIGN_BIT;
    if a_neg && b_neg {
        mb < ma
    } else if a_neg && !b_neg {
        !(ma == 0 && mb == 0)
    } else if !a_neg && b_neg {
        false
    } else {
        ma < mb
    }
}

/// The double encoded by `a` is below one half.
pub fn below_half(a: u64) -> (r: bool)
    ensures
        r == f64_lt(a, HALF_BITS),
{
    bits_lt(a, HALF_BITS)
}

} // verus!
