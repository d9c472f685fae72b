//! Double-precision numbers held as their IEEE 754 bit patterns.
//!
//! A pattern is a sign bit over a 63-bit magnitude. Magnitudes below
//! [`INFINITY`] are finite numbers in increasing order, the one equal to it is
//! infinity, and those above it are not numbers. Comparing, bounding and
//! clamping therefore need no arithmetic on the numbers themselves.
use vstd::prelude::*;

verus! {

/// The sign bit.
pub const SIGN: u64 = 0x8000_0000_0000_0000;

/// Positive infinity.
pub const INFINITY: u64 = 0x7ff0_0000_0000_0000;

/// 0.0
pub const ZERO: u64 = 0;

/// 0.5
pub const HALF: u64 = 0x3fe0_0000_0000_0000;

/// 1.0
pub const ONE: u64 = 0x3ff0_0000_0000_0000;

/// The pattern without its sign bit.
pub open spec fn magnitude(bits: u64) -> int {
    if bits < SIGN {
        bits as int
    } else {
        bits - SIGN
    }
}

/// Whether the pattern is a finite number.
pub open spec fn finite(bits: u64) -> bool {
    magnitude(bits) < INFINITY
}

/// Whether the pattern is not a number.
pub open spec fn nan(bits: u64) -> bool {
    magnitude(bits) > INFINITY
}

/// Where a number stands on the number line: numbers are ordered as their ranks
/// are, and the two zeros share rank 0.
pub open spec fn rank(bits: u64) -> int {
    if bits < SIGN {
        bits as int
    } else {
        SIGN - bits
    }
}

/// Numeric `a < b`; false where either is not a number.
pub open spec fn below(a: u64, b: u64) -> bool {
    !nan(a) && !nan(b) && rank(a) < rank(b)
}

/// Numeric `a <= b`; false where either is not a number.
pub open spec fn at_most(a: u64, b: u64) -> bool {
    !nan(a) && !nan(b) && rank(a) <= rank(b)
}

/// The larger of two numbers, or the only one that is a number.
pub open spec fn larger(a: u64, b: u64) -> u64 {
    if nan(a) || below(a, b) {
        b
    } else {
        a
    }
}

/// The smaller of two numbers, or the only one that is a number.
pub open spec fn smaller(a: u64, b: u64) -> u64 {
    if nan(a) || below(b, a) {
        b
    } else {
        a
    }
}

/// The number bounded to `low..=high`; what is not a number stays as it is.
pub open spec fn clamped(bits: u64, low: u64, high: u64) -> u64 {
    if below(bits, low) {
        low
    } else if below(high, bits) {
        high
    } else {
        bits
    }
}

/// Compute [`magnitude`].
pub fn abs(bits: u64) -> (result: u64)
    ensures
        result == magnitude(bits),
{
    if bits < SIGN {
        bits
    } else {
        bits - SIGN
    }
}

/// Decide [`finite`].
pub fn is_finite(bits: u64) -> (result: bool)
    ensures
        result == finite(bits),
{
    abs(bits) < INFINITY
}

/// Decide [`nan`].
pub fn is_nan(bits: u64) -> (result: bool)
    ensures
        result == nan(bits),
{
    abs(bits) > INFINITY
}

/// Decide [`below`].
pub fn less(a: u64, b: u64) -> (result: bool)
    ensures
        result == below(a, b),
{
    if is_nan(a) || is_nan(b) {
        false
    } else if a < SIGN {
        b < SIGN && a < b
    } else if b < SIGN {
        b != 0 || a != SIGN
    } else {
        b < a
    }
}

/// Decide [`at_most`].
pub fn less_or_equal(a: u64, b: u64) -> (result: bool)
    ensures
        result == at_most(a, b),
{
    !is_nan(a) && !is_nan(b) && !less(b, a)
}

/// Compute [`larger`].
pub fn max(a: u64, b: u64) -> (result: u64)
    ensures
        result == larger(a, b),
{
    if is_nan(a) || less(a, b) {
        b
    } else {
        a
    }
}

/// Compute [`smaller`].
pub fn min(a: u64, b: u64) -> (result: u64)
    ensures
        result == smaller(a, b),
{
    if is_nan(a) || less(b, a) {
        b
    } else {
        a
    }
}

/// Compute [`clamped`].
pub fn clamp(bits: u64, low: u64, high: u64) -> (result: u64)
    ensures
        result == clamped(bits, low, high),
{
    if less(bits, low) {
        low
    } else if less(high, bits) {
        high
    } else {
        bits
    }
}

/// A pattern is a finite number below the pattern of infinity, and not a number
/// above it, whichever its sign.
pub proof fn patterns_fall_into_three_kinds(bits: u64)
    ensures
        finite(bits) <==> bits as int % 0x8000_0000_0000_0000 < 0x7ff0_0000_0000_0000,
        nan(bits) <==> bits as int % 0x8000_0000_0000_0000 > 0x7ff0_0000_0000_0000,
        magnitude(bits) == bits as int % 0x8000_0000_0000_0000,
{
}

/// Comparing follows the number line: positive numbers stand in the order of
/// their patterns, negative ones in the opposite order and before them, the two
/// zeros at one place, and what is not a number compares with nothing.
pub proof fn comparing_follows_the_number_line(a: u64, b: u64)
    ensures
        a as int % 0x8000_0000_0000_0000 > 0x7ff0_0000_0000_0000 || b as int % 0x8000_0000_0000_0000 > 0x7ff0_0000_0000_0000 ==> !below(a, b) && !at_most(a, b),
        a <= 0x7ff0_0000_0000_0000 && b <= 0x7ff0_0000_0000_0000 ==> (below(a, b) <==> a < b),
        0x8000_0000_0000_0000 <= a && a - 0x8000_0000_0000_0000 <= 0x7ff0_0000_0000_0000 && 0x8000_0000_0000_0000 <= b && b - 0x8000_0000_0000_0000 <= 0x7ff0_0000_0000_0000 ==> (below(a, b)
            <==> b < a),
        0x8000_0000_0000_0000 <= a && a - 0x8000_0000_0000_0000 <= 0x7ff0_0000_0000_0000 && b <= 0x7ff0_0000_0000_0000 ==> (below(a, b) <==> a != 0x8000_0000_0000_0000 || b
            != 0) && !below(b, a),
        at_most(a, b) <==> !nan(a) && !nan(b) && !below(b, a),
{
}

/// The larger and the smaller of two numbers are the two numbers themselves, in
/// their order; where only one is a number it is both.
pub proof fn the_larger_and_the_smaller_are_the_two(a: u64, b: u64)
    ensures
        below(a, b) ==> larger(a, b) == b && smaller(a, b) == a,
        below(b, a) ==> larger(a, b) == a && smaller(a, b) == b,
        !nan(a) && !below(a, b) && !below(b, a) ==> larger(a, b) == a && smaller(a, b) == a,
        nan(a) ==> larger(a, b) == b && smaller(a, b) == b,
{
}

/// Bounding leaves a number inside the bounds alone, and puts any other on the
/// bound that it lies beyond.
pub proof fn bounding_moves_only_what_lies_beyond(bits: u64, low: u64, high: u64)
    requires
        at_most(low, high),
    ensures
        at_most(low, bits) && at_most(bits, high) ==> clamped(bits, low, high) == bits,
        below(bits, low) ==> clamped(bits, low, high) == low,
        below(high, bits) ==> clamped(bits, low, high) == high,
        nan(bits) ==> clamped(bits, low, high) == bits,
{
}

} // verus!
