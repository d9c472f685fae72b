//! Single-precision numbers held as their IEEE 754 bit patterns.
//!
//! A pattern is a sign bit over a 31-bit magnitude. Magnitudes below
//! [`INFINITY`] are finite numbers in increasing order, the one equal to it is
//! infinity, and those above it are not numbers. Comparing, bounding and
//! clamping therefore need no arithmetic on the numbers themselves.
use vstd::prelude::*;

verus! {

/// The sign bit.
pub const SIGN: u32 = 0x8000_0000;

/// Positive infinity.
pub const INFINITY: u32 = 0x7f80_0000;

/// The largest finite number.
pub const LARGEST: u32 = 0x7f7f_ffff;

/// The difference between 1.0 and the next larger number.
pub const EPSILON: u32 = 0x3400_0000;

/// 0.0
pub const ZERO: u32 = 0;

/// 0.5
pub const HALF: u32 = 0x3f00_0000;

/// 1.0
pub const ONE: u32 = 0x3f80_0000;

/// The pattern without its sign bit.
pub open spec fn magnitude(bits: u32) -> int {
    if bits < SIGN {
        bits as int
    } else {
        bits - SIGN
    }
}

/// Whether the pattern is a finite number.
pub open spec fn finite(bits: u32) -> bool {
    magnitude(bits) < INFINITY
}

/// Whether the pattern is not a number.
pub open spec fn nan(bits: u32) -> bool {
    magnitude(bits) > INFINITY
}

/// Where a number stands on the number line: numbers are ordered as their ranks
/// are, and the two zeros share rank 0.
pub open spec fn rank(bits: u32) -> int {
    if bits < SIGN {
        bits as int
    } else {
        SIGN - bits
    }
}

/// Numeric `a < b`; false where either is not a number.
pub open spec fn below(a: u32, b: u32) -> bool {
    !nan(a) && !nan(b) && rank(a) < rank(b)
}

/// Numeric `a <= b`; false where either is not a number.
pub open spec fn at_most(a: u32, b: u32) -> bool {
    !nan(a) && !nan(b) && rank(a) <= rank(b)
}

/// A finite number that is not negative; its order is that of the integers.
pub open spec fn is_level(bits: u32) -> bool {
    bits < INFINITY
}

/// The absolute value.
pub open spec fn absolute(bits: u32) -> u32 {
    magnitude(bits) as u32
}

/// The larger of two numbers, or the only one that is a number.
pub open spec fn larger(a: u32, b: u32) -> u32 {
    if nan(a) || below(a, b) {
        b
    } else {
        a
    }
}

/// The smaller of two numbers, or the only one that is a number.
pub open spec fn smaller(a: u32, b: u32) -> u32 {
    if nan(a) || below(b, a) {
        b
    } else {
        a
    }
}

/// The number bounded to `low..=high`; what is not a number stays as it is.
pub open spec fn clamped(bits: u32, low: u32, high: u32) -> u32 {
    if below(bits, low) {
        low
    } else if below(high, bits) {
        high
    } else {
        bits
    }
}

/// The number bounded to `low..=high`, or `fallback` where it is not finite.
pub open spec fn sanitized(bits: u32, low: u32, high: u32, fallback: u32) -> u32 {
    if finite(bits) {
        clamped(bits, low, high)
    } else {
        fallback
    }
}

/// 1.0 for `true`, 0.0 for `false`.
pub open spec fn flag(on: bool) -> u32 {
    if on {
        ONE
    } else {
        ZERO
    }
}

/// Whether a value switches a flag on: finite and at least 0.5.
pub open spec fn switches_on(bits: u32) -> bool {
    finite(bits) && at_most(HALF, bits)
}

/// Compute [`magnitude`].
pub fn abs(bits: u32) -> (result: u32)
    ensures
        result == absolute(bits),
        result == magnitude(bits),
{
    if bits < SIGN {
        bits
    } else {
        bits - SIGN
    }
}

/// Decide [`finite`].
pub fn is_finite(bits: u32) -> (result: bool)
    ensures
        result == finite(bits),
{
    abs(bits) < INFINITY
}

/// Decide [`nan`].
pub fn is_nan(bits: u32) -> (result: bool)
    ensures
        result == nan(bits),
{
    abs(bits) > INFINITY
}

/// Decide [`below`].
pub fn less(a: u32, b: u32) -> (result: bool)
    ensures
        result == below(a, b),
{
    if is_nan(a) || is_nan(b) {
        false
    } else if a < SIGN {
        b < SIGN && a < b
    } else if b < SIGN {
        b != 0 || a != SIGN
    } else {
        b < a
    }
}

/// Decide [`at_most`].
pub fn less_or_equal(a: u32, b: u32) -> (result: bool)
    ensures
        result == at_most(a, b),
{
    !is_nan(a) && !is_nan(b) && !less(b, a)
}

/// Compute [`larger`].
pub fn max(a: u32, b: u32) -> (result: u32)
    ensures
        result == larger(a, b),
{
    if is_nan(a) || less(a, b) {
        b
    } else {
        a
    }
}

/// Compute [`smaller`].
pub fn min(a: u32, b: u32) -> (result: u32)
    ensures
        result == smaller(a, b),
{
    if is_nan(a) || less(b, a) {
        b
    } else {
        a
    }
}

/// Compute [`clamped`].
pub fn clamp(bits: u32, low: u32, high: u32) -> (result: u32)
    ensures
        result == clamped(bits, low, high),
{
    if less(bits, low) {
        low
    } else if less(high, bits) {
        high
    } else {
        bits
    }
}

/// Compute [`sanitized`].
pub fn sanitize(bits: u32, low: u32, high: u32, fallback: u32) -> (result: u32)
    ensures
        result == sanitized(bits, low, high, fallback),
{
    if is_finite(bits) {
        clamp(bits, low, high)
    } else {
        fallback
    }
}

/// Replace what is not finite by 0.0.
pub fn finite_or_zero(bits: u32) -> (result: u32)
    ensures
        result == (if finite(bits) {
            bits
        } else {
            ZERO
        }),
{
    if is_finite(bits) {
        bits
    } else {
        ZERO
    }
}

/// Compute [`flag`].
pub fn from_bool(on: bool) -> (result: u32)
    ensures
        result == flag(on),
{
    if on {
        ONE
    } else {
        ZERO
    }
}

/// Decide [`switches_on`].
pub fn to_bool(bits: u32) -> (result: bool)
    ensures
        result == switches_on(bits),
{
    is_finite(bits) && less_or_equal(HALF, bits)
}

/// Sanitizing brings every pattern into the range, and changes nothing the
/// second time.
pub proof fn sanitizing_settles(bits: u32, low: u32, high: u32, fallback: u32)
    requires
        finite(low),
        finite(high),
        at_most(low, high),
        at_most(low, fallback),
        at_most(fallback, high),
    ensures
        finite(sanitized(bits, low, high, fallback)),
        at_most(low, sanitized(bits, low, high, fallback)),
        at_most(sanitized(bits, low, high, fallback), high),
        sanitized(sanitized(bits, low, high, fallback), low, high, fallback) == sanitized(
            bits,
            low,
            high,
            fallback,
        ),
{
}

/// A flag written as a number reads back as the same flag.
pub proof fn flags_read_back(on: bool)
    ensures
        switches_on(flag(on)) == on,
{
}

/// A pattern is a finite number below the pattern of infinity, and not a number
/// above it, whichever its sign.
pub proof fn patterns_fall_into_three_kinds(bits: u32)
    ensures
        finite(bits) <==> bits as int % 0x8000_0000 < 0x7f80_0000,
        nan(bits) <==> bits as int % 0x8000_0000 > 0x7f80_0000,
        magnitude(bits) == bits as int % 0x8000_0000,
{
}

/// Comparing follows the number line: positive numbers stand in the order of
/// their patterns, negative ones in the opposite order and before them, the two
/// zeros at one place, and what is not a number compares with nothing.
pub proof fn comparing_follows_the_number_line(a: u32, b: u32)
    ensures
        a as int % 0x8000_0000 > 0x7f80_0000 || b as int % 0x8000_0000 > 0x7f80_0000 ==> !below(a, b) && !at_most(a, b),
        a <= 0x7f80_0000 && b <= 0x7f80_0000 ==> (below(a, b) <==> a < b),
        0x8000_0000 <= a && a - 0x8000_0000 <= 0x7f80_0000 && 0x8000_0000 <= b && b - 0x8000_0000 <= 0x7f80_0000 ==> (below(a, b)
            <==> b < a),
        0x8000_0000 <= a && a - 0x8000_0000 <= 0x7f80_0000 && b <= 0x7f80_0000 ==> (below(a, b) <==> a != 0x8000_0000 || b
            != 0) && !below(b, a),
        at_most(a, b) <==> !nan(a) && !nan(b) && !below(b, a),
{
}

/// The larger and the smaller of two numbers are the two numbers themselves, in
/// their order; where only one is a number it is both.
pub proof fn the_larger_and_the_smaller_are_the_two(a: u32, b: u32)
    ensures
        below(a, b) ==> larger(a, b) == b && smaller(a, b) == a,
        below(b, a) ==> larger(a, b) == a && smaller(a, b) == b,
        !nan(a) && !below(a, b) && !below(b, a) ==> larger(a, b) == a && smaller(a, b) == a,
        nan(a) ==> larger(a, b) == b && smaller(a, b) == b,
{
}

/// Bounding leaves a number inside the bounds alone, and puts any other on the
/// bound that it lies beyond.
pub proof fn bounding_moves_only_what_lies_beyond(bits: u32, low: u32, high: u32)
    requires
        at_most(low, high),
    ensures
        at_most(low, bits) && at_most(bits, high) ==> clamped(bits, low, high) == bits,
        below(bits, low) ==> clamped(bits, low, high) == low,
        below(high, bits) ==> clamped(bits, low, high) == high,
        nan(bits) ==> clamped(bits, low, high) == bits,
{
}

/// Sanitizing leaves a number inside the bounds alone, puts any other finite one
/// on the bound that it lies beyond, and falls back for the rest.
pub proof fn sanitizing_bounds_or_falls_back(bits: u32, low: u32, high: u32, fallback: u32)
    requires
        finite(low),
        finite(high),
        at_most(low, high),
    ensures
        at_most(low, bits) && at_most(bits, high) ==> sanitized(bits, low, high, fallback) == bits,
        finite(bits) && below(bits, low) ==> sanitized(bits, low, high, fallback) == low,
        finite(bits) && below(high, bits) ==> sanitized(bits, low, high, fallback) == high,
        !finite(bits) ==> sanitized(bits, low, high, fallback) == fallback,
{
}

/// A flag is written as 1.0 or 0.0, and every finite number from 0.5 on reads as
/// on; levels and absolute values are patterns without a sign.
pub proof fn flags_switch_at_one_half(bits: u32, on: bool)
    ensures
        switches_on(bits) <==> 0x3f00_0000 <= bits < 0x7f80_0000,
        flag(on) == (if on {
            0x3f80_0000u32
        } else {
            0u32
        }),
        is_level(bits) <==> bits < 0x7f80_0000,
        absolute(bits) as int == bits as int % 0x8000_0000,
{
}

} // verus!
