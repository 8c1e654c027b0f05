//! IEEE-754 binary64 values by their bit patterns: named constants and the
//! comparisons, which need no arithmetic.

use vstd::prelude::*;

verus! {

/// Positive zero.
pub const ZERO: u64 = 0;

/// The number one.
pub const ONE: u64 = 0x3FF0_0000_0000_0000;

/// The number two.
pub const TWO: u64 = 0x4000_0000_0000_0000;

/// The number ten.
pub const TEN: u64 = 0x4024_0000_0000_0000;

/// The binary64 value nearest to the circle constant.
pub const PI: u64 = 0x4009_21FB_5444_2D18;

/// The binary64 value nearest to the square root of two.
pub const SQRT_2: u64 = 0x3FF6_A09E_667F_3BCD;

/// The sign bit; a pattern at or above it has the sign set.
pub const SIGN: u64 = 0x8000_0000_0000_0000;

/// Positive infinity; a magnitude above it is not a number.
pub const INFINITY: u64 = 0x7FF0_0000_0000_0000;

/// The pattern without its sign bit.
pub open spec fn magnitude(b: u64) -> int {
    if b >= SIGN {
        b - SIGN
    } else {
        b as int
    }
}

/// Whether the pattern has its sign bit set.
pub open spec fn sign_set(b: u64) -> bool {
    b >= SIGN
}

/// Whether the pattern is not a number.
pub open spec fn is_nan(b: u64) -> bool {
    magnitude(b) > INFINITY
}

/// Whether the pattern is one of the two zeros.
pub open spec fn is_zero(b: u64) -> bool {
    magnitude(b) == 0
}

/// The place of a number on the line of all binary64 numbers: the magnitude,
/// negated where the sign is set. Both zeros stand at 0.
pub open spec fn ordinal(b: u64) -> int {
    if sign_set(b) {
        -magnitude(b)
    } else {
        magnitude(b)
    }
}

/// The IEEE-754 relation `a < b`: false where either side is not a number.
pub open spec fn less(a: u64, b: u64) -> bool {
    !is_nan(a) && !is_nan(b) && ordinal(a) < ordinal(b)
}

/// The IEEE-754 relation `a == b`: false where either side is not a number,
/// true of the two zeros.
pub open spec fn equal(a: u64, b: u64) -> bool {
    !is_nan(a) && !is_nan(b) && ordinal(a) == ordinal(b)
}

fn magnitude_of(b: u64) -> (m: u64)
    ensures
        m == magnitude(b),
        m < SIGN,
{
    if b >= SIGN {
        b - SIGN
    } else {
        b
    }
}

/// Decides whether the pattern is not a number.
pub fn nan(b: u64) -> (r: bool)
    ensures
        r == is_nan(b),
{
    magnitude_of(b) > INFINITY
}

/// Decides whether the pattern is positive or negative zero.
pub fn zero(b: u64) -> (r: bool)
    ensures
        r == is_zero(b),
        r == equal(b, ZERO),
{
    magnitude_of(b) == 0
}

/// Decides `a < b` as IEEE-754 orders the two numbers.
pub fn lt(a: u64, b: u64) -> (r: bool)
    ensures
        r == less(a, b),
{
    let ma: u64 = magnitude_of(a);
    let mb: u64 = magnitude_of(b);
    if ma > INFINITY || mb > INFINITY {
        false
    } else if a >= SIGN {
        if b >= SIGN {
            ma > mb
        } else {
            ma != 0 || mb != 0
        }
    } else {
        b < SIGN && ma < mb
    }
}

/// Decides `a == b` as IEEE-754 compares the two numbers.
pub fn eq(a: u64, b: u64) -> (r: bool)
    ensures
        r == equal(a, b),
{
    let ma: u64 = magnitude_of(a);
    let mb: u64 = magnitude_of(b);
    if ma > INFINITY || mb > INFINITY {
        false
    } else if ma == 0 {
        mb == 0
    } else {
        a == b
    }
}

/// Equal numbers are not ordered, and no two numbers are ordered both ways.
pub proof fn lemma_less_is_strict(a: u64, b: u64)
    ensures
        less(a, b) ==> !less(b, a) && !equal(a, b),
        !is_nan(a) && !is_nan(b) ==> less(a, b) || equal(a, b) || less(b, a),
{
}

/// A number that is not a number compares false with everything, itself
/// included.
pub proof fn lemma_nan_is_unordered(a: u64, b: u64)
    requires
        is_nan(a),
    ensures
        !less(a, b),
        !less(b, a),
        !equal(a, b),
        !equal(a, a),
{
}

} // verus!
