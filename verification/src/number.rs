//! Double-precision numbers as the optimizer stores them: each one is held as
//! the 64 bits of its IEEE 754 binary64 encoding, in a `u64`.
//!
//! The library never computes with these numbers. It orders them, flips or
//! clears their sign, and moves them from place to place; all of that is defined
//! by the encoding alone. Sums and products are the caller's business.

use vstd::prelude::*;

verus! {

/// The sign bit of the encoding.
pub const SIGN_BIT: u64 = 0x8000_0000_0000_0000;

/// Positive infinity.
pub const INFINITY: u64 = 0x7FF0_0000_0000_0000;

/// Positive zero.
pub const ZERO: u64 = 0;

/// One.
pub const ONE: u64 = 0x3FF0_0000_0000_0000;

/// The encoding without its sign bit: exponent and fraction read as one integer.
pub open spec fn magnitude(x: u64) -> int {
    if x >= SIGN_BIT {
        x - SIGN_BIT
    } else {
        x as int
    }
}

/// Whether the sign bit is set.
pub open spec fn is_negative(x: u64) -> bool {
    x >= SIGN_BIT
}

/// Whether `x` encodes no number at all (a NaN): an all-ones exponent with a
/// fraction that is not zero.
pub open spec fn is_nan(x: u64) -> bool {
    magnitude(x) > INFINITY
}

/// Whether `x` encodes a number that is neither a NaN nor an infinity.
pub open spec fn is_finite(x: u64) -> bool {
    magnitude(x) < INFINITY
}

/// Where `x` stands on the number line, as an integer that grows with the
/// number encoded. Both zeros stand at 0. Meaningful for every `x` that is not a
/// NaN.
pub open spec fn rank(x: u64) -> int {
    if x >= SIGN_BIT {
        -(x - SIGN_BIT)
    } else {
        x as int
    }
}

/// The IEEE 754 comparison `a < b`: false whenever either side is a NaN.
pub open spec fn lt(a: u64, b: u64) -> bool {
    !is_nan(a) && !is_nan(b) && rank(a) < rank(b)
}

/// The IEEE 754 comparison `a == b`: false whenever either side is a NaN, true
/// of the two zeros.
pub open spec fn same(a: u64, b: u64) -> bool {
    !is_nan(a) && !is_nan(b) && rank(a) == rank(b)
}

/// `x` with its sign bit flipped: the number times minus one.
pub open spec fn negated(x: u64) -> u64 {
    if x >= SIGN_BIT {
        (x - SIGN_BIT) as u64
    } else {
        (x + SIGN_BIT) as u64
    }
}

/// `x` with its sign bit cleared: the absolute value.
pub open spec fn absolute(x: u64) -> u64 {
    if x >= SIGN_BIT {
        (x - SIGN_BIT) as u64
    } else {
        x
    }
}

/// Tells whether `x` is a NaN.
pub fn is_not_a_number(x: u64) -> (r: bool)
    ensures
        r == is_nan(x),
{
    let m: u64 = if x >= SIGN_BIT { x - SIGN_BIT } else { x };
    m > INFINITY
}

/// Tells whether `x` is a number other than the infinities.
pub fn is_finite_number(x: u64) -> (r: bool)
    ensures
        r == is_finite(x),
{
    let m: u64 = if x >= SIGN_BIT { x - SIGN_BIT } else { x };
    m < INFINITY
}

/// Compares two numbers as IEEE 754 does with `<`.
pub fn less_than(a: u64, b: u64) -> (r: bool)
    ensures
        r == lt(a, b),
{
    if is_not_a_number(a) || is_not_a_number(b) {
        return false;
    }
    let a_neg = a >= SIGN_BIT;
    let b_neg = b >= SIGN_BIT;
    if a_neg {
        let ma: u64 = a - SIGN_BIT;
        if b_neg {
            let mb: u64 = b - SIGN_BIT;
            ma > mb
        } else {
            ma > 0 || b > 0
        }
    } else {
        if b_neg {
            false
        } else {
            a < b
        }
    }
}

/// Compares two numbers as IEEE 754 does with `==`.
pub fn equal_to(a: u64, b: u64) -> (r: bool)
    ensures
        r == same(a, b),
{
    if is_not_a_number(a) || is_not_a_number(b) {
        return false;
    }
    let ma: u64 = if a >= SIGN_BIT { a - SIGN_BIT } else { a };
    let mb: u64 = if b >= SIGN_BIT { b - SIGN_BIT } else { b };
    if ma == 0 && mb == 0 {
        true
    } else {
        a == b
    }
}

/// Flips the sign of `x`.
pub fn negate(x: u64) -> (r: u64)
    ensures
        r == negated(x),
        is_nan(r) == is_nan(x),
        !is_nan(x) ==> rank(r) == -rank(x),
{
    if x >= SIGN_BIT {
        x - SIGN_BIT
    } else {
        x + SIGN_BIT
    }
}

/// Takes the absolute value of `x`.
pub fn abs(x: u64) -> (r: u64)
    ensures
        r == absolute(x),
        !is_negative(r),
        is_nan(r) == is_nan(x),
        !is_nan(x) ==> rank(r) == (if rank(x) < 0 { -rank(x) } else { rank(x) }),
{
    if x >= SIGN_BIT {
        x - SIGN_BIT
    } else {
        x
    }
}

/// Among numbers, `<` is a strict total order up to `==`: exactly one of
/// `a < b`, `a == b`, `b < a` holds.
pub proof fn order_is_total(a: u64, b: u64)
    requires
        !is_nan(a),
        !is_nan(b),
    ensures
        lt(a, b) || same(a, b) || lt(b, a),
        !(lt(a, b) && lt(b, a)),
        !(lt(a, b) && same(a, b)),
{
}

/// `<` is transitive.
pub proof fn order_is_transitive(a: u64, b: u64, c: u64)
    requires
        lt(a, b),
        lt(b, c),
    ensures
        lt(a, c),
{
}

} // verus!
