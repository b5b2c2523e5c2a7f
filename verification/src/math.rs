//! Executable arithmetic helpers: divisions that truncate toward zero,
//! clamping, and widening multiplications whose intermediate results are
//! proved to fit their machine types.

use vstd::prelude::*;

use crate::model::{clamp, div_trunc};

verus! {

/// Quotient of a nonnegative dividend by a positive divisor.  Truncating
/// and flooring division agree here, so the result is the mathematical
/// `a / b`.
pub fn div_nn(a: i64, b: i64) -> (r: i64)
    requires
        0 <= a,
        0 < b,
    ensures
        r == a as int / b as int,
        0 <= r <= a,
{
    proof {
        vstd::arithmetic::div_mod::lemma_div_pos_is_pos(a as int, b as int);
        vstd::arithmetic::div_mod::lemma_div_nonincreasing(a as int, b as int);
    }
    ((a as u64) / (b as u64)) as i64
}

/// Quotient of a nonnegative dividend by a positive divisor, on `i128`.
pub fn div_nn_128(a: i128, b: i128) -> (r: i128)
    requires
        0 <= a,
        0 < b,
    ensures
        r == a as int / b as int,
        0 <= r <= a,
{
    proof {
        vstd::arithmetic::div_mod::lemma_div_pos_is_pos(a as int, b as int);
        vstd::arithmetic::div_mod::lemma_div_nonincreasing(a as int, b as int);
    }
    ((a as u128) / (b as u128)) as i128
}

/// Division truncating toward zero, as Rust's `/` rounds: the quotient of
/// the magnitudes, with the dividend's sign.
pub fn div_trunc_128(a: i128, b: i128) -> (r: i128)
    requires
        i128::MIN < a,
        0 < b,
    ensures
        r == div_trunc(a as int, b as int),
        0 <= a ==> 0 <= r <= a,
        a < 0 ==> a <= r <= 0,
{
    if a >= 0 {
        div_nn_128(a, b)
    } else {
        -div_nn_128(-a, b)
    }
}

/// The value `v` pulled into the interval `[lo, hi]`.
pub fn clamp_i64(v: i64, lo: i64, hi: i64) -> (r: i64)
    requires
        lo <= hi,
    ensures
        r == clamp(v as int, lo as int, hi as int),
{
    if v < lo {
        lo
    } else if v > hi {
        hi
    } else {
        v
    }
}

/// Product of two `i64` values, widened so that it cannot overflow.
pub fn mul_wide(a: i64, b: i64) -> (r: i128)
    ensures
        r == a as int * b as int,
{
    proof {
        assert((a as int) * (b as int) <= 0x40000000000000000000000000000000
            && -0x40000000000000000000000000000000 <= (a as int) * (b as int))
            by (nonlinear_arith)
            requires
                -0x8000000000000000 <= a as int <= 0x7fffffffffffffff,
                -0x8000000000000000 <= b as int <= 0x7fffffffffffffff,
        ;
    }
    (a as i128) * (b as i128)
}

/// Product of two `i128` values of magnitude at most 2^62, which fits.
pub fn mul_wide_128(a: i128, b: i128) -> (r: i128)
    requires
        -0x4000000000000000 <= a <= 0x4000000000000000,
        -0x4000000000000000 <= b <= 0x4000000000000000,
    ensures
        r == a as int * b as int,
{
    proof {
        assert((a as int) * (b as int) <= 0x10000000000000000000000000000000
            && -0x10000000000000000000000000000000 <= (a as int) * (b as int))
            by (nonlinear_arith)
            requires
                -0x4000000000000000 <= a as int <= 0x4000000000000000,
                -0x4000000000000000 <= b as int <= 0x4000000000000000,
        ;
    }
    a * b
}

/// An `i128` value already known to be in `i64` range, narrowed.
pub fn narrow(a: i128) -> (r: i64)
    requires
        i64::MIN <= a <= i64::MAX,
    ensures
        r as int == a as int,
{
    a as i64
}

} // verus!
