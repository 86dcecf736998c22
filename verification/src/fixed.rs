//! Small exact-arithmetic helpers for the fixed-point quantities the library
//! works in: saturating addition, and multiplication followed by a scaling
//! division, stated over truncated (round-toward-zero) division.

use vstd::prelude::*;

verus! {

/// Truncated division (round toward zero), for a positive divisor.
/// Ghost `/` is Euclidean; executable Rust `/` truncates, so contracts about
/// executable arithmetic are stated with this function.
pub open spec fn tdiv(x: int, d: int) -> int
    recommends
        d > 0,
{
    if x >= 0 {
        x / d
    } else {
        -((-x) / d)
    }
}

/// `x` clamped to the closed interval `[lo, hi]`.
pub open spec fn clamp_i(x: int, lo: int, hi: int) -> int
    recommends
        lo <= hi,
{
    if x < lo {
        lo
    } else if x > hi {
        hi
    } else {
        x
    }
}

/// `x + y` brought back into `i64` range by saturation.
pub open spec fn sat_i64(x: int) -> int {
    clamp_i(x, i64::MIN as int, i64::MAX as int)
}

/// Saturating `i64` addition.
pub fn sat_add(a: i64, b: i64) -> (r: i64)
    ensures
        r as int == sat_i64(a + b),
{
    if b >= 0 {
        if a <= i64::MAX - b {
            a + b
        } else {
            i64::MAX
        }
    } else {
        if a >= i64::MIN - b {
            a + b
        } else {
            i64::MIN
        }
    }
}

/// The magnitude of `a` as a `u128`.
fn abs_u128(a: i64) -> (m: u128)
    ensures
        m as int == if a >= 0 { a as int } else { -(a as int) },
{
    if a >= 0 {
        a as u128
    } else {
        (-(a as i128)) as u128
    }
}

proof fn lemma_abs_mul(a: int, b: int)
    ensures
        (if a * b >= 0 { a * b } else { -(a * b) }) == (if a >= 0 { a } else { -a }) * (if b >= 0 { b } else { -b }),
{
    assert((if a * b >= 0 { a * b } else { -(a * b) }) == (if a >= 0 { a } else { -a }) * (if b >= 0 { b } else { -b })) by (nonlinear_arith);
}

/// For nonnegative `x` and `-(c * d) <= y <= c * d`, the scaled product
/// `x * y / d` lies within `[-(c * x), c * x]`. This is how callers of
/// `mul_div` discharge its range obligation.
pub proof fn lemma_tdiv_mul_bound(x: int, y: int, d: int, c: int)
    requires
        d > 0,
        0 <= x,
        0 <= c,
        -(c * d) <= y <= c * d,
    ensures
        -(c * x) <= tdiv(x * y, d) <= c * x,
{
    assert(0 <= c * x) by (nonlinear_arith)
        requires
            0 <= c,
            0 <= x,
    ;
    if x * y >= 0 {
        assert(x * y <= (c * x) * d) by (nonlinear_arith)
            requires
                0 <= x,
                y <= c * d,
        ;
        vstd::arithmetic::div_mod::lemma_div_is_ordered(x * y, (c * x) * d, d);
        vstd::arithmetic::div_mod::lemma_div_by_multiple(c * x, d);
        vstd::arithmetic::div_mod::lemma_div_pos_is_pos(x * y, d);
    } else {
        assert(-(x * y) <= (c * x) * d) by (nonlinear_arith)
            requires
                0 <= x,
                -(c * d) <= y,
        ;
        vstd::arithmetic::div_mod::lemma_div_is_ordered(-(x * y), (c * x) * d, d);
        vstd::arithmetic::div_mod::lemma_div_by_multiple(c * x, d);
        vstd::arithmetic::div_mod::lemma_div_pos_is_pos(-(x * y), d);
    }
}

/// `a * b / d` with an exact (truncated-division) contract; the product is
/// formed in 128 bits, so it never overflows on the way.
pub fn mul_div(a: i64, b: i64, d: i64) -> (r: i64)
    requires
        d > 0,
        i64::MIN as int <= tdiv(a as int * b as int, d as int) <= i64::MAX as int,
    ensures
        r as int == tdiv(a as int * b as int, d as int),
{
    let an = abs_u128(a);
    let bn = abs_u128(b);
    proof {
        lemma_abs_mul(a as int, b as int);
        assert(an <= 0x8000_0000_0000_0000u128);
        assert(bn <= 0x8000_0000_0000_0000u128);
        assert(an * bn <= 0x8000_0000_0000_0000u128 * 0x8000_0000_0000_0000u128)
            by (nonlinear_arith)
            requires
                an <= 0x8000_0000_0000_0000u128,
                bn <= 0x8000_0000_0000_0000u128,
        ;
    }
    let m: u128 = (an * bn) / (d as u128);
    let neg = (a < 0) != (b < 0);
    proof {
        let p = a as int * b as int;
        if neg {
            assert(p <= 0) by (nonlinear_arith)
                requires
                    (a < 0) != (b < 0),
                    p == a as int * b as int,
            ;
            assert(m as int == -tdiv(p, d as int));
        } else {
            assert(p >= 0) by (nonlinear_arith)
                requires
                    (a >= 0) == (b >= 0),
                    p == a as int * b as int,
            ;
            assert(m as int == tdiv(p, d as int));
        }
    }
    if neg {
        (-(m as i128)) as i64
    } else {
        m as i64
    }
}

} // verus!
