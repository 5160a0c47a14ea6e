//! Integer division with the two rounding rules that the layout uses:
//! towards zero, and to the nearest integer with ties away from zero.

use vstd::prelude::*;

verus! {

/// `p / d` rounded towards zero, for a positive divisor.
pub open spec fn div_toward_zero(p: int, d: int) -> int
    recommends
        d > 0,
{
    if p >= 0 {
        p / d
    } else {
        -((-p) / d)
    }
}

/// `p / d` rounded to the nearest integer, a tie going away from zero, for
/// a positive divisor.
pub open spec fn div_nearest(p: int, d: int) -> int
    recommends
        d > 0,
{
    if p >= 0 {
        (2 * p + d) / (2 * d)
    } else {
        -((2 * (-p) + d) / (2 * d))
    }
}

/// `v` moved to the nearest value that an `i32` can hold.
pub open spec fn saturate_i32(v: int) -> int {
    if v < i32::MIN {
        i32::MIN as int
    } else if v > i32::MAX {
        i32::MAX as int
    } else {
        v
    }
}

/// Whether an `i32` can hold `v`.
pub open spec fn fits_i32(v: int) -> bool {
    i32::MIN <= v <= i32::MAX
}

/// Rounding towards zero keeps the sign and never overshoots: the quotient
/// `q` is the integer of largest magnitude with `d * |q| <= |p|`.
pub proof fn lemma_div_toward_zero(p: int, d: int)
    requires
        d > 0,
    ensures
        p >= 0 ==> 0 <= d * div_toward_zero(p, d) <= p < d * div_toward_zero(p, d) + d,
        p <= 0 ==> 0 >= d * div_toward_zero(p, d) >= p > d * div_toward_zero(p, d) - d,
        div_toward_zero(-p, d) == -div_toward_zero(p, d),
{
    let a = if p >= 0 { p } else { -p };
    vstd::arithmetic::div_mod::lemma_fundamental_div_mod(a, d);
    vstd::arithmetic::div_mod::lemma_mod_bound(a, d);
    vstd::arithmetic::div_mod::lemma_div_pos_is_pos(a, d);
    assert(d * (a / d) >= 0) by (nonlinear_arith)
        requires
            d > 0,
            a / d >= 0,
    ;
    assert(d * (-(a / d)) == -(d * (a / d))) by (nonlinear_arith);
}

/// Rounding to nearest lands within half a unit of the exact quotient, and
/// an exact half is rounded away from zero: `q` is the integer with
/// `2 * d * |q| - d <= 2 * |p| < 2 * d * |q| + d`.
pub proof fn lemma_div_nearest(p: int, d: int)
    requires
        d > 0,
    ensures
        p >= 0 ==> div_nearest(p, d) >= 0,
        p >= 0 ==> 2 * d * div_nearest(p, d) - d <= 2 * p < 2 * d * div_nearest(p, d) + d,
        p <= 0 ==> div_nearest(p, d) <= 0,
        p <= 0 ==> 2 * d * div_nearest(p, d) + d >= 2 * p > 2 * d * div_nearest(p, d) - d,
        div_nearest(-p, d) == -div_nearest(p, d),
{
    let a = if p >= 0 { p } else { -p };
    let n = 2 * a + d;
    let m = 2 * d;
    vstd::arithmetic::div_mod::lemma_fundamental_div_mod(n, m);
    vstd::arithmetic::div_mod::lemma_mod_bound(n, m);
    vstd::arithmetic::div_mod::lemma_div_pos_is_pos(n, m);
    let q = n / m;
    assert(m * q == 2 * d * q) by (nonlinear_arith)
        requires
            m == 2 * d,
    ;
    assert(2 * d * (-q) == -(2 * d * q)) by (nonlinear_arith);
    if p == 0 {
        assert(q == 0) by (nonlinear_arith)
            requires
                d > 0,
                q >= 0,
                2 * d * q <= d,
        ;
    }
}

/// A quotient rounded to nearest is no larger in magnitude than the
/// dividend when the divisor is at least one.
pub proof fn lemma_div_nearest_bounded(p: int, d: int)
    requires
        d > 0,
    ensures
        p >= 0 ==> 0 <= div_nearest(p, d) <= p,
        p <= 0 ==> p <= div_nearest(p, d) <= 0,
{
    lemma_div_nearest(p, d);
    let q = div_nearest(p, d);
    if p >= 0 {
        if q > p {
            assert(2 * d * q - d >= 2 * d * (p + 1) - d) by (nonlinear_arith)
                requires
                    d > 0,
                    q >= p + 1,
            ;
            assert(2 * d * (p + 1) - d > 2 * p) by (nonlinear_arith)
                requires
                    d >= 1,
                    p >= 0,
            ;
        }
    } else {
        if q < p {
            assert(2 * d * q + d <= 2 * d * (p - 1) + d) by (nonlinear_arith)
                requires
                    d > 0,
                    q <= p - 1,
            ;
            assert(2 * d * (p - 1) + d < 2 * p) by (nonlinear_arith)
                requires
                    d >= 1,
                    p <= 0,
            ;
        }
    }
}

} // verus!
