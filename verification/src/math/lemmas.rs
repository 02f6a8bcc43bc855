//! The arithmetic that the solvers' proofs rest on.
use vstd::prelude::*;

use crate::math::curve::{
    fits_u128, floor_sqrt, invariant_denominator, invariant_numerator, is_floor_sqrt, product_term,
};

verus! {

/// What a Newton step on the invariant needs of its operands: the products
/// of two values of the working width fit the wide type, an intermediate sum
/// that overflows makes the numerator or the denominator overflow, and from a
/// positive iterate the step divides by a positive number and gives a
/// positive quotient.
pub(crate) proof fn lemma_invariant_step_bounds(x: int, y: int, ann: int, d: int)
    requires
        0 <= x <= u64::MAX,
        0 <= y <= u64::MAX,
        1 <= x + y <= u64::MAX,
        0 <= ann <= u64::MAX,
        1 <= d <= u64::MAX,
    ensures
        fits_u128(d * d),
        fits_u128(ann * (x + y)),
        ann >= 1 ==> fits_u128((ann - 1) * d),
        x >= 1 && y >= 1 ==> ({
            let d_p = product_term(x, y, d);
            let num = invariant_numerator(x + y, ann, d_p, d);
            let den = invariant_denominator(ann, d_p, d);
            &&& d_p >= 0
            &&& num >= ann * (x + y) + 2 * d_p >= 2 * d_p
            &&& ann >= 1 ==> den >= 3 * d_p
            &&& ann >= 2 ==> den >= 1 && num / den >= 1
        }),
{
    let s = x + y;
    assert(fits_u128(d * d)) by (nonlinear_arith)
        requires
            1 <= d <= u64::MAX,
    ;
    assert(fits_u128(ann * s)) by (nonlinear_arith)
        requires
            0 <= ann <= u64::MAX,
            1 <= s <= u64::MAX,
    ;
    if ann >= 1 {
        assert(fits_u128((ann - 1) * d)) by (nonlinear_arith)
            requires
                1 <= ann <= u64::MAX,
                1 <= d <= u64::MAX,
        ;
    }
    if x >= 1 && y >= 1 {
        let q = (d * d) / (2 * x);
        let d_p = product_term(x, y, d);
        let num = invariant_numerator(s, ann, d_p, d);
        let den = invariant_denominator(ann, d_p, d);
        assert(q >= 0 && (d == 1 ==> q == 0)) by (nonlinear_arith)
            requires
                q == (d * d) / (2 * x),
                x >= 1,
                d >= 1,
        ;
        assert(q * d >= 0 && (d == 1 ==> q * d == 0)) by (nonlinear_arith)
            requires
                q >= 0,
                d >= 1,
                d == 1 ==> q == 0,
        ;
        assert(d_p >= 0 && (d == 1 ==> d_p == 0)) by (nonlinear_arith)
            requires
                d_p == (q * d) / (2 * y),
                q * d >= 0,
                d == 1 ==> q * d == 0,
                y >= 1,
        ;
        let n0 = ann * s + 2 * d_p;
        assert(n0 * d >= n0) by (nonlinear_arith)
            requires
                n0 >= 0,
                d >= 1,
        ;
        if ann >= 1 {
            assert((ann - 1) * d >= 0) by (nonlinear_arith)
                requires
                    ann >= 1,
                    d >= 1,
            ;
        }
        if ann >= 2 {
            assert(den >= 1) by (nonlinear_arith)
                requires
                    den == (ann - 1) * d + 3 * d_p,
                    ann >= 2,
                    d >= 1,
                    d_p >= 0,
            ;
            assert(num >= den) by (nonlinear_arith)
                requires
                    num == (ann * s + 2 * d_p) * d,
                    den == (ann - 1) * d + 3 * d_p,
                    ann >= 2,
                    s >= 2,
                    d >= 1,
                    d_p >= 0,
                    d == 1 ==> d_p == 0,
            ;
            assert(num / den >= 1) by (nonlinear_arith)
                requires
                    num >= den,
                    den >= 1,
            ;
        }
    }
}

/// The Newton step on a square root keeps the iterate at or above the root:
/// with `q = n / x`, the midpoint `(x + q) / 2` has a successor whose square
/// exceeds `n`; and where the midpoint is no smaller than `x`, the square of
/// `x` does not exceed `n`.
pub(crate) proof fn lemma_sqrt_step(n: int, x: int)
    requires
        n >= 4,
        x >= 1,
    ensures
        n < ((x + n / x) / 2 + 1) * ((x + n / x) / 2 + 1),
        (x + n / x) / 2 >= x ==> x * x <= n,
        (x + n / x) / 2 >= 1,
{
    let q = n / x;
    let y = (x + q) / 2;
    assert(q >= 0 && q * x <= n < (q + 1) * x && (x == 1 ==> q == n)) by (nonlinear_arith)
        requires
            q == n / x,
            n >= 0,
            x >= 1,
    ;
    assert(2 * y + 1 >= x + q);
    assert(n < (y + 1) * (y + 1)) by (nonlinear_arith)
        requires
            2 * y + 1 >= x + q,
            n < (q + 1) * x,
            x >= 1,
            q >= 0,
    {
        assert((x + q + 1) * (x + q + 1) == (x - q - 1) * (x - q - 1) + 4 * ((q + 1) * x));
        assert((x - q - 1) * (x - q - 1) >= 0);
        assert((2 * y + 2) * (2 * y + 2) >= (x + q + 1) * (x + q + 1));
        assert((2 * y + 2) * (2 * y + 2) == 4 * ((y + 1) * (y + 1)));
    }
    if y >= x {
        assert(q >= x);
        assert(x * x <= n) by (nonlinear_arith)
            requires
                q >= x,
                q * x <= n,
                x >= 1,
        ;
    }
}

/// An iterate at or above the root, and no larger than half the range of the
/// wide type, can be added to its quotient within that type.
pub(crate) proof fn lemma_sqrt_sum_fits(n: int, x: int)
    requires
        0 <= n <= u128::MAX,
        1 <= x <= 0x8000_0000_0000_0000_0000_0000_0000_0000,
        n < (x + 1) * (x + 1),
    ensures
        x + n / x <= u128::MAX,
{
    let q = n / x;
    assert(q >= 0 && q * x <= n) by (nonlinear_arith)
        requires
            q == n / x,
            n >= 0,
            x >= 1,
    ;
    if x <= 0x1_0000_0000_0000_0000 {
        assert(q <= x + 2) by (nonlinear_arith)
            requires
                q * x <= n,
                n < (x + 1) * (x + 1),
                x >= 1,
                q >= 0,
        ;
    } else {
        assert(q < 0x1_0000_0000_0000_0000) by (nonlinear_arith)
            requires
                q * x <= n,
                n <= u128::MAX,
                x > 0x1_0000_0000_0000_0000,
                q >= 0,
        ;
    }
}

/// An integer has one square root.
pub proof fn lemma_floor_sqrt_unique(n: int, a: int, b: int)
    requires
        is_floor_sqrt(n, a),
        is_floor_sqrt(n, b),
    ensures
        a == b,
        floor_sqrt(n) == a,
{
    assert(a == b) by (nonlinear_arith)
        requires
            0 <= a,
            0 <= b,
            a * a <= n < (a + 1) * (a + 1),
            b * b <= n < (b + 1) * (b + 1),
    {
        if a < b {
            assert((a + 1) * (a + 1) <= b * b);
        }
        if b < a {
            assert((b + 1) * (b + 1) <= a * a);
        }
    }
    let c = floor_sqrt(n);
    assert(is_floor_sqrt(n, c));
    assert(c == a) by (nonlinear_arith)
        requires
            0 <= a,
            0 <= c,
            a * a <= n < (a + 1) * (a + 1),
            c * c <= n < (c + 1) * (c + 1),
    {
        if a < c {
            assert((a + 1) * (a + 1) <= c * c);
        }
        if c < a {
            assert((c + 1) * (c + 1) <= a * a);
        }
    }
}

/// The interpolated part of a ramp stays within the distance between its
/// endpoints.
pub(crate) proof fn lemma_ramp_part(diff: int, elapsed: int, duration: int)
    requires
        0 <= diff <= u64::MAX,
        0 < elapsed < duration,
        duration <= u64::MAX,
    ensures
        fits_u128(diff * elapsed),
        0 <= diff * elapsed / duration <= diff,
{
    assert(0 <= diff * elapsed <= diff * duration && fits_u128(diff * elapsed))
        by (nonlinear_arith)
        requires
            0 <= diff <= u64::MAX,
            0 < elapsed < duration,
            duration <= u64::MAX,
    ;
    let p = diff * elapsed;
    assert(0 <= p / duration <= diff) by (nonlinear_arith)
        requires
            0 <= p <= diff * duration,
            duration > 0,
            diff >= 0,
    ;
}

} // verus!
