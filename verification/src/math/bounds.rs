//! Where the invariant lies: at most the sum of the balances, less than one
//! unit below the root of the curve equation, and at zero for the empty pool
//! only.
use vstd::prelude::*;

use crate::constants::NEWTON_ITERATIONS;
use crate::math::curve::{
    invariant_denominator, invariant_from, invariant_numerator, invariant_of, invariant_step,
    invariant_within, product_term, settled, MathError,
};
use crate::math::lemmas::lemma_invariant_step_bounds;

verus! {

/// The left side less the right side of the curve equation at `z`, cleared
/// of its denominator `4xy`: `z^3 + (ann - 1) * 4xy * z - ann * (x + y) * 4xy`.
/// It rises with `z` and is zero at the invariant that the equation defines,
/// so it is positive exactly where `z` lies above that invariant.
pub open spec fn curve_residual(x: int, y: int, ann: int, z: int) -> int {
    z * z * z + (ann - 1) * (4 * (x * y)) * z - ann * (x + y) * (4 * (x * y))
}

/// A Newton step lands above the root. With `pp` for `4xy`, `a` for `ann` and
/// `s` for `x + y`: where `z` times the denominator of the step from `d`
/// exceeds its numerator, and the product term `p` is no more than `d^3 / pp`,
/// the residual at `z` is positive.
proof fn lemma_step_above_root(pp: int, a: int, s: int, d: int, p: int, z: int)
    requires
        pp >= 1,
        a >= 1,
        s >= 1,
        d >= 1,
        p >= 0,
        p * pp <= d * d * d,
        z >= 0,
        z * ((a - 1) * d + 3 * p) > (a * s + 2 * p) * d,
    ensures
        z * z * z + (a - 1) * pp * z - a * s * pp > 0,
{
    let w = p * pp;
    let d3 = d * d * d;
    let z3 = z * z * z;
    let k = (a - 1) * pp * z;
    let m = a * s * pp;
    // The hypothesis, multiplied through by pp.
    let lhs = z * ((a - 1) * d + 3 * p);
    let rhs = (a * s + 2 * p) * d;
    assert(lhs * pp > rhs * pp) by (nonlinear_arith)
        requires
            lhs > rhs,
            pp >= 1,
    ;
    let am = a - 1;
    let zu = z * (am * d);
    let zp = z * p;
    assert(lhs == zu + 3 * zp) by (nonlinear_arith)
        requires
            lhs == z * (am * d + 3 * p),
            zu == z * (am * d),
            zp == z * p,
    ;
    assert(lhs * pp == zu * pp + 3 * (zp * pp)) by (nonlinear_arith)
        requires
            lhs == zu + 3 * zp,
    ;
    let zw = z * w;
    let dw = d * w;
    assert(zp * pp == zw) by (nonlinear_arith)
        requires
            zp == z * p,
            w == p * pp,
            zw == z * w,
    ;
    assert(zu * pp == k * d) by (nonlinear_arith)
        requires
            zu == z * (am * d),
            k == am * pp * z,
    ;
    let asd = (a * s) * d;
    let pd = p * d;
    assert(rhs == asd + 2 * pd) by (nonlinear_arith)
        requires
            rhs == (a * s + 2 * p) * d,
            asd == (a * s) * d,
            pd == p * d,
    ;
    assert(rhs * pp == asd * pp + 2 * (pd * pp)) by (nonlinear_arith)
        requires
            rhs == asd + 2 * pd,
    ;
    assert(pd * pp == dw) by (nonlinear_arith)
        requires
            pd == p * d,
            w == p * pp,
            dw == d * w,
    ;
    assert(asd * pp == m * d) by (nonlinear_arith)
        requires
            asd == (a * s) * d,
            m == a * s * pp,
    ;
    assert(w * (3 * z - 2 * d) == 3 * zw - 2 * dw) by (nonlinear_arith)
        requires
            zw == z * w,
            dw == d * w,
    ;
    assert(m * d < k * d + w * (3 * z - 2 * d));
    // The tangent of a cube lies below it.
    assert(w * (3 * z - 2 * d) <= z3 * d) by (nonlinear_arith)
        requires
            0 <= w <= d3,
            d3 == d * d * d,
            z3 == z * z * z,
            d >= 1,
            z >= 0,
    {
        if 3 * z - 2 * d > 0 {
            assert(w * (3 * z - 2 * d) <= d3 * (3 * z - 2 * d));
            assert((z - d) * (z - d) >= 0);
            assert((z - d) * (z - d) * (z + 2 * d) >= 0);
            assert((z - d) * (z - d) * (z + 2 * d) == z3 - 3 * z * (d * d) + 2 * d3);
            assert(d * (z3 - 3 * z * (d * d) + 2 * d3) >= 0);
            assert(d * (z3 - 3 * z * (d * d) + 2 * d3) == z3 * d - d3 * (3 * z - 2 * d));
        } else {
            assert(w * (3 * z - 2 * d) <= 0);
            assert(z3 * d >= 0);
        }
    }
    assert(m < k + z3) by (nonlinear_arith)
        requires
            m * d < k * d + z3 * d,
            d >= 1,
    ;
}

/// The bounds of the product term `p` of a Newton step from `d`, by way of
/// the quotient `q = d^2 / (2x)`: each division rounds down, so `p` is no more
/// than `d^3 / (4xy)`; and `p` is no less than `d` where `d^2` is no less than
/// `4xy`.
proof fn lemma_product_term_bounds(x: int, y: int, d: int)
    requires
        x >= 1,
        y >= 1,
        d >= 1,
    ensures
        ({
            let q = (d * d) / (2 * x);
            let p = product_term(x, y, d);
            &&& q >= 0
            &&& p >= 0
            &&& (2 * x) * q <= d * d < (2 * x) * (q + 1)
            &&& (2 * y) * p <= q * d < (2 * y) * (p + 1)
            &&& p * (4 * (x * y)) <= d * d * d
            &&& d * d >= 4 * (x * y) ==> p >= d
        }),
{
    let dd = d * d;
    let q = dd / (2 * x);
    let t = q * d;
    let p = t / (2 * y);
    assert(product_term(x, y, d) == p);
    assert(dd >= 1) by (nonlinear_arith)
        requires
            dd == d * d,
            d >= 1,
    ;
    assert(q >= 0 && (2 * x) * q <= dd < (2 * x) * (q + 1)) by (nonlinear_arith)
        requires
            q == dd / (2 * x),
            dd >= 0,
            x >= 1,
    ;
    assert(t >= 0) by (nonlinear_arith)
        requires
            t == q * d,
            q >= 0,
            d >= 1,
    ;
    assert(p >= 0 && (2 * y) * p <= t < (2 * y) * (p + 1)) by (nonlinear_arith)
        requires
            p == t / (2 * y),
            t >= 0,
            y >= 1,
    ;
    let xy = x * y;
    let typ = (2 * y) * p;
    let txq = (2 * x) * q;
    assert(p * (4 * xy) == (2 * x) * typ) by (nonlinear_arith)
        requires
            xy == x * y,
            typ == (2 * y) * p,
    ;
    assert((2 * x) * typ <= (2 * x) * t) by (nonlinear_arith)
        requires
            typ <= t,
            x >= 1,
    ;
    assert((2 * x) * t == txq * d) by (nonlinear_arith)
        requires
            t == q * d,
            txq == (2 * x) * q,
    ;
    assert(txq * d <= dd * d) by (nonlinear_arith)
        requires
            txq <= dd,
            d >= 1,
    ;
    if dd >= 4 * xy {
        assert(q >= 2 * y) by (nonlinear_arith)
            requires
                dd < (2 * x) * (q + 1),
                dd >= 4 * xy,
                xy == x * y,
                x >= 1,
        {
            if q + 1 <= 2 * y {
                assert((2 * x) * (q + 1) <= (2 * x) * (2 * y));
                assert((2 * x) * (2 * y) == 4 * xy);
            }
        }
        assert(t >= (2 * y) * d) by (nonlinear_arith)
            requires
                t == q * d,
                q >= 2 * y,
                d >= 1,
        ;
        assert(p >= d) by (nonlinear_arith)
            requires
                t < (2 * y) * (p + 1),
                t >= (2 * y) * d,
                y >= 1,
        {
            if p + 1 <= d {
                assert((2 * y) * (p + 1) <= (2 * y) * d);
            }
        }
    }
}

/// An iterate whose square falls short of `4xy`, while its successor lies
/// above the root, is one below the sum of the balances.
proof fn lemma_low_iterate_is_near_sum(x: int, y: int, a: int, d: int)
    requires
        x >= 1,
        y >= 1,
        a >= 4,
        1 <= d <= x + y,
        d * d < 4 * (x * y),
        curve_residual(x, y, a, d + 1) > 0,
    ensures
        d == x + y - 1,
{
    let s = x + y;
    let pp = 4 * (x * y);
    let dd = d * d;
    let z = d + 1;
    assert(pp <= s * s) by (nonlinear_arith)
        requires
            pp == 4 * (x * y),
            s == x + y,
    {
        assert((x - y) * (x - y) >= 0);
        assert((x + y) * (x + y) == (x - y) * (x - y) + 4 * (x * y));
    }
    if d == s {
        assert(false);
    }
    if d <= s - 2 {
        let e = a * (s - d - 1) + d + 1;
        // The residual, read as a bound on the cube of `d + 1`.
        assert(z * z * z > pp * e) by (nonlinear_arith)
            requires
                z * z * z + (a - 1) * pp * z - a * s * pp > 0,
                e == a * (s - z) + z,
        {
            assert((a - 1) * pp * z - a * s * pp == 0 - pp * (a * (s - z) + z));
        }
        assert(e >= d + 5) by (nonlinear_arith)
            requires
                e == a * (s - d - 1) + d + 1,
                a >= 4,
                s - d - 1 >= 1,
        ;
        assert(pp * e >= (dd + 1) * (d + 5)) by (nonlinear_arith)
            requires
                pp >= dd + 1,
                e >= d + 5,
                d >= 1,
                dd >= 0,
        {
            assert(pp * e >= (dd + 1) * e);
            assert((dd + 1) * e >= (dd + 1) * (d + 5));
        }
        assert(z * z * z == dd * d + 3 * dd + 3 * d + 1) by (nonlinear_arith)
            requires
                z == d + 1,
                dd == d * d,
        ;
        assert((dd + 1) * (d + 5) == dd * d + 5 * dd + d + 5) by (nonlinear_arith);
        assert(2 * dd - 2 * d + 4 > 0) by (nonlinear_arith)
            requires
                dd == d * d,
        {
            assert((d - 1) * (d - 1) >= 0);
        }
        assert(false);
    }
}

/// The lower bound on the product term that the near-balanced case needs:
/// one below the sum of the balances, with a square short of `4xy`, the
/// iterate `d` has `d * (s + 1 - a) < p * (s + 5)`.
proof fn lemma_near_sum_step(x: int, y: int, a: int, d: int)
    requires
        x >= 1,
        y >= 1,
        a >= 4,
        d == x + y - 1,
        d * d < 4 * (x * y),
    ensures
        d * (x + y + 1 - a) < product_term(x, y, d) * (x + y + 5),
{
    let s = x + y;
    let dd = d * d;
    let q = dd / (2 * x);
    let p = product_term(x, y, d);
    lemma_product_term_bounds(x, y, d);
    // Short of `4xy`, the balances differ by little.
    let g = x - y;
    assert(g * g <= 2 * s - 2) by (nonlinear_arith)
        requires
            dd < 4 * (x * y),
            dd == d * d,
            d == x + y - 1,
            s == x + y,
            g == x - y,
    {
        assert((x + y) * (x + y) == (x - y) * (x - y) + 4 * (x * y));
        assert(d * d == (x + y) * (x + y) - 2 * (x + y) + 1);
    }
    assert(d * (s + 1 - a) <= d * (s - 3)) by (nonlinear_arith)
        requires
            d >= 1,
            a >= 4,
    ;
    if y == 1 {
        assert(x <= 3) by (nonlinear_arith)
            requires
                g * g <= 2 * s - 2,
                g == x - 1,
                s == x + 1,
                x >= 1,
        {
            if x >= 4 {
                assert((x - 1) * (x - 1) >= 3 * (x - 1));
            }
        }
        assert(dd == if x == 1 {
            1int
        } else if x == 2 {
            4
        } else {
            9
        }) by (nonlinear_arith)
            requires
                dd == d * d,
                d == x,
                1 <= x <= 3,
        ;
        assert(q == if x == 1 {
            0int
        } else {
            1
        }) by (nonlinear_arith)
            requires
                (2 * x) * q <= dd < (2 * x) * (q + 1),
                1 <= x <= 3,
                dd == if x == 1 {
                    1int
                } else if x == 2 {
                    4
                } else {
                    9
                },
        ;
        assert(q * d == q * x) by (nonlinear_arith)
            requires
                d == x,
        ;
        assert(q * x == if x == 1 {
            0int
        } else {
            x
        }) by (nonlinear_arith)
            requires
                q == if x == 1 {
                    0int
                } else {
                    1
                },
        ;
        assert(p == (q * d) / 2);
        assert(p == if x == 1 {
            0int
        } else {
            1
        });
        assert(p * (s + 5) == if x == 1 {
            0int
        } else {
            s + 5
        }) by (nonlinear_arith)
            requires
                p == if x == 1 {
                    0int
                } else {
                    1
                },
        ;
        assert(d * (s + 1 - a) < p * (s + 5)) by (nonlinear_arith)
            requires
                d == x,
                s == x + 1,
                1 <= x <= 3,
                a >= 4,
                p * (s + 5) == if x == 1 {
                    0int
                } else {
                    s + 5
                },
        ;
    } else {
        // The first division loses at most two units of `2y`.
        assert(q >= 2 * y - 2) by (nonlinear_arith)
            requires
                dd < (2 * x) * (q + 1),
                dd == d * d,
                d == x + y - 1,
                x >= 1,
        {
            assert(d * d - (2 * x) * (2 * y - 2) == (x - y + 1) * (x - y + 1));
            assert((x - y + 1) * (x - y + 1) >= 0);
            if q + 1 <= 2 * y - 2 {
                assert((2 * x) * (q + 1) <= (2 * x) * (2 * y - 2));
            }
        }
        let t = q * d;
        assert(t >= (2 * y - 2) * d) by (nonlinear_arith)
            requires
                t == q * d,
                q >= 2 * y - 2,
                d >= 1,
        ;
        let typ = (2 * y) * p;
        let low = (2 * y - 2) * d - 2 * y + 1;
        assert(typ >= low) by (nonlinear_arith)
            requires
                t < (2 * y) * (p + 1),
                typ == (2 * y) * p,
                t >= (2 * y - 2) * d,
                low == (2 * y - 2) * d - 2 * y + 1,
        ;
        assert(typ * (s + 5) >= low * (s + 5)) by (nonlinear_arith)
            requires
                typ >= low,
                s >= 2,
        ;
        // What is left once the cubes cancel.
        let rest = 20 * (y * y) + 6 * (y * g) - 40 * y - 2 * (g * g) - 7 * g + 15;
        assert(low * (s + 5) - (2 * y) * (d * (s - 3)) == rest) by (nonlinear_arith)
            requires
                low == (2 * y - 2) * d - 2 * y + 1,
                d == s - 1,
                s == 2 * y + g,
                rest == 20 * (y * y) + 6 * (y * g) - 40 * y - 2 * (g * g) - 7 * g + 15,
        ;
        assert(rest > 0) by (nonlinear_arith)
            requires
                rest == 20 * (y * y) + 6 * (y * g) - 40 * y - 2 * (g * g) - 7 * g + 15,
                g * g <= 2 * s - 2,
                s == 2 * y + g,
                y >= 2,
                g >= 1 - y,
        {
            assert(rest >= 20 * (y * y) + 6 * (y * g) - 48 * y - 11 * g + 19);
            if g >= 0 {
                assert(y * g >= 2 * g);
                assert(y * y >= 2 * y);
                assert((y - 2) * (y - 2) >= 0);
            } else {
                assert((y - 1 + g) * (6 * y - 11) >= 0);
                assert((y - 2) * (14 * y - 3) >= 0);
            }
        }
        assert((2 * y) * (d * (s - 3)) < (2 * y) * (p * (s + 5))) by (nonlinear_arith)
            requires
                typ * (s + 5) >= low * (s + 5),
                low * (s + 5) - (2 * y) * (d * (s - 3)) > 0,
                typ == (2 * y) * p,
        {
            assert(typ * (s + 5) == (2 * y) * (p * (s + 5)));
        }
        assert(d * (s - 3) < p * (s + 5)) by (nonlinear_arith)
            requires
                (2 * y) * (d * (s - 3)) < (2 * y) * (p * (s + 5)),
                y >= 1,
        ;
    }
}

/// A Newton step on the invariant keeps the iterate between the root of the
/// curve equation and the sum of the balances: from an iterate no more than
/// the sum whose successor lies above the root, it gives another such.
proof fn lemma_invariant_step_in_range(x: int, y: int, a: int, d: int)
    requires
        x >= 1,
        y >= 1,
        x + y <= u64::MAX,
        4 <= a <= u64::MAX,
        1 <= d <= x + y,
        curve_residual(x, y, a, d + 1) > 0,
    ensures
        invariant_step(x, y, a, d) matches Some(n) ==> 1 <= n <= x + y && curve_residual(
            x,
            y,
            a,
            n + 1,
        ) > 0,
{
    let s = x + y;
    let p = product_term(x, y, d);
    let num = invariant_numerator(s, a, p, d);
    let den = invariant_denominator(a, p, d);
    let n = num / den;
    lemma_invariant_step_bounds(x, y, a, d);
    lemma_product_term_bounds(x, y, d);
    let pp = 4 * (x * y);
    assert(pp >= 1) by (nonlinear_arith)
        requires
            pp == 4 * (x * y),
            x >= 1,
            y >= 1,
    ;
    // The step does not pass the sum.
    if d * d >= pp {
        assert(d * (s + 1 - a) < p * (3 * s + 3 - 2 * d)) by (nonlinear_arith)
            requires
                p >= d,
                1 <= d <= s,
                a >= 4,
        {
            assert(p * (3 * s + 3 - 2 * d) >= d * (3 * s + 3 - 2 * d));
            assert(d * (3 * s + 3 - 2 * d) - d * (s + 1 - a) == d * (2 * s + 2 - 2 * d + a));
            assert(d * (2 * s + 2 - 2 * d + a) > 0);
        }
    } else {
        lemma_low_iterate_is_near_sum(x, y, a, d);
        lemma_near_sum_step(x, y, a, d);
    }
    assert(num < (s + 1) * den) by (nonlinear_arith)
        requires
            num == (a * s + 2 * p) * d,
            den == (a - 1) * d + 3 * p,
            d * (s + 1 - a) < p * (3 * s + 3 - 2 * d),
    {
        assert((s + 1) * den - num == p * (3 * s + 3 - 2 * d) - d * (s + 1 - a));
    }
    assert(n <= s && (n + 1) * den > num) by (nonlinear_arith)
        requires
            n == num / den,
            den >= 1,
            num < (s + 1) * den,
            num >= 0,
    ;
    lemma_step_above_root(pp, a, s, d, p, n + 1);
    assert(curve_residual(x, y, a, n + 1) > 0);
}

/// From an iterate in range the solver for the invariant returns a value in
/// range.
proof fn lemma_invariant_from_in_range(x: int, y: int, a: int, d: int, budget: nat)
    requires
        x >= 1,
        y >= 1,
        x + y <= u64::MAX,
        4 <= a <= u64::MAX,
        1 <= d <= x + y,
        curve_residual(x, y, a, d + 1) > 0,
    ensures
        invariant_from(x, y, a, d, budget) matches Ok(v) ==> 1 <= v <= x + y && curve_residual(
            x,
            y,
            a,
            v + 1,
        ) > 0,
    decreases budget,
{
    if budget > 0 {
        lemma_invariant_step_in_range(x, y, a, d);
        match invariant_step(x, y, a, d) {
            None => {},
            Some(next) => {
                if !settled(next, d) {
                    lemma_invariant_from_in_range(x, y, a, next, (budget - 1) as nat);
                }
            },
        }
    }
}

/// Whatever the budget, the invariant lies between the root of the curve
/// equation and the sum of the balances, and is zero for the empty pool only.
pub proof fn lemma_invariant_within_sum(x: u64, y: u64, amp: u64, budget: nat)
    ensures
        invariant_within(x, y, amp, budget) matches Ok(d) ==> {
            &&& d <= x + y
            &&& curve_residual(x as int, y as int, 4 * amp, d + 1) > 0
            &&& d == 0 <==> x == 0 && y == 0
        },
{
    let s = x + y;
    let a = 4 * amp;
    if invariant_within(x, y, amp, budget) is Ok {
        if s == 0 {
            assert(curve_residual(0, 0, a, 1) == 1) by (nonlinear_arith)
                requires
                    curve_residual(0, 0, a, 1) == 1 * 1 * 1 + (a - 1) * (4 * (0 * 0)) * 1 - a * (0
                        + 0) * (4 * (0 * 0)),
            ;
        } else {
            assert(x >= 1 && y >= 1 && a >= 4) by {
                if budget == 0 {
                } else {
                    assert(invariant_step(x as int, y as int, a, s as int) is Some);
                }
            }
            let xi = x as int;
            let yi = y as int;
            let pp = 4 * (xi * yi);
            let z = s + 1;
            assert(curve_residual(xi, yi, a, z) > 0) by (nonlinear_arith)
                requires
                    curve_residual(xi, yi, a, z) == z * z * z + (a - 1) * pp * z - a * s * pp,
                    pp == 4 * (xi * yi),
                    s == xi + yi,
                    z == s + 1,
                    xi >= 1,
                    yi >= 1,
                    a >= 4,
            {
                assert((xi + yi) * (xi + yi) == (xi - yi) * (xi - yi) + 4 * (xi * yi));
                assert((xi - yi) * (xi - yi) >= 0);
                assert(z * z > pp);
                assert((a - 1) * pp * z - a * s * pp == pp * (a - z));
                assert(z * z * z - pp * z == z * (z * z - pp));
                assert(z * (z * z - pp) > 0);
                assert(pp * a >= 0);
            }
            lemma_invariant_from_in_range(xi, yi, a, s as int, budget);
        }
    }
}

/// The invariant lies between the root of the curve equation and the sum of
/// the balances: it never exceeds `x + y`, so it reaches the sum only by
/// equalling it; one unit above it the residual of the curve equation is
/// positive, so it falls short of the root by less than one unit; and it is
/// zero for the empty pool only.
pub proof fn lemma_invariant_in_range(x: u64, y: u64, amp: u64)
    ensures
        invariant_of(x, y, amp) matches Ok(d) ==> {
            &&& d <= x + y
            &&& curve_residual(x as int, y as int, 4 * amp, d + 1) > 0
            &&& d == 0 <==> x == 0 && y == 0
        },
{
    lemma_invariant_within_sum(x, y, amp, NEWTON_ITERATIONS as nat);
}

/// The empty pool has the invariant zero, whatever the amplification.
pub proof fn lemma_empty_pool_invariant(amp: u64)
    ensures
        invariant_of(0, 0, amp) == Ok::<u64, MathError>(0),
{
}

/// The invariant is zero for the empty pool and for no other.
pub proof fn lemma_invariant_zero_iff_empty(x: u64, y: u64, amp: u64)
    ensures
        invariant_of(x, y, amp) matches Ok(d) ==> (d == 0 <==> x == 0 && y == 0),
{
    lemma_invariant_in_range(x, y, amp);
}

/// The invariant never exceeds the sum of the balances, so it is at least
/// the sum only where it equals the sum.
pub proof fn lemma_invariant_at_most_sum(x: u64, y: u64, amp: u64)
    ensures
        invariant_of(x, y, amp) matches Ok(d) ==> d <= x + y && (d >= x + y <==> d == x + y),
{
    lemma_invariant_in_range(x, y, amp);
}

} // verus!
