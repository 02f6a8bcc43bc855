//! The balanced pool: it has the sum of its balances for invariant, and the
//! solver for the output balance gives its balance back exactly.
use vstd::prelude::*;

use vstd::arithmetic::div_mod::{
    lemma_fundamental_div_mod, lemma_fundamental_div_mod_converse, lemma_mod_bound,
};
use vstd::arithmetic::power2::{lemma2_to64, lemma_pow2_pos, lemma_pow2_unfold, pow2};

use crate::constants::NEWTON_ITERATIONS;
use crate::math::curve::{
    balance_coefficient, balance_constant, balance_for, balance_from, balance_step, fits_u128,
    fits_u64, invariant_denominator, invariant_from, invariant_numerator, invariant_of,
    product_stage, product_term, settled, MathError,
};

verus! {

/// A pool that holds `x` of each asset has the invariant `2x`, the sum of its
/// balances: Newton's method settles there in one step. The solver fails on
/// such a pool only where a doubled balance or the scaled amplification leaves
/// the working width, or the numerator of that step the wide type.
pub proof fn lemma_balanced_invariant(x: u64, amp: u64)
    requires
        x >= 1,
        amp >= 1,
    ensures
        invariant_of(x, x, amp) == (if !fits_u64(2 * x) || !fits_u64(4 * amp) || !fits_u128(
            (4 * amp + 2) * ((2 * x) * (2 * x)),
        ) {
            Err::<u64, MathError>(MathError::Overflow)
        } else {
            Ok::<u64, MathError>((2 * x) as u64)
        }),
{
    if fits_u64(2 * x) && fits_u64(4 * amp) {
        let xi = x as int;
        let ann = 4 * amp;
        let d = 2 * xi;
        assert((d * d) / (2 * xi) == d) by (nonlinear_arith)
            requires
                d == 2 * xi,
                xi >= 1,
        {
            assert(d * d == d * (2 * xi));
        }
        assert(product_stage(xi, d) == d * d);
        assert(fits_u128(d * d)) by (nonlinear_arith)
            requires
                1 <= d <= u64::MAX,
        ;
        assert(product_term(xi, xi, d) == d) by (nonlinear_arith)
            requires
                product_term(xi, xi, d) == (d * d) / (2 * xi),
                d == 2 * xi,
                xi >= 1,
        {
            assert(d * d == d * (2 * xi));
        }
        let num = invariant_numerator(xi + xi, ann, d, d);
        let den = invariant_denominator(ann, d, d);
        assert(num == (ann + 2) * (d * d) && den == (ann + 2) * d && den >= 1 && den <= num)
            by (nonlinear_arith)
            requires
                num == (ann * (xi + xi) + 2 * d) * d,
                den == (ann - 1) * d + 3 * d,
                d == 2 * xi,
                xi >= 1,
                ann >= 4,
        ;
        assert(num / den == d) by (nonlinear_arith)
            requires
                num == (ann + 2) * (d * d),
                den == (ann + 2) * d,
                den >= 1,
        {
            assert(num == d * den);
        }
        assert(invariant_from(xi, xi, ann, d, NEWTON_ITERATIONS as nat) == (if !fits_u128(num) {
            Err::<u64, MathError>(MathError::Overflow)
        } else {
            Ok::<u64, MathError>(d as u64)
        }));
    }
}

/// The constants of the quadratic in the output balance, for a pool that
/// holds `x` of each asset and the invariant `2x`: with `fl = 2x / ann`, the
/// coefficient is `x + fl` and the constant `x * fl` plus a remainder below `x`.
proof fn lemma_balanced_constants(x: int, ann: int)
    requires
        x >= 1,
        ann >= 1,
    ensures
        product_stage(x, 2 * x) == (2 * x) * (2 * x),
        balance_coefficient(x, ann, 2 * x) == x + (2 * x) / ann,
        0 <= (2 * x) / ann <= 2 * x,
        0 <= balance_constant(x, ann, 2 * x) - x * ((2 * x) / ann) < x,
{
    let d = 2 * x;
    let fl = d / ann;
    let m = d % ann;
    assert((d * d) / (2 * x) == d) by (nonlinear_arith)
        requires
            d == 2 * x,
            x >= 1,
    {
        assert(d * d == d * (2 * x));
    }
    lemma_fundamental_div_mod(d, ann);
    lemma_mod_bound(d, ann);
    assert(0 <= fl <= d) by (nonlinear_arith)
        requires
            d == ann * fl + m,
            0 <= m < ann,
            ann >= 1,
            d >= 0,
    ;
    let t = x * m;
    let r = t / ann;
    let rem = t % ann;
    assert(t >= 0 && t < x * ann) by (nonlinear_arith)
        requires
            t == x * m,
            0 <= m < ann,
            x >= 1,
    ;
    lemma_fundamental_div_mod(t, ann);
    lemma_mod_bound(t, ann);
    assert(0 <= r < x) by (nonlinear_arith)
        requires
            t == ann * r + rem,
            0 <= rem < ann,
            0 <= t < x * ann,
            ann >= 1,
    ;
    assert(d * d == (x * fl + r) * (2 * ann) + 2 * rem) by (nonlinear_arith)
        requires
            d == 2 * x,
            d == ann * fl + m,
            x * m == ann * r + rem,
    {
        assert(d * d == 2 * (x * (ann * fl + m)));
        assert(x * (ann * fl + m) == x * (ann * fl) + x * m);
        assert(x * (ann * fl) == (x * fl) * ann);
    }
    lemma_fundamental_div_mod_converse(d * d, 2 * ann, x * fl + r, 2 * rem);
}

/// From an iterate `x + e` at or above `x`, the solver for the output balance
/// of a balanced pool comes down to `x` and settles there: each step at least
/// halves the excess `e`.
proof fn lemma_balanced_descent(x: int, fl: int, r: int, e: int, budget: nat, k: nat)
    requires
        x >= 1,
        fl >= 0,
        0 <= r < x,
        0 <= e <= x,
        e < pow2(k),
        budget >= k + 1,
        5 * x + fl <= u64::MAX,
    ensures
        balance_from(x + fl, x * fl + r, 2 * x, x + e, budget) == Ok::<u64, MathError>(x as u64),
    decreases k,
{
    let b = x + fl;
    let c = x * fl + r;
    let y = x + e;
    let num = y * y + c;
    let den = 2 * y + b - 2 * x;
    let t = e * e + r;
    let q = t / den;
    assert(den == 2 * e + b);
    lemma_pow2_pos(k);
    assert(t >= 0 && num == x * den + t && 0 <= num <= u128::MAX) by (nonlinear_arith)
        requires
            t == e * e + r,
            num == (x + e) * (x + e) + (x * fl + r),
            den == 2 * e + x + fl,
            x >= 1,
            fl >= 0,
            0 <= r < x,
            0 <= e <= x,
            5 * x + fl <= u64::MAX,
    {
        assert((x + e) * (x + e) <= (2 * x) * (2 * x));
        assert(x * fl + r <= x * (fl + 1));
        assert((2 * x) * (2 * x) + x * (fl + 1) == x * (4 * x + fl + 1));
        assert(x * (4 * x + fl + 1) <= u64::MAX * u64::MAX);
    }
    lemma_fundamental_div_mod(t, den);
    lemma_mod_bound(t, den);
    assert(num == (x + q) * den + t % den) by (nonlinear_arith)
        requires
            num == x * den + t,
            t == den * q + t % den,
    ;
    lemma_fundamental_div_mod_converse(num, den, x + q, t % den);
    assert(num / den == x + q);
    assert(q >= 0 && (e <= 1 ==> q == 0) && (e >= 2 ==> 2 * q <= e - 1)) by (nonlinear_arith)
        requires
            t == den * q + t % den,
            0 <= t % den < den,
            t == e * e + r,
            den == 2 * e + x + fl,
            x >= 1,
            fl >= 0,
            0 <= r < x,
            0 <= e <= x,
    {
        if e >= 2 && 2 * q >= e {
            assert(2 * (den * q) >= den * e);
            assert(den * e == 2 * (e * e) + (x + fl) * e);
            assert((x + fl) * e >= 2 * x);
        }
        if e <= 1 && q >= 1 {
            assert(den * q >= den);
        }
        if q < 0 {
            assert(den * q <= 0 - den);
        }
    }
    assert(balance_step(b, c, 2 * x, y) == Some(x + q));
    if e >= 2 {
        assert(k >= 1) by {
            if k == 0 {
                lemma2_to64();
            }
        }
        lemma_pow2_unfold(k);
        assert(!settled(x + q, y));
        lemma_balanced_descent(x, fl, r, q, (budget - 1) as nat, (k - 1) as nat);
    }
}

/// In a pool that holds `x` of each asset, the output balance that restores
/// the invariant `2x` when nothing is added to the input side is `x` again:
/// the solver recovers the balance exactly. It fails on such a pool only where
/// the doubled and scaled amplification, or the first denominator's sum
/// `5x + 2x / (4 amp)`, leaves the working width.
pub proof fn lemma_balanced_round_trip(x: u64, amp: u64)
    requires
        x >= 1,
        amp >= 1,
        fits_u64(2 * x),
    ensures
        balance_for(x, (2 * x) as u64, amp) == (if !fits_u64(8 * amp) || !fits_u64(
            5 * x + (2 * x) / (4 * amp),
        ) {
            Err::<u64, MathError>(MathError::Overflow)
        } else {
            Ok::<u64, MathError>(x)
        }),
{
    let xi = x as int;
    let ann = 4 * amp;
    let d = 2 * xi;
    if fits_u64(8 * amp) {
        lemma_balanced_constants(xi, ann);
        let fl = d / ann;
        let c = balance_constant(xi, ann, d);
        let r = c - xi * fl;
        assert(fits_u128(d * d)) by (nonlinear_arith)
            requires
                0 <= d <= u64::MAX,
        ;
        if fits_u64(5 * xi + fl) {
            lemma2_to64();
            lemma_balanced_descent(xi, fl, r, xi, NEWTON_ITERATIONS as nat, 64);
        } else {
            assert(balance_step(xi + fl, c, d, d) is None);
        }
    }
}

/// The round trip of a balanced pool: where the solver for the invariant
/// succeeds on a pool that holds `x` of each asset, the solver for the output
/// balance, given that invariant and the unchanged input side, returns `x`
/// unless it overflows.
pub proof fn lemma_round_trip_balanced_pool(x: u64, amp: u64)
    requires
        x >= 1,
        amp >= 1,
    ensures
        invariant_of(x, x, amp) matches Ok(d) ==> d == 2 * x && (balance_for(x, d, amp) == Ok::<
            u64,
            MathError,
        >(x) || balance_for(x, d, amp) == Err::<u64, MathError>(MathError::Overflow)),
{
    lemma_balanced_invariant(x, amp);
    if fits_u64(2 * x) {
        lemma_balanced_round_trip(x, amp);
    }
}

} // verus!
