//! What holds of both solvers: what they return is a settled Newton step, it
//! is a function of the arguments alone, and the budget only cuts the
//! iteration short.
use vstd::prelude::*;

use crate::constants::NEWTON_ITERATIONS;
use crate::math::curve::{
    balance_coefficient, balance_constant, balance_for, balance_from, balance_residual,
    balance_step, balance_within, invariant_from, invariant_of, invariant_step, invariant_within,
    settled, swap_output, MathError,
};

verus! {

/// What the solver for the invariant returns is a settled Newton step: the
/// step from some iterate within one unit of it.
proof fn lemma_invariant_from_settled(x: int, y: int, ann: int, d: int, budget: nat)
    ensures
        invariant_from(x, y, ann, d, budget) matches Ok(r) ==> exists|prev: int|
            #[trigger] invariant_step(x, y, ann, prev) == Some(r as int) && settled(
                r as int,
                prev,
            ),
    decreases budget,
{
    if budget > 0 {
        match invariant_step(x, y, ann, d) {
            None => {},
            Some(next) => {
                if !settled(next, d) {
                    lemma_invariant_from_settled(x, y, ann, next, (budget - 1) as nat);
                } else {
                    assert(next as u64 as int == next);
                }
            },
        }
    }
}

/// The invariant of a pool that is not empty satisfies the curve equation to
/// within the tolerance of the iteration: it is the Newton step from an
/// iterate no more than one unit away.
pub proof fn lemma_invariant_is_settled(x: u64, y: u64, amp: u64)
    ensures
        invariant_of(x, y, amp) matches Ok(r) ==> x + y == 0 || exists|prev: int|
            #[trigger] invariant_step(x as int, y as int, 4 * amp, prev) == Some(r as int)
                && settled(r as int, prev),
{
    if x + y > 0 && x + y <= u64::MAX && 4 * amp <= u64::MAX {
        lemma_invariant_from_settled(
            x as int,
            y as int,
            4 * amp,
            x + y,
            NEWTON_ITERATIONS as nat,
        );
    }
}

/// What the solver for the output balance returns is a settled Newton step,
/// and it brackets the root of the quadratic: the residual is at most one at
/// the result and positive one unit above it.
proof fn lemma_balance_from_settled(b: int, c: int, d: int, y: int, budget: nat)
    ensures
        balance_from(b, c, d, y, budget) matches Ok(r) ==> {
            &&& exists|prev: int| #[trigger]
                balance_step(b, c, d, prev) == Some(r as int) && settled(r as int, prev)
            &&& balance_residual(b, c, d, r as int) <= 1
            &&& balance_residual(b, c, d, r + 1) > 0
        },
    decreases budget,
{
    if budget > 0 {
        match balance_step(b, c, d, y) {
            None => {},
            Some(next) => {
                if !settled(next, y) {
                    lemma_balance_from_settled(b, c, d, next, (budget - 1) as nat);
                } else {
                    assert(next as u64 as int == next);
                    let num = y * y + c;
                    let den = 2 * y + b - d;
                    assert(next * den <= num < (next + 1) * den) by (nonlinear_arith)
                        requires
                            next == num / den,
                            den >= 1,
                    ;
                    assert(balance_residual(b, c, d, next) <= 1) by (nonlinear_arith)
                        requires
                            balance_residual(b, c, d, next) == next * next + (b - d) * next - c,
                            next * den <= num,
                            num == y * y + c,
                            den == 2 * y + b - d,
                            -1 <= next - y <= 1,
                    {
                        assert(next * next + (b - d) * next - c - (next * den - num) == (next
                            - y) * (next - y));
                        assert((next - y) * (next - y) <= 1);
                    }
                    let z = next + 1;
                    assert(balance_residual(b, c, d, z) > 0) by (nonlinear_arith)
                        requires
                            balance_residual(b, c, d, z) == z * z + (b - d) * z - c,
                            num < z * den,
                            num == y * y + c,
                            den == 2 * y + b - d,
                    {
                        assert(z * z + (b - d) * z - c - (z * den - num) == (z - y) * (z - y));
                        assert((z - y) * (z - y) >= 0);
                    }
                }
            },
        }
    }
}

/// The output balance restores the invariant to within one unit: it is the
/// Newton step from an iterate no more than one unit away, and the root of
/// the quadratic `z^2 + (b - d) z = c` lies between it and its successor, in
/// that the residual is at most one at the result and positive one unit
/// above it.
pub proof fn lemma_balance_is_settled(x_new: u64, d: u64, amp: u64)
    ensures
        balance_for(x_new, d, amp) matches Ok(r) ==> {
            let b = balance_coefficient(x_new as int, 4 * amp, d as int);
            let c = balance_constant(x_new as int, 4 * amp, d as int);
            &&& exists|prev: int| #[trigger]
                balance_step(b, c, d as int, prev) == Some(r as int) && settled(r as int, prev)
            &&& balance_residual(b, c, d as int, r as int) <= 1
            &&& balance_residual(b, c, d as int, r + 1) > 0
        },
{
    let b = balance_coefficient(x_new as int, 4 * amp, d as int);
    let c = balance_constant(x_new as int, 4 * amp, d as int);
    lemma_balance_from_settled(b, c, d as int, d as int, NEWTON_ITERATIONS as nat);
}

/// What the solver for the invariant finds within a budget, it finds within
/// any larger one.
proof fn lemma_invariant_from_stable(x: int, y: int, ann: int, d: int, small: nat, large: nat)
    requires
        small <= large,
    ensures
        invariant_from(x, y, ann, d, small) != Err::<u64, MathError>(
            MathError::ConvergenceFailure,
        ) ==> invariant_from(x, y, ann, d, large) == invariant_from(x, y, ann, d, small),
    decreases small,
{
    if small > 0 {
        match invariant_step(x, y, ann, d) {
            None => {},
            Some(next) => {
                if !settled(next, d) {
                    lemma_invariant_from_stable(
                        x,
                        y,
                        ann,
                        next,
                        (small - 1) as nat,
                        (large - 1) as nat,
                    );
                }
            },
        }
    }
}

/// What the solver for the output balance finds within a budget, it finds
/// within any larger one.
proof fn lemma_balance_from_stable(b: int, c: int, d: int, y: int, small: nat, large: nat)
    requires
        small <= large,
    ensures
        balance_from(b, c, d, y, small) != Err::<u64, MathError>(MathError::ConvergenceFailure)
            ==> balance_from(b, c, d, y, large) == balance_from(b, c, d, y, small),
    decreases small,
{
    if small > 0 {
        match balance_step(b, c, d, y) {
            None => {},
            Some(next) => {
                if !settled(next, y) {
                    lemma_balance_from_stable(
                        b,
                        c,
                        d,
                        next,
                        (small - 1) as nat,
                        (large - 1) as nat,
                    );
                }
            },
        }
    }
}

/// The budget only cuts the iteration short: unless a solver runs out of
/// steps, it returns under a larger budget what it returns under a smaller
/// one. So whatever a solver returns under a budget of at most
/// [`NEWTON_ITERATIONS`] steps, bar a failure to converge, the full solver
/// returns too.
pub proof fn lemma_budget_stable(a: u64, b: u64, amp: u64, small: nat, large: nat)
    requires
        small <= large,
    ensures
        invariant_within(a, b, amp, small) != Err::<u64, MathError>(
            MathError::ConvergenceFailure,
        ) ==> invariant_within(a, b, amp, large) == invariant_within(a, b, amp, small),
        balance_within(a, b, amp, small) != Err::<u64, MathError>(MathError::ConvergenceFailure)
            ==> balance_within(a, b, amp, large) == balance_within(a, b, amp, small),
{
    lemma_invariant_from_stable(a as int, b as int, 4 * amp, a + b, small, large);
    lemma_balance_from_stable(
        balance_coefficient(a as int, 4 * amp, b as int),
        balance_constant(a as int, 4 * amp, b as int),
        b as int,
        b as int,
        small,
        large,
    );
}

/// The solvers keep no state: what each returns is a function of its
/// arguments alone, so any two results that meet a solver's contract for the
/// same arguments are equal.
pub proof fn lemma_solvers_deterministic(
    a: u64,
    b: u64,
    amp: u64,
    amount_in: u64,
    fee_bps: u64,
    first: Result<u64, MathError>,
    second: Result<u64, MathError>,
)
    ensures
        first == invariant_of(a, b, amp) && second == invariant_of(a, b, amp) ==> first == second,
        first == balance_for(a, b, amp) && second == balance_for(a, b, amp) ==> first == second,
        first == swap_output(a, b, amount_in, amp, fee_bps) && second == swap_output(
            a,
            b,
            amount_in,
            amp,
            fee_bps,
        ) ==> first == second,
{
}

} // verus!
