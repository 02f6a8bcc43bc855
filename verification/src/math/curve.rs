//! The mathematical definition of the curve: what each solver returns, as a
//! function of its arguments, over unbounded integers.
use vstd::prelude::*;

use crate::constants::NEWTON_ITERATIONS;

verus! {

/// Why an operation on the curve failed.
#[derive(Debug, Clone, Copy, PartialEq, Eq, Structural)]
pub enum MathError {
    /// An arithmetic step left the width of its integer type, in either
    /// direction, or divided by zero.
    Overflow,
    /// Newton's method had not settled within the iteration budget.
    ConvergenceFailure,
    /// A trade would not lower the output balance.
    InsufficientLiquidity,
    /// The pool has no invariant to measure against.
    InvalidInvariant,
}

/// Whether `v` is a value of the working width.
pub open spec fn fits_u64(v: int) -> bool {
    0 <= v <= u64::MAX
}

/// Whether `v` is a value of the wide type that holds intermediate products.
pub open spec fn fits_u128(v: int) -> bool {
    0 <= v <= u128::MAX
}

/// Whether two successive iterates differ by at most one unit.
pub open spec fn settled(a: int, b: int) -> bool {
    a - b <= 1 && b - a <= 1
}

/// The first stage of the product term: `d^2 / (2x)`, times `d`.
pub open spec fn product_stage(x: int, d: int) -> int {
    (d * d) / (2 * x) * d
}

/// The product term `D_P = d^3 / (4xy)` of a Newton step on the invariant,
/// truncated after each of its two divisions.
pub open spec fn product_term(x: int, y: int, d: int) -> int {
    product_stage(x, d) / (2 * y)
}

/// The numerator `(ann * s + 2 * D_P) * d` of a Newton step on the invariant.
pub open spec fn invariant_numerator(s: int, ann: int, d_p: int, d: int) -> int {
    (ann * s + 2 * d_p) * d
}

/// The denominator `(ann - 1) * d + 3 * D_P` of a Newton step on the invariant.
pub open spec fn invariant_denominator(ann: int, d_p: int, d: int) -> int {
    (ann - 1) * d + 3 * d_p
}

/// One Newton step on the invariant from the iterate `d`: the quotient of
/// [`invariant_numerator`] by [`invariant_denominator`], or `None` where an
/// intermediate value leaves its type (a doubled balance or the quotient the
/// working width, any other the wide one) or a division is by zero, as it is
/// for a balance of zero. From a positive iterate, and for `ann` a positive
/// multiple of four, the denominator of the quotient is positive.
pub open spec fn invariant_step(x: int, y: int, ann: int, d: int) -> Option<int> {
    let d_p = product_term(x, y, d);
    let num = invariant_numerator(x + y, ann, d_p, d);
    let den = invariant_denominator(ann, d_p, d);
    if x <= 0 || y <= 0 || !fits_u64(2 * x) || !fits_u64(2 * y) || ann < 1 {
        None
    } else if !fits_u128(product_stage(x, d)) || !fits_u128(num) || !fits_u128(den) || den == 0 {
        None
    } else if !fits_u64(num / den) {
        None
    } else {
        Some(num / den)
    }
}

/// What the solver for the invariant returns when it stands at the iterate
/// `d` with `budget` steps left.
pub open spec fn invariant_from(x: int, y: int, ann: int, d: int, budget: nat) -> Result<
    u64,
    MathError,
>
    decreases budget,
{
    if budget == 0 {
        Err(MathError::ConvergenceFailure)
    } else {
        match invariant_step(x, y, ann, d) {
            None => Err(MathError::Overflow),
            Some(next) => if settled(next, d) {
                Ok(next as u64)
            } else {
                invariant_from(x, y, ann, next, (budget - 1) as nat)
            },
        }
    }
}

/// The invariant `D` of the pool `(x, y)` under amplification `amp`, as far as
/// `budget` Newton steps find it: zero for the empty pool, else the first
/// settled iterate from `x + y`.
pub open spec fn invariant_within(x: u64, y: u64, amp: u64, budget: nat) -> Result<
    u64,
    MathError,
> {
    if x + y > u64::MAX {
        Err(MathError::Overflow)
    } else if x + y == 0 {
        Ok(0)
    } else if 4 * amp > u64::MAX {
        Err(MathError::Overflow)
    } else {
        invariant_from(x as int, y as int, 4 * amp, x + y, budget)
    }
}

/// The invariant `D` of the pool `(x, y)` under amplification `amp`, within
/// the budget of [`NEWTON_ITERATIONS`] steps.
pub open spec fn invariant_of(x: u64, y: u64, amp: u64) -> Result<u64, MathError> {
    invariant_within(x, y, amp, NEWTON_ITERATIONS as nat)
}

/// One Newton step on the output balance from the iterate `y`, for the
/// constants `b` and `c` of the quadratic and the invariant `d`: the quotient
/// `(y^2 + c) / (2y + b - d)`, or `None` where the numerator leaves the wide
/// type, `2y + b` or the quotient the working width, or the denominator is not
/// positive.
pub open spec fn balance_step(b: int, c: int, d: int, y: int) -> Option<int> {
    let num = y * y + c;
    let den = 2 * y + b - d;
    if !fits_u128(num) || !fits_u64(2 * y + b) || den <= 0 {
        None
    } else if !fits_u64(num / den) {
        None
    } else {
        Some(num / den)
    }
}

/// What the solver for the output balance returns when it stands at the
/// iterate `y` with `budget` steps left.
pub open spec fn balance_from(b: int, c: int, d: int, y: int, budget: nat) -> Result<
    u64,
    MathError,
>
    decreases budget,
{
    if budget == 0 {
        Err(MathError::ConvergenceFailure)
    } else {
        match balance_step(b, c, d, y) {
            None => Err(MathError::Overflow),
            Some(next) => if settled(next, y) {
                Ok(next as u64)
            } else {
                balance_from(b, c, d, next, (budget - 1) as nat)
            },
        }
    }
}

/// The constant `c = d^3 / (4 * x_new * ann)` of the quadratic in the output
/// balance, truncated after each of its two divisions.
pub open spec fn balance_constant(x_new: int, ann: int, d: int) -> int {
    product_stage(x_new, d) / (2 * ann)
}

/// The coefficient `b = x_new + d / ann` of the quadratic in the output
/// balance.
pub open spec fn balance_coefficient(x_new: int, ann: int, d: int) -> int {
    x_new + d / ann
}

/// The quadratic in the output balance whose root restores the invariant:
/// `z^2 + (b - d) * z - c`.
pub open spec fn balance_residual(b: int, c: int, d: int, z: int) -> int {
    z * z + (b - d) * z - c
}

/// The output balance that restores the invariant `d` once the input side
/// holds `x_new`, as far as `budget` Newton steps find it: the first settled
/// iterate from `d`.
pub open spec fn balance_within(x_new: u64, d: u64, amp: u64, budget: nat) -> Result<
    u64,
    MathError,
> {
    let ann = 4 * amp;
    if ann < 1 || !fits_u64(2 * ann) || x_new < 1 || !fits_u64(2 * x_new) {
        Err(MathError::Overflow)
    } else if !fits_u128(product_stage(x_new as int, d as int)) {
        Err(MathError::Overflow)
    } else if !fits_u64(balance_coefficient(x_new as int, ann, d as int)) {
        Err(MathError::Overflow)
    } else {
        balance_from(
            balance_coefficient(x_new as int, ann, d as int),
            balance_constant(x_new as int, ann, d as int),
            d as int,
            d as int,
            budget,
        )
    }
}

/// The output balance that restores the invariant `d` once the input side
/// holds `x_new`, within the budget of [`NEWTON_ITERATIONS`] steps.
pub open spec fn balance_for(x_new: u64, d: u64, amp: u64) -> Result<u64, MathError> {
    balance_within(x_new, d, amp, NEWTON_ITERATIONS as nat)
}

/// Whether `r` is the integer square root of `n`: the largest integer whose
/// square does not exceed `n`.
pub open spec fn is_floor_sqrt(n: int, r: int) -> bool {
    0 <= r && r * r <= n < (r + 1) * (r + 1)
}

/// The integer square root of `n`.
pub open spec fn floor_sqrt(n: int) -> int {
    choose|r: int| is_floor_sqrt(n, r)
}

/// The number of basis points in the whole.
pub const BPS_DENOMINATOR: u64 = 10000;

/// The scale of a virtual price: `10^18`.
pub const PRICE_PRECISION: u128 = 1_000_000_000_000_000_000;

/// What is left of `gross` once the fee of `fee_bps` basis points, rounded
/// down, is taken from it. It fails where the product `gross * fee_bps` leaves
/// the working width or the fee exceeds `gross`.
pub open spec fn after_fee(gross: u64, fee_bps: u64) -> Result<u64, MathError> {
    let fee = gross * fee_bps / (BPS_DENOMINATOR as int);
    if !fits_u64(gross * fee_bps) || fee > gross {
        Err(MathError::Overflow)
    } else {
        Ok((gross - fee) as u64)
    }
}

/// What a trade pays out when it moves the output balance from `bal_out` to
/// `new_bal_out`: the fall of the balance, less the fee. A trade that would
/// not lower the balance finds no liquidity.
pub open spec fn proceeds_of(bal_out: u64, new_bal_out: u64, fee_bps: u64) -> Result<
    u64,
    MathError,
> {
    if new_bal_out > bal_out {
        Err(MathError::InsufficientLiquidity)
    } else {
        after_fee((bal_out - new_bal_out) as u64, fee_bps)
    }
}

/// The amount that a trade of `amount_in` yields from the pool
/// `(bal_in, bal_out)`: nothing for an empty trade; else the proceeds of
/// moving the output balance to where the curve puts it once the input side
/// holds `bal_in + amount_in`.
pub open spec fn swap_output(bal_in: u64, bal_out: u64, amount_in: u64, amp: u64, fee_bps: u64)
    -> Result<u64, MathError> {
    if amount_in == 0 {
        Ok(0)
    } else {
        match invariant_of(bal_in, bal_out, amp) {
            Err(e) => Err(e),
            Ok(d) => if !fits_u64(bal_in + amount_in) {
                Err(MathError::Overflow)
            } else {
                match balance_for((bal_in + amount_in) as u64, d, amp) {
                    Err(e) => Err(e),
                    Ok(new_bal_out) => proceeds_of(bal_out, new_bal_out, fee_bps),
                }
            },
        }
    }
}

/// The liquidity tokens minted when the invariant grows from `d0` to `d1`
/// against a supply of `lp_supply`: the supply times the relative growth,
/// rounded down.
pub open spec fn proportional_mint(lp_supply: u64, d0: u64, d1: u64) -> Result<u64, MathError> {
    if d0 == 0 {
        Err(MathError::InvalidInvariant)
    } else if d1 < d0 || !fits_u64(lp_supply * (d1 - d0) / (d0 as int)) {
        Err(MathError::Overflow)
    } else {
        Ok((lp_supply * (d1 - d0) / (d0 as int)) as u64)
    }
}

/// The liquidity tokens minted for a deposit of `(amt0, amt1)` into the pool
/// `(bal0, bal1)`: the geometric mean of the amounts where no token exists
/// yet, else in proportion to the growth of the invariant.
pub open spec fn minted_for(amt0: u64, amt1: u64, bal0: u64, bal1: u64, lp_supply: u64, amp: u64)
    -> Result<u64, MathError> {
    if lp_supply == 0 {
        Ok(floor_sqrt(amt0 * amt1) as u64)
    } else {
        match invariant_of(bal0, bal1, amp) {
            Err(e) => Err(e),
            Ok(d0) => if !fits_u64(bal0 + amt0) || !fits_u64(bal1 + amt1) {
                Err(MathError::Overflow)
            } else {
                match invariant_of((bal0 + amt0) as u64, (bal1 + amt1) as u64, amp) {
                    Err(e) => Err(e),
                    Ok(d1) => proportional_mint(lp_supply, d0, d1),
                }
            },
        }
    }
}

/// The share of `balance` that `lp_amount` out of `lp_supply` tokens claims,
/// rounded down.
pub open spec fn share_of(balance: u64, lp_amount: u64, lp_supply: u64) -> int {
    balance * lp_amount / (lp_supply as int)
}

/// The amounts paid out for burning `lp_amount` of `lp_supply` tokens.
pub open spec fn withdrawn_for(lp_amount: u64, bal0: u64, bal1: u64, lp_supply: u64) -> Result<
    (u64, u64),
    MathError,
> {
    if lp_supply == 0 {
        Err(MathError::InvalidInvariant)
    } else if !fits_u64(share_of(bal0, lp_amount, lp_supply)) || !fits_u64(
        share_of(bal1, lp_amount, lp_supply),
    ) {
        Err(MathError::Overflow)
    } else {
        Ok(
            (
                share_of(bal0, lp_amount, lp_supply) as u64,
                share_of(bal1, lp_amount, lp_supply) as u64,
            ),
        )
    }
}

/// The amplification coefficient in force at `now` on a linear ramp from
/// `amp` at `ramp_start` to `target_amp` at `ramp_end`: `target_amp` once the
/// ramp has ended or where its window is empty, `amp` until it has begun, and
/// between the two the interpolation, rounded towards `amp`.
pub open spec fn effective_amp(amp: u64, target_amp: u64, ramp_start: i64, ramp_end: i64, now: i64)
    -> int {
    if now >= ramp_end || ramp_end == ramp_start {
        target_amp as int
    } else if now <= ramp_start {
        amp as int
    } else if target_amp > amp {
        amp + (target_amp - amp) * (now - ramp_start) / (ramp_end - ramp_start)
    } else {
        amp - (amp - target_amp) * (now - ramp_start) / (ramp_end - ramp_start)
    }
}

/// The least output that a tolerance of `slippage_bps` basis points accepts
/// for an expected output: the product saturates at the working width, the
/// difference at zero.
pub open spec fn min_output(expected: u64, slippage_bps: u64) -> int {
    let product = if expected * slippage_bps > u64::MAX {
        u64::MAX as int
    } else {
        expected * slippage_bps
    };
    let slippage = product / (BPS_DENOMINATOR as int);
    if slippage > expected {
        0
    } else {
        expected - slippage
    }
}

/// The invariant per liquidity token, scaled by [`PRICE_PRECISION`].
pub open spec fn virtual_price(bal0: u64, bal1: u64, lp_supply: u64, amp: u64) -> Result<
    u128,
    MathError,
> {
    if lp_supply == 0 {
        Err(MathError::InvalidInvariant)
    } else {
        match invariant_of(bal0, bal1, amp) {
            Err(e) => Err(e),
            Ok(d) => Ok((d * PRICE_PRECISION / (lp_supply as int)) as u128),
        }
    }
}

} // verus!
