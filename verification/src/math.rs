//! The StableSwap solver and the operations derived from it.
//!
//! The executable functions stand here, and what each returns is defined in
//! [`curve`]. The other modules prove what holds of those definitions:
//! [`laws`] of both solvers, [`bounds`] where the invariant lies, [`balanced`]
//! the balanced pool, [`monotone`] how a quote moves with the trade and the
//! fee, [`shares`] how liquidity tokens are minted and burnt, and [`ramp`] the
//! course of the amplification. [`lemmas`] holds the arithmetic that the loops
//! rest on. Nothing here is in floating point.
use vstd::prelude::*;

pub mod balanced;
pub mod bounds;
pub mod curve;
pub mod laws;
pub mod lemmas;
pub mod monotone;
pub mod ramp;
pub mod shares;

use crate::constants::NEWTON_ITERATIONS;
use crate::math::bounds::lemma_invariant_within_sum;
use crate::math::curve::{
    balance_for, balance_from, balance_within, effective_amp, fits_u128, floor_sqrt,
    invariant_from, invariant_of, invariant_within, is_floor_sqrt, min_output, minted_for,
    proceeds_of, product_term, swap_output, virtual_price, withdrawn_for, MathError,
    BPS_DENOMINATOR, PRICE_PRECISION,
};
use crate::math::lemmas::{
    lemma_floor_sqrt_unique, lemma_invariant_step_bounds, lemma_ramp_part, lemma_sqrt_step,
    lemma_sqrt_sum_fits,
};

verus! {

/// Turns the outcome of a checked arithmetic operation into a result whose
/// failure is [`MathError::Overflow`].
fn checked_u64(v: Option<u64>) -> (r: Result<u64, MathError>)
    ensures
        r == (match v {
            Some(n) => Ok::<u64, MathError>(n),
            None => Err::<u64, MathError>(MathError::Overflow),
        }),
{
    match v {
        Some(n) => Ok(n),
        None => Err(MathError::Overflow),
    }
}

/// As [`checked_u64`], on the wide type.
fn checked_u128(v: Option<u128>) -> (r: Result<u128, MathError>)
    ensures
        r == (match v {
            Some(n) => Ok::<u128, MathError>(n),
            None => Err::<u128, MathError>(MathError::Overflow),
        }),
{
    match v {
        Some(n) => Ok(n),
        None => Err(MathError::Overflow),
    }
}

/// Computes the invariant `D` of a pool holding `x` and `y` under
/// amplification `amp`, by at most [`NEWTON_ITERATIONS`] Newton steps from
/// `x + y`. The empty pool has the invariant zero.
///
/// The call fails with [`MathError::Overflow`] where a step of the
/// arithmetic leaves its type, which includes a pool that holds one asset
/// only and an amplification of zero, and with
/// [`MathError::ConvergenceFailure`] where no step within the budget moves
/// the iterate by one unit or less.
pub fn calc_d(x: u64, y: u64, amp: u64) -> (r: Result<u64, MathError>)
    ensures
        r == invariant_of(x, y, amp),
        r matches Ok(d) ==> d <= x + y && (d == 0 <==> x == 0 && y == 0),
{
    calc_d_within(x, y, amp, NEWTON_ITERATIONS)
}

/// Computes the invariant as [`calc_d`] does, by at most `max_iterations`
/// Newton steps. A result other than [`MathError::ConvergenceFailure`] is the
/// result of [`calc_d`].
pub fn calc_d_within(x: u64, y: u64, amp: u64, max_iterations: u8) -> (r: Result<u64, MathError>)
    ensures
        r == invariant_within(x, y, amp, max_iterations as nat),
        r matches Ok(d) ==> d <= x + y && (d == 0 <==> x == 0 && y == 0),
{
    let s: u64 = checked_u64(x.checked_add(y))?;
    if s == 0 {
        return Ok(0);
    }
    let ann: u64 = checked_u64(amp.checked_mul(4))?;
    let mut d: u64 = s;
    let mut i: u8 = 0;
    while i < max_iterations
        invariant
            i <= max_iterations,
            s == x + y,
            ann == 4 * amp,
            d >= 1,
            invariant_from(x as int, y as int, ann as int, d as int, (max_iterations - i) as nat)
                == invariant_within(x, y, amp, max_iterations as nat),
        decreases max_iterations - i,
    {
        proof {
            lemma_invariant_step_bounds(x as int, y as int, ann as int, d as int);
        }
        // d_p = d^3 / (4 * x * y), in two stages
        let d_sq: u128 = checked_u128((d as u128).checked_mul(d as u128))?;
        let x2: u64 = checked_u64(x.checked_mul(2))?;
        let q: u128 = checked_u128(d_sq.checked_div(x2 as u128))?;
        let stage: u128 = checked_u128(q.checked_mul(d as u128))?;
        let y2: u64 = checked_u64(y.checked_mul(2))?;
        let d_p: u128 = checked_u128(stage.checked_div(y2 as u128))?;
        assert(d_p == product_term(x as int, y as int, d as int));
        let d_prev: u64 = d;
        // (ann * s + 2 * d_p) * d
        let ann_s: u128 = checked_u128((ann as u128).checked_mul(s as u128))?;
        let d_p_twice: u128 = checked_u128(d_p.checked_mul(2))?;
        let num_sum: u128 = checked_u128(ann_s.checked_add(d_p_twice))?;
        let num: u128 = checked_u128(num_sum.checked_mul(d as u128))?;
        // (ann - 1) * d + 3 * d_p
        let ann_less_one: u64 = checked_u64(ann.checked_sub(1))?;
        let ann_d: u128 = checked_u128((ann_less_one as u128).checked_mul(d as u128))?;
        let d_p_thrice: u128 = checked_u128(d_p.checked_mul(3))?;
        let denom: u128 = checked_u128(ann_d.checked_add(d_p_thrice))?;
        let next: u128 = num / denom;
        if next > u64::MAX as u128 {
            return Err(MathError::Overflow);
        }
        d = next as u64;
        let diff: u64 = if d > d_prev { d - d_prev } else { d_prev - d };
        if diff <= 1 {
            proof {
                lemma_invariant_within_sum(x, y, amp, max_iterations as nat);
            }
            return Ok(d);
        }
        i += 1;
    }
    Err(MathError::ConvergenceFailure)
}

/// Solves for the output balance that restores the invariant `d` once the
/// input side holds `x_new`, by at most [`NEWTON_ITERATIONS`] Newton steps
/// from `d`.
///
/// The call fails with [`MathError::Overflow`] where a step of the
/// arithmetic leaves its type or a denominator is not positive, which
/// includes an input balance or an amplification of zero, and with
/// [`MathError::ConvergenceFailure`] where no step within the budget moves
/// the iterate by one unit or less.
pub fn calc_y(x_new: u64, d: u64, amp: u64) -> (r: Result<u64, MathError>)
    ensures
        r == balance_for(x_new, d, amp),
{
    calc_y_within(x_new, d, amp, NEWTON_ITERATIONS)
}

/// Solves for the output balance as [`calc_y`] does, by at most
/// `max_iterations` Newton steps. A result other than
/// [`MathError::ConvergenceFailure`] is the result of [`calc_y`].
pub fn calc_y_within(x_new: u64, d: u64, amp: u64, max_iterations: u8) -> (r: Result<
    u64,
    MathError,
>)
    ensures
        r == balance_within(x_new, d, amp, max_iterations as nat),
{
    let ann: u64 = checked_u64(amp.checked_mul(4))?;
    assert(fits_u128(d * d)) by (nonlinear_arith)
        requires
            0 <= d <= u64::MAX,
    ;
    // c = d^3 / (4 * x_new * ann), in two stages
    let d_sq: u128 = checked_u128((d as u128).checked_mul(d as u128))?;
    let x2: u64 = checked_u64(x_new.checked_mul(2))?;
    let q: u128 = checked_u128(d_sq.checked_div(x2 as u128))?;
    let stage: u128 = checked_u128(q.checked_mul(d as u128))?;
    let ann2: u64 = checked_u64(ann.checked_mul(2))?;
    let c: u128 = checked_u128(stage.checked_div(ann2 as u128))?;
    // b = x_new + d / ann
    let b: u64 = checked_u64(x_new.checked_add(d / ann))?;
    let mut y: u64 = d;
    let mut i: u8 = 0;
    while i < max_iterations
        invariant
            i <= max_iterations,
            balance_from(b as int, c as int, d as int, y as int, (max_iterations - i) as nat)
                == balance_within(x_new, d, amp, max_iterations as nat),
        decreases max_iterations - i,
    {
        let y_prev: u64 = y;
        assert(fits_u128(y * y)) by (nonlinear_arith)
            requires
                0 <= y <= u64::MAX,
        ;
        // (y^2 + c) / (2 * y + b - d)
        let y_sq: u128 = checked_u128((y as u128).checked_mul(y as u128))?;
        let num: u128 = checked_u128(y_sq.checked_add(c))?;
        let y2: u64 = checked_u64(y.checked_mul(2))?;
        let y2b: u64 = checked_u64(y2.checked_add(b))?;
        let denom: u64 = checked_u64(y2b.checked_sub(d))?;
        let next: u128 = checked_u128(num.checked_div(denom as u128))?;
        if next > u64::MAX as u128 {
            return Err(MathError::Overflow);
        }
        y = next as u64;
        let diff: u64 = if y > y_prev { y - y_prev } else { y_prev - y };
        if diff <= 1 {
            return Ok(y);
        }
        i += 1;
    }
    Err(MathError::ConvergenceFailure)
}

/// Computes the integer square root of `n`, by Newton's method from `n`
/// downwards: exact on a perfect square, rounded down on any other number.
pub fn isqrt(n: u128) -> (r: u128)
    ensures
        is_floor_sqrt(n as int, r as int),
        r == floor_sqrt(n as int),
{
    if n == 0 {
        proof {
            assert(is_floor_sqrt(0, 0)) by (nonlinear_arith);
            lemma_floor_sqrt_unique(0, 0, 0);
        }
        return 0;
    }
    if n <= 3 {
        proof {
            assert(is_floor_sqrt(n as int, 1)) by (nonlinear_arith)
                requires
                    1 <= n <= 3,
            ;
            lemma_floor_sqrt_unique(n as int, 1, 1);
        }
        return 1;
    }
    let mut x: u128 = n;
    let mut y: u128 = (x - 1) / 2 + 1;
    proof {
        assert(n / n == 1) by (nonlinear_arith)
            requires
                n >= 1,
        ;
        assert(n < (n + 1) * (n + 1)) by (nonlinear_arith)
            requires
                n >= 1,
        ;
    }
    while y < x
        invariant
            n >= 4,
            1 <= x <= n,
            n < (x + 1) * (x + 1),
            y == (x + n / x) / 2,
            x + n / x <= u128::MAX + 1,
        decreases x,
    {
        proof {
            lemma_sqrt_step(n as int, x as int);
        }
        x = y;
        proof {
            lemma_sqrt_sum_fits(n as int, x as int);
        }
        y = (x + n / x) / 2;
    }
    proof {
        lemma_sqrt_step(n as int, x as int);
        lemma_floor_sqrt_unique(n as int, x as int, x as int);
    }
    x
}

/// Computes what a trade pays out when it moves the output balance from
/// `bal_out` to `new_bal_out`, at a fee of `fee_bps` basis points: the fall of
/// the balance less the fee, which is rounded down.
///
/// The call fails with [`MathError::InsufficientLiquidity`] where the new
/// balance exceeds the old one, and with [`MathError::Overflow`] where the
/// product of the fall and `fee_bps` leaves the working width or the fee
/// exceeds the fall.
pub fn swap_proceeds(bal_out: u64, new_bal_out: u64, fee_bps: u64) -> (r: Result<u64, MathError>)
    ensures
        r == proceeds_of(bal_out, new_bal_out, fee_bps),
        r matches Ok(out) ==> out <= bal_out - new_bal_out,
        fee_bps == 0 && new_bal_out <= bal_out ==> r == Ok::<u64, MathError>(
            (bal_out - new_bal_out) as u64,
        ),
{
    let gross: u64 = match bal_out.checked_sub(new_bal_out) {
        Some(g) => g,
        None => {
            return Err(MathError::InsufficientLiquidity);
        },
    };
    assert(gross * 0 == 0) by (nonlinear_arith);
    let fee: u64 = checked_u64(gross.checked_mul(fee_bps))? / BPS_DENOMINATOR;
    checked_u64(gross.checked_sub(fee))
}

/// Projects the amount that a trade of `amount_in` would yield from the pool
/// `(bal_in, bal_out)` at a fee of `fee_bps` basis points. An empty trade
/// yields nothing, whatever the pool.
///
/// Any other trade fails as [`calc_d`] fails on the pool, as [`calc_y`] fails
/// on the new input balance, and as [`swap_proceeds`] fails on the new output
/// balance; it fails with [`MathError::Overflow`] where the new input balance
/// leaves the working width.
pub fn simulate_swap(bal_in: u64, bal_out: u64, amount_in: u64, amp: u64, fee_bps: u64) -> (r:
    Result<u64, MathError>)
    ensures
        r == swap_output(bal_in, bal_out, amount_in, amp, fee_bps),
        amount_in == 0 ==> r == Ok::<u64, MathError>(0),
        r matches Ok(out) ==> out <= bal_out,
{
    if amount_in == 0 {
        return Ok(0);
    }
    let d: u64 = calc_d(bal_in, bal_out, amp)?;
    let new_bal_in: u64 = checked_u64(bal_in.checked_add(amount_in))?;
    let new_bal_out: u64 = calc_y(new_bal_in, d, amp)?;
    swap_proceeds(bal_out, new_bal_out, fee_bps)
}

/// Computes the liquidity tokens minted for a deposit of `(amt0, amt1)` into
/// the pool `(bal0, bal1)` with `lp_supply` tokens outstanding: the integer
/// square root of `amt0 * amt1` where there are none, whatever the
/// amplification; else `lp_supply * (d1 - d0) / d0`, rounded down, for the
/// invariants `d0` before and `d1` after the deposit.
///
/// A deposit against an outstanding supply fails as [`calc_d`] fails on the
/// pool before or after it, with [`MathError::InvalidInvariant`] where the
/// invariant before it is zero, and with [`MathError::Overflow`] where a new
/// balance or the result leaves the working width or the invariant falls.
pub fn calc_lp_tokens(amt0: u64, amt1: u64, bal0: u64, bal1: u64, lp_supply: u64, amp: u64) -> (r:
    Result<u64, MathError>)
    ensures
        r == minted_for(amt0, amt1, bal0, bal1, lp_supply, amp),
        lp_supply == 0 ==> r is Ok && is_floor_sqrt(amt0 * amt1, r->Ok_0 as int),
{
    if lp_supply == 0 {
        assert(fits_u128(amt0 * amt1) && amt0 * amt1 < 0x1_0000_0000_0000_0000
            * 0x1_0000_0000_0000_0000) by (nonlinear_arith)
            requires
                0 <= amt0 <= u64::MAX,
                0 <= amt1 <= u64::MAX,
        ;
        let product: u128 = checked_u128((amt0 as u128).checked_mul(amt1 as u128))?;
        let root: u128 = isqrt(product);
        proof {
            lemma_floor_sqrt_unique(product as int, root as int, root as int);
            assert(root <= u64::MAX) by (nonlinear_arith)
                requires
                    0 <= root,
                    root * root <= product,
                    product < 0x1_0000_0000_0000_0000 * 0x1_0000_0000_0000_0000,
            ;
        }
        return Ok(root as u64);
    }
    let d0: u64 = calc_d(bal0, bal1, amp)?;
    let new_bal0: u64 = checked_u64(bal0.checked_add(amt0))?;
    let new_bal1: u64 = checked_u64(bal1.checked_add(amt1))?;
    let d1: u64 = calc_d(new_bal0, new_bal1, amp)?;
    if d0 == 0 {
        return Err(MathError::InvalidInvariant);
    }
    let growth: u64 = checked_u64(d1.checked_sub(d0))?;
    assert(fits_u128(lp_supply * growth)) by (nonlinear_arith)
        requires
            0 <= lp_supply <= u64::MAX,
            0 <= growth <= u64::MAX,
    ;
    let lp: u128 = checked_u128((lp_supply as u128).checked_mul(growth as u128))? / (d0 as u128);
    if lp > u64::MAX as u128 {
        return Err(MathError::Overflow);
    }
    Ok(lp as u64)
}

/// Computes the amounts paid out for burning `lp_amount` of the `lp_supply`
/// tokens of the pool `(bal0, bal1)`: of each balance the share
/// `lp_amount / lp_supply`, rounded down.
///
/// The call fails with [`MathError::InvalidInvariant`] where the supply is
/// zero, and with [`MathError::Overflow`] where an amount leaves the working
/// width, as it can only where more is burnt than the supply.
pub fn calc_withdraw(lp_amount: u64, bal0: u64, bal1: u64, lp_supply: u64) -> (r: Result<
    (u64, u64),
    MathError,
>)
    ensures
        r == withdrawn_for(lp_amount, bal0, bal1, lp_supply),
{
    if lp_supply == 0 {
        return Err(MathError::InvalidInvariant);
    }
    assert(fits_u128(bal0 * lp_amount) && fits_u128(bal1 * lp_amount)) by (nonlinear_arith)
        requires
            0 <= bal0 <= u64::MAX,
            0 <= bal1 <= u64::MAX,
            0 <= lp_amount <= u64::MAX,
    ;
    let amount0: u128 = checked_u128((bal0 as u128).checked_mul(lp_amount as u128))? / (
    lp_supply as u128);
    let amount1: u128 = checked_u128((bal1 as u128).checked_mul(lp_amount as u128))? / (
    lp_supply as u128);
    if amount0 > u64::MAX as u128 || amount1 > u64::MAX as u128 {
        return Err(MathError::Overflow);
    }
    Ok((amount0 as u64, amount1 as u64))
}

/// Computes the amplification coefficient in force at `now` on a ramp from
/// `amp` at `ramp_start` to `target_amp` at `ramp_end`: `target_amp` once the
/// ramp has ended or where its window is empty, `amp` until it has begun, and
/// between the two the linear interpolation, rounded towards `amp`. The
/// function is total.
pub fn get_current_amp(amp: u64, target_amp: u64, ramp_start: i64, ramp_end: i64, now: i64) -> (r:
    u64)
    ensures
        r == effective_amp(amp, target_amp, ramp_start, ramp_end, now),
        amp <= target_amp ==> amp <= r <= target_amp,
        target_amp <= amp ==> target_amp <= r <= amp,
{
    if now >= ramp_end || ramp_end == ramp_start {
        return target_amp;
    }
    if now <= ramp_start {
        return amp;
    }
    let elapsed: u64 = (now as i128 - ramp_start as i128) as u64;
    let duration: u64 = (ramp_end as i128 - ramp_start as i128) as u64;
    if target_amp > amp {
        let diff: u64 = target_amp - amp;
        proof {
            lemma_ramp_part(diff as int, elapsed as int, duration as int);
        }
        let part: u128 = (diff as u128) * (elapsed as u128) / (duration as u128);
        amp + part as u64
    } else {
        let diff: u64 = amp - target_amp;
        proof {
            lemma_ramp_part(diff as int, elapsed as int, duration as int);
        }
        let part: u128 = (diff as u128) * (elapsed as u128) / (duration as u128);
        amp - part as u64
    }
}

/// Computes the least output that a tolerance of `slippage_bps` basis points
/// accepts for an expected output of `expected`:
/// `expected - expected * slippage_bps / 10000`, where the product saturates
/// at the working width and the difference at zero.
pub fn calc_min_output(expected: u64, slippage_bps: u64) -> (r: u64)
    ensures
        r == min_output(expected, slippage_bps),
        r <= expected,
{
    let product: u64 = match expected.checked_mul(slippage_bps) {
        Some(p) => p,
        None => u64::MAX,
    };
    let slippage: u64 = product / BPS_DENOMINATOR;
    expected.saturating_sub(slippage)
}

/// Computes the invariant per liquidity token of the pool `(bal0, bal1)`,
/// scaled by [`PRICE_PRECISION`] and rounded down.
///
/// The call fails with [`MathError::InvalidInvariant`] where the supply is
/// zero, and as [`calc_d`] fails on the pool.
pub fn calc_virtual_price(bal0: u64, bal1: u64, lp_supply: u64, amp: u64) -> (r: Result<
    u128,
    MathError,
>)
    ensures
        r == virtual_price(bal0, bal1, lp_supply, amp),
{
    if lp_supply == 0 {
        return Err(MathError::InvalidInvariant);
    }
    let d: u64 = calc_d(bal0, bal1, amp)?;
    assert(fits_u128(d * PRICE_PRECISION)) by (nonlinear_arith)
        requires
            0 <= d <= u64::MAX,
            PRICE_PRECISION == 1_000_000_000_000_000_000,
    ;
    let scaled: u128 = checked_u128((d as u128).checked_mul(PRICE_PRECISION))?;
    Ok(scaled / (lp_supply as u128))
}

} // verus!
