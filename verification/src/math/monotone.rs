//! How a quote moves with the trade and with the fee: a larger trade never
//! leaves more on the output side and never yields less; a higher fee never
//! yields more.
use vstd::prelude::*;

use vstd::arithmetic::div_mod::{lemma_div_is_ordered, lemma_div_is_ordered_by_denominator};

use crate::math::curve::{
    after_fee, balance_coefficient, balance_constant, balance_for, balance_residual, fits_u64,
    invariant_of, proceeds_of, product_stage, swap_output, MathError,
};
use crate::math::laws::lemma_balance_is_settled;

verus! {

/// The constant of the quadratic does not rise with the input balance, and is
/// never negative.
proof fn lemma_balance_constant_falls(x1: int, x2: int, ann: int, d: int)
    requires
        1 <= x1 <= x2,
        ann >= 1,
        d >= 0,
    ensures
        0 <= balance_constant(x2, ann, d) <= balance_constant(x1, ann, d),
{
    let dd = d * d;
    assert(dd >= 0) by (nonlinear_arith)
        requires
            dd == d * d,
    ;
    let q1 = dd / (2 * x1);
    let q2 = dd / (2 * x2);
    lemma_div_is_ordered_by_denominator(dd, 2 * x1, 2 * x2);
    assert(q2 >= 0) by (nonlinear_arith)
        requires
            q2 == dd / (2 * x2),
            dd >= 0,
            x2 >= 1,
    ;
    assert(0 <= q2 * d <= q1 * d) by (nonlinear_arith)
        requires
            0 <= q2 <= q1,
            d >= 0,
    ;
    assert(product_stage(x1, d) == q1 * d);
    assert(product_stage(x2, d) == q2 * d);
    lemma_div_is_ordered(q2 * d, q1 * d, 2 * ann);
    assert((q2 * d) / (2 * ann) >= 0) by (nonlinear_arith)
        requires
            q2 * d >= 0,
            ann >= 1,
    ;
}

/// The more the input side holds, the less the output side has to: for one
/// invariant, the output balance does not rise with the input balance.
pub proof fn lemma_balance_monotone(x1: u64, x2: u64, d: u64, amp: u64)
    requires
        x1 <= x2,
    ensures
        balance_for(x1, d, amp) matches Ok(r1) ==> (balance_for(x2, d, amp) matches Ok(r2) ==> r2
            <= r1),
{
    if x1 < x2 {
        if let Ok(r1) = balance_for(x1, d, amp) {
            if let Ok(r2) = balance_for(x2, d, amp) {
                let ann = 4 * amp;
                let di = d as int;
                let b1 = balance_coefficient(x1 as int, ann, di);
                let c1 = balance_constant(x1 as int, ann, di);
                let b2 = balance_coefficient(x2 as int, ann, di);
                let c2 = balance_constant(x2 as int, ann, di);
                lemma_balance_is_settled(x1, d, amp);
                lemma_balance_is_settled(x2, d, amp);
                lemma_balance_constant_falls(x1 as int, x2 as int, ann, di);
                if r2 >= r1 + 1 {
                    let w = r1 + 1;
                    let g1w = balance_residual(b1, c1, di, w);
                    let g2w = balance_residual(b2, c2, di, w);
                    let g2r = balance_residual(b2, c2, di, r2 as int);
                    assert(g2w >= g1w + w) by (nonlinear_arith)
                        requires
                            g1w == w * w + (b1 - di) * w - c1,
                            g2w == w * w + (b2 - di) * w - c2,
                            b2 - b1 >= 1,
                            c2 <= c1,
                            w >= 1,
                    {
                        assert((b2 - di) * w - (b1 - di) * w == (b2 - b1) * w);
                        assert((b2 - b1) * w >= w);
                    }
                    assert(g2r >= g2w) by (nonlinear_arith)
                        requires
                            g2w == w * w + (b2 - di) * w - c2,
                            g2r == r2 * r2 + (b2 - di) * r2 - c2,
                            g2w >= 1,
                            c2 >= 0,
                            r2 >= w,
                            w >= 1,
                    {
                        let sl = w + (b2 - di);
                        assert(w * sl == w * w + (b2 - di) * w);
                        assert(w * sl >= 1);
                        if sl <= 0 {
                            assert(w * sl <= 0);
                        }
                        assert(g2r - g2w == (r2 - w) * (r2 + sl));
                        assert((r2 - w) * (r2 + sl) >= 0);
                    }
                    assert(false);
                }
            }
        }
    }
}

/// What is left after the fee does not fall as the amount grows.
proof fn lemma_after_fee_grows(g1: u64, g2: u64, fee_bps: u64)
    requires
        g1 <= g2,
    ensures
        after_fee(g1, fee_bps) matches Ok(o1) ==> (after_fee(g2, fee_bps) matches Ok(o2) ==> o1
            <= o2),
{
    let f = fee_bps as int;
    let fee_lo_part = g1 * f;
    let fee_hi_part = g2 * f;
    let k = g2 - g1;
    if after_fee(g1, fee_bps) is Ok && after_fee(g2, fee_bps) is Ok {
        if f <= 10000 {
            assert(fee_hi_part <= fee_lo_part + k * 10000) by (nonlinear_arith)
                requires
                    fee_lo_part == g1 * f,
                    fee_hi_part == g2 * f,
                    k == g2 - g1,
                    k >= 0,
                    0 <= f <= 10000,
            {
                assert(g2 * f == g1 * f + k * f);
                assert(k * f <= k * 10000);
            }
            lemma_div_is_ordered(fee_hi_part, fee_lo_part + k * 10000, 10000);
            assert((fee_lo_part + k * 10000) / 10000 == fee_lo_part / 10000 + k);
        } else {
            assert(fee_lo_part / 10000 >= g1 && fee_hi_part / 10000 >= g2) by (nonlinear_arith)
                requires
                    fee_lo_part == g1 * f,
                    fee_hi_part == g2 * f,
                    f >= 10000,
                    g1 >= 0,
                    g2 >= 0,
            {
                assert(g1 * f >= g1 * 10000);
                assert(g2 * f >= g2 * 10000);
            }
        }
    }
}

/// A larger trade never yields less: where the quotes for two amounts both
/// succeed, the quote for the larger amount is at least the quote for the
/// smaller.
pub proof fn lemma_swap_monotone(
    bal_in: u64,
    bal_out: u64,
    amount_lo: u64,
    amount_hi: u64,
    amp: u64,
    fee_bps: u64,
)
    requires
        amount_lo <= amount_hi,
    ensures
        swap_output(bal_in, bal_out, amount_lo, amp, fee_bps) matches Ok(lo) ==> (swap_output(
            bal_in,
            bal_out,
            amount_hi,
            amp,
            fee_bps,
        ) matches Ok(hi) ==> lo <= hi),
{
    if 0 < amount_lo {
        if let Ok(d) = invariant_of(bal_in, bal_out, amp) {
            if fits_u64(bal_in + amount_hi) {
                let x1 = (bal_in + amount_lo) as u64;
                let x2 = (bal_in + amount_hi) as u64;
                lemma_balance_monotone(x1, x2, d, amp);
                if let Ok(r1) = balance_for(x1, d, amp) {
                    if let Ok(r2) = balance_for(x2, d, amp) {
                        if r1 <= bal_out {
                            lemma_after_fee_grows(
                                (bal_out - r1) as u64,
                                (bal_out - r2) as u64,
                                fee_bps,
                            );
                        }
                    }
                }
            }
        }
    }
}

/// What is left of an amount after the fee does not rise with the fee.
proof fn lemma_after_fee_monotone(gross: u64, fee_lo: u64, fee_hi: u64)
    requires
        fee_lo <= fee_hi,
    ensures
        after_fee(gross, fee_hi) matches Ok(hi) ==> (after_fee(gross, fee_lo) matches Ok(lo) && lo
            >= hi),
        after_fee(gross, 0) == Ok::<u64, MathError>(gross),
        after_fee(gross, fee_lo) matches Ok(lo) ==> lo <= gross,
{
    let g = gross as int;
    let lo = fee_lo as int;
    let hi = fee_hi as int;
    assert(0 <= g * lo <= g * hi) by (nonlinear_arith)
        requires
            0 <= g,
            0 <= lo <= hi,
    ;
    assert(0 <= (g * lo) / 10000 <= (g * hi) / 10000);
    assert(g * 0 == 0) by (nonlinear_arith);
}

/// What a trade pays out does not rise with the fee, never exceeds the fall
/// of the output balance, and equals it where the fee is zero.
pub proof fn lemma_proceeds_monotone(bal_out: u64, new_bal_out: u64, fee_lo: u64, fee_hi: u64)
    requires
        fee_lo <= fee_hi,
    ensures
        proceeds_of(bal_out, new_bal_out, fee_hi) matches Ok(hi) ==> (proceeds_of(
            bal_out,
            new_bal_out,
            fee_lo,
        ) matches Ok(lo) && hi <= lo <= bal_out - new_bal_out),
        new_bal_out <= bal_out ==> proceeds_of(bal_out, new_bal_out, 0) == Ok::<u64, MathError>(
            (bal_out - new_bal_out) as u64,
        ),
{
    if new_bal_out <= bal_out {
        lemma_after_fee_monotone((bal_out - new_bal_out) as u64, fee_lo, fee_hi);
    }
}

/// A higher fee never raises what a trade yields: where the quote at the
/// higher fee succeeds, so does the quote at the lower one, with at least as
/// much.
pub proof fn lemma_fee_monotone(
    bal_in: u64,
    bal_out: u64,
    amount_in: u64,
    amp: u64,
    fee_lo: u64,
    fee_hi: u64,
)
    requires
        fee_lo <= fee_hi,
    ensures
        swap_output(bal_in, bal_out, amount_in, amp, fee_hi) matches Ok(hi) ==> (swap_output(
            bal_in,
            bal_out,
            amount_in,
            amp,
            fee_lo,
        ) matches Ok(lo) && lo >= hi),
{
    if amount_in != 0 {
        if let Ok(d) = invariant_of(bal_in, bal_out, amp) {
            if fits_u64(bal_in + amount_in) {
                if let Ok(new_out) = balance_for((bal_in + amount_in) as u64, d, amp) {
                    lemma_proceeds_monotone(bal_out, new_out, fee_lo, fee_hi);
                }
            }
        }
    }
}

} // verus!
