//! Liquidity tokens: what a deposit mints and a burn pays, and how both
//! round.
use vstd::prelude::*;

use crate::math::curve::{
    floor_sqrt, is_floor_sqrt, minted_for, proportional_mint, share_of, withdrawn_for, MathError,
};
use crate::math::lemmas::lemma_floor_sqrt_unique;

verus! {

/// Every natural number has an integer square root.
pub proof fn lemma_floor_sqrt_exists(n: int)
    requires
        n >= 0,
    ensures
        is_floor_sqrt(n, floor_sqrt(n)),
    decreases n,
{
    if n == 0 {
        assert(is_floor_sqrt(0, 0)) by (nonlinear_arith);
    } else {
        lemma_floor_sqrt_exists(n - 1);
        let r = floor_sqrt(n - 1);
        if (r + 1) * (r + 1) <= n {
            assert(is_floor_sqrt(n, r + 1)) by (nonlinear_arith)
                requires
                    0 <= r,
                    r * r <= n - 1 < (r + 1) * (r + 1),
                    (r + 1) * (r + 1) <= n,
            ;
        } else {
            assert(is_floor_sqrt(n, r));
        }
    }
}

/// The square root is exact on a perfect square.
pub proof fn lemma_floor_sqrt_of_square(k: int)
    requires
        k >= 0,
    ensures
        floor_sqrt(k * k) == k,
{
    assert(is_floor_sqrt(k * k, k)) by (nonlinear_arith)
        requires
            k >= 0,
    ;
    lemma_floor_sqrt_unique(k * k, k, k);
}

/// The first deposit mints the integer square root of the product of its
/// amounts, whatever the pool is said to hold; and burning every token so
/// minted pays the deposit back in full, so never more than was put in. Where
/// the root is zero there is no supply to burn against.
pub proof fn lemma_first_deposit_round_trip(
    amt0: u64,
    amt1: u64,
    bal0: u64,
    bal1: u64,
    amp: u64,
)
    ensures
        minted_for(amt0, amt1, bal0, bal1, 0, amp) matches Ok(lp) && is_floor_sqrt(
            amt0 * amt1,
            lp as int,
        ) && withdrawn_for(lp, amt0, amt1, lp) == (if lp == 0 {
            Err::<(u64, u64), MathError>(MathError::InvalidInvariant)
        } else {
            Ok::<(u64, u64), MathError>((amt0, amt1))
        }),
{
    let n = amt0 * amt1;
    lemma_floor_sqrt_exists(n);
    let r = floor_sqrt(n);
    assert(r <= u64::MAX) by (nonlinear_arith)
        requires
            0 <= r,
            r * r <= n,
            n == amt0 * amt1,
            0 <= amt0 <= u64::MAX,
            0 <= amt1 <= u64::MAX,
    {
        assert(amt0 * amt1 <= u64::MAX * u64::MAX);
        if r > u64::MAX {
            assert(r * r >= (u64::MAX + 1) * (u64::MAX + 1));
        }
    }
    let lp = r as u64;
    if lp != 0 {
        lemma_full_share(amt0, lp);
        lemma_full_share(amt1, lp);
    }
}

/// The whole supply claims the whole balance.
proof fn lemma_full_share(balance: u64, lp: u64)
    requires
        lp >= 1,
    ensures
        share_of(balance, lp, lp) == balance,
{
    let b = balance as int;
    let l = lp as int;
    assert((b * l) / l == b) by (nonlinear_arith)
        requires
            l >= 1,
            b >= 0,
    ;
}

/// A later deposit mints rounded down: the tokens minted, scaled by the old
/// invariant, do not exceed the supply scaled by the growth of the invariant,
/// and one token more would. No growth mints nothing.
pub proof fn lemma_mint_rounds_down(lp_supply: u64, d0: u64, d1: u64)
    ensures
        proportional_mint(lp_supply, d0, d1) matches Ok(lp) ==> lp * d0 <= lp_supply * (d1 - d0)
            < (lp + 1) * d0,
        d0 >= 1 ==> proportional_mint(lp_supply, d0, d0) == Ok::<u64, MathError>(0),
{
    if d0 >= 1 {
        if d1 >= d0 {
            let g = lp_supply * (d1 - d0);
            let q = g / (d0 as int);
            assert(g >= 0) by (nonlinear_arith)
                requires
                    g == lp_supply * (d1 - d0),
                    d1 >= d0,
            ;
            assert(q * d0 <= g < (q + 1) * d0) by (nonlinear_arith)
                requires
                    q == g / (d0 as int),
                    g >= 0,
                    d0 >= 1,
            ;
        }
        assert(lp_supply * (d0 - d0) == 0) by (nonlinear_arith);
    }
}

/// A withdrawal rounds down: what it pays, scaled by the supply, does not
/// exceed the balance scaled by the tokens burnt; and a burn of no more than
/// the supply pays no more than the pool holds.
pub proof fn lemma_withdraw_rounds_down(lp_amount: u64, bal0: u64, bal1: u64, lp_supply: u64)
    ensures
        withdrawn_for(lp_amount, bal0, bal1, lp_supply) matches Ok((a0, a1)) ==> {
            &&& a0 * lp_supply <= bal0 * lp_amount < (a0 + 1) * lp_supply
            &&& a1 * lp_supply <= bal1 * lp_amount < (a1 + 1) * lp_supply
            &&& lp_amount <= lp_supply ==> a0 <= bal0 && a1 <= bal1
        },
        lp_supply >= 1 && lp_amount <= lp_supply ==> withdrawn_for(
            lp_amount,
            bal0,
            bal1,
            lp_supply,
        ) is Ok,
{
    if lp_supply >= 1 {
        lemma_share_bounds(bal0, lp_amount, lp_supply);
        lemma_share_bounds(bal1, lp_amount, lp_supply);
    }
}

/// The bounds of a rounded share.
proof fn lemma_share_bounds(balance: u64, lp_amount: u64, lp_supply: u64)
    requires
        lp_supply >= 1,
    ensures
        share_of(balance, lp_amount, lp_supply) >= 0,
        share_of(balance, lp_amount, lp_supply) * lp_supply <= balance * lp_amount < (share_of(
            balance,
            lp_amount,
            lp_supply,
        ) + 1) * lp_supply,
        lp_amount <= lp_supply ==> share_of(balance, lp_amount, lp_supply) <= balance,
{
    let p = balance * lp_amount;
    let s = lp_supply as int;
    let q = p / s;
    assert(p >= 0) by (nonlinear_arith)
        requires
            p == balance * lp_amount,
            balance >= 0,
            lp_amount >= 0,
    ;
    assert(q >= 0 && q * s <= p < (q + 1) * s) by (nonlinear_arith)
        requires
            q == p / s,
            p >= 0,
            s >= 1,
    ;
    if lp_amount <= lp_supply {
        assert(q <= balance) by (nonlinear_arith)
            requires
                q * s <= p,
                p == balance * lp_amount,
                0 <= lp_amount <= s,
                s >= 1,
                balance >= 0,
                q >= 0,
        {
            assert(balance * lp_amount <= balance * s);
            if q > balance {
                assert(q * s >= (balance + 1) * s);
            }
        }
    }
}

} // verus!
