use aex402_sdk::math::{
    calc_d, calc_d_within, calc_lp_tokens, calc_min_output, calc_virtual_price, calc_withdraw,
    calc_y, calc_y_within, get_current_amp, isqrt, simulate_swap, swap_proceeds,
};
use aex402_sdk::{MathError, NEWTON_ITERATIONS};

#[test]
fn test_calc_d() {
    let d = calc_d(1_000_000_000_000, 1_000_000_000_000, 1000).unwrap();
    assert!(d > 0);
    assert!(d >= 2_000_000_000_000); // D >= sum of balances
}

#[test]
fn test_simulate_swap() {
    let bal = 1_000_000_000_000u64;
    let out = simulate_swap(bal, bal, 10_000_000_000, 1000, 30).unwrap();

    // Output should be slightly less than input (due to fee + curve)
    assert!(out < 10_000_000_000);
    assert!(out > 9_900_000_000); // Not too much slippage
}

#[test]
fn iteration_budget_is_255() {
    assert_eq!(NEWTON_ITERATIONS, 255);
}

#[test]
fn invariant_of_empty_pool_is_zero() {
    for amp in [0u64, 1, 1000, u64::MAX] {
        assert_eq!(calc_d(0, 0, amp), Ok(0));
    }
}

#[test]
fn invariant_of_balanced_pool_is_sum() {
    assert_eq!(calc_d(1_000_000_000_000, 1_000_000_000_000, 1000), Ok(2_000_000_000_000));
    assert_eq!(calc_d(1, 1, 1), Ok(2));
    assert_eq!(calc_d(1000, 1000, 100), Ok(2000));
}

#[test]
fn invariant_exact_values() {
    assert_eq!(calc_d(100, 200, 10), Ok(299));
    assert_eq!(calc_d(1_000_000, 3_000_000, 100), Ok(3_996_691));
    assert_eq!(calc_d(2_000_000_000_000, 1_000_000_000_000, 1000), Ok(2_999_906_305_628));
    assert_eq!(calc_d(1, 52990, 10), Ok(7299));
}

#[test]
fn invariant_of_unbalanced_pool_is_below_sum() {
    assert_eq!(calc_d(1, 3, 1), Ok(3));
}

#[test]
fn invariant_is_zero_only_for_empty_pool() {
    for (x, y) in [(1u64, 1u64), (1, 3), (100, 200), (7, 9000)] {
        let d = calc_d(x, y, 10).unwrap();
        assert!(d > 0);
    }
}

#[test]
fn invariant_overflow() {
    assert_eq!(calc_d(u64::MAX, 1, 1), Err(MathError::Overflow));
    assert_eq!(calc_d(1 << 63, (1 << 63) - 1, 1), Err(MathError::Overflow));
    assert_eq!(calc_d(1, 1, 1 << 62), Err(MathError::Overflow));
    assert_eq!(calc_d(1 << 60, 1 << 60, 1000), Err(MathError::Overflow));
}

#[test]
fn invariant_of_one_sided_pool_fails() {
    assert_eq!(calc_d(5, 0, 1), Err(MathError::Overflow));
    assert_eq!(calc_d(0, 5, 1), Err(MathError::Overflow));
}

#[test]
fn invariant_needs_positive_amplification() {
    assert_eq!(calc_d(5, 5, 0), Err(MathError::Overflow));
}

#[test]
fn invariant_convergence_failure() {
    assert_eq!(calc_d(55590, 8, 2), Err(MathError::ConvergenceFailure));
}

#[test]
fn solvers_are_deterministic() {
    assert_eq!(calc_d(1_000_000, 3_000_000, 100), calc_d(1_000_000, 3_000_000, 100));
    assert_eq!(calc_y(1_010_000, 3_996_691, 100), calc_y(1_010_000, 3_996_691, 100));
    assert_eq!(
        simulate_swap(1_000_000, 3_000_000, 10_000, 100, 30),
        simulate_swap(1_000_000, 3_000_000, 10_000, 100, 30)
    );
    assert_eq!(calc_d(55590, 8, 2), calc_d(55590, 8, 2));
}

#[test]
fn balance_exact_values() {
    assert_eq!(calc_y(1_010_000_000_000, 2_000_000_000_000, 1000), Ok(990_000_049_979));
    assert_eq!(calc_y(1, 7299, 10), Ok(52984));
    assert_eq!(calc_y(5, 0, 1), Ok(0));
}

#[test]
fn balance_round_trip_on_balanced_pool() {
    for (x, amp) in [(1u64, 1u64), (2, 1), (1000, 100), (1_000_000_000_000, 1000), (12345, 7)] {
        let d = calc_d(x, x, amp).unwrap();
        assert_eq!(d, 2 * x);
        assert_eq!(calc_y(x, d, amp), Ok(x));
    }
}

#[test]
fn balance_round_trip_within_one_near_balance() {
    let d = calc_d(1_000_000, 1_000_100, 100).unwrap();
    let y = calc_y(1_000_000, d, 100).unwrap();
    assert!(y.abs_diff(1_000_100) <= 1);
}

#[test]
fn balance_round_trip_drifts_on_lopsided_pool() {
    let d = calc_d(1, 52990, 10).unwrap();
    assert_eq!(calc_y(1, d, 10), Ok(52984));
}

#[test]
fn balance_overflow() {
    assert_eq!(calc_y(0, 2000, 100), Err(MathError::Overflow));
    assert_eq!(calc_y(1000, 2000, 0), Err(MathError::Overflow));
    assert_eq!(calc_y(1000, 2000, 1 << 61), Err(MathError::Overflow));
    assert_eq!(calc_y(1 << 63, 2000, 100), Err(MathError::Overflow));
    assert_eq!(calc_y(1, u64::MAX, 1), Err(MathError::Overflow));
}

#[test]
fn swap_exact_values() {
    let bal = 1_000_000_000_000u64;
    assert_eq!(simulate_swap(bal, bal, 10_000_000_000, 1000, 30), Ok(9_969_950_171));
    assert_eq!(simulate_swap(bal, bal, 10_000_000_000, 1000, 0), Ok(9_999_950_021));
    assert_eq!(simulate_swap(bal, bal, 10_000_000_000, 1000, 10000), Ok(0));
}

#[test]
fn swap_of_nothing_yields_nothing() {
    assert_eq!(simulate_swap(1_000_000, 1_000_000, 0, 100, 30), Ok(0));
    assert_eq!(simulate_swap(1, 52990, 0, 10, 0), Ok(0));
    assert_eq!(simulate_swap(0, 0, 0, 0, 0), Ok(0));
}

#[test]
fn swap_without_fee_yields_gross() {
    let bal = 1_000_000_000_000u64;
    let new_out = calc_y(bal + 10_000_000_000, 2 * bal, 1000).unwrap();
    assert_eq!(simulate_swap(bal, bal, 10_000_000_000, 1000, 0), Ok(bal - new_out));
}

#[test]
fn swap_output_does_not_rise_with_fee() {
    let bal = 1_000_000_000_000u64;
    let mut last = u64::MAX;
    for fee in [0u64, 1, 30, 100, 5000, 9999, 10000] {
        let out = simulate_swap(bal, bal, 10_000_000_000, 1000, fee).unwrap();
        assert!(out <= last);
        last = out;
    }
}

#[test]
fn swap_output_grows_with_amount_in() {
    let bal = 1_000_000_000_000u64;
    let a = simulate_swap(bal, bal, 10_000_000_000, 1000, 30).unwrap();
    let b = simulate_swap(bal, bal, 10_000_000_001, 1000, 30).unwrap();
    let c = simulate_swap(bal, bal, 20_000_000_000, 1000, 30).unwrap();
    assert_eq!(b, 9_969_950_172);
    assert!(a < b && b < c);
    assert!(c <= bal);
}

#[test]
fn swap_output_can_stall_between_amounts() {
    assert_eq!(simulate_swap(1, 1, 2, 1, 0), Ok(1));
    assert_eq!(simulate_swap(1, 1, 3, 1, 0), Ok(1));
}

#[test]
fn swap_errors_propagate() {
    assert_eq!(simulate_swap(55590, 8, 1, 2, 30), Err(MathError::ConvergenceFailure));
    assert_eq!(simulate_swap(u64::MAX, 1, 1, 1, 30), Err(MathError::Overflow));
    assert_eq!(simulate_swap(1000, 1000, u64::MAX, 100, 30), Err(MathError::Overflow));
    let bal = 1_000_000_000_000u64;
    assert_eq!(simulate_swap(bal, bal, 10_000_000_000, 1000, 10001), Err(MathError::Overflow));
    assert_eq!(simulate_swap(bal, bal, 10_000_000_000, 1000, 1 << 63), Err(MathError::Overflow));
}

#[test]
fn proceeds_exact_values() {
    assert_eq!(swap_proceeds(1000, 400, 30), Ok(599));
    assert_eq!(swap_proceeds(1000, 400, 0), Ok(600));
    assert_eq!(swap_proceeds(1000, 1000, 30), Ok(0));
    assert_eq!(swap_proceeds(10_000, 0, 1), Ok(9_999));
    assert_eq!(swap_proceeds(9_999, 0, 1), Ok(9_999));
}

#[test]
fn proceeds_insufficient_liquidity() {
    assert_eq!(swap_proceeds(100, 101, 30), Err(MathError::InsufficientLiquidity));
    assert_eq!(swap_proceeds(0, u64::MAX, 0), Err(MathError::InsufficientLiquidity));
}

#[test]
fn proceeds_overflow() {
    assert_eq!(swap_proceeds(u64::MAX, 0, 2), Err(MathError::Overflow));
    assert_eq!(swap_proceeds(10_000, 0, 10001), Err(MathError::Overflow));
    assert_eq!(swap_proceeds(1000, 0, 10001), Ok(0));
}

#[test]
fn first_deposit_mints_geometric_mean() {
    assert_eq!(calc_lp_tokens(4, 9, 0, 0, 0, 100), Ok(6));
    assert_eq!(calc_lp_tokens(10, 10, 0, 0, 0, 1), Ok(10));
    assert_eq!(calc_lp_tokens(2, 3, 0, 0, 0, 1), Ok(2));
    assert_eq!(calc_lp_tokens(0, 1_000_000, 0, 0, 0, 1), Ok(0));
    assert_eq!(calc_lp_tokens(10_000_000_000, 10_000_000_000, 0, 0, 0, 0), Ok(10_000_000_000));
    assert_eq!(calc_lp_tokens(u64::MAX, u64::MAX, 0, 0, 0, 1), Ok(u64::MAX));
    assert_eq!(calc_lp_tokens(4, 9, 77, 88, 0, 100), Ok(6));
}

#[test]
fn first_deposit_then_full_withdrawal_returns_deposit() {
    for (a0, a1) in [(4u64, 9u64), (1_000_000, 2_500_000), (3, 1_000_000_007), (1, 1)] {
        let lp = calc_lp_tokens(a0, a1, 0, 0, 0, 100).unwrap();
        let (w0, w1) = calc_withdraw(lp, a0, a1, lp).unwrap();
        assert!(w0 <= a0 && w1 <= a1);
        assert_eq!((w0, w1), (a0, a1));
    }
}

#[test]
fn later_deposit_mints_in_proportion() {
    assert_eq!(
        calc_lp_tokens(500_000_000, 100_000_000, 1_000_000_000, 1_000_000_000, 1_000_000, 100),
        Ok(299_921)
    );
    assert_eq!(calc_lp_tokens(0, 0, 1000, 1000, 500, 100), Ok(0));
    assert_eq!(calc_lp_tokens(1000, 1000, 1000, 1000, 500, 100), Ok(500));
}

#[test]
fn later_deposit_errors() {
    assert_eq!(calc_lp_tokens(10, 10, 0, 0, 5, 100), Err(MathError::InvalidInvariant));
    assert_eq!(calc_lp_tokens(1, 1, u64::MAX, 1, 5, 100), Err(MathError::Overflow));
    assert_eq!(calc_lp_tokens(u64::MAX, 1, 1000, 1000, 5, 100), Err(MathError::Overflow));
    assert_eq!(calc_lp_tokens(1, 1, 55590, 8, 5, 2), Err(MathError::ConvergenceFailure));
    assert_eq!(calc_lp_tokens(1000, 1000, 1, 1, u64::MAX, 1), Err(MathError::Overflow));
}

#[test]
fn withdraw_exact_values() {
    assert_eq!(calc_withdraw(10, 1000, 2000, 100), Ok((100, 200)));
    assert_eq!(calc_withdraw(1, 10, 20, 3), Ok((3, 6)));
    assert_eq!(calc_withdraw(0, 10, 20, 3), Ok((0, 0)));
    assert_eq!(calc_withdraw(u64::MAX, u64::MAX, 7, u64::MAX), Ok((u64::MAX, 7)));
    assert_eq!(calc_withdraw(6, 10, 20, 3), Ok((20, 40)));
}

#[test]
fn withdraw_errors() {
    assert_eq!(calc_withdraw(10, 1000, 2000, 0), Err(MathError::InvalidInvariant));
    assert_eq!(calc_withdraw(u64::MAX, u64::MAX, 1, 1), Err(MathError::Overflow));
    assert_eq!(calc_withdraw(u64::MAX, 1, 2, 1), Err(MathError::Overflow));
}

#[test]
fn ramp_boundaries() {
    assert_eq!(get_current_amp(100, 500, 1000, 2000, 1000), 100);
    assert_eq!(get_current_amp(100, 500, 1000, 2000, 2000), 500);
    assert_eq!(get_current_amp(100, 500, 1000, 2000, 1500), 300);
}

#[test]
fn ramp_outside_window() {
    assert_eq!(get_current_amp(100, 500, 1000, 2000, -5), 100);
    assert_eq!(get_current_amp(100, 500, 1000, 2000, i64::MIN), 100);
    assert_eq!(get_current_amp(100, 500, 1000, 2000, i64::MAX), 500);
    assert_eq!(get_current_amp(100, 500, 1000, 1000, 0), 500);
    assert_eq!(get_current_amp(100, 500, 2000, 1000, 1500), 500);
    assert_eq!(get_current_amp(100, 500, 2000, 1000, 500), 100);
}

#[test]
fn ramp_downwards_and_rounding() {
    assert_eq!(get_current_amp(500, 100, 1000, 2000, 1500), 300);
    assert_eq!(get_current_amp(100, 103, 0, 10, 5), 101);
    assert_eq!(get_current_amp(103, 100, 0, 10, 5), 102);
    assert_eq!(get_current_amp(100, 100, 0, 10, 5), 100);
}

#[test]
fn ramp_is_total_at_the_edges_of_the_types() {
    assert_eq!(get_current_amp(0, u64::MAX, i64::MIN, i64::MAX, 0), 9_223_372_036_854_775_808);
    assert_eq!(get_current_amp(u64::MAX, 0, i64::MIN, i64::MAX, i64::MAX - 1), 1);
    assert_eq!(get_current_amp(0, u64::MAX, i64::MIN, i64::MAX, i64::MIN + 1), 1);
}

#[test]
fn ramp_is_monotone() {
    let mut last = 100u64;
    for now in 900..2100i64 {
        let a = get_current_amp(100, 500, 1000, 2000, now);
        assert!(a >= last && a <= 500);
        last = a;
    }
}

#[test]
fn min_output_exact_values() {
    assert_eq!(calc_min_output(1000, 50), 995);
    assert_eq!(calc_min_output(1000, 0), 1000);
    assert_eq!(calc_min_output(1000, 10000), 0);
    assert_eq!(calc_min_output(999, 1), 999);
    assert_eq!(calc_min_output(0, 50), 0);
}

#[test]
fn min_output_saturates() {
    assert_eq!(calc_min_output(1000, 20000), 0);
    assert_eq!(calc_min_output(u64::MAX, 10000), u64::MAX - u64::MAX / 10000);
    assert_eq!(calc_min_output(u64::MAX, 2), u64::MAX - u64::MAX / 10000);
    assert_eq!(calc_min_output(1 << 40, 1 << 40), 0);
}

#[test]
fn virtual_price_exact_values() {
    assert_eq!(
        calc_virtual_price(1_000_000_000_000, 1_000_000_000_000, 1_000_000_000_000, 1000),
        Ok(2_000_000_000_000_000_000)
    );
    assert_eq!(
        calc_virtual_price(1_000_000_000, 3_000_000_000, 12345, 50),
        Ok(323_485_754_799_513_973_268_529)
    );
    assert_eq!(calc_virtual_price(0, 0, 5, 50), Ok(0));
}

#[test]
fn virtual_price_errors() {
    assert_eq!(calc_virtual_price(1000, 1000, 0, 100), Err(MathError::InvalidInvariant));
    assert_eq!(calc_virtual_price(u64::MAX, 1, 5, 100), Err(MathError::Overflow));
    assert_eq!(calc_virtual_price(55590, 8, 5, 2), Err(MathError::ConvergenceFailure));
}

#[test]
fn square_root_base_cases() {
    assert_eq!(isqrt(0), 0);
    assert_eq!(isqrt(1), 1);
    assert_eq!(isqrt(2), 1);
    assert_eq!(isqrt(3), 1);
    assert_eq!(isqrt(4), 2);
}

#[test]
fn square_root_is_floor() {
    assert_eq!(isqrt(15), 3);
    assert_eq!(isqrt(16), 4);
    assert_eq!(isqrt(17), 4);
    assert_eq!(isqrt(100_000_000_000_000_000_000), 10_000_000_000);
    assert_eq!(isqrt(99_999_999_999_999_999_999), 9_999_999_999);
    assert_eq!(isqrt(u128::MAX), 18_446_744_073_709_551_615);
    assert_eq!(isqrt((u64::MAX as u128) * (u64::MAX as u128)), u64::MAX as u128);
    for n in 0u128..2000 {
        let r = isqrt(n);
        assert!(r * r <= n && n < (r + 1) * (r + 1));
    }
}

#[test]
fn invariant_never_exceeds_sum() {
    for amp in [1u64, 2, 10, 100, 5000] {
        for x in 1u64..40 {
            for y in 1u64..40 {
                if let Ok(d) = calc_d(x, y, amp) {
                    assert!(d <= x + y);
                    assert!(d >= 1);
                }
            }
        }
    }
    let d = calc_d(3_000_000_000, 1_000_000_000_000, 85).unwrap();
    assert!(d <= 1_003_000_000_000);
}

#[test]
fn invariant_is_less_than_a_unit_below_the_root() {
    for (x, y, amp) in [(1u128, 3u128, 1u128), (100, 200, 10), (1_000_000, 3_000_000, 100)] {
        let d = calc_d(x as u64, y as u64, amp as u64).unwrap() as u128;
        let (ann, p, z) = (4 * amp, 4 * x * y, d + 1);
        assert!(z * z * z + (ann - 1) * p * z > ann * (x + y) * p);
    }
}

#[test]
fn balance_brackets_the_root_of_its_quadratic() {
    for (x_new, d, amp) in [
        (1_010_000_000_000i128, 2_000_000_000_000i128, 1000i128),
        (1, 7299, 10),
        (1_010_000, 3_996_691, 100),
        (1000, 2000, 100),
    ] {
        let r = calc_y(x_new as u64, d as u64, amp as u64).unwrap() as i128;
        let ann = 4 * amp;
        let c = d * d / (2 * x_new) * d / (2 * ann);
        let b = x_new + d / ann;
        let residual = |z: i128| z * z + (b - d) * z - c;
        assert!(residual(r) <= 1);
        assert!(residual(r + 1) > 0);
    }
}

#[test]
fn square_root_is_exact_on_squares() {
    for k in [0u128, 1, 2, 3, 1000, 65_535, 4_294_967_296, 18_446_744_073_709_551_615] {
        assert_eq!(isqrt(k * k), k);
    }
}

#[test]
fn later_deposit_rounds_down() {
    let (supply, d0, d1) = (1_000_000u128, 2_000_000_000u128, 2_599_843_236u128);
    assert_eq!(calc_d(1_000_000_000, 1_000_000_000, 100), Ok(d0 as u64));
    assert_eq!(calc_d(1_500_000_000, 1_100_000_000, 100), Ok(d1 as u64));
    let lp = calc_lp_tokens(500_000_000, 100_000_000, 1_000_000_000, 1_000_000_000, 1_000_000, 100)
        .unwrap() as u128;
    assert!(lp * d0 <= supply * (d1 - d0));
    assert!(supply * (d1 - d0) < (lp + 1) * d0);
}

#[test]
fn withdrawal_rounds_down() {
    let (a0, a1) = calc_withdraw(7, 1000, 2001, 13).unwrap();
    assert_eq!((a0, a1), (538, 1077));
    assert!(a0 as u128 * 13 <= 1000 * 7 && (1000 * 7) < (a0 as u128 + 1) * 13);
    assert!(a1 as u128 * 13 <= 2001 * 7 && (2001 * 7) < (a1 as u128 + 1) * 13);
}

#[test]
fn budget_cuts_the_iteration_short() {
    assert_eq!(calc_d_within(1_000_000, 3_000_000, 100, 0), Err(MathError::ConvergenceFailure));
    assert_eq!(calc_d_within(1_000_000, 3_000_000, 100, 1), Err(MathError::ConvergenceFailure));
    assert_eq!(calc_d_within(1_000_000, 3_000_000, 100, 2), Ok(3_996_691));
    assert_eq!(calc_d_within(1_000_000, 3_000_000, 100, 255), Ok(3_996_691));
    assert_eq!(calc_d_within(1000, 1000, 100, 1), Ok(2000));
    assert_eq!(calc_d_within(0, 0, 100, 0), Ok(0));
    assert_eq!(calc_d_within(u64::MAX, 1, 100, 0), Err(MathError::Overflow));
    assert_eq!(calc_y_within(1000, 2000, 100, 4), Err(MathError::ConvergenceFailure));
    assert_eq!(calc_y_within(1000, 2000, 100, 5), Ok(1000));
    assert_eq!(calc_y_within(1000, 2000, 100, 200), Ok(1000));
    assert_eq!(calc_y_within(0, 2000, 100, 0), Err(MathError::Overflow));
}

#[test]
fn full_budget_agrees_with_the_solvers() {
    for (x, y, amp) in [(1u64, 3u64, 1u64), (55590, 8, 2), (1_000_000, 3_000_000, 100)] {
        assert_eq!(calc_d_within(x, y, amp, NEWTON_ITERATIONS), calc_d(x, y, amp));
        assert_eq!(calc_y_within(x, y, amp, NEWTON_ITERATIONS), calc_y(x, y, amp));
    }
}

#[test]
fn balance_does_not_rise_with_the_input_balance() {
    let d = 2_000_000u64;
    let mut last = u64::MAX;
    for x_new in (900_000u64..1_100_000).step_by(997) {
        let y = calc_y(x_new, d, 100).unwrap();
        assert!(y <= last);
        last = y;
    }
}

#[test]
fn swap_output_does_not_fall_with_amount_in() {
    let mut last = 0u64;
    for amount_in in 0u64..400 {
        let out = simulate_swap(1000, 1200, amount_in, 7, 30).unwrap();
        assert!(out >= last);
        last = out;
    }
}
