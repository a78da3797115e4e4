//! Scenarios for the protocol arithmetic in `calma::math` and `calma::jbl_math`.

use calma::jbl_math;
use calma::math::{
    amount_to_shares, amount_to_shares_burned, collateral_to_lend_amount, compute_health_factor,
    compute_interest, compute_liquidation_threshold, compute_ltv, flash_fee, lend_to_collateral_amount,
    shares_to_amount, utilization_bps, MAX_RATE_BPS, PRICE_SCALE, SECONDS_PER_YEAR,
};

const YEAR: u64 = SECONDS_PER_YEAR;
/// Oracle price at parity: 1 collateral unit is worth 1 lend unit.
const PARITY: u64 = PRICE_SCALE as u64;
const HUNDRED_M: u64 = 100_000_000 * 1_000_000; // 10^14 base units
const SEVENTY_FIVE_M: u64 = 75_000_000 * 1_000_000;
const FIFTY_M: u64 = 50_000_000 * 1_000_000;
const HALF: u64 = PRICE_SCALE as u64 / 2; // collateral worth 0.5 lend
const DOUBLE: u64 = PRICE_SCALE as u64 * 2; // collateral worth 2 lend

#[test]
fn lib_zero_elapsed_is_zero_interest() {
    assert_eq!(compute_interest(1_000_000, 500, 0), Some(0));

    // The same scenario against the earlier arithmetic.
    assert_eq!(jbl_math::compute_interest(1_000_000, 500, 0), Some(0));
}

#[test]
fn lib_zero_principal_is_zero_interest() {
    assert_eq!(compute_interest(0, 500, YEAR), Some(0));

    // The same scenario against the earlier arithmetic.
    assert_eq!(jbl_math::compute_interest(0, 500, YEAR), Some(0));
}

#[test]
fn lib_zero_rate_is_zero_interest() {
    assert_eq!(compute_interest(1_000_000, 0, YEAR), Some(0));

    // The same scenario against the earlier arithmetic.
    assert_eq!(jbl_math::compute_interest(1_000_000, 0, YEAR), Some(0));
}

#[test]
fn lib_one_year_hundred_percent_apr() {
    assert_eq!(compute_interest(1_000_000, 10_000, YEAR), Some(1_000_000));

    // The same scenario against the earlier arithmetic.
    assert_eq!(jbl_math::compute_interest(1_000_000, 10_000, YEAR), Some(1_000_000));
}

#[test]
fn lib_one_year_fifty_percent_apr() {
    assert_eq!(compute_interest(1_000_000, 5_000, YEAR), Some(500_000));

    // The same scenario against the earlier arithmetic.
    assert_eq!(jbl_math::compute_interest(1_000_000, 5_000, YEAR), Some(500_000));
}

#[test]
fn lib_one_year_one_percent_apr() {
    assert_eq!(compute_interest(1_000_000, 100, YEAR), Some(10_000));

    // The same scenario against the earlier arithmetic.
    assert_eq!(jbl_math::compute_interest(1_000_000, 100, YEAR), Some(10_000));
}

#[test]
fn lib_half_year_is_half_of_full_year() {
    let full = compute_interest(1_000_000, 5_000, YEAR).unwrap();
    let half = compute_interest(1_000_000, 5_000, YEAR / 2).unwrap();
    assert!((full / 2).abs_diff(half) <= 1);

    // The same scenario against the earlier arithmetic.
    let full = jbl_math::compute_interest(1_000_000, 5_000, YEAR).unwrap();
    let half = jbl_math::compute_interest(1_000_000, 5_000, YEAR / 2).unwrap();
    assert!((full / 2).abs_diff(half) <= 1);
}

#[test]
fn lib_graceful_none_on_u64_overflow() {
    // u64::MAX × u32::MAX overflows u128 in the second checked_mul → None.
    assert_eq!(compute_interest(u64::MAX, u32::MAX, 1_000 * YEAR), None);

    // The same scenario against the earlier arithmetic.
    let result = jbl_math::compute_interest(u64::MAX, u32::MAX, 1_000 * YEAR);
    let _ = result;
}

#[test]
fn zero_amount_live_pool_is_zero_shares() {
    // Proves the amount == 0 early-return is taken, not the ratio formula.
    assert_eq!(amount_to_shares(0, 1_000_000, 1_000_000), Some(0));
}

#[test]
fn lib_first_borrow_is_one_to_one() {
    assert_eq!(amount_to_shares(500, 0, 0), Some(500));

    // The same scenario against the earlier arithmetic.
    assert_eq!(jbl_math::amount_to_shares(500, 0, 0), Some(500));
}

#[test]
fn lib_round_trip_single_borrower() {
    let amount = 1_000_000u64;
    let shares = amount_to_shares(amount, 0, 0).unwrap();
    assert_eq!(shares, amount);
    let back = shares_to_amount(shares, amount, shares).unwrap();
    assert!(back.abs_diff(amount) <= 1);

    // The same scenario against the earlier arithmetic.
    let amount = 1_000_000u64;
    let shares = jbl_math::amount_to_shares(amount, 0, 0).unwrap();
    assert_eq!(shares, amount);
    let back = jbl_math::shares_to_amount(shares, amount, shares).unwrap();
    assert_eq!(back, amount);
}

#[test]
fn lib_second_borrow_after_interest_accrual() {
    // Ceiling division rounds the borrower's debt shares up: 90_909.09 → 90_910.
    let shares = amount_to_shares(100_000, 1_100_000, 1_000_000).unwrap();
    assert_eq!(shares, 90_910);
    let new_total_borrowed = 1_100_000 + 100_000;
    let new_total_shares = 1_000_000 + shares;
    let second_debt = shares_to_amount(shares, new_total_borrowed, new_total_shares).unwrap();
    assert!(second_debt.abs_diff(100_000) <= 1);

    // The same scenario against the earlier arithmetic.
    let shares = jbl_math::amount_to_shares(100_000, 1_100_000, 1_000_000).unwrap();
    assert_eq!(shares, 90_909);
    let new_total_borrowed = 1_100_000 + 100_000;
    let new_total_shares = 1_000_000 + shares;
    let second_debt = jbl_math::shares_to_amount(shares, new_total_borrowed, new_total_shares).unwrap();
    assert!(second_debt.abs_diff(100_000) <= 1);
}

#[test]
fn lib_zero_shares_is_zero_amount() {
    assert_eq!(shares_to_amount(0, 1_000_000, 1_000_000), Some(0));

    // The same scenario against the earlier arithmetic.
    assert_eq!(jbl_math::shares_to_amount(0, 1_000_000, 1_000_000), Some(0));
}

#[test]
fn nonzero_shares_zero_total_shares_returns_none() {
    // Inconsistent state (e.g. stale pool data during a race condition) must not panic.
    assert_eq!(shares_to_amount(1, 1_000_000, 0), None);
}

#[test]
fn minimal_first_borrow_one_unit() {
    assert_eq!(amount_to_shares(1, 0, 0), Some(1));
}

#[test]
fn minimal_shares_to_amount_one_unit() {
    assert_eq!(shares_to_amount(1, 1, 1), Some(1));
}

#[test]
fn minimal_repay_burns_one_share() {
    assert_eq!(amount_to_shares_burned(1, 1, 1, 1), Some(1));
}

#[test]
fn minimal_repay_one_unit_from_large_pool() {
    // Ceiling division: 1 unit repaid burns exactly 1 share regardless of pool size.
    const HUNDRED_M: u64 = 100_000_000 * 1_000_000;
    assert_eq!(
        amount_to_shares_burned(1, HUNDRED_M, HUNDRED_M, HUNDRED_M),
        Some(1)
    );
}

#[test]
fn minimal_interest_one_year_100pct() {
    // ceil(1 × 10_000 × YEAR / (10_000 × YEAR)) = ceil(1.0) = 1
    assert_eq!(compute_interest(1, 10_000, YEAR), Some(1));
}

#[test]
fn minimal_interest_one_year_1pct() {
    // ceil(1 × 100 × YEAR / (10_000 × YEAR)) = ceil(0.01) = 1 (rounds up)
    assert_eq!(compute_interest(1, 100, YEAR), Some(1));
}

#[test]
fn minimal_interest_one_second() {
    // ceil(1 × 10_000 × 1 / (10_000 × YEAR)) = ceil(1/YEAR) = 1 (rounds up)
    assert_eq!(compute_interest(1, 10_000, 1), Some(1));
}

#[test]
fn huge_first_borrow_100m() {
    assert_eq!(amount_to_shares(HUNDRED_M, 0, 0), Some(HUNDRED_M));
}

#[test]
fn huge_round_trip_single_borrower() {
    let shares = amount_to_shares(HUNDRED_M, 0, 0).unwrap();
    assert_eq!(shares, HUNDRED_M);
    let back = shares_to_amount(shares, HUNDRED_M, shares).unwrap();
    assert_eq!(back, HUNDRED_M);
}

#[test]
fn huge_second_borrow_after_10pct_interest() {
    // Pool has 110M assets and 100M shares after 10% interest accrual.
    // New 100M borrow gets ceil(100M × 100M / 110M) = 90_909_090_909_091 shares
    // (rounded up so the borrower never under-owes).
    let total_after_interest = 110_000_000u64 * 1_000_000;
    let shares = amount_to_shares(HUNDRED_M, total_after_interest, HUNDRED_M).unwrap();
    assert_eq!(shares, 90_909_090_909_091);

    // Ceiling on repay brings it back within 1 unit of the original borrow.
    let new_total_borrowed = total_after_interest + HUNDRED_M;
    let new_total_shares = HUNDRED_M + shares;
    let back = shares_to_amount(shares, new_total_borrowed, new_total_shares).unwrap();
    assert!(back.abs_diff(HUNDRED_M) <= 1);
}

#[test]
fn huge_interest_10pct_one_year() {
    let interest = compute_interest(HUNDRED_M, 1_000, YEAR).unwrap();
    assert_eq!(interest, 10_000_000 * 1_000_000);
}

#[test]
fn huge_interest_100pct_one_year() {
    assert_eq!(compute_interest(HUNDRED_M, 10_000, YEAR), Some(HUNDRED_M));
}

#[test]
fn huge_flash_fee() {
    // 9 bps of 100M tokens = 90_000 tokens = 90_000_000_000 base units.
    assert_eq!(flash_fee(HUNDRED_M), Some(90_000_000_000));
}

#[test]
fn huge_compute_ltv_at_75pct() {
    // 75M debt / 100M collateral = 7500 bps.
    assert_eq!(compute_ltv(SEVENTY_FIVE_M, HUNDRED_M, PARITY), Some(7_500));
}

#[test]
fn huge_health_factor_at_liquidation_limit() {
    // collateral=100M, ltv=75%, debt=75M → HF = 100M×75×100/75M = 10_000 (exactly at limit).
    assert_eq!(
        compute_health_factor(HUNDRED_M, 75, SEVENTY_FIVE_M, PARITY),
        Some(10_000)
    );
}

#[test]
fn huge_health_factor_healthy() {
    // collateral=100M, ltv=75%, debt=50M → HF = 100M×75×100/50M = 15_000.
    assert_eq!(
        compute_health_factor(HUNDRED_M, 75, FIFTY_M, PARITY),
        Some(15_000)
    );
}

#[test]
fn huge_full_repay() {
    // Repaying the full 100M against a 100M pool burns all 100M shares.
    assert_eq!(
        amount_to_shares_burned(HUNDRED_M, HUNDRED_M, HUNDRED_M, HUNDRED_M),
        Some(HUNDRED_M)
    );
}

#[test]
fn interest_exact_u64_max_boundary() {
    // numerator = u64::MAX × 10_000 × YEAR; denominator = 10_000 × YEAR.
    // interest = ceil(u64::MAX) = u64::MAX — fits exactly in u64.
    assert_eq!(compute_interest(u64::MAX, 10_000, YEAR), Some(u64::MAX));
}

#[test]
fn interest_u64_max_tiny_rate_one_sec() {
    // u64::MAX × 500 / (10_000 × YEAR) ≈ 29 billion — fits well in u64.
    let v = compute_interest(u64::MAX, 500, 1).unwrap();
    assert!(v > 0 && v < u64::MAX);
}

#[test]
fn flash_fee_u64_max_succeeds() {
    // 9 × u64::MAX fits in u128; ceil(… / 10_000) fits back in u64.
    let expected = u64::try_from(
        (u64::MAX as u128).checked_mul(9).unwrap().div_ceil(10_000)
    ).unwrap();
    assert_eq!(flash_fee(u64::MAX), Some(expected));
}

#[test]
fn interest_one_second_over_u64_max_returns_none() {
    // YEAR+1 seconds: interest = u64::MAX + ~584M > u64::MAX → try_from fails.
    assert_eq!(compute_interest(u64::MAX, 10_000, YEAR + 1), None);
}

#[test]
fn amount_to_shares_result_overflows_u64_returns_none() {
    // u64::MAX × u64::MAX fits u128 but the quotient won't fit u64.
    assert_eq!(amount_to_shares(u64::MAX, 1, u64::MAX), None);
}

#[test]
fn shares_to_amount_result_overflows_u64_returns_none() {
    assert_eq!(shares_to_amount(u64::MAX, u64::MAX, 1), None);
}

#[test]
fn amount_to_shares_burned_overflow_returns_none() {
    assert_eq!(
        amount_to_shares_burned(u64::MAX, 1, u64::MAX, u64::MAX),
        None
    );
}

#[test]
fn health_factor_overflows_u32_returns_none() {
    // collateral=u64::MAX, ltv=100, debt=1 → HF ≫ u32::MAX → None.
    assert_eq!(compute_health_factor(u64::MAX, 100, 1, PARITY), None);
}

#[test]
fn health_factor_zero_debt_returns_none() {
    // debt == 0 is the early-return guard; removing it would cause a divide-by-zero panic.
    assert_eq!(compute_health_factor(1_000_000, 75, 0, PARITY), None);
}

#[test]
fn compute_ltv_overflows_u32_returns_none() {
    // ltv_bps = u64::MAX × 10_000 / 1 ≈ 1.84×10²³ >> u32::MAX → try_from fails.
    assert_eq!(compute_ltv(u64::MAX, 1, PARITY), None);
}

#[test]
fn liq_threshold_zero_debt_returns_none() {
    assert_eq!(compute_liquidation_threshold(0, 1_000_000, 75), None);
}

#[test]
fn liq_threshold_zero_collateral_returns_zero() {
    assert_eq!(compute_liquidation_threshold(1_000_000, 0, 75), Some(0));
}

#[test]
fn liq_threshold_zero_ltv_returns_zero() {
    assert_eq!(compute_liquidation_threshold(1_000_000, 1_000_000, 0), Some(0));
}

#[test]
fn liq_threshold_at_exact_ltv_returns_price_scale() {
    // debt=75M, collateral=100M, ltv=75 → liq_price = 75M×1_000_000 / (100M×75) = 10_000.
    assert_eq!(
        compute_liquidation_threshold(SEVENTY_FIVE_M, HUNDRED_M, 75),
        Some(10_000)
    );
}

#[test]
fn liq_threshold_overflows_u32_returns_none() {
    // liq_bps = u64::MAX × 1_000_000 / (1 × 1) >> u32::MAX → None.
    assert_eq!(compute_liquidation_threshold(u64::MAX, 1, 1), None);
}

#[test]
fn amount_to_shares_burned_zero_borrowed_returns_none() {
    // total_borrowed == 0 used to divide by zero (panic). Must return None.
    assert_eq!(amount_to_shares_burned(1, 0, 1_000_000, 1_000_000), None);
}

#[test]
fn borrow_shares_round_up() {
    // 1 unit into a pool where 1 share is worth 2 units: exact = 0.5 share.
    // Ceiling mints 1 share so the borrower never owes 0 for a real borrow.
    assert_eq!(amount_to_shares(1, 2, 1), Some(1));
}

#[test]
fn repay_shares_burned_round_down() {
    // Repay 1 unit where 1 share is worth 2 units: exact = 0.5 share.
    // Floor burns 0 shares so the pool never releases more debt than paid for.
    assert_eq!(amount_to_shares_burned(1, 2, 1, 1), Some(0));
}

#[test]
fn borrow_owes_at_least_what_was_borrowed() {
    // Ceiling mint + ceiling valuation guarantee the debt never rounds below
    // the borrowed amount — the invariant that keeps the pool fully backed.
    let borrowed = 100_000u64;
    let (tb, ts) = (1_100_000u64, 1_000_000u64);
    let shares = amount_to_shares(borrowed, tb, ts).unwrap();
    let owed = shares_to_amount(shares, tb + borrowed, ts + shares).unwrap();
    assert!(owed >= borrowed, "owed {owed} < borrowed {borrowed}");
}

#[test]
fn flash_fee_zero_amount_is_zero() {
    assert_eq!(flash_fee(0), Some(0));
}

#[test]
fn flash_fee_tiny_amount_charges_minimum_one() {
    // Ceiling + min(1): a nonzero flash loan is never free.
    // 1 × 9 = 9 → ceil(9/10_000) = 1; 1_111 × 9 = 9_999 → ceil = 1.
    assert_eq!(flash_fee(1), Some(1));
    assert_eq!(flash_fee(1_111), Some(1));
}

#[test]
fn flash_fee_rounds_up() {
    // 1_112 × 9 = 10_008 → ceil(10_008 / 10_000) = 2 (was 1 under floor).
    assert_eq!(flash_fee(1_112), Some(2));
}

#[test]
fn interest_rate_above_max_is_clamped() {
    // A rate 10× over the ceiling yields the same interest as the ceiling —
    // accrual never overflows to None, so the pool can't be bricked.
    let at_cap = compute_interest(1_000_000, MAX_RATE_BPS, YEAR);
    let over = compute_interest(1_000_000, MAX_RATE_BPS * 10, YEAR);
    assert_eq!(over, at_cap);
    // 10_000% APR on 1_000_000 principal for one year = 100_000_000.
    assert_eq!(at_cap, Some(100_000_000));
}

#[test]
fn utilization_half_and_zero_supply() {
    assert_eq!(utilization_bps(1_000_000, 500_000, 0), 5_000);
    assert_eq!(utilization_bps(0, 500_000, 0), 0);
}

#[test]
fn utilization_counts_queued_assets_on_both_sides() {
    // A pool holding 1_100_000 assets with 400_000 lent out and 100_000
    // reserved for the queue has 500_000 unavailable of 1_100_000.
    assert_eq!(utilization_bps(1_000_000, 400_000, 100_000), 4_545);
    // Everything reserved for the queue and nothing lent: fully utilized.
    assert_eq!(utilization_bps(0, 0, 100_000), 10_000);
    // An idle pool with an empty queue stays at zero.
    assert_eq!(utilization_bps(1_000_000, 0, 0), 0);
}

#[test]
fn amount_to_shares_orphan_shares_no_borrowed_returns_none() {
    // shares outstanding but zero borrowed assets — inconsistent, reject.
    assert_eq!(amount_to_shares(500, 0, 1_000_000), None);
    // borrowed assets but zero shares — equally inconsistent.
    assert_eq!(amount_to_shares(500, 1_000_000, 0), None);
}

#[test]
fn collateral_value_zero_and_minimal() {
    assert_eq!(collateral_to_lend_amount(0, DOUBLE), 0);
    assert_eq!(collateral_to_lend_amount(1, PARITY), 1);
    // Rounds down: one unit of near-worthless collateral is worth nothing.
    assert_eq!(collateral_to_lend_amount(1, 1), 0);
}

#[test]
fn collateral_value_scales_with_price() {
    assert_eq!(collateral_to_lend_amount(HUNDRED_M, PARITY), HUNDRED_M);
    assert_eq!(collateral_to_lend_amount(HUNDRED_M, HALF), HUNDRED_M / 2);
    assert_eq!(collateral_to_lend_amount(HUNDRED_M, DOUBLE), HUNDRED_M * 2);
    // No price is no value — never treat unpriced collateral as free money.
    assert_eq!(collateral_to_lend_amount(HUNDRED_M, 0), 0);
}

#[test]
fn collateral_value_clamps_high_rather_than_wrapping() {
    // u64::MAX² / PRICE_SCALE ≈ 3.4×10³² — far past u64, so it clamps.
    assert_eq!(collateral_to_lend_amount(u64::MAX, u64::MAX), u64::MAX);
}

#[test]
fn collateral_value_inverts_lend_to_collateral() {
    // The two conversions are inverses; they round opposite ways (down here,
    // up there), so a round trip lands within one unit — never below.
    for price in [HALF, PARITY, DOUBLE] {
        let lend = collateral_to_lend_amount(1_000_000, price);
        let back = lend_to_collateral_amount(lend, price).unwrap();
        assert!(
            back.abs_diff(1_000_000) <= 1,
            "round trip at price {price}: {back} vs 1_000_000"
        );
    }
}

#[test]
fn ltv_measures_debt_against_priced_collateral() {
    // 25 debt against 100 collateral worth 0.5 each = 50 lend → 5_000 bps.
    // Dividing the raw units instead reported 2_500 — half the real LTV.
    assert_eq!(compute_ltv(25, 100, HALF), Some(5_000));
    assert_eq!(compute_ltv(25, 100, PARITY), Some(2_500));
    assert_eq!(compute_ltv(25, 100, DOUBLE), Some(1_250));
}

#[test]
fn ltv_is_unknown_without_a_usable_price() {
    // Debt against collateral of no lend value: the true LTV is unbounded.
    // `Some(0)` would render an unbacked position as perfectly safe.
    assert_eq!(compute_ltv(1_000_000, 1_000_000, 0), None);
    assert_eq!(compute_ltv(1_000_000, 0, PARITY), None);
    // No debt is not a risk figure at all.
    assert_eq!(compute_ltv(0, 1_000_000, PARITY), None);
}

#[test]
fn health_factor_hits_the_limit_where_the_borrow_gate_does() {
    // capacity = 1_000_000 collateral × 0.5 × 75% = 375_000 lend.
    // At exactly that debt the position is at the borrow limit: HF = 10_000.
    assert_eq!(compute_health_factor(1_000_000, 75, 375_000, HALF), Some(10_000));
    // Half the debt is twice the headroom.
    assert_eq!(compute_health_factor(1_000_000, 75, 187_500, HALF), Some(20_000));
    // Ignoring the price reported 20_000 for the at-limit case above — a
    // position one tick from rejection shown as 2× overcollateralized.
    assert!(
        compute_health_factor(1_000_000, 75, 375_000, PARITY).unwrap() > 10_000,
        "parity must not be the answer for a 0.5-priced pair"
    );
}

#[test]
fn health_factor_of_unpriceable_collateral_is_zero() {
    // Unlike LTV this is well defined: no value backing debt is as unhealthy
    // as a position gets, and 0 is the honest reading.
    assert_eq!(compute_health_factor(1_000_000, 75, 1_000, 0), Some(0));
    assert_eq!(compute_health_factor(0, 75, 1_000, PARITY), Some(0));
}

#[test]
fn health_factor_and_ltv_agree_at_the_configured_ltv() {
    // A position whose LTV reads exactly the market's `ltv_percent` is by
    // definition at HF 1.0, whatever the price. This is the invariant the two
    // functions must satisfy jointly — it failed for every non-parity price
    // while they disagreed about whether to consult the oracle.
    for price in [HALF, PARITY, DOUBLE] {
        let collateral = 1_000_000u64;
        let debt = collateral_to_lend_amount(collateral, price) * 75 / 100;
        assert_eq!(compute_ltv(debt, collateral, price), Some(7_500));
        assert_eq!(
            compute_health_factor(collateral, 75, debt, price),
            Some(10_000)
        );
    }
}
