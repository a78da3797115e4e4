//! The earlier generation of the protocol arithmetic, still used by the
//! `jbl` pool layout: floor-rounded debt shares, no rate ceiling, raw-unit
//! LTV and health factor.
use vstd::prelude::*;

use crate::arith::{ceil_div, div_ceil_u128, lemma_ceil_div_bounds, lemma_div_at_least, lemma_mul_le, min_int, sat_add_u64};
use crate::math::{fit_u32, fit_u64, SECONDS_PER_YEAR};

verus! {

pub const PRICE_SCALE: u128 = 1_000_000;

pub trait Market {
    fn total_supply_assets(&self) -> u64;

    fn total_supply_shares(&self) -> u64;

    fn total_borrow_assets(&self) -> u64;

    fn total_borrow_shares(&self) -> u64;

    fn last_update(&self) -> i64;

    fn fee(&self) -> u64;

    fn assets_in_queue(&self) -> u64;

    fn ltv_percent(&self) -> u8;
}

pub trait IrmRate {
    fn rate_bps(&self) -> u32;
}

pub trait Oracle {
    fn current_ts(&self) -> i64;
}

pub enum MathError<E> {
    /// Integer overflow or underflow in a checked arithmetic operation.
    Arithmetic,
    /// Borrow or withdraw would violate the LTV limit.
    Undercollateralized,
    /// Withdrawal exceeds the available balance (collateral deposited or pool shares).
    InsufficientBalance,
    /// The requested amount is too small to mint even one share.
    AmountTooSmall,
    Transfer(E),
}

/// Utilization without the queue in the base; the quotient is truncated to 64 bits.
pub open spec fn jbl_utilization_of(tsa: int, tba: int, aiq: int) -> int {
    if tsa == 0 {
        0
    } else {
        sat_add_u64(tba, aiq) * 10_000 / tsa
    }
}

/// Interest rounded up, with no ceiling on the rate.
pub open spec fn jbl_interest_of(principal: int, rate_bps: int, elapsed: int) -> int {
    if elapsed == 0 || rate_bps == 0 || principal == 0 {
        0
    } else {
        ceil_div(principal * rate_bps * elapsed, 10_000 * SECONDS_PER_YEAR as int)
    }
}

/// Debt shares for `amount`, rounded down; a pool with either side at zero seeds 1:1.
pub open spec fn jbl_amount_to_shares_spec(amount: int, total_borrowed: int, total_shares: int) -> Option<u64> {
    if amount == 0 {
        Some(0)
    } else if total_shares == 0 || total_borrowed == 0 {
        fit_u64(amount)
    } else {
        fit_u64(amount * total_shares / total_borrowed)
    }
}

/// Shares burned by a repayment, rounded up and capped at `max_shares`.
pub open spec fn jbl_shares_burned_spec(repay: int, total_borrowed: int, total_shares: int, max_shares: int) -> Option<u64> {
    if repay == 0 {
        Some(0)
    } else if ceil_div(repay * total_shares, total_borrowed) > u64::MAX {
        None
    } else {
        Some(min_int(ceil_div(repay * total_shares, total_borrowed), max_shares) as u64)
    }
}

/// `collateral * ltv_percent` saturated at `u64::MAX`, then divided by 100.
pub open spec fn jbl_max_borrowable_of(collateral: int, ltv_percent: int) -> int {
    min_int(collateral * ltv_percent, u64::MAX as int) / 100
}

/// Debt over raw collateral units, in bps: `None` without debt, 0 without collateral.
pub open spec fn jbl_ltv_of(debt: int, collateral: int) -> Option<u32> {
    if debt == 0 {
        None
    } else if collateral == 0 {
        Some(0u32)
    } else {
        fit_u32(debt * 10_000 / collateral)
    }
}

/// Raw collateral at `ltv_percent` over debt, in bps: `None` without debt.
pub open spec fn jbl_health_of(collateral: int, ltv_percent: int, debt: int) -> Option<u32> {
    if debt == 0 {
        None
    } else {
        fit_u32(collateral * ltv_percent * 100 / debt)
    }
}

/// Debt over collateral at `ltv_percent`, in millionths: `None` without debt,
/// 0 without collateral or LTV.
pub open spec fn jbl_liquidation_of(debt: int, collateral: int, ltv_percent: int) -> Option<u32> {
    if debt == 0 {
        None
    } else if collateral == 0 || ltv_percent == 0 {
        Some(0u32)
    } else {
        fit_u32(debt * 1_000_000 / (collateral * ltv_percent))
    }
}

pub fn utilization_bps(total_supply_assets: u64, total_borrow_assets: u64, assets_in_queue: u64) -> (r: u64)
    ensures
        r == jbl_utilization_of(total_supply_assets as int, total_borrow_assets as int, assets_in_queue as int) as u64,
{
    if total_supply_assets == 0 {
        return 0;
    }
    let effective_borrowed = total_borrow_assets.saturating_add(assets_in_queue);
    proof {
        lemma_mul_le(effective_borrowed as int, 10_000, u64::MAX as int, 10_000);
    }
    let util = (effective_borrowed as u128) * 10_000 / (total_supply_assets as u128);
    util as u64
}

/// Fee of `fee_bps` on `amount`, rounded down; `None` when it exceeds `u64`.
pub fn flash_fee(amount: u64, fee_bps: u32) -> (r: Option<u64>)
    ensures
        r == fit_u64(amount as int * fee_bps as int / 10_000),
{
    proof {
        lemma_mul_le(amount as int, fee_bps as int, u64::MAX as int, u32::MAX as int);
    }
    let fee = (amount as u128) * (fee_bps as u128) / 10_000;
    if fee > u64::MAX as u128 {
        None
    } else {
        Some(fee as u64)
    }
}

pub fn compute_interest(total_borrowed: u64, rate_bps: u32, elapsed_secs: u64) -> (r: Option<u64>)
    ensures
        r == fit_u64(jbl_interest_of(total_borrowed as int, rate_bps as int, elapsed_secs as int)),
{
    if elapsed_secs == 0 || rate_bps == 0 || total_borrowed == 0 {
        return Some(0);
    }
    proof {
        lemma_mul_le(total_borrowed as int, rate_bps as int, u64::MAX as int, u32::MAX as int);
    }
    let partial = (total_borrowed as u128) * (rate_bps as u128);
    let denominator: u128 = 10_000u128 * (SECONDS_PER_YEAR as u128);
    let ghost exact = total_borrowed as int * rate_bps as int * elapsed_secs as int;
    match partial.checked_mul(elapsed_secs as u128) {
        None => {
            proof {
                lemma_div_at_least(exact, denominator as int, u64::MAX as int + 1);
                lemma_ceil_div_bounds(exact, denominator as int);
            }
            None
        },
        Some(numerator) => {
            let interest = div_ceil_u128(numerator, denominator);
            if interest > u64::MAX as u128 {
                None
            } else {
                Some(interest as u64)
            }
        },
    }
}

/// Call this BEFORE adding `amount` to `total_borrowed`.
pub fn amount_to_shares(amount: u64, total_borrowed: u64, total_debt_shares: u64) -> (r: Option<u64>)
    ensures
        r == jbl_amount_to_shares_spec(amount as int, total_borrowed as int, total_debt_shares as int),
{
    if amount == 0 {
        return Some(0);
    }
    if total_debt_shares == 0 || total_borrowed == 0 {
        return Some(amount);
    }
    proof {
        lemma_mul_le(amount as int, total_debt_shares as int, u64::MAX as int, u64::MAX as int);
    }
    let shares = (amount as u128) * (total_debt_shares as u128) / (total_borrowed as u128);
    if shares > u64::MAX as u128 {
        None
    } else {
        Some(shares as u64)
    }
}

/// Uses ceiling division so the protocol never under-collects. The share total
/// must be nonzero whenever `shares` is.
pub fn shares_to_amount(shares: u64, total_borrowed: u64, total_debt_shares: u64) -> (r: Option<u64>)
    requires
        shares == 0 || total_debt_shares != 0,
    ensures
        r == (if shares == 0 {
            Some(0u64)
        } else {
            fit_u64(ceil_div(shares * total_borrowed, total_debt_shares as int))
        }),
{
    if shares == 0 {
        return Some(0);
    }
    proof {
        lemma_mul_le(shares as int, total_borrowed as int, u64::MAX as int, u64::MAX as int);
    }
    let result = div_ceil_u128((shares as u128) * (total_borrowed as u128), total_debt_shares as u128);
    if result > u64::MAX as u128 {
        None
    } else {
        Some(result as u64)
    }
}

/// Debt over raw collateral units, in bps.
pub fn compute_ltv(debt: u64, collateral: u64) -> (r: Option<u32>)
    ensures
        r == jbl_ltv_of(debt as int, collateral as int),
{
    if debt == 0 {
        return None;
    }
    if collateral == 0 {
        return Some(0);
    }
    proof {
        lemma_mul_le(debt as int, 10_000, u64::MAX as int, 10_000);
    }
    let ltv_bps = (debt as u128) * 10_000 / (collateral as u128);
    if ltv_bps > u32::MAX as u128 {
        None
    } else {
        Some(ltv_bps as u32)
    }
}

/// Raw collateral at `ltv_percent` over debt, in bps.
pub fn compute_health_factor(collateral: u64, ltv_percent: u8, debt: u64) -> (r: Option<u32>)
    ensures
        r == jbl_health_of(collateral as int, ltv_percent as int, debt as int),
{
    if debt == 0 {
        return None;
    }
    proof {
        lemma_mul_le(collateral as int, ltv_percent as int, u64::MAX as int, 255);
        lemma_mul_le(collateral as int * ltv_percent as int, 100, u64::MAX as int * 255, 100);
    }
    let numerator = (collateral as u128) * (ltv_percent as u128) * 100;
    let hf_bps = numerator / (debt as u128);
    if hf_bps > u32::MAX as u128 {
        None
    } else {
        Some(hf_bps as u32)
    }
}

pub fn compute_liquidation_threshold(debt: u64, collateral: u64, ltv_percent: u8) -> (r: Option<u32>)
    ensures
        r == jbl_liquidation_of(debt as int, collateral as int, ltv_percent as int),
{
    if debt == 0 {
        return None;
    }
    if collateral == 0 || ltv_percent == 0 {
        return Some(0);
    }
    proof {
        lemma_mul_le(debt as int, 1_000_000, u64::MAX as int, 1_000_000);
        lemma_mul_le(collateral as int, ltv_percent as int, u64::MAX as int, 255);
        lemma_mul_le(1, 1, collateral as int, ltv_percent as int);
    }
    let numerator = (debt as u128) * 1_000_000;
    let denominator = (collateral as u128) * (ltv_percent as u128);
    let liq_bps = numerator / denominator;
    if liq_bps > u32::MAX as u128 {
        None
    } else {
        Some(liq_bps as u32)
    }
}

/// Uses ceiling division, capped at `max_shares` so full-repay never burns more
/// shares than held. Something must be borrowed whenever `repay_amount` is nonzero.
pub fn amount_to_shares_burned(
    repay_amount: u64,
    total_borrowed: u64,
    total_debt_shares: u64,
    max_shares: u64,
) -> (r: Option<u64>)
    requires
        repay_amount == 0 || total_borrowed != 0,
    ensures
        r == jbl_shares_burned_spec(repay_amount as int, total_borrowed as int, total_debt_shares as int, max_shares as int),
{
    if repay_amount == 0 {
        return Some(0);
    }
    proof {
        lemma_mul_le(repay_amount as int, total_debt_shares as int, u64::MAX as int, u64::MAX as int);
    }
    let shares = div_ceil_u128((repay_amount as u128) * (total_debt_shares as u128), total_borrowed as u128);
    if shares > u64::MAX as u128 {
        return None;
    }
    let shares = shares as u64;
    if shares < max_shares {
        Some(shares)
    } else {
        Some(max_shares)
    }
}

/// Mirrors the on-chain LTV check in `borrow_handler`.
pub fn max_borrowable(collateral: u64, ltv_percent: u8) -> (r: u64)
    ensures
        r == jbl_max_borrowable_of(collateral as int, ltv_percent as int),
{
    proof {
        lemma_mul_le(collateral as int, ltv_percent as int, u64::MAX as int, 255);
    }
    let product = (collateral as u128) * (ltv_percent as u128);
    let saturated = if product > u64::MAX as u128 {
        u64::MAX
    } else {
        product as u64
    };
    saturated / 100
}

} // verus!
