//! Pure protocol arithmetic: interest, share conversion, risk figures.
//!
//! Every function here is total: it either returns the exact value its
//! contract names or the refusal (`None`) that the contract states.
use vstd::prelude::*;

use crate::arith::{ceil_div, sat_add_u64, sat_sub, min_int, max_int, lemma_mul_le, lemma_div_at_least, lemma_ceil_div_bounds, lemma_div_monotone, lemma_div_bounds, lemma_div_below, div_ceil_u128};

verus! {

pub const SECONDS_PER_YEAR: u64 = 31_557_600;

pub const PRICE_SCALE: u128 = 1_000_000;

/// Maximum borrow rate the interest math will honor: 10_000% APR
/// (1_000_000 bps). A higher reported rate is clamped to this.
pub const MAX_RATE_BPS: u32 = 1_000_000;

/// Smallest deposit that may seed a pool's supply side, in base units.
pub const MIN_SEED_LIQUIDITY: u64 = 1_000;

/// Maximum loan-to-value a market may be configured with, in percent.
pub const MAX_LTV_PERCENT: u8 = 99;

/// Flash loan fee in basis points (9 bps = 0.09%).
pub const FLASH_LOAN_FEE_BPS: u64 = 9;

pub enum MathError<E> {
    /// Integer overflow or underflow in a checked arithmetic operation.
    Arithmetic,
    /// Borrow or withdraw would violate the LTV limit.
    Undercollateralized,
    /// Withdrawal exceeds the available balance (collateral deposited or pool shares).
    InsufficientBalance,
    /// The requested amount is too small to mint even one share.
    AmountTooSmall,
    /// A zero (or otherwise meaningless) amount was supplied.
    InvalidAmount,
    /// The vault cannot cover the request once assets reserved for the
    /// withdrawal queue are excluded.
    InsufficientLiquidity,
    /// A flash loan is already in flight on this market.
    FlashLoanOutstanding,
    /// No flash loan is in flight to repay.
    NoFlashLoan,
    /// The repayment does not cover the outstanding principal plus its fee.
    FlashLoanUnderRepaid,
    /// The repayment exceeds the outstanding principal plus its fee.
    FlashLoanOverRepaid,
    Transfer(E),
}

// ── mathematical definitions ─────────────────────────────────────────────────

/// `Some(x)` when `x` is representable as a `u64`, `None` otherwise.
pub open spec fn fit_u64(x: int) -> Option<u64> {
    if 0 <= x <= u64::MAX {
        Some(x as u64)
    } else {
        None
    }
}

/// `Some(x)` when `x` is representable as a `u32`, `None` otherwise.
pub open spec fn fit_u32(x: int) -> Option<u32> {
    if 0 <= x <= u32::MAX {
        Some(x as u32)
    } else {
        None
    }
}

/// Share of the pool's assets unavailable to borrowers, in bps, saturated at `u64::MAX`.
pub open spec fn utilization_of(tsa: int, tba: int, aiq: int) -> int {
    let total = sat_add_u64(tsa, aiq);
    if total == 0 {
        0
    } else {
        min_int(sat_add_u64(tba, aiq) * 10_000 / total, u64::MAX as int)
    }
}

/// Interest owed on `principal` at `rate_bps` (clamped at [`MAX_RATE_BPS`]) over
/// `elapsed` seconds, rounded up.
pub open spec fn interest_of(principal: int, rate_bps: int, elapsed: int) -> int {
    if elapsed == 0 || rate_bps == 0 || principal == 0 {
        0
    } else {
        ceil_div(
            principal * min_int(rate_bps, MAX_RATE_BPS as int) * elapsed,
            10_000 * SECONDS_PER_YEAR as int,
        )
    }
}

/// Debt shares minted for borrowing `amount` (ceiling), or `None` for an
/// inconsistent one-sided-zero pool or an unrepresentable result.
pub open spec fn amount_to_shares_spec(amount: int, total_borrowed: int, total_shares: int) -> Option<u64> {
    if amount == 0 {
        Some(0)
    } else if total_shares == 0 && total_borrowed == 0 {
        fit_u64(amount)
    } else if total_shares == 0 || total_borrowed == 0 {
        None
    } else {
        fit_u64(ceil_div(amount * total_shares, total_borrowed))
    }
}

/// Debt owed for `shares` (ceiling), or `None` when no shares exist or the
/// result is unrepresentable.
pub open spec fn shares_to_amount_spec(shares: int, total_borrowed: int, total_shares: int) -> Option<u64> {
    if shares == 0 {
        Some(0)
    } else if total_shares == 0 {
        None
    } else {
        fit_u64(ceil_div(shares * total_borrowed, total_shares))
    }
}

/// Lend value of `collateral` at `oracle_price`, rounded down.
pub open spec fn collateral_value(collateral: int, oracle_price: int) -> int {
    collateral * oracle_price / PRICE_SCALE as int
}

/// Collateral units needed to cover `amount` lend units at `oracle_price`, rounded up.
pub open spec fn lend_to_collateral_spec(amount: int, oracle_price: int) -> Option<u64> {
    if amount == 0 {
        Some(0)
    } else if oracle_price == 0 {
        None
    } else {
        fit_u64(ceil_div(amount * PRICE_SCALE as int, oracle_price))
    }
}

/// Debt over the lend value of collateral, in bps.
pub open spec fn ltv_spec(debt: int, collateral: int, oracle_price: int) -> Option<u32> {
    if debt == 0 || collateral_value(collateral, oracle_price) == 0 {
        None
    } else {
        fit_u32(debt * 10_000 / collateral_value(collateral, oracle_price))
    }
}

/// Borrow capacity of `collateral` at `ltv_percent` and `oracle_price`, rounded down.
pub open spec fn capacity_of(collateral: int, ltv_percent: int, oracle_price: int) -> int {
    collateral_value(collateral, oracle_price) * ltv_percent / 100
}

/// Capacity over debt, in bps.
pub open spec fn health_factor_spec(collateral: int, ltv_percent: int, debt: int, oracle_price: int) -> Option<u32> {
    if debt == 0 {
        None
    } else {
        fit_u32(capacity_of(collateral, ltv_percent, oracle_price) * 10_000 / debt)
    }
}

pub open spec fn liquidation_threshold_spec(debt: int, collateral: int, ltv_percent: int) -> Option<u32> {
    if debt == 0 {
        None
    } else if collateral == 0 || ltv_percent == 0 {
        Some(0)
    } else {
        fit_u32(debt * 1_000_000 / (collateral * ltv_percent))
    }
}

/// Shares burned by a repayment (floor), capped at `max_shares`.
pub open spec fn shares_burned_spec(repay: int, total_borrowed: int, total_shares: int, max_shares: int) -> Option<u64> {
    if repay == 0 {
        Some(0)
    } else if total_borrowed == 0 {
        None
    } else if repay * total_shares / total_borrowed > u64::MAX {
        None
    } else {
        Some(min_int(repay * total_shares / total_borrowed, max_shares) as u64)
    }
}

/// Flash fee owed on `amount`: 9 bps rounded up, at least 1 on a nonzero loan.
pub open spec fn flash_fee_of(amount: int) -> int {
    if amount == 0 {
        0
    } else {
        max_int(ceil_div(amount * FLASH_LOAN_FEE_BPS as int, 10_000), 1)
    }
}

// ── executable functions ────────────────────────────────────────────────────

/// `true` iff `ltv_percent` is a usable market configuration.
pub fn is_valid_ltv_percent(ltv_percent: u8) -> (r: bool)
    ensures
        r == (0 < ltv_percent && ltv_percent <= MAX_LTV_PERCENT),
{
    ltv_percent > 0 && ltv_percent <= MAX_LTV_PERCENT
}

/// Lend tokens actually available to borrow from a vault holding
/// `vault_balance`, excluding assets reserved for queued withdrawals.
pub fn borrowable_liquidity(vault_balance: u64, assets_in_queue: u64) -> (r: u64)
    ensures
        r == sat_sub(vault_balance as int, assets_in_queue as int),
{
    vault_balance.saturating_sub(assets_in_queue)
}

/// The same figure as [`borrowable_liquidity`], derived from the market's own
/// accounting instead of the vault's token balance.
pub fn borrowable_liquidity_from_market(total_supply_assets: u64, total_borrow_assets: u64) -> (r: u64)
    ensures
        r == sat_sub(total_supply_assets as int, total_borrow_assets as int),
{
    total_supply_assets.saturating_sub(total_borrow_assets)
}

/// Share of the pool's assets that is unavailable to borrowers, in bps.
/// Queued assets count on both sides; the result saturates at `u64::MAX`.
pub fn utilization_bps(total_supply_assets: u64, total_borrow_assets: u64, assets_in_queue: u64) -> (r: u64)
    ensures
        r == utilization_of(total_supply_assets as int, total_borrow_assets as int, assets_in_queue as int),
{
    let total_assets = total_supply_assets.saturating_add(assets_in_queue);
    if total_assets == 0 {
        return 0;
    }
    let effective_borrowed = total_borrow_assets.saturating_add(assets_in_queue);
    proof {
        lemma_mul_le(effective_borrowed as int, 10_000, u64::MAX as int, 10_000);
    }
    let util = (effective_borrowed as u128) * 10_000 / (total_assets as u128);
    if util > u64::MAX as u128 {
        u64::MAX
    } else {
        util as u64
    }
}

/// Interest accrued on `total_borrowed` at `rate_bps` over `elapsed_secs`,
/// rounded up; the rate is clamped at [`MAX_RATE_BPS`]. `None` when the
/// interest does not fit in a `u64`.
pub fn compute_interest(total_borrowed: u64, rate_bps: u32, elapsed_secs: u64) -> (r: Option<u64>)
    ensures
        r == fit_u64(interest_of(total_borrowed as int, rate_bps as int, elapsed_secs as int)),
{
    if elapsed_secs == 0 || rate_bps == 0 || total_borrowed == 0 {
        return Some(0);
    }
    let rate = if rate_bps < MAX_RATE_BPS {
        rate_bps
    } else {
        MAX_RATE_BPS
    };
    proof {
        lemma_mul_le(total_borrowed as int, rate as int, u64::MAX as int, MAX_RATE_BPS as int);
    }
    let partial = (total_borrowed as u128) * (rate as u128);
    let denominator: u128 = 10_000u128 * (SECONDS_PER_YEAR as u128);
    let ghost exact = total_borrowed as int * rate as int * elapsed_secs as int;
    match partial.checked_mul(elapsed_secs as u128) {
        None => {
            proof {
                // The product overflowed u128, so the quotient is far above u64::MAX.
                assert(exact > u128::MAX);
                lemma_div_at_least(exact, denominator as int, u64::MAX as int + 1);
                lemma_ceil_div_bounds(exact, denominator as int);
            }
            None
        },
        Some(numerator) => {
            let interest = div_ceil_u128(numerator, denominator);
            if interest > u64::MAX as u128 {
                None
            } else {
                Some(interest as u64)
            }
        },
    }
}

/// Debt shares minted for borrowing `amount`. Call this BEFORE adding `amount`
/// to `total_borrowed`. Rounds up so a borrower always owes at least their
/// proportional share.
pub fn amount_to_shares(amount: u64, total_borrowed: u64, total_debt_shares: u64) -> (r: Option<u64>)
    ensures
        r == amount_to_shares_spec(amount as int, total_borrowed as int, total_debt_shares as int),
{
    if amount == 0 {
        return Some(0);
    }
    if total_debt_shares == 0 && total_borrowed == 0 {
        return Some(amount);
    }
    if total_debt_shares == 0 || total_borrowed == 0 {
        return None;
    }
    proof {
        lemma_mul_le(amount as int, total_debt_shares as int, u64::MAX as int, u64::MAX as int);
    }
    let shares = div_ceil_u128((amount as u128) * (total_debt_shares as u128), total_borrowed as u128);
    if shares > u64::MAX as u128 {
        None
    } else {
        Some(shares as u64)
    }
}

/// Debt owed for `shares`, rounded up so the protocol never under-collects.
pub fn shares_to_amount(shares: u64, total_borrowed: u64, total_debt_shares: u64) -> (r: Option<u64>)
    ensures
        r == shares_to_amount_spec(shares as int, total_borrowed as int, total_debt_shares as int),
{
    if shares == 0 {
        return Some(0);
    }
    if total_debt_shares == 0 {
        return None;
    }
    proof {
        lemma_mul_le(shares as int, total_borrowed as int, u64::MAX as int, u64::MAX as int);
    }
    let result = div_ceil_u128((shares as u128) * (total_borrowed as u128), total_debt_shares as u128);
    if result > u64::MAX as u128 {
        None
    } else {
        Some(result as u64)
    }
}

/// Value of `collateral` collateral units in lend units, as a `u128`.
/// Rounds down; a zero price yields zero value.
pub fn collateral_value_in_lend(collateral: u64, oracle_price: u64) -> (r: u128)
    ensures
        r == collateral_value(collateral as int, oracle_price as int),
        r <= u64::MAX as int * u64::MAX as int / PRICE_SCALE as int,
{
    proof {
        lemma_mul_le(collateral as int, oracle_price as int, u64::MAX as int, u64::MAX as int);
        lemma_div_monotone(
            collateral as int * oracle_price as int,
            u64::MAX as int * u64::MAX as int,
            PRICE_SCALE as int,
        );
    }
    (collateral as u128) * (oracle_price as u128) / PRICE_SCALE
}

/// Value of `collateral` at `oracle_price` in lend units, clamped to `u64`.
pub fn collateral_to_lend_amount(collateral: u64, oracle_price: u64) -> (r: u64)
    ensures
        r == min_int(collateral_value(collateral as int, oracle_price as int), u64::MAX as int),
{
    let v = collateral_value_in_lend(collateral, oracle_price);
    if v > u64::MAX as u128 {
        u64::MAX
    } else {
        v as u64
    }
}

/// Collateral units covering a lend-denominated `amount` at `oracle_price`,
/// rounded up. `None` on a zero price or an unrepresentable result.
pub fn lend_to_collateral_amount(amount: u64, oracle_price: u64) -> (r: Option<u64>)
    ensures
        r == lend_to_collateral_spec(amount as int, oracle_price as int),
{
    if amount == 0 {
        return Some(0);
    }
    if oracle_price == 0 {
        return None;
    }
    proof {
        lemma_mul_le(amount as int, PRICE_SCALE as int, u64::MAX as int, PRICE_SCALE as int);
    }
    let collateral = div_ceil_u128((amount as u128) * PRICE_SCALE, oracle_price as u128);
    if collateral > u64::MAX as u128 {
        None
    } else {
        Some(collateral as u64)
    }
}

/// Loan-to-value of a position in bps: debt over the lend value of its collateral.
/// `None` with no debt, with collateral of no lend value, or when the ratio
/// exceeds `u32`.
pub fn compute_ltv(debt: u64, collateral: u64, oracle_price: u64) -> (r: Option<u32>)
    ensures
        r == ltv_spec(debt as int, collateral as int, oracle_price as int),
{
    if debt == 0 {
        return None;
    }
    let collateral_value = collateral_value_in_lend(collateral, oracle_price);
    if collateral_value == 0 {
        return None;
    }
    proof {
        lemma_mul_le(debt as int, 10_000, u64::MAX as int, 10_000);
    }
    let ltv_bps = (debt as u128) * 10_000 / collateral_value;
    if ltv_bps > u32::MAX as u128 {
        None
    } else {
        Some(ltv_bps as u32)
    }
}

/// Health factor of a position in bps (10_000 is exactly at the borrow limit):
/// borrow capacity over debt. `None` with no debt or when it exceeds `u32`.
pub fn compute_health_factor(collateral: u64, ltv_percent: u8, debt: u64, oracle_price: u64) -> (r: Option<u32>)
    ensures
        r == health_factor_spec(collateral as int, ltv_percent as int, debt as int, oracle_price as int),
{
    if debt == 0 {
        return None;
    }
    let value = collateral_value_in_lend(collateral, oracle_price);
    let ghost bound: int = u64::MAX as int * u64::MAX as int / PRICE_SCALE as int;
    proof {
        lemma_mul_le(value as int, ltv_percent as int, bound, 255);
    }
    let capacity = value * (ltv_percent as u128) / 100;
    proof {
        lemma_div_monotone(value as int * ltv_percent as int, bound * 255, 100);
        lemma_mul_le(capacity as int, 10_000, bound * 255 / 100, 10_000);
    }
    let hf_bps = capacity * 10_000 / (debt as u128);
    if hf_bps > u32::MAX as u128 {
        None
    } else {
        Some(hf_bps as u32)
    }
}

/// Liquidation price ratio of a position in bps.
pub fn compute_liquidation_threshold(debt: u64, collateral: u64, ltv_percent: u8) -> (r: Option<u32>)
    ensures
        r == liquidation_threshold_spec(debt as int, collateral as int, ltv_percent as int),
{
    if debt == 0 {
        return None;
    }
    if collateral == 0 || ltv_percent == 0 {
        return Some(0);
    }
    proof {
        lemma_mul_le(debt as int, 1_000_000, u64::MAX as int, 1_000_000);
        lemma_mul_le(collateral as int, ltv_percent as int, u64::MAX as int, 255);
        lemma_mul_le(1, 1, collateral as int, ltv_percent as int);
    }
    let numerator = (debt as u128) * 1_000_000;
    let denominator = (collateral as u128) * (ltv_percent as u128);
    let liq_bps = numerator / denominator;
    if liq_bps > u32::MAX as u128 {
        None
    } else {
        Some(liq_bps as u32)
    }
}

/// Shares burned when repaying `repay_amount`, rounded down and capped at
/// `max_shares`. `None` when nothing is borrowed or the quotient exceeds `u64`.
pub fn amount_to_shares_burned(
    repay_amount: u64,
    total_borrowed: u64,
    total_debt_shares: u64,
    max_shares: u64,
) -> (r: Option<u64>)
    ensures
        r == shares_burned_spec(repay_amount as int, total_borrowed as int, total_debt_shares as int, max_shares as int),
{
    if repay_amount == 0 {
        return Some(0);
    }
    if total_borrowed == 0 {
        return None;
    }
    proof {
        lemma_mul_le(repay_amount as int, total_debt_shares as int, u64::MAX as int, u64::MAX as int);
    }
    let shares = (repay_amount as u128) * (total_debt_shares as u128) / (total_borrowed as u128);
    if shares > u64::MAX as u128 {
        return None;
    }
    let shares = shares as u64;
    if shares < max_shares {
        Some(shares)
    } else {
        Some(max_shares)
    }
}

/// Flash-loan fee owed on `amount`: rounds up and charges at least 1 base unit
/// on any nonzero loan.
pub fn flash_fee(amount: u64) -> (r: Option<u64>)
    ensures
        r == fit_u64(flash_fee_of(amount as int)),
{
    if amount == 0 {
        return Some(0);
    }
    proof {
        lemma_mul_le(amount as int, 9, u64::MAX as int, 9);
    }
    let fee = div_ceil_u128((amount as u128) * (FLASH_LOAN_FEE_BPS as u128), 10_000);
    let fee = if fee < 1 {
        1
    } else {
        fee
    };
    if fee > u64::MAX as u128 {
        None
    } else {
        Some(fee as u64)
    }
}

/// Minimum repayment owed on a flash loan of `amount`: principal plus fee.
pub fn flash_min_repay(amount: u64) -> (r: Option<u64>)
    ensures
        r == fit_u64(amount + flash_fee_of(amount as int)),
{
    proof {
        lemma_flash_fee_fits(amount as int);
    }
    match flash_fee(amount) {
        None => None,
        Some(fee) => amount.checked_add(fee),
    }
}

/// The flash fee on any `u64` amount is itself a `u64`, and at most the amount.
pub proof fn lemma_flash_fee_fits(amount: int)
    requires
        0 <= amount <= u64::MAX,
    ensures
        0 <= flash_fee_of(amount) <= amount,
{
    if amount > 0 {
        lemma_ceil_div_bounds(amount * 9, 10_000);
        lemma_div_bounds(amount * 9, 10_000);
        lemma_div_below(amount * 9, 10_000, amount);
    }
}

} // verus!
