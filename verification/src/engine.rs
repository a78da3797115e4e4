//! `Core`: the market state machine. Every operation that moves value between
//! lenders, borrowers and the pool lives here, shared by the on-chain program
//! and the client replays.
//!
//! Each operation is specified by a spec function over [`MarketView`] that
//! says which refusal it returns or which new figures it records; the
//! executable methods are proved to follow them exactly, transfers included.
use vstd::prelude::*;

use core::marker::PhantomData;

use crate::arith::{max_int, min_int, sat_i64, sat_sub};
use crate::math::{
    amount_to_shares, amount_to_shares_burned, amount_to_shares_spec, capacity_of, collateral_value_in_lend,
    compute_interest, fit_u64, flash_fee, flash_fee_of, interest_of, lemma_flash_fee_fits, shares_burned_spec,
    shares_to_amount, shares_to_amount_spec, MathError, MIN_SEED_LIQUIDITY,
};
use crate::traits::{IrmRate, Market, MarketView, Oracle, Position};

verus! {

/// Typestate of a `Core` whose interest has not been accrued in this call.
pub struct NotAccrued;

/// Typestate of a `Core` whose interest is up to date.
pub struct Accrued;

pub struct Core<M, I, P, O, S> {
    pub market: M,
    pub irm: I,
    pub position: P,
    pub oracle: O,
    /// Typestate marker: [`NotAccrued`] until `accrue_interest` has run.
    pub _state: PhantomData<S>,
}

// ── specifications of the operations ────────────────────────────────────────

/// Lend tokens redeemable for `shares` LP at the current ratio, rounded down.
pub open spec fn lend_for_shares(m: MarketView, shares: u64) -> Option<u64> {
    if m.total_supply_shares == 0 {
        None
    } else {
        fit_u64(shares * m.total_supply_assets / m.total_supply_shares as int)
    }
}

/// Checks of a flash borrow, in the order they are made; `Ok` carries the
/// minimum repayment.
pub open spec fn flash_borrow_plan<E>(m: MarketView, amount: u64, vault_balance: u64) -> Result<u64, MathError<E>> {
    if amount == 0 {
        Err(MathError::InvalidAmount)
    } else if m.flash_loan_outstanding != 0 {
        Err(MathError::FlashLoanOutstanding)
    } else if amount > sat_sub(vault_balance as int, m.assets_in_queue as int) {
        Err(MathError::InsufficientLiquidity)
    } else if amount + flash_fee_of(amount as int) > u64::MAX {
        Err(MathError::Arithmetic)
    } else {
        Ok((amount + flash_fee_of(amount as int)) as u64)
    }
}

/// Checks of a flash repayment of `amount`; `Ok` carries `(principal, fee)`.
pub open spec fn flash_repay_plan<E>(m: MarketView, amount: u64) -> Result<(u64, u64), MathError<E>> {
    let principal = m.flash_loan_outstanding;
    let fee = flash_fee_of(principal as int);
    if principal == 0 {
        Err(MathError::NoFlashLoan)
    } else if principal + fee > u64::MAX {
        Err(MathError::Arithmetic)
    } else if amount < principal + fee {
        Err(MathError::FlashLoanUnderRepaid)
    } else if amount > principal + fee {
        Err(MathError::FlashLoanOverRepaid)
    } else {
        Ok((principal, fee as u64))
    }
}

/// The market after a settled flash repayment: the fee credited to lenders,
/// the lock released.
pub open spec fn flash_settled(m: MarketView, fee: u64) -> MarketView {
    MarketView { total_supply_assets: (m.total_supply_assets + fee) as u64, flash_loan_outstanding: 0, ..m }
}

/// `r` is what an operation returns once its accounting has produced
/// `value` and it has called `transfer(amount)`: `value` when the transfer
/// succeeded, the transfer's own error otherwise.
pub open spec fn paid_through<T, E, F: FnOnce(u64) -> Result<(), E>>(
    transfer: F,
    amount: u64,
    value: T,
    r: Result<T, MathError<E>>,
) -> bool {
    match r {
        Ok(v) => v == value && call_ensures(transfer, (amount,), Ok::<(), E>(())),
        Err(MathError::Transfer(e)) => call_ensures(transfer, (amount,), Err(e)),
        Err(_) => false,
    }
}

/// The market after releasing `amount` from the withdrawal queue, or `None`
/// when less than that is queued.
pub open spec fn queue_released(m: MarketView, amount: u64) -> Option<MarketView> {
    if amount > m.assets_in_queue {
        None
    } else {
        Some(MarketView { assets_in_queue: (m.assets_in_queue - amount) as u64, ..m })
    }
}

/// LP minted for a deposit of `amount`: 1:1 when seeding (and only from
/// [`MIN_SEED_LIQUIDITY`] up), otherwise `amount * shares / assets` rounded down.
pub open spec fn deposit_lp<E>(m: MarketView, amount: u64) -> Result<u64, MathError<E>> {
    let quoted = amount * m.total_supply_shares / m.total_supply_assets as int;
    if amount == 0 {
        Err(MathError::InvalidAmount)
    } else if m.total_supply_shares == 0 || m.total_supply_assets == 0 {
        if amount < MIN_SEED_LIQUIDITY {
            Err(MathError::AmountTooSmall)
        } else {
            Ok(amount)
        }
    } else if quoted > u64::MAX {
        Err(MathError::Arithmetic)
    } else if quoted == 0 {
        Err(MathError::AmountTooSmall)
    } else {
        Ok(quoted as u64)
    }
}

/// Market and result of a deposit's accounting, before any transfer.
pub open spec fn deposit_lent_accounting<E>(m: MarketView, amount: u64) -> (MarketView, Result<u64, MathError<E>>) {
    match deposit_lp::<E>(m, amount) {
        Err(e) => (m, Err(e)),
        Ok(lp) => if m.total_supply_assets + amount > u64::MAX {
            (m, Err(MathError::Arithmetic))
        } else if m.total_supply_shares + lp > u64::MAX {
            (MarketView { total_supply_assets: (m.total_supply_assets + amount) as u64, ..m }, Err(MathError::Arithmetic))
        } else {
            (
                MarketView {
                    total_supply_assets: (m.total_supply_assets + amount) as u64,
                    total_supply_shares: (m.total_supply_shares + lp) as u64,
                    ..m
                },
                Ok(lp),
            )
        },
    }
}

/// Market and result of an immediate LP exit's accounting, before the transfer.
pub open spec fn withdraw_immediate_accounting<E>(m: MarketView, shares: u64) -> (MarketView, Result<u64, MathError<E>>) {
    match lend_for_shares(m, shares) {
        None => (m, Err(MathError::InsufficientBalance)),
        Some(lend) => if shares > m.total_supply_shares {
            (m, Err(MathError::Arithmetic))
        } else if lend > m.total_supply_assets {
            (MarketView { total_supply_shares: (m.total_supply_shares - shares) as u64, ..m }, Err(MathError::Arithmetic))
        } else {
            (
                MarketView {
                    total_supply_shares: (m.total_supply_shares - shares) as u64,
                    total_supply_assets: (m.total_supply_assets - lend) as u64,
                    ..m
                },
                Ok(lend),
            )
        },
    }
}

/// Market and result of a queued LP exit: shares burned, their assets moved
/// into the queue.
pub open spec fn withdraw_queued_accounting(m: MarketView, shares: u64) -> (MarketView, Option<u64>) {
    match lend_for_shares(m, shares) {
        None => (m, None),
        Some(lend) => if shares > m.total_supply_shares {
            (m, None)
        } else if lend > m.total_supply_assets {
            (MarketView { total_supply_shares: (m.total_supply_shares - shares) as u64, ..m }, None)
        } else if m.assets_in_queue + lend > u64::MAX {
            (
                MarketView {
                    total_supply_shares: (m.total_supply_shares - shares) as u64,
                    total_supply_assets: (m.total_supply_assets - lend) as u64,
                    ..m
                },
                None,
            )
        } else {
            (
                MarketView {
                    total_supply_shares: (m.total_supply_shares - shares) as u64,
                    total_supply_assets: (m.total_supply_assets - lend) as u64,
                    assets_in_queue: (m.assets_in_queue + lend) as u64,
                    ..m
                },
                Some(lend),
            )
        },
    }
}

/// Seconds of interest owed since `last_update`, never negative.
pub open spec fn elapsed_since(last_update: i64, now: i64) -> int {
    max_int(sat_i64(now - last_update), 0)
}

/// The market with interest accrued at `rate_bps` up to `now`, or `None`
/// when a figure overflows. Interest is added to both sides; the protocol fee
/// is minted as supply shares valued against supply excluding the fee.
pub open spec fn accrued_market(m: MarketView, rate_bps: u32, now: i64) -> Option<MarketView> {
    let elapsed = elapsed_since(m.last_update, now);
    let interest = interest_of(m.total_borrow_assets as int, rate_bps as int, elapsed);
    let supply = m.total_supply_assets + interest;
    let base = MarketView {
        total_borrow_assets: (m.total_borrow_assets + interest) as u64,
        total_supply_assets: supply as u64,
        last_update: now,
        ..m
    };
    let fee_amount = interest * m.fee / 10_000;
    let fee_shares = fee_amount * m.total_supply_shares / (supply - fee_amount);
    if elapsed == 0 {
        Some(m)
    } else if interest > u64::MAX || m.total_borrow_assets + interest > u64::MAX || supply > u64::MAX {
        None
    } else if m.fee == 0 || interest == 0 {
        Some(base)
    } else if fee_amount > supply {
        None
    } else if fee_amount == 0 || supply - fee_amount == 0 {
        Some(base)
    } else if fee_amount * m.total_supply_shares > u128::MAX || fee_shares > u64::MAX {
        None
    } else if fee_shares == 0 {
        Some(base)
    } else if m.total_supply_shares + fee_shares > u64::MAX || m.accrued_fee_shares + fee_shares > u64::MAX {
        None
    } else {
        Some(
            MarketView {
                total_supply_shares: (m.total_supply_shares + fee_shares) as u64,
                accrued_fee_shares: (m.accrued_fee_shares + fee_shares) as u64,
                ..base
            },
        )
    }
}

/// Debt currently owed by a position holding `debt_shares`.
pub open spec fn current_debt(m: MarketView, debt_shares: u64) -> Option<u64> {
    if m.total_borrow_shares == 0 {
        Some(0)
    } else {
        shares_to_amount_spec(debt_shares as int, m.total_borrow_assets as int, m.total_borrow_shares as int)
    }
}

/// Borrow capacity of `collateral` at the market's LTV and `oracle_price`.
pub open spec fn borrow_capacity(m: MarketView, collateral: u64, oracle_price: u64) -> Option<u64> {
    fit_u64(capacity_of(collateral as int, m.ltv_percent as int, oracle_price as int))
}

/// Checks of a repayment of `amount` by a position holding `debt_shares`;
/// `Ok` carries `(repaid, shares burned)`.
pub open spec fn repay_plan<E>(m: MarketView, debt_shares: u64, amount: u64) -> Result<(u64, u64), MathError<E>> {
    match shares_to_amount_spec(debt_shares as int, m.total_borrow_assets as int, m.total_borrow_shares as int) {
        None => Err(MathError::Arithmetic),
        Some(due) => {
            let repaid = min_int(amount as int, due as int) as u64;
            if repaid == due {
                Ok((repaid, debt_shares))
            } else {
                match shares_burned_spec(
                    repaid as int,
                    m.total_borrow_assets as int,
                    m.total_borrow_shares as int,
                    debt_shares as int,
                ) {
                    None => Err(MathError::Arithmetic),
                    Some(burned) => Ok((repaid, burned)),
                }
            }
        },
    }
}

/// Position debt shares, market and result of a repayment's accounting.
pub open spec fn repay_accounting<E>(m: MarketView, debt_shares: u64, amount: u64) -> (u64, MarketView, Result<(u64, u64), MathError<E>>) {
    match repay_plan::<E>(m, debt_shares, amount) {
        Err(e) => (debt_shares, m, Err(e)),
        Ok((repaid, burned)) => if burned > debt_shares {
            (debt_shares, m, Err(MathError::Arithmetic))
        } else if burned > m.total_borrow_shares {
            ((debt_shares - burned) as u64, m, Err(MathError::Arithmetic))
        } else if repaid > m.total_borrow_assets {
            (
                (debt_shares - burned) as u64,
                MarketView { total_borrow_shares: (m.total_borrow_shares - burned) as u64, ..m },
                Err(MathError::Arithmetic),
            )
        } else {
            (
                (debt_shares - burned) as u64,
                MarketView {
                    total_borrow_shares: (m.total_borrow_shares - burned) as u64,
                    total_borrow_assets: (m.total_borrow_assets - repaid) as u64,
                    ..m
                },
                Ok((repaid, burned)),
            )
        },
    }
}

/// Checks of a borrow of `amount`; `Ok` carries the debt shares to mint.
pub open spec fn borrow_plan<E>(
    m: MarketView,
    collateral: u64,
    debt_shares: u64,
    oracle_price: u64,
    amount: u64,
    vault_balance: u64,
) -> Result<u64, MathError<E>> {
    if amount == 0 {
        Err(MathError::InvalidAmount)
    } else if amount > sat_sub(vault_balance as int, m.assets_in_queue as int) {
        Err(MathError::InsufficientLiquidity)
    } else {
        match (borrow_capacity(m, collateral, oracle_price), current_debt(m, debt_shares)) {
            (None, _) => Err(MathError::Arithmetic),
            (Some(_), None) => Err(MathError::Arithmetic),
            (Some(cap), Some(debt)) => if debt > cap || amount > cap - debt {
                Err(MathError::Undercollateralized)
            } else {
                match amount_to_shares_spec(amount as int, m.total_borrow_assets as int, m.total_borrow_shares as int) {
                    None => Err(MathError::Arithmetic),
                    Some(minted) => if minted == 0 {
                        Err(MathError::AmountTooSmall)
                    } else {
                        Ok(minted)
                    },
                }
            },
        }
    }
}

/// Position debt shares, market and result of a borrow's accounting.
pub open spec fn borrow_accounting<E>(
    m: MarketView,
    collateral: u64,
    debt_shares: u64,
    oracle_price: u64,
    amount: u64,
    vault_balance: u64,
) -> (u64, MarketView, Result<u64, MathError<E>>) {
    match borrow_plan::<E>(m, collateral, debt_shares, oracle_price, amount, vault_balance) {
        Err(e) => (debt_shares, m, Err(e)),
        Ok(minted) => if debt_shares + minted > u64::MAX {
            (debt_shares, m, Err(MathError::Arithmetic))
        } else if m.total_borrow_shares + minted > u64::MAX {
            ((debt_shares + minted) as u64, m, Err(MathError::Arithmetic))
        } else if m.total_borrow_assets + amount > u64::MAX {
            (
                (debt_shares + minted) as u64,
                MarketView { total_borrow_shares: (m.total_borrow_shares + minted) as u64, ..m },
                Err(MathError::Arithmetic),
            )
        } else {
            (
                (debt_shares + minted) as u64,
                MarketView {
                    total_borrow_shares: (m.total_borrow_shares + minted) as u64,
                    total_borrow_assets: (m.total_borrow_assets + amount) as u64,
                    ..m
                },
                Ok(minted),
            )
        },
    }
}

/// Checks of a collateral withdrawal; `Ok` carries the collateral left.
pub open spec fn withdraw_collateral_plan<E>(
    m: MarketView,
    collateral: u64,
    debt_shares: u64,
    oracle_price: u64,
    amount: u64,
) -> Result<u64, MathError<E>> {
    if amount == 0 {
        Err(MathError::InvalidAmount)
    } else if amount > collateral {
        Err(MathError::InsufficientBalance)
    } else {
        match (borrow_capacity(m, (collateral - amount) as u64, oracle_price), current_debt(m, debt_shares)) {
            (None, _) => Err(MathError::Arithmetic),
            (Some(_), None) => Err(MathError::Arithmetic),
            (Some(cap), Some(debt)) => if debt > cap {
                Err(MathError::Undercollateralized)
            } else {
                Ok((collateral - amount) as u64)
            },
        }
    }
}

impl<M: Market, I, P, O, S> Core<M, I, P, O, S> {
    pub fn calc_lend_for_shares(&self, shares: u64) -> (r: Option<u64>)
        ensures
            r == lend_for_shares(self.market.market_view(), shares),
    {
        let total_shares = self.market.total_supply_shares();
        if total_shares == 0 {
            return None;
        }
        let assets = self.market.total_supply_assets();
        proof {
            crate::arith::lemma_mul_le(shares as int, assets as int, u64::MAX as int, u64::MAX as int);
        }
        let lend = (shares as u128) * (assets as u128) / (total_shares as u128);
        if lend > u64::MAX as u128 {
            None
        } else {
            Some(lend as u64)
        }
    }

    /// Open a flash loan of `amount` against a vault holding `vault_balance`.
    /// Takes the pairing lock and hands the tokens out; returns the minimum
    /// repayment. `total_supply_assets` is deliberately not debited.
    pub fn flash_borrow<E, F>(&mut self, amount: u64, vault_balance: u64, transfer: F) -> (r: Result<u64, MathError<E>>) where
        F: FnOnce(u64) -> Result<(), E>,

        requires
            call_requires(transfer, (amount,)),
        ensures
            final(self).irm == old(self).irm,
            final(self).position == old(self).position,
            final(self).oracle == old(self).oracle,
            match flash_borrow_plan::<E>(old(self).market.market_view(), amount, vault_balance) {
                Err(e) => r == Err::<u64, MathError<E>>(e) && final(self).market.market_view() == old(
                    self,
                ).market.market_view(),
                Ok(min_repay) => {
                    &&& final(self).market.market_view() == (MarketView {
                        flash_loan_outstanding: amount,
                        ..old(self).market.market_view()
                    })
                    &&& paid_through(transfer, amount, min_repay, r)
                },
            },
    {
        if amount == 0 {
            return Err(MathError::InvalidAmount);
        }
        if self.market.flash_loan_outstanding() != 0 {
            return Err(MathError::FlashLoanOutstanding);
        }
        if amount > crate::math::borrowable_liquidity(vault_balance, self.market.assets_in_queue()) {
            return Err(MathError::InsufficientLiquidity);
        }
        proof {
            lemma_flash_fee_fits(amount as int);
        }
        let fee = match flash_fee(amount) {
            Some(f) => f,
            None => return Err(MathError::Arithmetic),
        };
        let min_repay = match amount.checked_add(fee) {
            Some(v) => v,
            None => return Err(MathError::Arithmetic),
        };
        *self.market.flash_loan_outstanding_mut() = amount;
        let res = transfer(amount);
        assert(call_ensures(transfer, (amount,), res));
        match res {
            Ok(u) => {
                assert(u == ());
                Ok(min_repay)
            },
            Err(e) => Err(MathError::Transfer(e)),
        }
    }
}

impl<M: Market> Core<M, (), (), (), NotAccrued> {
    pub fn new(market: M) -> (r: Self)
        ensures
            r.market == market,
    {
        Core { market, irm: (), position: (), oracle: (), _state: PhantomData }
    }
}

impl<M: Market, I, P, O, S> Core<M, I, P, O, S> {
    pub fn with_irm<I2: IrmRate>(self, irm: I2) -> (r: Core<M, I2, P, O, S>)
        ensures
            r.market == self.market && r.irm == irm && r.position == self.position && r.oracle == self.oracle,
    {
        Core { market: self.market, irm, position: self.position, oracle: self.oracle, _state: PhantomData }
    }

    pub fn with_position<P2: Position>(self, position: P2) -> (r: Core<M, I, P2, O, S>)
        ensures
            r.market == self.market && r.irm == self.irm && r.position == position && r.oracle == self.oracle,
    {
        Core { market: self.market, irm: self.irm, position, oracle: self.oracle, _state: PhantomData }
    }

    pub fn with_oracle<O2: Oracle>(self, oracle: O2) -> (r: Core<M, I, P, O2, S>)
        ensures
            r.market == self.market && r.irm == self.irm && r.position == self.position && r.oracle == oracle,
    {
        Core { market: self.market, irm: self.irm, position: self.position, oracle, _state: PhantomData }
    }

    /// Close the in-flight flash loan with a repayment of exactly principal
    /// plus fee, returning `(principal, fee)`. Only the fee is credited to the
    /// supply side; a surplus is refused, as is a shortfall.
    pub fn flash_repay<E, F>(&mut self, amount: u64, transfer: F) -> (r: Result<(u64, u64), MathError<E>>) where
        F: FnOnce(u64) -> Result<(), E>,

        requires
            call_requires(transfer, (amount,)),
        ensures
            final(self).irm == old(self).irm,
            final(self).position == old(self).position,
            final(self).oracle == old(self).oracle,
            match flash_repay_plan::<E>(old(self).market.market_view(), amount) {
                Err(e) => r == Err::<(u64, u64), MathError<E>>(e) && final(self).market.market_view() == old(
                    self,
                ).market.market_view(),
                Ok((principal, fee)) => match r {
                    Err(MathError::Transfer(e)) => call_ensures(transfer, (amount,), Err(e))
                        && final(self).market.market_view() == old(self).market.market_view(),
                    Err(MathError::Arithmetic) => call_ensures(transfer, (amount,), Ok::<(), E>(()))
                        && old(self).market.market_view().total_supply_assets + fee > u64::MAX
                        && final(self).market.market_view() == old(self).market.market_view(),
                    Ok(v) => v == (principal, fee) && call_ensures(transfer, (amount,), Ok::<(), E>(()))
                        && old(self).market.market_view().total_supply_assets + fee <= u64::MAX
                        && final(self).market.market_view() == flash_settled(old(self).market.market_view(), fee),
                    Err(_) => false,
                },
            },
    {
        let principal = self.market.flash_loan_outstanding();
        if principal == 0 {
            return Err(MathError::NoFlashLoan);
        }
        proof {
            lemma_flash_fee_fits(principal as int);
        }
        let fee = match flash_fee(principal) {
            Some(f) => f,
            None => return Err(MathError::Arithmetic),
        };
        let min_repay = match principal.checked_add(fee) {
            Some(v) => v,
            None => return Err(MathError::Arithmetic),
        };
        if amount < min_repay {
            return Err(MathError::FlashLoanUnderRepaid);
        }
        if amount > min_repay {
            return Err(MathError::FlashLoanOverRepaid);
        }
        match transfer(amount) {
            Ok(u) => {
                assert(u == ());
            },
            Err(e) => return Err(MathError::Transfer(e)),
        }
        let credited = match self.market.total_supply_assets().checked_add(fee) {
            Some(v) => v,
            None => return Err(MathError::Arithmetic),
        };
        *self.market.total_supply_assets_mut() = credited;
        *self.market.flash_loan_outstanding_mut() = 0;
        Ok((principal, fee))
    }

    /// `true` while a flash loan is in flight.
    pub fn flash_loan_in_progress(&self) -> (r: bool)
        ensures
            r == (self.market.market_view().flash_loan_outstanding != 0),
    {
        self.market.flash_loan_outstanding() != 0
    }

    /// Settle one previously queued withdrawal of `amount` lend tokens: the
    /// reservation is released as the tokens go out.
    pub fn process_queued_withdrawal<E, F>(&mut self, amount: u64, transfer: F) -> (r: Result<(), MathError<E>>) where
        F: FnOnce(u64) -> Result<(), E>,

        requires
            call_requires(transfer, (amount,)),
        ensures
            final(self).irm == old(self).irm,
            final(self).position == old(self).position,
            final(self).oracle == old(self).oracle,
            match queue_released(old(self).market.market_view(), amount) {
                None => r == Err::<(), MathError<E>>(MathError::Arithmetic) && final(self).market.market_view()
                    == old(self).market.market_view(),
                Some(m) => final(self).market.market_view() == m && paid_through(transfer, amount, (), r),
            },
    {
        let left = match self.market.assets_in_queue().checked_sub(amount) {
            Some(v) => v,
            None => return Err(MathError::Arithmetic),
        };
        *self.market.assets_in_queue_mut() = left;
        match transfer(amount) {
            Ok(u) => {
                assert(u == ());
                Ok(())
            },
            Err(e) => Err(MathError::Transfer(e)),
        }
    }
}

// ── LP entry / exit — only valid on an accrued market ─────────────────────────
impl<M: Market, I, P, O> Core<M, I, P, O, Accrued> {
    /// Deposit `amount` lend tokens and mint LP for it. Seeding the supply
    /// side is refused below [`MIN_SEED_LIQUIDITY`]; a deposit worth no LP is
    /// refused too.
    pub fn deposit_lent<E, F1, F2>(&mut self, amount: u64, transfer: F1, mint: F2) -> (r: Result<u64, MathError<E>>) where
        F1: FnOnce(u64) -> Result<(), E>,
        F2: FnOnce(u64) -> Result<(), E>,

        requires
            call_requires(transfer, (amount,)),
            forall|lp: u64| call_requires(mint, (lp,)),
        ensures
            final(self).irm == old(self).irm,
            final(self).position == old(self).position,
            final(self).oracle == old(self).oracle,
            final(self).market.market_view() == deposit_lent_accounting::<E>(old(self).market.market_view(), amount).0,
            match deposit_lent_accounting::<E>(old(self).market.market_view(), amount).1 {
                Err(e) => r == Err::<u64, MathError<E>>(e),
                Ok(lp) => match r {
                    Ok(v) => v == lp && call_ensures(transfer, (amount,), Ok::<(), E>(()))
                        && call_ensures(mint, (lp,), Ok::<(), E>(())),
                    Err(MathError::Transfer(e)) => call_ensures(transfer, (amount,), Err(e)) || (call_ensures(
                        transfer,
                        (amount,),
                        Ok::<(), E>(()),
                    ) && call_ensures(mint, (lp,), Err(e))),
                    Err(_) => false,
                },
            },
    {
        if amount == 0 {
            return Err(MathError::InvalidAmount);
        }
        let lp = if self.market.total_supply_shares() == 0 || self.market.total_supply_assets() == 0 {
            if amount < MIN_SEED_LIQUIDITY {
                return Err(MathError::AmountTooSmall);
            }
            amount
        } else {
            let shares = self.market.total_supply_shares();
            let assets = self.market.total_supply_assets();
            proof {
                crate::arith::lemma_mul_le(amount as int, shares as int, u64::MAX as int, u64::MAX as int);
            }
            let quoted = (amount as u128) * (shares as u128) / (assets as u128);
            if quoted > u64::MAX as u128 {
                return Err(MathError::Arithmetic);
            }
            quoted as u64
        };
        if lp == 0 {
            return Err(MathError::AmountTooSmall);
        }
        let new_assets = match self.market.total_supply_assets().checked_add(amount) {
            Some(v) => v,
            None => return Err(MathError::Arithmetic),
        };
        *self.market.total_supply_assets_mut() = new_assets;
        let new_shares = match self.market.total_supply_shares().checked_add(lp) {
            Some(v) => v,
            None => return Err(MathError::Arithmetic),
        };
        *self.market.total_supply_shares_mut() = new_shares;
        match transfer(amount) {
            Ok(u) => {
                assert(u == ());
            },
            Err(e) => return Err(MathError::Transfer(e)),
        }
        match mint(lp) {
            Ok(u) => {
                assert(u == ());
                Ok(lp)
            },
            Err(e) => Err(MathError::Transfer(e)),
        }
    }

    /// Burn `shares` LP and pay out their assets at the current ratio.
    pub fn withdraw_lent_immediate<E, F>(&mut self, shares: u64, transfer: F) -> (r: Result<u64, MathError<E>>) where
        F: FnOnce(u64) -> Result<(), E>,

        requires
            forall|lend: u64| call_requires(transfer, (lend,)),
        ensures
            final(self).irm == old(self).irm,
            final(self).position == old(self).position,
            final(self).oracle == old(self).oracle,
            final(self).market.market_view() == withdraw_immediate_accounting::<E>(old(self).market.market_view(), shares).0,
            match withdraw_immediate_accounting::<E>(old(self).market.market_view(), shares).1 {
                Err(e) => r == Err::<u64, MathError<E>>(e),
                Ok(lend) => paid_through(transfer, lend, lend, r),
            },
    {
        let lend = match self.calc_lend_for_shares(shares) {
            Some(v) => v,
            None => return Err(MathError::InsufficientBalance),
        };
        let new_shares = match self.market.total_supply_shares().checked_sub(shares) {
            Some(v) => v,
            None => return Err(MathError::Arithmetic),
        };
        *self.market.total_supply_shares_mut() = new_shares;
        let new_assets = match self.market.total_supply_assets().checked_sub(lend) {
            Some(v) => v,
            None => return Err(MathError::Arithmetic),
        };
        *self.market.total_supply_assets_mut() = new_assets;
        match transfer(lend) {
            Ok(u) => {
                assert(u == ());
                Ok(lend)
            },
            Err(e) => Err(MathError::Transfer(e)),
        }
    }

    /// Queue a withdrawal: burn the shares now and move their assets into
    /// `assets_in_queue`, so the share price stays flat for remaining lenders.
    pub fn withdraw_lent_queued(&mut self, shares: u64) -> (r: Option<u64>)
        ensures
            final(self).irm == old(self).irm,
            final(self).position == old(self).position,
            final(self).oracle == old(self).oracle,
            final(self).market.market_view() == withdraw_queued_accounting(old(self).market.market_view(), shares).0,
            r == withdraw_queued_accounting(old(self).market.market_view(), shares).1,
    {
        let lend = match self.calc_lend_for_shares(shares) {
            Some(v) => v,
            None => return None,
        };
        let new_shares = match self.market.total_supply_shares().checked_sub(shares) {
            Some(v) => v,
            None => return None,
        };
        *self.market.total_supply_shares_mut() = new_shares;
        let new_assets = match self.market.total_supply_assets().checked_sub(lend) {
            Some(v) => v,
            None => return None,
        };
        *self.market.total_supply_assets_mut() = new_assets;
        let queued = match self.market.assets_in_queue().checked_add(lend) {
            Some(v) => v,
            None => return None,
        };
        *self.market.assets_in_queue_mut() = queued;
        Some(lend)
    }
}

impl<M: Market, I, P: Position, O, S> Core<M, I, P, O, S> {
    pub fn deposit_collateral<E, F>(&mut self, amount: u64, transfer: F) -> (r: Result<(), MathError<E>>) where
        F: FnOnce(u64) -> Result<(), E>,

        requires
            call_requires(transfer, (amount,)),
        ensures
            final(self).irm == old(self).irm,
            final(self).oracle == old(self).oracle,
            final(self).market == old(self).market,
            final(self).position.debt_shares_of() == old(self).position.debt_shares_of(),
            amount == 0 ==> r == Err::<(), MathError<E>>(MathError::InvalidAmount)
                && final(self).position.collateral_of() == old(self).position.collateral_of(),
            amount != 0 && old(self).position.collateral_of() + amount > u64::MAX ==> r == Err::<
                (),
                MathError<E>,
            >(MathError::Arithmetic) && final(self).position.collateral_of() == old(self).position.collateral_of(),
            amount != 0 && old(self).position.collateral_of() + amount <= u64::MAX ==> final(self).position.collateral_of()
                == old(self).position.collateral_of() + amount && paid_through(transfer, amount, (), r),
    {
        if amount == 0 {
            return Err(MathError::InvalidAmount);
        }
        let total = match self.position.collateral_deposited().checked_add(amount) {
            Some(v) => v,
            None => return Err(MathError::Arithmetic),
        };
        *self.position.collateral_deposited_mut() = total;
        match transfer(amount) {
            Ok(u) => {
                assert(u == ());
                Ok(())
            },
            Err(e) => Err(MathError::Transfer(e)),
        }
    }

    /// Maximum borrowable amount against `collateral` at the market LTV and
    /// `oracle_price`, in lend units. Refuses (`None`) rather than clamping
    /// when the capacity exceeds `u64`.
    pub fn max_borrow_capacity(&self, collateral: u64, oracle_price: u64) -> (r: Option<u64>)
        ensures
            r == borrow_capacity(self.market.market_view(), collateral, oracle_price),
    {
        let value = collateral_value_in_lend(collateral, oracle_price);
        let ltv = self.market.ltv_percent();
        let ghost bound: int = u64::MAX as int * u64::MAX as int / crate::math::PRICE_SCALE as int;
        proof {
            crate::arith::lemma_mul_le(value as int, ltv as int, bound, 255);
        }
        let capacity = value * (ltv as u128) / 100;
        if capacity > u64::MAX as u128 {
            None
        } else {
            Some(capacity as u64)
        }
    }

    fn current_debt_amount(&self) -> (r: Option<u64>)
        ensures
            r == current_debt(self.market.market_view(), self.position.debt_shares_of()),
    {
        if self.market.total_borrow_shares() == 0 {
            Some(0)
        } else {
            shares_to_amount(
                self.position.debt_shares(),
                self.market.total_borrow_assets(),
                self.market.total_borrow_shares(),
            )
        }
    }
}

// ── Typestate transition: NotAccrued → Accrued ────────────────────────────────
impl<M: Market, I: IrmRate, P, O> Core<M, I, P, O, NotAccrued> {
    /// Accrue interest up to the rate source's timestamp: the same interest is
    /// added to borrowed and supplied assets, the protocol fee is minted as
    /// supply shares. `None` when a figure overflows.
    pub fn accrue_interest(self) -> (r: Option<Core<M, I, P, O, Accrued>>)
        ensures
            match accrued_market(self.market.market_view(), self.irm.rate_of(), self.irm.ts_of()) {
                None => r is None,
                Some(m) => r matches Some(c) && c.market.market_view() == m && c.irm == self.irm && c.position
                    == self.position && c.oracle == self.oracle,
            },
    {
        let mut core = self;
        let now = core.irm.current_ts();
        let last = core.market.last_update();
        let diff = now as i128 - last as i128;
        let elapsed: u64 = if diff <= 0 {
            0
        } else if diff > i64::MAX as i128 {
            i64::MAX as u64
        } else {
            diff as u64
        };
        if elapsed > 0 {
            let ghost m = core.market.market_view();
            let borrowed = core.market.total_borrow_assets();
            let interest = match compute_interest(borrowed, core.irm.rate_bps(), elapsed) {
                Some(v) => v,
                None => return None,
            };
            let new_borrow = match borrowed.checked_add(interest) {
                Some(v) => v,
                None => return None,
            };
            *core.market.total_borrow_assets_mut() = new_borrow;
            let supply_assets = match core.market.total_supply_assets().checked_add(interest) {
                Some(v) => v,
                None => return None,
            };
            *core.market.total_supply_assets_mut() = supply_assets;
            let fee_bps = core.market.fee();
            if fee_bps > 0 && interest > 0 {
                proof {
                    crate::arith::lemma_mul_le(interest as int, fee_bps as int, u64::MAX as int, u64::MAX as int);
                }
                let fee_amount = (interest as u128) * (fee_bps as u128) / 10_000;
                if fee_amount > supply_assets as u128 {
                    return None;
                }
                let denom = (supply_assets as u128) - fee_amount;
                if fee_amount > 0 && denom > 0 {
                    let supply_shares = core.market.total_supply_shares();
                    let product = match fee_amount.checked_mul(supply_shares as u128) {
                        Some(v) => v,
                        None => return None,
                    };
                    let quoted = product / denom;
                    if quoted > u64::MAX as u128 {
                        return None;
                    }
                    let fee_shares = quoted as u64;
                    if fee_shares > 0 {
                        let new_shares = match supply_shares.checked_add(fee_shares) {
                            Some(v) => v,
                            None => return None,
                        };
                        *core.market.total_supply_shares_mut() = new_shares;
                        let new_fee_shares = match core.market.accrued_fee_shares().checked_add(fee_shares) {
                            Some(v) => v,
                            None => return None,
                        };
                        *core.market.accrued_fee_shares_mut() = new_fee_shares;
                    }
                }
            }
            let ts = core.irm.current_ts();
            *core.market.last_update_mut() = ts;
        }
        Some(Core { market: core.market, irm: core.irm, position: core.position, oracle: core.oracle, _state: PhantomData })
    }
}

// ── Methods available after accrual, any oracle ───────────────────────────────
impl<M: Market, I, P: Position, O> Core<M, I, P, O, Accrued> {
    /// Repay up to the position's whole debt; returns `(repaid, shares burned)`.
    /// A full repayment burns every share the position holds; a partial one
    /// burns shares rounded down.
    pub fn repay<E, F>(&mut self, amount: u64, transfer: F) -> (r: Result<(u64, u64), MathError<E>>) where
        F: FnOnce(u64) -> Result<(), E>,

        requires
            forall|x: u64| call_requires(transfer, (x,)),
        ensures
            final(self).irm == old(self).irm,
            final(self).oracle == old(self).oracle,
            final(self).position.collateral_of() == old(self).position.collateral_of(),
            ({
                let (ds, m, res) = repay_accounting::<E>(
                    old(self).market.market_view(),
                    old(self).position.debt_shares_of(),
                    amount,
                );
                &&& final(self).position.debt_shares_of() == ds
                &&& final(self).market.market_view() == m
                &&& match res {
                    Err(e) => r == Err::<(u64, u64), MathError<E>>(e),
                    Ok((repaid, burned)) => paid_through(transfer, repaid, (repaid, burned), r),
                }
            }),
    {
        let debt_shares = self.position.debt_shares();
        let total_due = match shares_to_amount(
            debt_shares,
            self.market.total_borrow_assets(),
            self.market.total_borrow_shares(),
        ) {
            Some(v) => v,
            None => return Err(MathError::Arithmetic),
        };
        let repay_amount = if amount < total_due {
            amount
        } else {
            total_due
        };
        let shares_to_burn = if repay_amount == total_due {
            debt_shares
        } else {
            match amount_to_shares_burned(
                repay_amount,
                self.market.total_borrow_assets(),
                self.market.total_borrow_shares(),
                debt_shares,
            ) {
                Some(v) => v,
                None => return Err(MathError::Arithmetic),
            }
        };
        let left = match debt_shares.checked_sub(shares_to_burn) {
            Some(v) => v,
            None => return Err(MathError::Arithmetic),
        };
        *self.position.debt_shares_mut() = left;
        let new_shares = match self.market.total_borrow_shares().checked_sub(shares_to_burn) {
            Some(v) => v,
            None => return Err(MathError::Arithmetic),
        };
        *self.market.total_borrow_shares_mut() = new_shares;
        let new_assets = match self.market.total_borrow_assets().checked_sub(repay_amount) {
            Some(v) => v,
            None => return Err(MathError::Arithmetic),
        };
        *self.market.total_borrow_assets_mut() = new_assets;
        match transfer(repay_amount) {
            Ok(u) => {
                assert(u == ());
                Ok((repay_amount, shares_to_burn))
            },
            Err(e) => Err(MathError::Transfer(e)),
        }
    }
}

// ── Methods requiring an oracle ───────────────────────────────────────────────
impl<M: Market, I, P, O: Oracle, S> Core<M, I, P, O, S> {
    pub fn oracle_price(&self) -> (r: u64)
        ensures
            r == self.oracle.price_of(),
    {
        self.oracle.price()
    }
}

impl<M: Market, I, P: Position, O: Oracle> Core<M, I, P, O, Accrued> {
    /// Borrow `amount` against the position's collateral at the oracle price,
    /// from a vault holding `vault_balance`; returns the debt shares minted.
    pub fn borrow<E, F>(&mut self, amount: u64, vault_balance: u64, transfer: F) -> (r: Result<u64, MathError<E>>) where
        F: FnOnce(u64) -> Result<(), E>,

        requires
            call_requires(transfer, (amount,)),
        ensures
            final(self).irm == old(self).irm,
            final(self).oracle == old(self).oracle,
            final(self).position.collateral_of() == old(self).position.collateral_of(),
            ({
                let (ds, m, res) = borrow_accounting::<E>(
                    old(self).market.market_view(),
                    old(self).position.collateral_of(),
                    old(self).position.debt_shares_of(),
                    old(self).oracle.price_of(),
                    amount,
                    vault_balance,
                );
                &&& final(self).position.debt_shares_of() == ds
                &&& final(self).market.market_view() == m
                &&& match res {
                    Err(e) => r == Err::<u64, MathError<E>>(e),
                    Ok(minted) => paid_through(transfer, amount, minted, r),
                }
            }),
    {
        if amount == 0 {
            return Err(MathError::InvalidAmount);
        }
        if amount > crate::math::borrowable_liquidity(vault_balance, self.market.assets_in_queue()) {
            return Err(MathError::InsufficientLiquidity);
        }
        let oracle_price = self.oracle.price();
        let max_borrowable = match self.max_borrow_capacity(self.position.collateral_deposited(), oracle_price) {
            Some(v) => v,
            None => return Err(MathError::Arithmetic),
        };
        let current_debt = match self.current_debt_amount() {
            Some(v) => v,
            None => return Err(MathError::Arithmetic),
        };
        let headroom = match max_borrowable.checked_sub(current_debt) {
            Some(v) => v,
            None => return Err(MathError::Undercollateralized),
        };
        if amount > headroom {
            return Err(MathError::Undercollateralized);
        }
        let new_shares = match amount_to_shares(
            amount,
            self.market.total_borrow_assets(),
            self.market.total_borrow_shares(),
        ) {
            Some(v) => v,
            None => return Err(MathError::Arithmetic),
        };
        if new_shares == 0 {
            return Err(MathError::AmountTooSmall);
        }
        let position_shares = match self.position.debt_shares().checked_add(new_shares) {
            Some(v) => v,
            None => return Err(MathError::Arithmetic),
        };
        *self.position.debt_shares_mut() = position_shares;
        let market_shares = match self.market.total_borrow_shares().checked_add(new_shares) {
            Some(v) => v,
            None => return Err(MathError::Arithmetic),
        };
        *self.market.total_borrow_shares_mut() = market_shares;
        let market_assets = match self.market.total_borrow_assets().checked_add(amount) {
            Some(v) => v,
            None => return Err(MathError::Arithmetic),
        };
        *self.market.total_borrow_assets_mut() = market_assets;
        match transfer(amount) {
            Ok(u) => {
                assert(u == ());
                Ok(new_shares)
            },
            Err(e) => Err(MathError::Transfer(e)),
        }
    }

    /// Withdraw `amount` collateral, provided the debt stays within the
    /// capacity of what remains; returns the collateral left.
    pub fn withdraw_collateral<E, F>(&mut self, amount: u64, transfer: F) -> (r: Result<u64, MathError<E>>) where
        F: FnOnce(u64) -> Result<(), E>,

        requires
            call_requires(transfer, (amount,)),
        ensures
            final(self).irm == old(self).irm,
            final(self).oracle == old(self).oracle,
            final(self).market == old(self).market,
            final(self).position.debt_shares_of() == old(self).position.debt_shares_of(),
            match withdraw_collateral_plan::<E>(
                old(self).market.market_view(),
                old(self).position.collateral_of(),
                old(self).position.debt_shares_of(),
                old(self).oracle.price_of(),
                amount,
            ) {
                Err(e) => r == Err::<u64, MathError<E>>(e) && final(self).position.collateral_of() == old(
                    self,
                ).position.collateral_of(),
                Ok(remaining) => final(self).position.collateral_of() == remaining && paid_through(
                    transfer,
                    amount,
                    remaining,
                    r,
                ),
            },
    {
        if amount == 0 {
            return Err(MathError::InvalidAmount);
        }
        let oracle_price = self.oracle.price();
        let remaining = match self.position.collateral_deposited().checked_sub(amount) {
            Some(v) => v,
            None => return Err(MathError::InsufficientBalance),
        };
        let max_borrowable = match self.max_borrow_capacity(remaining, oracle_price) {
            Some(v) => v,
            None => return Err(MathError::Arithmetic),
        };
        let current_debt = match self.current_debt_amount() {
            Some(v) => v,
            None => return Err(MathError::Arithmetic),
        };
        if current_debt > max_borrowable {
            return Err(MathError::Undercollateralized);
        }
        *self.position.collateral_deposited_mut() = remaining;
        match transfer(amount) {
            Ok(u) => {
                assert(u == ());
                Ok(remaining)
            },
            Err(e) => Err(MathError::Transfer(e)),
        }
    }
}

} // verus!
