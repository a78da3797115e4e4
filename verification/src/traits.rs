//! The interfaces through which [`crate::engine::Core`] reads and writes a market,
//! a borrower's position, the clock, the rate model and the oracle.
use vstd::prelude::*;

verus! {

/// The accounting figures of one market, as the contracts of [`Market`] see them.
pub struct MarketView {
    pub total_supply_assets: u64,
    pub total_supply_shares: u64,
    pub total_borrow_assets: u64,
    pub total_borrow_shares: u64,
    pub last_update: i64,
    pub fee: u64,
    pub accrued_fee_shares: u64,
    pub assets_in_queue: u64,
    pub ltv_percent: u8,
    pub flash_loan_outstanding: u64,
}

pub trait Market {
    /// The figures this market currently holds.
    closed spec fn market_view(&self) -> MarketView {
        arbitrary()
    }

    fn total_supply_assets(&self) -> (r: u64)
        ensures
            r == self.market_view().total_supply_assets,
    ;

    fn total_supply_shares(&self) -> (r: u64)
        ensures
            r == self.market_view().total_supply_shares,
    ;

    fn total_borrow_assets(&self) -> (r: u64)
        ensures
            r == self.market_view().total_borrow_assets,
    ;

    fn total_borrow_shares(&self) -> (r: u64)
        ensures
            r == self.market_view().total_borrow_shares,
    ;

    fn last_update(&self) -> (r: i64)
        ensures
            r == self.market_view().last_update,
    ;

    /// Protocol fee **rate** in basis points, skimmed from accrued interest.
    fn fee(&self) -> (r: u64)
        ensures
            r == self.market_view().fee,
    ;

    /// Protocol-owned supply shares accrued from the fee, not yet claimed as LP.
    fn accrued_fee_shares(&self) -> (r: u64)
        ensures
            r == self.market_view().accrued_fee_shares,
    ;

    fn assets_in_queue(&self) -> (r: u64)
        ensures
            r == self.market_view().assets_in_queue,
    ;

    fn ltv_percent(&self) -> (r: u8)
        ensures
            r == self.market_view().ltv_percent,
    ;

    /// Principal of the flash loan currently in flight, or 0 when none is.
    fn flash_loan_outstanding(&self) -> (r: u64)
        ensures
            r == self.market_view().flash_loan_outstanding,
    ;

    fn total_supply_assets_mut(&mut self) -> (r: &mut u64)
        ensures
            *r == old(self).market_view().total_supply_assets,
            final(self).market_view() == (MarketView {
                total_supply_assets: *final(r),
                ..old(self).market_view()
            }),
    ;

    fn total_supply_shares_mut(&mut self) -> (r: &mut u64)
        ensures
            *r == old(self).market_view().total_supply_shares,
            final(self).market_view() == (MarketView {
                total_supply_shares: *final(r),
                ..old(self).market_view()
            }),
    ;

    fn accrued_fee_shares_mut(&mut self) -> (r: &mut u64)
        ensures
            *r == old(self).market_view().accrued_fee_shares,
            final(self).market_view() == (MarketView {
                accrued_fee_shares: *final(r),
                ..old(self).market_view()
            }),
    ;

    fn assets_in_queue_mut(&mut self) -> (r: &mut u64)
        ensures
            *r == old(self).market_view().assets_in_queue,
            final(self).market_view() == (MarketView {
                assets_in_queue: *final(r),
                ..old(self).market_view()
            }),
    ;

    fn total_borrow_assets_mut(&mut self) -> (r: &mut u64)
        ensures
            *r == old(self).market_view().total_borrow_assets,
            final(self).market_view() == (MarketView {
                total_borrow_assets: *final(r),
                ..old(self).market_view()
            }),
    ;

    fn total_borrow_shares_mut(&mut self) -> (r: &mut u64)
        ensures
            *r == old(self).market_view().total_borrow_shares,
            final(self).market_view() == (MarketView {
                total_borrow_shares: *final(r),
                ..old(self).market_view()
            }),
    ;

    fn last_update_mut(&mut self) -> (r: &mut i64)
        ensures
            *r == old(self).market_view().last_update,
            final(self).market_view() == (MarketView {
                last_update: *final(r),
                ..old(self).market_view()
            }),
    ;

    fn flash_loan_outstanding_mut(&mut self) -> (r: &mut u64)
        ensures
            *r == old(self).market_view().flash_loan_outstanding,
            final(self).market_view() == (MarketView {
                flash_loan_outstanding: *final(r),
                ..old(self).market_view()
            }),
    ;
}

/// Forwards every method to `T`, so that `Core::new(&mut market)` works on
/// the caller's market in place.
impl<T: Market> Market for &mut T {
    open spec fn market_view(&self) -> MarketView {
        (**self).market_view()
    }

    fn total_supply_assets(&self) -> (r: u64) {
        T::total_supply_assets(self)
    }

    fn total_supply_shares(&self) -> (r: u64) {
        T::total_supply_shares(self)
    }

    fn total_borrow_assets(&self) -> (r: u64) {
        T::total_borrow_assets(self)
    }

    fn total_borrow_shares(&self) -> (r: u64) {
        T::total_borrow_shares(self)
    }

    fn last_update(&self) -> (r: i64) {
        T::last_update(self)
    }

    fn fee(&self) -> (r: u64) {
        T::fee(self)
    }

    fn accrued_fee_shares(&self) -> (r: u64) {
        T::accrued_fee_shares(self)
    }

    fn assets_in_queue(&self) -> (r: u64) {
        T::assets_in_queue(self)
    }

    fn ltv_percent(&self) -> (r: u8) {
        T::ltv_percent(self)
    }

    fn flash_loan_outstanding(&self) -> (r: u64) {
        T::flash_loan_outstanding(self)
    }

    fn total_supply_assets_mut(&mut self) -> (r: &mut u64) {
        T::total_supply_assets_mut(self)
    }

    fn total_supply_shares_mut(&mut self) -> (r: &mut u64) {
        T::total_supply_shares_mut(self)
    }

    fn accrued_fee_shares_mut(&mut self) -> (r: &mut u64) {
        T::accrued_fee_shares_mut(self)
    }

    fn assets_in_queue_mut(&mut self) -> (r: &mut u64) {
        T::assets_in_queue_mut(self)
    }

    fn total_borrow_assets_mut(&mut self) -> (r: &mut u64) {
        T::total_borrow_assets_mut(self)
    }

    fn total_borrow_shares_mut(&mut self) -> (r: &mut u64) {
        T::total_borrow_shares_mut(self)
    }

    fn last_update_mut(&mut self) -> (r: &mut i64) {
        T::last_update_mut(self)
    }

    fn flash_loan_outstanding_mut(&mut self) -> (r: &mut u64) {
        T::flash_loan_outstanding_mut(self)
    }
}

pub trait Position {
    /// Collateral deposited by this position.
    closed spec fn collateral_of(&self) -> u64 {
        arbitrary()
    }

    /// Debt shares held by this position.
    closed spec fn debt_shares_of(&self) -> u64 {
        arbitrary()
    }

    fn collateral_deposited(&self) -> (r: u64)
        ensures
            r == self.collateral_of(),
    ;

    fn debt_shares(&self) -> (r: u64)
        ensures
            r == self.debt_shares_of(),
    ;

    fn collateral_deposited_mut(&mut self) -> (r: &mut u64)
        ensures
            *r == old(self).collateral_of(),
            final(self).collateral_of() == *final(r),
            final(self).debt_shares_of() == old(self).debt_shares_of(),
    ;

    fn debt_shares_mut(&mut self) -> (r: &mut u64)
        ensures
            *r == old(self).debt_shares_of(),
            final(self).debt_shares_of() == *final(r),
            final(self).collateral_of() == old(self).collateral_of(),
    ;
}

/// A source of the current Unix time. Two readings may differ, so nothing
/// is promised of the value read.
pub trait Clock {
    fn current_ts(&self) -> i64;
}

pub trait IrmRate {
    /// The borrow rate this source reports.
    closed spec fn rate_of(&self) -> u32 {
        arbitrary()
    }

    /// The timestamp this source reports.
    closed spec fn ts_of(&self) -> i64 {
        arbitrary()
    }

    fn rate_bps(&self) -> (r: u32)
        ensures
            r == self.rate_of(),
    ;

    fn current_ts(&self) -> (r: i64)
        ensures
            r == self.ts_of(),
    ;
}

pub trait Oracle {
    /// The price this oracle reports, lend units per collateral unit at `PRICE_SCALE`.
    closed spec fn price_of(&self) -> u64 {
        arbitrary()
    }

    fn price(&self) -> (r: u64)
        ensures
            r == self.price_of(),
    ;
}

/// Any IRM implementation that can compute a borrow rate from utilization.
pub trait FeeModel {
    /// The rate this model charges at `utilization_bps`.
    closed spec fn fee_of(&self, utilization_bps: u64) -> u32 {
        arbitrary()
    }

    /// The model is in the shape its reader trusts.
    closed spec fn model_ok(&self) -> bool {
        arbitrary()
    }

    fn fee_bps(&self, utilization_bps: u64) -> (r: u32)
        requires
            self.model_ok(),
        ensures
            r == self.fee_of(utilization_bps),
    ;
}

} // verus!
