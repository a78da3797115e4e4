//! Replays of [`Core`] operations on decoded accounts: the client computes
//! rates, debts and risk figures exactly as the program would at a given time.
use vstd::prelude::*;

use crate::accounts::{
    body_of, irm_config_decodes, num_at, pool_decodes, sized, FeedAccount, IrmConfigAccount, PoolAccount,
    UserPositionAccount, FEED_ACCOUNT_LEN, IRM_CONFIG_LEN, POOL_LEN,
};
use crate::amount_text::{ascii_text, format_token_amount, token_amount_text};
use crate::arith::{min_int, sat_add_u64, sat_sub};
use crate::engine::{accrued_market, borrow_accounting, lend_for_shares, repay_accounting, Core};
use crate::jbl_math::{
    compute_health_factor, compute_liquidation_threshold, compute_ltv, jbl_health_of, jbl_liquidation_of, jbl_ltv_of,
    jbl_max_borrowable_of, max_borrowable,
};
use crate::math::utilization_of;
use crate::state::UserPosition;
use crate::traits::{IrmRate, Market as MarketAccounting, MarketView};
use crate::wire::field;

verus! {

/// Rate source for [`Core`] replays: the borrow rate the curve gives at the
/// pool's utilization, stamped with the caller's clock.
#[derive(Clone, Copy)]
pub struct IrmRateView {
    pub rate_bps: u32,
    pub current_ts: i64,
}

impl IrmRate for IrmRateView {
    open spec fn rate_of(&self) -> u32 {
        self.rate_bps
    }

    open spec fn ts_of(&self) -> i64 {
        self.current_ts
    }

    fn rate_bps(&self) -> (r: u32) {
        self.rate_bps
    }

    fn current_ts(&self) -> (r: i64) {
        self.current_ts
    }
}

/// A pool together with its rate-curve and price accounts, from which the
/// client derives rates and replays [`Core`] operations exactly as the
/// program would run them at `current_ts`.
#[derive(Clone, Copy)]
pub struct PoolWithIrm {
    pub pool: PoolAccount,
    pub irm: IrmConfigAccount,
    pub feed: FeedAccount,
}

impl PoolWithIrm {
    /// The pool's accounting figures.
    pub open spec fn market_view(&self) -> MarketView {
        self.pool.0.market.market_view()
    }

    /// Utilization in bps including pending withdrawals, as the program
    /// computes it to query the borrow rate.
    pub open spec fn live_utilization(&self) -> u64 {
        utilization_of(
            self.pool.0.market.total_supply_assets as int,
            self.pool.0.market.total_borrow_assets as int,
            self.pool.0.market.assets_in_queue as int,
        ) as u64
    }

    /// The borrow rate the curve gives at the live utilization.
    pub open spec fn live_rate(&self) -> u32 {
        self.irm.0.model.rate_at(self.live_utilization())
    }

    /// The market after accruing interest at the live rate up to `current_ts`.
    pub open spec fn accrued_at(&self, current_ts: i64) -> Option<MarketView> {
        accrued_market(self.market_view(), self.live_rate(), current_ts)
    }

    /// What clears `position`'s debt after accrual up to `current_ts`: the
    /// amount a repayment of everything would take.
    pub open spec fn debt_at(&self, position: UserPosition, current_ts: i64) -> Option<u64> {
        match self.accrued_at(current_ts) {
            None => None,
            Some(m) => match repay_accounting::<()>(m, position.debt_shares, u64::MAX).2 {
                Ok(paid) => Some(paid.0),
                Err(_) => None,
            },
        }
    }

    /// The rate shown to users: the curve at the utilization capped at 100%.
    pub open spec fn display_rate(&self) -> u32 {
        self.irm.0.model.rate_at(min_int(self.live_utilization() as int, 10_000) as u64)
    }

    /// The supply rate: the displayed borrow rate weighted by the capped utilization.
    pub open spec fn display_supply_rate(&self) -> u32 {
        (self.display_rate() * min_int(self.live_utilization() as int, 10_000) / 10_000) as u32
    }

    /// Parse the pool, its rate curve and its price account from raw account
    /// bytes; `None` when any of them does not parse.
    pub fn from_bytes(pool_bytes: &[u8], irm_bytes: &[u8], feed_bytes: &[u8]) -> (r: Option<PoolWithIrm>)
        ensures
            r is Some <==> {
                &&& sized(pool_bytes@, POOL_LEN as int)
                &&& sized(irm_bytes@, IRM_CONFIG_LEN as int)
                &&& sized(feed_bytes@, FEED_ACCOUNT_LEN as int)
            },
            r matches Some(p) ==> {
                &&& pool_decodes(p.pool.0, body_of(pool_bytes@))
                &&& irm_config_decodes(p.irm.0, body_of(irm_bytes@))
                &&& p.feed.value == num_at(body_of(feed_bytes@), 32, 8)
                &&& p.feed.authority@ == field(body_of(feed_bytes@), 0, 32)
                &&& p.feed.bump == body_of(feed_bytes@)[40]
            },
    {
        let pool = match PoolAccount::from_bytes(pool_bytes) {
            Some(p) => p,
            None => return None,
        };
        let irm = match IrmConfigAccount::from_bytes(irm_bytes) {
            Some(i) => i,
            None => return None,
        };
        let feed = match FeedAccount::from_bytes(feed_bytes) {
            Some(f) => f,
            None => return None,
        };
        Some(PoolWithIrm { pool, irm, feed })
    }

    /// The price account.
    pub fn feed(&self) -> (r: FeedAccount)
        ensures
            r == self.feed,
    {
        self.feed
    }

    /// The pool account.
    pub fn pool(&self) -> (r: PoolAccount)
        ensures
            r == self.pool,
    {
        self.pool
    }

    fn utilization(&self) -> (r: u64)
        ensures
            r == self.live_utilization(),
    {
        let m = &self.pool.0.market;
        crate::math::utilization_bps(m.total_supply_assets, m.total_borrow_assets, m.assets_in_queue)
    }

    fn irm_rate(&self, current_ts: i64) -> (r: IrmRateView)
        requires
            self.irm.0.model.well_formed(),
        ensures
            r.rate_bps == self.live_rate(),
            r.current_ts == current_ts,
    {
        IrmRateView { rate_bps: self.irm.0.model.get_fee_bps(self.utilization()), current_ts }
    }

    /// Interest the pool's borrows accrue up to `current_ts` at the live
    /// rate: the change `Core::accrue_interest` makes to total borrowed.
    pub fn accrued_interest(&self, current_ts: i64) -> (r: Option<u64>)
        requires
            self.irm.0.model.well_formed(),
        ensures
            r == (match self.accrued_at(current_ts) {
                None => None,
                Some(m) => if m.total_borrow_assets >= self.market_view().total_borrow_assets {
                    Some((m.total_borrow_assets - self.market_view().total_borrow_assets) as u64)
                } else {
                    None
                },
            }),
    {
        let market = self.pool.0.market;
        let before = market.total_borrow_assets;
        let core = match Core::new(market).with_irm(self.irm_rate(current_ts)).accrue_interest() {
            Some(c) => c,
            None => return None,
        };
        core.market.total_borrow_assets.checked_sub(before)
    }

    /// Lend tokens redeemable for `shares` LP at the current ratio; `None`
    /// while no LP exists.
    pub fn lend_for_shares(&self, shares: u64) -> (r: Option<u64>)
        ensures
            r == lend_for_shares(self.market_view(), shares),
    {
        Core::new(self.pool.0.market).calc_lend_for_shares(shares)
    }

    /// The price the feed account holds.
    pub fn oracle_price(&self) -> (r: u64)
        ensures
            r == self.feed.value,
    {
        Core::new(self.pool.0.market).with_oracle(self.feed).oracle_price()
    }

    /// LTV in bps of `position` after depositing `added_collateral_raw` more
    /// collateral, with interest accrued up to `current_ts`.
    pub fn projected_ltv_after_deposit(
        &self,
        position: &UserPositionAccount,
        added_collateral_raw: u64,
        current_ts: i64,
    ) -> (r: Option<u32>)
        requires
            self.irm.0.model.well_formed(),
        ensures
            r == (match self.debt_at(position.0, current_ts) {
                None => None,
                Some(debt) => if position.0.collateral_deposited + added_collateral_raw > u64::MAX {
                    None
                } else {
                    jbl_ltv_of(debt as int, position.0.collateral_deposited + added_collateral_raw)
                },
            }),
    {
        let debt = match self.debt_amount(position, current_ts) {
            Some(d) => d,
            None => return None,
        };
        let new_collateral = match position.0.collateral_deposited.checked_add(added_collateral_raw) {
            Some(c) => c,
            None => return None,
        };
        compute_ltv(debt, new_collateral)
    }

    /// Health factor in bps of `position` after depositing
    /// `added_collateral_raw` more collateral, with interest accrued up to
    /// `current_ts`.
    pub fn projected_health_factor_after_deposit(
        &self,
        position: &UserPositionAccount,
        added_collateral_raw: u64,
        current_ts: i64,
    ) -> (r: Option<u32>)
        requires
            self.irm.0.model.well_formed(),
        ensures
            r == (match self.debt_at(position.0, current_ts) {
                None => None,
                Some(debt) => if position.0.collateral_deposited + added_collateral_raw > u64::MAX {
                    None
                } else {
                    jbl_health_of(
                        position.0.collateral_deposited + added_collateral_raw,
                        self.pool.0.market.ltv_percent as int,
                        debt as int,
                    )
                },
            }),
    {
        let debt = match self.debt_amount(position, current_ts) {
            Some(d) => d,
            None => return None,
        };
        let new_collateral = match position.0.collateral_deposited.checked_add(added_collateral_raw) {
            Some(c) => c,
            None => return None,
        };
        compute_health_factor(new_collateral, self.pool.0.market.ltv_percent, debt)
    }

    /// Debt shares minted if `position` borrows `amount` at `current_ts`:
    /// a replay of `Core::borrow` after accrual, `None` whenever the borrow
    /// would be refused.
    pub fn borrow_shares(&self, position: &UserPositionAccount, amount: u64, current_ts: i64) -> (r: Option<u64>)
        requires
            self.irm.0.model.well_formed(),
        ensures
            r == (match self.accrued_at(current_ts) {
                None => None,
                Some(m) => match borrow_accounting::<()>(
                    m,
                    position.0.collateral_deposited,
                    position.0.debt_shares,
                    self.feed.value,
                    amount,
                    u64::MAX,
                ).2 {
                    Ok(minted) => Some(minted),
                    Err(_) => None,
                },
            }),
    {
        let mut core = match Core::new(self.pool.0.market).with_position(position.0).with_oracle(self.feed).with_irm(
            self.irm_rate(current_ts),
        ).accrue_interest() {
            Some(c) => c,
            None => return None,
        };
        let pay = |_x: u64| -> (t: Result<(), ()>)
            ensures
                t is Ok,
            { Ok(()) };
        match core.borrow(amount, u64::MAX, pay) {
            Ok(minted) => Some(minted),
            Err(_) => None,
        }
    }

    /// Debt shares burned if `position` repays `amount` at `current_ts`: a
    /// replay of `Core::repay` after accrual.
    pub fn repay_shares(&self, position: &UserPositionAccount, amount: u64, current_ts: i64) -> (r: Option<u64>)
        requires
            self.irm.0.model.well_formed(),
        ensures
            r == (match self.accrued_at(current_ts) {
                None => None,
                Some(m) => match repay_accounting::<()>(m, position.0.debt_shares, amount).2 {
                    Ok(paid) => Some(paid.1),
                    Err(_) => None,
                },
            }),
    {
        let mut core = match Core::new(self.pool.0.market).with_position(position.0).with_irm(
            self.irm_rate(current_ts),
        ).accrue_interest() {
            Some(c) => c,
            None => return None,
        };
        let pay = |_x: u64| -> (t: Result<(), ()>)
            ensures
                t is Ok,
            { Ok(()) };
        match core.repay(amount, pay) {
            Ok(paid) => Some(paid.1),
            Err(_) => None,
        }
    }

    /// Debt `position` owes at `current_ts`: what a full `Core::repay`
    /// after accrual takes.
    pub fn debt_amount(&self, position: &UserPositionAccount, current_ts: i64) -> (r: Option<u64>)
        requires
            self.irm.0.model.well_formed(),
        ensures
            r == self.debt_at(position.0, current_ts),
    {
        let mut core = match Core::new(self.pool.0.market).with_position(position.0).with_irm(
            self.irm_rate(current_ts),
        ).accrue_interest() {
            Some(c) => c,
            None => return None,
        };
        let pay = |_x: u64| -> (t: Result<(), ()>)
            ensures
                t is Ok,
            { Ok(()) };
        match core.repay(u64::MAX, pay) {
            Ok(paid) => Some(paid.0),
            Err(_) => None,
        }
    }

    /// Borrowable amount for `position` at the pool's LTV, in raw lend units.
    pub fn max_borrowable(&self, position: &UserPositionAccount) -> (r: u64)
        ensures
            r == jbl_max_borrowable_of(position.0.collateral_deposited as int, self.pool.0.market.ltv_percent as int),
    {
        max_borrowable(position.0.collateral_deposited, self.pool.0.market.ltv_percent)
    }

    /// LTV in bps of `position`, with interest accrued up to `current_ts`.
    pub fn ltv(&self, position: &UserPositionAccount, current_ts: i64) -> (r: Option<u32>)
        requires
            self.irm.0.model.well_formed(),
        ensures
            r == (match self.debt_at(position.0, current_ts) {
                None => None,
                Some(debt) => jbl_ltv_of(debt as int, position.0.collateral_deposited as int),
            }),
    {
        let debt = match self.debt_amount(position, current_ts) {
            Some(d) => d,
            None => return None,
        };
        compute_ltv(debt, position.0.collateral_deposited)
    }

    /// Health factor in bps of `position` (10_000 is 1.0), with interest
    /// accrued up to `current_ts`.
    pub fn health_factor(&self, position: &UserPositionAccount, current_ts: i64) -> (r: Option<u32>)
        requires
            self.irm.0.model.well_formed(),
        ensures
            r == (match self.debt_at(position.0, current_ts) {
                None => None,
                Some(debt) => jbl_health_of(
                    position.0.collateral_deposited as int,
                    self.pool.0.market.ltv_percent as int,
                    debt as int,
                ),
            }),
    {
        let debt = match self.debt_amount(position, current_ts) {
            Some(d) => d,
            None => return None,
        };
        compute_health_factor(position.0.collateral_deposited, self.pool.0.market.ltv_percent, debt)
    }

    /// Liquidation price ratio of `position`, with interest accrued up to
    /// `current_ts`.
    pub fn liq_price(&self, position: &UserPositionAccount, current_ts: i64) -> (r: Option<u32>)
        requires
            self.irm.0.model.well_formed(),
        ensures
            r == (match self.debt_at(position.0, current_ts) {
                None => None,
                Some(debt) => jbl_liquidation_of(
                    debt as int,
                    position.0.collateral_deposited as int,
                    self.pool.0.market.ltv_percent as int,
                ),
            }),
    {
        let debt = match self.debt_amount(position, current_ts) {
            Some(d) => d,
            None => return None,
        };
        compute_liquidation_threshold(debt, position.0.collateral_deposited, self.pool.0.market.ltv_percent)
    }

    /// The debt of `position` at `current_ts` as a decimal string; zero
    /// when it cannot be computed.
    pub fn format_debt(&self, position: &UserPositionAccount, decimals: u8, current_ts: i64) -> (r: String)
        requires
            self.irm.0.model.well_formed(),
            decimals <= 19,
        ensures
            r@ == ascii_text(
                token_amount_text(
                    match self.debt_at(position.0, current_ts) {
                        Some(d) => d as nat,
                        None => 0,
                    },
                    decimals as nat,
                ),
            ),
    {
        let amount = match self.debt_amount(position, current_ts) {
            Some(d) => d,
            None => 0,
        };
        format_token_amount(amount, decimals)
    }

    /// Borrow rate in bps at the pool's displayed utilization.
    pub fn borrow_apy_bps(&self) -> (r: u32)
        requires
            self.irm.0.model.well_formed(),
        ensures
            r == self.display_rate(),
            r <= crate::rate_curve::MAX_RATE_BPS,
    {
        let util = self.pool.utilization_bps() as u64;
        self.irm.0.model.get_fee_bps(util)
    }

    /// Supply rate in bps: the borrow rate weighted by utilization, so never
    /// above the borrow rate.
    pub fn supply_apy_bps(&self) -> (r: u32)
        requires
            self.irm.0.model.well_formed(),
        ensures
            r == self.display_supply_rate(),
            r <= self.display_rate(),
    {
        let util = self.pool.utilization_bps() as u64;
        let borrow_bps = self.irm.0.model.get_fee_bps(util) as u64;
        proof {
            crate::arith::lemma_mul_le(borrow_bps as int, util as int, 5_000, 10_000);
            crate::arith::lemma_div_bounds(borrow_bps * util, 10_000);
            assert(borrow_bps * util / 10_000 <= borrow_bps) by (nonlinear_arith)
                requires
                    util <= 10_000,
                    (borrow_bps * util / 10_000) * 10_000 <= borrow_bps * util,
            ;
        }
        // The product is at most 5_000 × 10_000, so it never saturates.
        (borrow_bps * util / 10_000) as u32
    }

    /// Borrow rate in bps after borrowing `additional_raw` more on top of the
    /// current state; 0 while nothing is supplied.
    pub fn projected_borrow_apy_bps(&self, additional_raw: u64) -> (r: u32)
        requires
            self.irm.0.model.well_formed(),
        ensures
            r == (if self.pool.0.market.total_supply_assets == 0 {
                0
            } else {
                self.irm.0.model.rate_at(
                    utilization_of(
                        self.pool.0.market.total_supply_assets as int,
                        sat_add_u64(self.pool.0.market.total_borrow_assets as int, additional_raw as int),
                        self.pool.0.market.assets_in_queue as int,
                    ) as u64,
                )
            }),
    {
        let m = &self.pool.0.market;
        if m.total_supply_assets == 0 {
            return 0;
        }
        let new_borrow = m.total_borrow_assets.saturating_add(additional_raw);
        let util_bps = crate::math::utilization_bps(m.total_supply_assets, new_borrow, m.assets_in_queue);
        self.irm.0.model.get_fee_bps(util_bps)
    }

    pub fn authority(&self) -> (r: Vec<u8>)
        ensures
            r@ == self.pool.0.authority@,
    {
        self.pool.authority()
    }

    pub fn collateral_mint(&self) -> (r: Vec<u8>)
        ensures
            r@ == self.pool.0.collateral_mint@,
    {
        self.pool.collateral_mint()
    }

    pub fn lend_mint(&self) -> (r: Vec<u8>)
        ensures
            r@ == self.pool.0.lend_mint@,
    {
        self.pool.lend_mint()
    }

    pub fn lp_mint(&self) -> (r: Vec<u8>)
        ensures
            r@ == self.pool.0.lp_mint@,
    {
        self.pool.lp_mint()
    }

    pub fn irm_state(&self) -> (r: Vec<u8>)
        ensures
            r@ == self.pool.0.irm_state@,
    {
        self.pool.irm_state()
    }

    pub fn total_supply_assets(&self) -> (r: u64)
        ensures
            r == self.pool.0.market.total_supply_assets,
    {
        self.pool.total_supply_assets()
    }

    pub fn total_supply_shares(&self) -> (r: u64)
        ensures
            r == self.pool.0.market.total_supply_shares,
    {
        self.pool.total_supply_shares()
    }

    pub fn total_borrow_assets(&self) -> (r: u64)
        ensures
            r == self.pool.0.market.total_borrow_assets,
    {
        self.pool.total_borrow_assets()
    }

    pub fn total_borrow_shares(&self) -> (r: u64)
        ensures
            r == self.pool.0.market.total_borrow_shares,
    {
        self.pool.total_borrow_shares()
    }

    pub fn last_update(&self) -> (r: i64)
        ensures
            r == self.pool.0.market.last_update,
    {
        self.pool.last_update()
    }

    pub fn fee(&self) -> (r: u64)
        ensures
            r == self.pool.0.market.fee,
    {
        self.pool.fee()
    }

    pub fn assets_in_queue(&self) -> (r: u64)
        ensures
            r == self.pool.0.market.assets_in_queue,
    {
        self.pool.assets_in_queue()
    }

    pub fn ltv_percent(&self) -> (r: u8)
        ensures
            r == self.pool.0.market.ltv_percent,
    {
        self.pool.ltv_percent()
    }

    pub fn lp_mint_bump(&self) -> (r: u8)
        ensures
            r == self.pool.0.lp_mint_bump,
    {
        self.pool.lp_mint_bump()
    }

    pub fn pending_withdrawals(&self) -> (r: u64)
        ensures
            r == self.pool.0.market.assets_in_queue,
    {
        self.pool.pending_withdrawals()
    }

    pub fn utilization_bps(&self) -> (r: u16)
        ensures
            r == min_int(self.live_utilization() as int, 10_000),
    {
        self.pool.utilization_bps()
    }

    pub fn available_liquidity(&self) -> (r: u64)
        ensures
            r == sat_sub(self.pool.0.market.total_supply_assets as int, self.pool.0.market.total_borrow_assets as int),
    {
        self.pool.available_liquidity()
    }

    /// Net rate in bps of a position levered `leverage_bps / 10_000` times:
    /// `leverage × supply − (leverage − 1) × borrow`, the quotient truncated
    /// toward zero, floored at 0.
    pub fn leveraged_net_apy_bps(&self, leverage_bps: u32) -> (r: u32)
        requires
            self.irm.0.model.well_formed(),
        ensures
            r == crate::arith::max_int(
                crate::jbl_state::trunc_div(
                    leverage_bps * self.display_supply_rate() - (leverage_bps - 10_000) * self.display_rate(),
                    10_000,
                ),
                0,
            ),
    {
        let supply = self.supply_apy_bps() as i64;
        let borrow = self.borrow_apy_bps() as i64;
        let lev = leverage_bps as i64;
        proof {
            assert(0 <= lev * supply <= 0x1_0000_0000 * 5_000) by (nonlinear_arith)
                requires
                    0 <= lev <= 0x1_0000_0000,
                    0 <= supply <= 5_000,
            ;
            assert(-10_000 * 5_000 <= (lev - 10_000) * borrow <= 0x1_0000_0000 * 5_000) by (nonlinear_arith)
                requires
                    -10_000 <= lev - 10_000 <= 0x1_0000_0000,
                    0 <= borrow <= 5_000,
            ;
        }
        let net = (lev * supply - (lev - 10_000) * borrow) / 10_000;
        proof {
            assert(net <= lev * supply / 10_000 + 5_000) by (nonlinear_arith)
                requires
                    net == crate::jbl_state::trunc_div(lev * supply - (lev - 10_000) * borrow, 10_000),
                    0 <= lev,
                    0 <= supply <= borrow <= 5_000,
            ;
        }
        if net < 0 {
            0
        } else {
            net as u32
        }
    }
}

} // verus!
