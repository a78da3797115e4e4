//! The later `jbl` pool layout, whose accounting lives in a [`Market`] read
//! through the `jbl_math` market interface.
use vstd::prelude::*;

use crate::jbl_math::{jbl_utilization_of, utilization_bps};
use crate::wire::Pubkey;
use crate::withdrawal_queue::WithdrawalQueue;

verus! {

/// Per-market accounting: supply, borrow, and fee state.
#[derive(Clone, Copy)]
pub struct Market {
    /// Sum of lend tokens currently deposited.
    pub total_supply_assets: u64,
    /// Total LP tokens outstanding for the lend side.
    pub total_supply_shares: u64,
    pub total_borrow_assets: u64,
    pub total_borrow_shares: u64,
    pub last_update: i64,
    pub fee: u64,
    pub assets_in_queue: u64,
    pub ltv_percent: u8,
}

impl crate::jbl_math::Market for Market {
    fn total_supply_assets(&self) -> (r: u64)
        ensures
            r == self.total_supply_assets,
    {
        self.total_supply_assets
    }

    fn total_supply_shares(&self) -> (r: u64)
        ensures
            r == self.total_supply_shares,
    {
        self.total_supply_shares
    }

    fn total_borrow_assets(&self) -> (r: u64)
        ensures
            r == self.total_borrow_assets,
    {
        self.total_borrow_assets
    }

    fn total_borrow_shares(&self) -> (r: u64)
        ensures
            r == self.total_borrow_shares,
    {
        self.total_borrow_shares
    }

    fn last_update(&self) -> (r: i64)
        ensures
            r == self.last_update,
    {
        self.last_update
    }

    fn fee(&self) -> (r: u64)
        ensures
            r == self.fee,
    {
        self.fee
    }

    fn assets_in_queue(&self) -> (r: u64)
        ensures
            r == self.assets_in_queue,
    {
        self.assets_in_queue
    }

    fn ltv_percent(&self) -> (r: u8)
        ensures
            r == self.ltv_percent,
    {
        self.ltv_percent
    }
}

/// Unified lending pool account.
pub struct Pool {
    pub authority: Pubkey,
    /// Mint of the token deposited as collateral.
    pub collateral_mint: Pubkey,
    /// Mint of the token lenders deposit and borrowers receive.
    pub lend_mint: Pubkey,
    /// LP token mint issued to lend-side depositors.
    pub lp_mint: Pubkey,
    pub market: Market,
    /// IRM program queried for the borrow rate.
    pub rate_program: Pubkey,
    /// IRM state account passed to the rate program.
    pub irm_state: Pubkey,
    /// Feed program used for price queries.
    pub feed_program: Pubkey,
    /// Feed state account passed to the feed program.
    pub feed_state: Pubkey,
    pub lp_mint_bump: u8,
    /// Queue of pending lend-token withdrawals.
    pub withdrawal_queue: WithdrawalQueue,
}

impl Pool {
    pub fn calculate_utilization(&self) -> (r: u64)
        ensures
            r == jbl_utilization_of(
                self.market.total_supply_assets as int,
                self.market.total_borrow_assets as int,
                self.market.assets_in_queue as int,
            ) as u64,
    {
        utilization_bps(self.market.total_supply_assets, self.market.total_borrow_assets, self.market.assets_in_queue)
    }
}

} // verus!
