//! The lending program's own accounts — market accounting, the pool, a
//! borrower's position — and its error codes.
use vstd::prelude::*;
use crate::math::{utilization_bps, utilization_of, MathError};
use crate::traits::{Market as MarketAccounting, MarketView, Position};
use crate::withdrawal_queue::WithdrawalQueue;
use crate::wire::Pubkey;

verus! {

/// Per-market accounting: supply, borrow, and fee state.
#[derive(Clone, Copy)]
pub struct Market {
    /// Sum of lend tokens currently deposited.
    pub total_supply_assets: u64,
    /// Total LP tokens outstanding for the lend side.
    pub total_supply_shares: u64,
    pub total_borrow_assets: u64,
    pub total_borrow_shares: u64,
    pub last_update: i64,
    /// Protocol fee **rate** in basis points, skimmed from accrued interest.
    pub fee: u64,
    pub assets_in_queue: u64,
    pub ltv_percent: u8,
    /// Protocol-owned supply shares accrued from the fee, not yet claimed as LP.
    pub accrued_fee_shares: u64,
    /// Principal of the flash loan currently in flight, non-zero only between
    /// the borrow and the repayment of one transaction.
    pub flash_loan_outstanding: u64,
}

impl Market {
    /// A market with every figure at zero.
    pub fn zeroed() -> (r: Market)
        ensures
            r.market_view() == (MarketView {
                total_supply_assets: 0,
                total_supply_shares: 0,
                total_borrow_assets: 0,
                total_borrow_shares: 0,
                last_update: 0,
                fee: 0,
                accrued_fee_shares: 0,
                assets_in_queue: 0,
                ltv_percent: 0,
                flash_loan_outstanding: 0,
            }),
    {
        Market {
            total_supply_assets: 0,
            total_supply_shares: 0,
            total_borrow_assets: 0,
            total_borrow_shares: 0,
            last_update: 0,
            fee: 0,
            assets_in_queue: 0,
            ltv_percent: 0,
            accrued_fee_shares: 0,
            flash_loan_outstanding: 0,
        }
    }
}

impl MarketAccounting for Market {
    open spec fn market_view(&self) -> MarketView {
        MarketView {
            total_supply_assets: self.total_supply_assets,
            total_supply_shares: self.total_supply_shares,
            total_borrow_assets: self.total_borrow_assets,
            total_borrow_shares: self.total_borrow_shares,
            last_update: self.last_update,
            fee: self.fee,
            accrued_fee_shares: self.accrued_fee_shares,
            assets_in_queue: self.assets_in_queue,
            ltv_percent: self.ltv_percent,
            flash_loan_outstanding: self.flash_loan_outstanding,
        }
    }

    fn total_supply_assets(&self) -> (r: u64) {
        self.total_supply_assets
    }

    fn total_supply_shares(&self) -> (r: u64) {
        self.total_supply_shares
    }

    fn total_borrow_assets(&self) -> (r: u64) {
        self.total_borrow_assets
    }

    fn total_borrow_shares(&self) -> (r: u64) {
        self.total_borrow_shares
    }

    fn last_update(&self) -> (r: i64) {
        self.last_update
    }

    fn fee(&self) -> (r: u64) {
        self.fee
    }

    fn accrued_fee_shares(&self) -> (r: u64) {
        self.accrued_fee_shares
    }

    fn assets_in_queue(&self) -> (r: u64) {
        self.assets_in_queue
    }

    fn ltv_percent(&self) -> (r: u8) {
        self.ltv_percent
    }

    fn flash_loan_outstanding(&self) -> (r: u64) {
        self.flash_loan_outstanding
    }

    fn total_supply_assets_mut(&mut self) -> (r: &mut u64) {
        &mut self.total_supply_assets
    }

    fn total_supply_shares_mut(&mut self) -> (r: &mut u64) {
        &mut self.total_supply_shares
    }

    fn accrued_fee_shares_mut(&mut self) -> (r: &mut u64) {
        &mut self.accrued_fee_shares
    }

    fn assets_in_queue_mut(&mut self) -> (r: &mut u64) {
        &mut self.assets_in_queue
    }

    fn total_borrow_assets_mut(&mut self) -> (r: &mut u64) {
        &mut self.total_borrow_assets
    }

    fn total_borrow_shares_mut(&mut self) -> (r: &mut u64) {
        &mut self.total_borrow_shares
    }

    fn last_update_mut(&mut self) -> (r: &mut i64) {
        &mut self.last_update
    }

    fn flash_loan_outstanding_mut(&mut self) -> (r: &mut u64) {
        &mut self.flash_loan_outstanding
    }
}

/// Tracks a user's collateral deposit and any open borrow position.
#[derive(Clone, Copy)]
pub struct UserPosition {
    /// The user who owns this position.
    pub authority: Pubkey,
    /// The pool this position belongs to.
    pub pool: Pubkey,
    /// Raw amount of collateral tokens deposited.
    pub collateral_deposited: u64,
    /// Debt shares held by this user (0 if no active borrow).
    pub debt_shares: u64,
    pub bump: u8,
}

impl Position for UserPosition {
    open spec fn collateral_of(&self) -> u64 {
        self.collateral_deposited
    }

    open spec fn debt_shares_of(&self) -> u64 {
        self.debt_shares
    }

    fn collateral_deposited(&self) -> (r: u64) {
        self.collateral_deposited
    }

    fn debt_shares(&self) -> (r: u64) {
        self.debt_shares
    }

    fn collateral_deposited_mut(&mut self) -> (r: &mut u64) {
        &mut self.collateral_deposited
    }

    fn debt_shares_mut(&mut self) -> (r: &mut u64) {
        &mut self.debt_shares
    }
}

/// Unified lending pool account.
#[derive(Clone, Copy)]
pub struct Pool {
    pub authority: Pubkey,
    /// Mint of the token deposited as collateral.
    pub collateral_mint: Pubkey,
    /// Mint of the token lenders deposit and borrowers receive.
    pub lend_mint: Pubkey,
    /// LP token mint issued to lend-side depositors.
    pub lp_mint: Pubkey,
    pub market: Market,
    /// IRM program queried for the borrow rate.
    pub rate_program: Pubkey,
    /// IRM state account passed to the rate program.
    pub irm_state: Pubkey,
    /// Program that owns this market's price account.
    pub feed_program: Pubkey,
    /// The exact price account this market prices against.
    pub feed_state: Pubkey,
    pub lp_mint_bump: u8,
    /// Queue of pending lend-token withdrawals.
    pub withdrawal_queue: WithdrawalQueue,
    /// Whitelist this market is gated on, or the zero key for an open market.
    pub guard_state: Pubkey,
    /// Program asked to vouch for `guard_state`, or the zero key for an open market.
    pub guard_program: Pubkey,
}

impl Pool {
    pub fn calculate_utilization(&self) -> (r: u64)
        ensures
            r == utilization_of(
                self.market.total_supply_assets as int,
                self.market.total_borrow_assets as int,
                self.market.assets_in_queue as int,
            ),
    {
        utilization_bps(self.market.total_supply_assets, self.market.total_borrow_assets, self.market.assets_in_queue)
    }

    /// The whitelist this market is gated on: `(guard_state, guard_program)`.
    pub fn guard_config(&self) -> (r: (Pubkey, Pubkey))
        ensures
            r == (self.guard_state, self.guard_program),
    {
        (self.guard_state, self.guard_program)
    }

    /// The oracle this market prices against: `(feed_state, feed_program)`.
    pub fn feed_config(&self) -> (r: (Pubkey, Pubkey))
        ensures
            r == (self.feed_state, self.feed_program),
    {
        (self.feed_state, self.feed_program)
    }
}

/// The lending program's error codes. Numbered by declaration order, so
/// variants are never removed; retired ones stay as placeholders.
#[derive(Debug, PartialEq, Eq, Structural, Clone, Copy)]
pub enum ErrorCode {
    CustomError,
    InvalidAmount,
    MathOverflow,
    InsufficientFunds,
    Undercollateralized,
    AlreadyBorrowed,
    NoBorrowFound,
    WithdrawalQueueFull,
    WithdrawalQueueEmpty,
    QueueEntryMismatch,
    /// Retired: kept to preserve numbering.
    InvalidDurationRange,
    InvalidMint,
    Unauthorized,
    /// Retired: kept to preserve numbering.
    HedgeNotYetMatured,
    FlashLoanFeeNotCovered,
    FlashRepayMissing,
    FlashBorrowMissing,
    InvalidCurveIndex,
    MissingRateProgram,
    MissingRateState,
    FeedSetValueMissing,
    InvalidMaxFeedAge,
    InterestAccrualOverflow,
    DebtValuationOverflow,
    /// Retired: kept to preserve numbering.
    FeeTooHigh,
    NoFeesToClaim,
    FlashLoanAlreadyOutstanding,
    FlashLoanInProgress,
    InvalidLtv,
    InvalidProgramId,
    InvalidIrmState,
    /// Retired: kept to preserve numbering.
    OfferHasActiveMatch,
    RateTooHigh,
    FeedMintMismatch,
    InvalidGuardState,
    GuardRequired,
    InvalidIrmAuthority,
    ZeroValueWithdrawal,
}

/// The program error a `Core` refusal is reported as.
pub open spec fn error_code_of<E>(e: MathError<E>) -> ErrorCode {
    match e {
        MathError::Arithmetic => ErrorCode::MathOverflow,
        MathError::Undercollateralized => ErrorCode::Undercollateralized,
        MathError::InsufficientBalance => ErrorCode::InsufficientFunds,
        MathError::AmountTooSmall => ErrorCode::InvalidAmount,
        MathError::InvalidAmount => ErrorCode::InvalidAmount,
        MathError::InsufficientLiquidity => ErrorCode::InsufficientFunds,
        MathError::FlashLoanOutstanding => ErrorCode::FlashLoanAlreadyOutstanding,
        MathError::NoFlashLoan => ErrorCode::FlashBorrowMissing,
        MathError::FlashLoanUnderRepaid => ErrorCode::FlashLoanFeeNotCovered,
        MathError::FlashLoanOverRepaid => ErrorCode::FlashLoanFeeNotCovered,
        MathError::Transfer(_) => ErrorCode::MathOverflow,
    }
}

impl<E> From<MathError<E>> for ErrorCode {
    fn from(e: MathError<E>) -> (r: Self) {
        match e {
            MathError::Arithmetic => ErrorCode::MathOverflow,
            MathError::Undercollateralized => ErrorCode::Undercollateralized,
            MathError::InsufficientBalance => ErrorCode::InsufficientFunds,
            MathError::AmountTooSmall => ErrorCode::InvalidAmount,
            MathError::InvalidAmount => ErrorCode::InvalidAmount,
            MathError::InsufficientLiquidity => ErrorCode::InsufficientFunds,
            MathError::FlashLoanOutstanding => ErrorCode::FlashLoanAlreadyOutstanding,
            MathError::NoFlashLoan => ErrorCode::FlashBorrowMissing,
            MathError::FlashLoanUnderRepaid => ErrorCode::FlashLoanFeeNotCovered,
            MathError::FlashLoanOverRepaid => ErrorCode::FlashLoanFeeNotCovered,
            MathError::Transfer(_) => ErrorCode::MathOverflow,
        }
    }
}

impl<E> vstd::std_specs::convert::FromSpecImpl<MathError<E>> for ErrorCode {
    open spec fn obeys_from_spec() -> bool {
        true
    }

    open spec fn from_spec(v: MathError<E>) -> ErrorCode {
        error_code_of(v)
    }
}

} // verus!
