//! Accounts of the earlier `jbl` pool program: a four-curve linear fee model,
//! the pool with in-place interest accrual, positions and rate-hedge records.
use vstd::prelude::*;

use crate::arith::{max_int, sat_i64};
use crate::jbl_math::{compute_interest, jbl_interest_of};
use crate::state::ErrorCode;
use crate::wire::Pubkey;
use crate::withdrawal_queue::WithdrawalQueue;

pub mod pool;

verus! {

/// Default flat fee applied to all new pools: 1 % APY (100 bps).
pub const DEFAULT_POOL_FEE_BPS: i64 = 100;

/// Proof that a borrow-rate query has been answered.
pub trait IrmRate {
    fn rate_bps(&self) -> u32;
}

/// Oracle data captured at instruction time.
pub struct OracleState {
    pub feed_program: Pubkey,
    pub feed_state: Pubkey,
    pub current_ts: i64,
}

/// A linear rate curve: f(u) = a·(u/10_000) + b, active when `enabled != 0`.
#[derive(Clone, Copy)]
pub struct PolynomialCurve {
    pub a: i64,
    pub b: i64,
    /// Non-zero → curve is active; 0 → disabled.
    pub enabled: u8,
}

/// `a / b` for `b > 0`, truncated toward zero.
pub open spec fn trunc_div(a: int, b: int) -> int {
    if a >= 0 {
        a / b
    } else {
        -((-a) / b)
    }
}

impl PolynomialCurve {
    /// `b + a·u / 10_000`, the quotient truncated toward zero.
    pub open spec fn value_at(&self, utilization_bps: u64) -> int {
        self.b + trunc_div(self.a * utilization_bps, 10_000)
    }

    fn eval(&self, utilization_bps: u64) -> (r: i128)
        ensures
            r == self.value_at(utilization_bps),
    {
        let u = utilization_bps as i128;
        proof {
            assert(-0x8000_0000_0000_0000 * 0x1_0000_0000_0000_0000 <= self.a * u <= 0x7fff_ffff_ffff_ffff
                * 0xffff_ffff_ffff_ffff) by (nonlinear_arith)
                requires
                    -0x8000_0000_0000_0000 <= self.a < 0x8000_0000_0000_0000,
                    0 <= u < 0x1_0000_0000_0000_0000,
            ;
        }
        let slope = (self.a as i128) * u / 10_000i128;
        (self.b as i128) + slope
    }
}

/// Four-curve linear interest rate model: the highest enabled curve, floored at 0.
pub struct UtilizationFeeConfig {
    pub curves: [PolynomialCurve; 4],
}

/// The highest value among the enabled curves of `curves[..n]` at `u`, if any is enabled.
pub open spec fn best_enabled(curves: Seq<PolynomialCurve>, u: u64, n: int) -> Option<int>
    decreases n,
{
    if n <= 0 {
        None
    } else {
        let rest = best_enabled(curves, u, n - 1);
        if curves[n - 1].enabled == 0 {
            rest
        } else {
            match rest {
                None => Some(curves[n - 1].value_at(u)),
                Some(y) => Some(max_int(y, curves[n - 1].value_at(u))),
            }
        }
    }
}

impl UtilizationFeeConfig {
    /// The rate at `utilization_bps`: the best enabled curve, 0 when none is,
    /// floored at 0 and saturated at `u32::MAX`.
    pub open spec fn fee_at(&self, utilization_bps: u64) -> u32 {
        let y = match best_enabled(self.curves@, utilization_bps, 4) {
            None => 0,
            Some(y) => max_int(y, 0),
        };
        if y > u32::MAX {
            u32::MAX
        } else {
            y as u32
        }
    }

    pub fn get_fee_bps(&self, utilization_bps: u64) -> (r: u32)
        ensures
            r == self.fee_at(utilization_bps),
    {
        let mut best: Option<i128> = None;
        let mut i: usize = 0;
        while i < 4
            invariant
                i <= 4,
                match best {
                    None => best_enabled(self.curves@, utilization_bps, i as int) is None,
                    Some(y) => best_enabled(self.curves@, utilization_bps, i as int) == Some(y as int),
                },
            decreases 4 - i,
        {
            let c = self.curves[i];
            if c.enabled != 0 {
                let y = c.eval(utilization_bps);
                best = match best {
                    None => Some(y),
                    Some(b) => if y >= b {
                        Some(y)
                    } else {
                        Some(b)
                    },
                };
            }
            i = i + 1;
        }
        let y: i128 = match best {
            None => 0,
            Some(y) => if y < 0 {
                0
            } else {
                y
            },
        };
        if y > u32::MAX as i128 {
            u32::MAX
        } else {
            y as u32
        }
    }
}

/// The `jbl` lending pool.
pub struct Pool {
    pub authority: Pubkey,
    /// Mint of the token deposited as collateral.
    pub collateral_mint: Pubkey,
    /// Mint of the token lenders deposit and borrowers receive.
    pub lend_mint: Pubkey,
    /// LP token mint issued to lend-side depositors.
    pub lp_mint: Pubkey,
    /// Raw sum of collateral tokens deposited across all positions.
    pub total_collateral_deposited: u64,
    /// Sum of lend tokens currently deposited.
    pub total_lend_deposited: u64,
    pub total_borrowed: u64,
    pub total_debt_shares: u64,
    pub last_accrual_ts: i64,
    /// Total LP tokens outstanding for the lend side.
    pub total_lp_issued: u64,
    pub fee_config: UtilizationFeeConfig,
    pub ltv_percent: u8,
    pub lp_mint_bump: u8,
    /// Queue of pending lend-token withdrawals.
    pub withdrawal_queue: WithdrawalQueue,
}

impl Pool {
    /// Borrowed over deposited, in bps, truncated to 64 bits; 0 with nothing deposited.
    pub open spec fn utilization_spec(&self) -> u64 {
        if self.total_lend_deposited == 0 {
            0
        } else {
            (self.total_borrowed * 10_000 / self.total_lend_deposited as int) as u64
        }
    }

    pub fn calculate_utilization(&self) -> (r: u64)
        ensures
            r == self.utilization_spec(),
    {
        if self.total_lend_deposited == 0 {
            0
        } else {
            proof {
                crate::arith::lemma_mul_le(self.total_borrowed as int, 10_000, u64::MAX as int, 10_000);
            }
            ((self.total_borrowed as u128) * 10_000 / (self.total_lend_deposited as u128)) as u64
        }
    }

    /// Accrue interest into `total_borrowed` since the last accrual at the
    /// fee model's rate for the current utilization, and stamp `current_ts`.
    pub fn accrue_interest(&mut self, current_ts: i64) -> (r: Result<(), ErrorCode>)
        ensures
            ({
                let elapsed = max_int(sat_i64(current_ts - old(self).last_accrual_ts), 0);
                let rate = old(self).fee_config.fee_at(old(self).utilization_spec());
                let interest = jbl_interest_of(old(self).total_borrowed as int, rate as int, elapsed);
                if elapsed == 0 {
                    r is Ok && *final(self) == *old(self)
                } else if interest > u64::MAX || old(self).total_borrowed + interest > u64::MAX {
                    r == Err::<(), ErrorCode>(ErrorCode::MathOverflow) && *final(self) == *old(self)
                } else {
                    r is Ok && *final(self) == (Pool {
                        total_borrowed: (old(self).total_borrowed + interest) as u64,
                        last_accrual_ts: current_ts,
                        ..*old(self)
                    })
                }
            }),
    {
        let diff = current_ts as i128 - self.last_accrual_ts as i128;
        let elapsed: u64 = if diff <= 0 {
            0
        } else if diff > i64::MAX as i128 {
            i64::MAX as u64
        } else {
            diff as u64
        };
        if elapsed == 0 {
            return Ok(());
        }
        let utilization = self.calculate_utilization();
        let fee_bps = self.fee_config.get_fee_bps(utilization);
        let interest = match compute_interest(self.total_borrowed, fee_bps, elapsed) {
            Some(v) => v,
            None => return Err(ErrorCode::MathOverflow),
        };
        self.total_borrowed = match self.total_borrowed.checked_add(interest) {
            Some(v) => v,
            None => return Err(ErrorCode::MathOverflow),
        };
        self.last_accrual_ts = current_ts;
        Ok(())
    }
}

/// An offer to hedge interest-rate risk at a fixed rate.
#[derive(Clone, Copy)]
pub struct RateHedgeOffer {
    /// The pool this offer is associated with.
    pub pool: Pubkey,
    /// The user who created the offer.
    pub authority: Pubkey,
    /// Notional amount of lend tokens covered by this offer.
    pub amount: u64,
    /// Fixed interest rate in basis points.
    pub fixed_rate_bps: u64,
    /// Minimum acceptable duration for a match, in seconds.
    pub min_duration: u64,
    /// Maximum acceptable duration for a match, in seconds.
    pub max_duration: u64,
    /// Collateral tokens locked as security when the offer was created.
    pub collateral_deposited: u64,
    /// Running total of upfront fees owed to the offer creator.
    pub locked_tokens: u64,
    pub bump: u8,
}

/// An active rate-hedge match between a borrower and an offer creator.
#[derive(Clone, Copy)]
pub struct RateHedgeMatch {
    /// The offer backing this match.
    pub offer: Pubkey,
    /// The borrower's position account.
    pub user_position: Pubkey,
    /// Original borrow amount; the borrower's repayment cap.
    pub amount: u64,
    /// Upfront fixed fee paid into the pool as additional debt shares.
    pub upfront_fee: u64,
    /// Debt shares issued at match creation.
    pub initial_debt_shares: u64,
    /// Unix timestamp when the match was created.
    pub start_ts: i64,
    /// Agreed hedge duration in seconds.
    pub duration: u64,
    pub bump: u8,
}

/// A user's collateral deposit and any open borrow position.
#[derive(Clone, Copy)]
pub struct UserPosition {
    /// The user who owns this position.
    pub authority: Pubkey,
    /// The pool this position belongs to.
    pub pool: Pubkey,
    /// Raw amount of collateral tokens deposited.
    pub collateral_deposited: u64,
    /// Debt shares held by this user.
    pub debt_shares: u64,
    pub bump: u8,
}

} // verus!
