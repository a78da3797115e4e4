//! Client-side reading of the `jbl` program's accounts: positions and
//! rate-hedge records, decoded byte-exactly, and the figures shown for them.
use vstd::prelude::*;

use crate::accounts::{body_of, num_at, sized, DISCRIMINATOR, USER_POSITION_LEN};
use crate::amount_text::{ascii_text, format_token_amount, token_amount_text};
use crate::arith::ceil_div;
use crate::jbl_math::{jbl_max_borrowable_of, max_borrowable, shares_to_amount};
use crate::jbl_state::{RateHedgeMatch, RateHedgeOffer, UserPosition};
use crate::math::fit_u64;
use crate::price_feed::slice_from;
use crate::wire::{as_signed64, field, key_bytes, read_i64, read_key, read_u64};

verus! {

/// Size of a `RateHedgeOffer` account body.
pub const RATE_HEDGE_OFFER_LEN: usize = 120;

/// Size of a `RateHedgeMatch` account body.
pub const RATE_HEDGE_MATCH_LEN: usize = 112;

/// `p` is the position body `b` (the same layout as the lending program's).
pub open spec fn jbl_position_decodes(p: UserPosition, b: Seq<u8>) -> bool {
    &&& p.authority@ == field(b, 0, 32)
    &&& p.pool@ == field(b, 32, 32)
    &&& p.collateral_deposited == num_at(b, 64, 8)
    &&& p.debt_shares == num_at(b, 72, 8)
    &&& p.bump == b[80]
}

/// `o` is the offer body `b`: pool, authority, six 8-byte figures, bump.
pub open spec fn offer_decodes(o: RateHedgeOffer, b: Seq<u8>) -> bool {
    &&& o.pool@ == field(b, 0, 32)
    &&& o.authority@ == field(b, 32, 32)
    &&& o.amount == num_at(b, 64, 8)
    &&& o.fixed_rate_bps == num_at(b, 72, 8)
    &&& o.min_duration == num_at(b, 80, 8)
    &&& o.max_duration == num_at(b, 88, 8)
    &&& o.collateral_deposited == num_at(b, 96, 8)
    &&& o.locked_tokens == num_at(b, 104, 8)
    &&& o.bump == b[112]
}

/// `h` is the match body `b`: offer, position, five 8-byte figures, bump.
pub open spec fn match_decodes(h: RateHedgeMatch, b: Seq<u8>) -> bool {
    &&& h.offer@ == field(b, 0, 32)
    &&& h.user_position@ == field(b, 32, 32)
    &&& h.amount == num_at(b, 64, 8)
    &&& h.upfront_fee == num_at(b, 72, 8)
    &&& h.initial_debt_shares == num_at(b, 80, 8)
    &&& h.start_ts == as_signed64(num_at(b, 88, 8) as int)
    &&& h.duration == num_at(b, 96, 8)
    &&& h.bump == b[104]
}

/// Debt of `debt_shares` against the pool totals, rounded up; 0 when no
/// debt shares exist or the amount overflows.
pub open spec fn jbl_debt_of(debt_shares: int, total_borrowed: int, total_debt_shares: int) -> int {
    if debt_shares == 0 || total_debt_shares == 0 {
        0
    } else {
        match fit_u64(ceil_div(debt_shares * total_borrowed, total_debt_shares)) {
            Some(v) => v as int,
            None => 0,
        }
    }
}

fn body_of_len(data: &[u8], len: usize) -> (r: Option<&[u8]>)
    ensures
        r is Some <==> sized(data@, len as int),
        r matches Some(b) ==> b@ == body_of(data@),
{
    if data.len() < DISCRIMINATOR {
        return None;
    }
    let body = slice_from(data, DISCRIMINATOR);
    if body.len() != len {
        return None;
    }
    Some(body)
}

/// A parsed `jbl` position account.
#[derive(Clone, Copy)]
pub struct UserPositionAccount(pub UserPosition);

impl UserPositionAccount {
    /// Parse from raw account bytes, discriminator included; `None` unless
    /// the body is exactly a position.
    pub fn from_bytes(account_data: &[u8]) -> (r: Option<UserPositionAccount>)
        ensures
            r is Some <==> sized(account_data@, USER_POSITION_LEN as int),
            r matches Some(a) ==> jbl_position_decodes(a.0, body_of(account_data@)),
    {
        match body_of_len(account_data, USER_POSITION_LEN) {
            Some(b) => Some(
                UserPositionAccount(
                    UserPosition {
                        authority: read_key(b, 0),
                        pool: read_key(b, 32),
                        collateral_deposited: read_u64(b, 64),
                        debt_shares: read_u64(b, 72),
                        bump: b[80],
                    },
                ),
            ),
            None => None,
        }
    }

    /// Authority key as raw 32 bytes.
    pub fn authority(&self) -> (r: Vec<u8>)
        ensures
            r@ == self.0.authority@,
    {
        key_bytes(&self.0.authority)
    }

    /// Pool key as raw 32 bytes.
    pub fn pool(&self) -> (r: Vec<u8>)
        ensures
            r@ == self.0.pool@,
    {
        key_bytes(&self.0.pool)
    }

    /// Raw collateral deposited, in token base units.
    pub fn collateral_deposited(&self) -> (r: u64)
        ensures
            r == self.0.collateral_deposited,
    {
        self.0.collateral_deposited
    }

    /// Raw debt shares held by this position.
    pub fn debt_shares(&self) -> (r: u64)
        ensures
            r == self.0.debt_shares,
    {
        self.0.debt_shares
    }

    /// Bump seed.
    pub fn bump(&self) -> (r: u8)
        ensures
            r == self.0.bump,
    {
        self.0.bump
    }

    /// `true` iff collateral has been deposited.
    pub fn has_collateral(&self) -> (r: bool)
        ensures
            r == (self.0.collateral_deposited > 0),
    {
        self.0.collateral_deposited > 0
    }

    /// `true` iff there is an active borrow.
    pub fn has_debt(&self) -> (r: bool)
        ensures
            r == (self.0.debt_shares > 0),
    {
        self.0.debt_shares > 0
    }

    /// Raw debt in lend-token base units, resolved against the pool totals
    /// with rounding up; 0 when `total_debt_shares` is 0.
    pub fn debt_amount(&self, total_borrowed: u64, total_debt_shares: u64) -> (r: u64)
        ensures
            r == jbl_debt_of(self.0.debt_shares as int, total_borrowed as int, total_debt_shares as int),
    {
        if total_debt_shares == 0 {
            return 0;
        }
        match shares_to_amount(self.0.debt_shares, total_borrowed, total_debt_shares) {
            Some(v) => v,
            None => 0,
        }
    }

    /// Borrowable amount in raw lend-token units at `ltv_percent`.
    pub fn max_borrowable(&self, ltv_percent: u8) -> (r: u64)
        ensures
            r == jbl_max_borrowable_of(self.0.collateral_deposited as int, ltv_percent as int),
    {
        max_borrowable(self.0.collateral_deposited, ltv_percent)
    }

    /// The collateral as a decimal string.
    pub fn format_collateral(&self, decimals: u8) -> (r: String)
        requires
            decimals <= 19,
        ensures
            r@ == ascii_text(token_amount_text(self.0.collateral_deposited as nat, decimals as nat)),
    {
        format_token_amount(self.0.collateral_deposited, decimals)
    }

    /// The debt, resolved against the pool totals, as a decimal string.
    pub fn format_debt(&self, total_borrowed: u64, total_debt_shares: u64, decimals: u8) -> (r: String)
        requires
            decimals <= 19,
        ensures
            r@ == ascii_text(
                token_amount_text(
                    jbl_debt_of(self.0.debt_shares as int, total_borrowed as int, total_debt_shares as int) as nat,
                    decimals as nat,
                ),
            ),
    {
        let amount = self.debt_amount(total_borrowed, total_debt_shares);
        format_token_amount(amount, decimals)
    }
}

/// A parsed rate-hedge offer account.
#[derive(Clone, Copy)]
pub struct RateHedgeOfferAccount(pub RateHedgeOffer);

impl RateHedgeOfferAccount {
    /// Parse from raw account bytes, discriminator included; `None` unless
    /// the body is exactly an offer.
    pub fn from_bytes(account_data: &[u8]) -> (r: Option<RateHedgeOfferAccount>)
        ensures
            r is Some <==> sized(account_data@, RATE_HEDGE_OFFER_LEN as int),
            r matches Some(a) ==> offer_decodes(a.0, body_of(account_data@)),
    {
        match body_of_len(account_data, RATE_HEDGE_OFFER_LEN) {
            Some(b) => Some(
                RateHedgeOfferAccount(
                    RateHedgeOffer {
                        pool: read_key(b, 0),
                        authority: read_key(b, 32),
                        amount: read_u64(b, 64),
                        fixed_rate_bps: read_u64(b, 72),
                        min_duration: read_u64(b, 80),
                        max_duration: read_u64(b, 88),
                        collateral_deposited: read_u64(b, 96),
                        locked_tokens: read_u64(b, 104),
                        bump: b[112],
                    },
                ),
            ),
            None => None,
        }
    }
}

/// A parsed rate-hedge match account.
#[derive(Clone, Copy)]
pub struct RateHedgeMatchAccount(pub RateHedgeMatch);

impl RateHedgeMatchAccount {
    /// Parse from raw account bytes, discriminator included; `None` unless
    /// the body is exactly a match.
    pub fn from_bytes(account_data: &[u8]) -> (r: Option<RateHedgeMatchAccount>)
        ensures
            r is Some <==> sized(account_data@, RATE_HEDGE_MATCH_LEN as int),
            r matches Some(a) ==> match_decodes(a.0, body_of(account_data@)),
    {
        match body_of_len(account_data, RATE_HEDGE_MATCH_LEN) {
            Some(b) => Some(
                RateHedgeMatchAccount(
                    RateHedgeMatch {
                        offer: read_key(b, 0),
                        user_position: read_key(b, 32),
                        amount: read_u64(b, 64),
                        upfront_fee: read_u64(b, 72),
                        initial_debt_shares: read_u64(b, 80),
                        start_ts: read_i64(b, 88),
                        duration: read_u64(b, 96),
                        bump: b[104],
                    },
                ),
            ),
            None => None,
        }
    }
}

} // verus!
