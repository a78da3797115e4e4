//! Client-side reading of the accounts the programs write: byte-exact
//! decoders for each layout and the figures a front end shows.
//!
//! Every account arrives as raw bytes with its 8-byte discriminator first.
//! Each decoder checks the length and reads the fields little-endian at the
//! offsets of the account's `repr(C)` layout.
use vstd::prelude::*;

use crate::amount_text::{ascii_text, format_token_amount, token_amount_text};
use crate::arith::{min_int, sat_sub};
use crate::price_feed::slice_from;
use crate::rate_curve::{IrmConfig, PiecewiseLinearModel, RatePoint, MAX_POINTS};
use crate::state::{Market, Pool, UserPosition};
use crate::traits::Oracle;
use crate::wire::{as_signed64, field, key_bytes, le_value, read_i64, read_key, read_le, read_u64, Pubkey};
use crate::withdrawal_queue::{WithdrawalQueue, WithdrawalQueueEntry, WITHDRAWAL_QUEUE_LEN};
use crate::math::utilization_of;

verus! {

/// Bytes of the account-type discriminator that leads every account.
pub const DISCRIMINATOR: usize = 8;

/// Byte offset of `unix_timestamp` within the Clock sysvar account, whose
/// five 8-byte fields are `slot`, `epoch_start_timestamp`, `epoch`,
/// `leader_schedule_epoch` and `unix_timestamp`. The sysvar has no discriminator.
pub const CLOCK_UNIX_TIMESTAMP_OFFSET: usize = 32;

/// Total encoded size of the Clock sysvar.
pub const CLOCK_LEN: usize = 40;

/// Size of a `Pool` account body.
pub const POOL_LEN: usize = 49_768;

/// Size of a `UserPosition` account body.
pub const USER_POSITION_LEN: usize = 88;

/// Size of an `IrmConfig` account body.
pub const IRM_CONFIG_LEN: usize = 112;

/// Size of a `Feed` account body: authority, value and bump.
pub const FEED_ACCOUNT_LEN: usize = 41;

/// Byte offset of the withdrawal queue within a `Pool` body.
pub const POOL_QUEUE_OFFSET: usize = 344;

/// Size of one withdrawal-queue entry: requester, amount, reserved word.
pub const QUEUE_ENTRY_LEN: usize = 48;

// ── layouts ───────────────────────────────────────────────────────────────────

/// The unsigned little-endian number in `n` bytes of `b` at `off`.
pub open spec fn num_at(b: Seq<u8>, off: int, n: int) -> nat {
    le_value(field(b, off, n))
}

/// `m` is the 80-byte market record `b`: seven 8-byte figures, the LTV byte
/// and 7 bytes of padding, then the accrued fee shares and the outstanding
/// flash loan.
pub open spec fn market_decodes(m: Market, b: Seq<u8>) -> bool {
    &&& m.total_supply_assets == num_at(b, 0, 8)
    &&& m.total_supply_shares == num_at(b, 8, 8)
    &&& m.total_borrow_assets == num_at(b, 16, 8)
    &&& m.total_borrow_shares == num_at(b, 24, 8)
    &&& m.last_update == as_signed64(num_at(b, 32, 8) as int)
    &&& m.fee == num_at(b, 40, 8)
    &&& m.assets_in_queue == num_at(b, 48, 8)
    &&& m.ltv_percent == b[56]
    &&& m.accrued_fee_shares == num_at(b, 64, 8)
    &&& m.flash_loan_outstanding == num_at(b, 72, 8)
}

/// `q` is the withdrawal queue `b`: head and tail (2 bytes each), 4 bytes of
/// padding, then the entries of 48 bytes each.
pub open spec fn queue_decodes(q: WithdrawalQueue, b: Seq<u8>) -> bool {
    &&& q.head == num_at(b, 0, 2)
    &&& q.tail == num_at(b, 2, 2)
    &&& forall|i: int|
        0 <= i < WITHDRAWAL_QUEUE_LEN ==> {
            &&& (#[trigger] q.entries@[i]).requester@ == field(b, 8 + 48 * i, 32)
            &&& q.entries@[i].amount == num_at(b, 8 + 48 * i + 32, 8)
        }
}

/// `p` is the pool body `b`.
pub open spec fn pool_decodes(p: Pool, b: Seq<u8>) -> bool {
    &&& p.authority@ == field(b, 0, 32)
    &&& p.collateral_mint@ == field(b, 32, 32)
    &&& p.lend_mint@ == field(b, 64, 32)
    &&& p.lp_mint@ == field(b, 96, 32)
    &&& market_decodes(p.market, field(b, 128, 80))
    &&& p.rate_program@ == field(b, 208, 32)
    &&& p.irm_state@ == field(b, 240, 32)
    &&& p.feed_program@ == field(b, 272, 32)
    &&& p.feed_state@ == field(b, 304, 32)
    &&& p.lp_mint_bump == b[336]
    &&& queue_decodes(p.withdrawal_queue, field(b, 344, 49_160))
    &&& p.guard_state@ == field(b, 49_512, 32)
    &&& p.guard_program@ == field(b, 49_544, 32)
}

/// `p` is the position body `b`.
pub open spec fn user_position_decodes(p: UserPosition, b: Seq<u8>) -> bool {
    &&& p.authority@ == field(b, 0, 32)
    &&& p.pool@ == field(b, 32, 32)
    &&& p.collateral_deposited == num_at(b, 64, 8)
    &&& p.debt_shares == num_at(b, 72, 8)
    &&& p.bump == b[80]
}

/// `c` is the rate-curve body `b`: the pool, four 8-byte points (rate as 4
/// bytes, utilization as 2, 2 of padding), the point count and 7 bytes of
/// padding, the authority and the bump.
pub open spec fn irm_config_decodes(c: IrmConfig, b: Seq<u8>) -> bool {
    &&& c.pool@ == field(b, 0, 32)
    &&& forall|i: int|
        0 <= i < MAX_POINTS ==> {
            &&& (#[trigger] c.model.points@[i]).rate_bps == num_at(b, 32 + 8 * i, 4)
            &&& c.model.points@[i].util_bps == num_at(b, 32 + 8 * i + 4, 2)
        }
    &&& c.model.len == b[64]
    &&& c.authority@ == field(b, 72, 32)
    &&& c.bump == b[104]
}

/// The body of an account: what follows the discriminator.
pub open spec fn body_of(data: Seq<u8>) -> Seq<u8> {
    data.skip(DISCRIMINATOR as int)
}

/// `data` is an account of discriminator plus `len` body bytes.
pub open spec fn sized(data: Seq<u8>, len: int) -> bool {
    data.len() >= DISCRIMINATOR && data.len() - DISCRIMINATOR == len
}

// ── decoders ──────────────────────────────────────────────────────────────────

fn read_u16(b: &[u8], off: usize) -> (r: u16)
    requires
        off + 2 <= b@.len(),
    ensures
        r == num_at(b@, off as int, 2),
{
    let v = read_le(b, off, 2);
    proof {
        crate::wire::lemma_le_value_bound(field(b@, off as int, 2));
        assert(crate::wire::pow256(2) == 0x1_0000) by {
            reveal_with_fuel(crate::wire::pow256, 3);
        }
    }
    v as u16
}

fn decode_market(b: &[u8], off: usize) -> (m: Market)
    requires
        off + 80 <= b@.len(),
    ensures
        market_decodes(m, field(b@, off as int, 80)),
{
    let _len = b.len();
    let m = Market {
        total_supply_assets: read_u64(b, off),
        total_supply_shares: read_u64(b, off + 8),
        total_borrow_assets: read_u64(b, off + 16),
        total_borrow_shares: read_u64(b, off + 24),
        last_update: read_i64(b, off + 32),
        fee: read_u64(b, off + 40),
        assets_in_queue: read_u64(b, off + 48),
        ltv_percent: b[off + 56],
        accrued_fee_shares: read_u64(b, off + 64),
        flash_loan_outstanding: read_u64(b, off + 72),
    };
    proof {
        let f = field(b@, off as int, 80);
        assert forall|k: int, n: int| 0 <= k && 0 <= n && k + n <= 80 implies field(f, k, n) =~= field(
            b@,
            off + k,
            n,
        ) by {}
        assert(field(f, 0, 8) =~= field(b@, off as int, 8));
        assert(field(f, 8, 8) =~= field(b@, off + 8, 8));
        assert(field(f, 16, 8) =~= field(b@, off + 16, 8));
        assert(field(f, 24, 8) =~= field(b@, off + 24, 8));
        assert(field(f, 32, 8) =~= field(b@, off + 32, 8));
        assert(field(f, 40, 8) =~= field(b@, off + 40, 8));
        assert(field(f, 48, 8) =~= field(b@, off + 48, 8));
        assert(field(f, 64, 8) =~= field(b@, off + 64, 8));
        assert(field(f, 72, 8) =~= field(b@, off + 72, 8));
    }
    m
}

fn decode_queue(b: &[u8], off: usize) -> (q: WithdrawalQueue)
    requires
        off + 49_160 <= b@.len(),
    ensures
        queue_decodes(q, field(b@, off as int, 49_160)),
{
    let ghost f = field(b@, off as int, 49_160);
    let len = b.len();
    let mut entries = [WithdrawalQueueEntry { requester: [0u8; 32], amount: 0 }; WITHDRAWAL_QUEUE_LEN];
    let mut i: usize = 0;
    while i < WITHDRAWAL_QUEUE_LEN
        invariant
            len == b@.len(),
            off + 49_160 <= len,
            f == field(b@, off as int, 49_160),
            i <= WITHDRAWAL_QUEUE_LEN,
            forall|j: int|
                0 <= j < i ==> {
                    &&& (#[trigger] entries@[j]).requester@ == field(f, 8 + 48 * j, 32)
                    &&& entries@[j].amount == num_at(f, 8 + 48 * j + 32, 8)
                },
        decreases WITHDRAWAL_QUEUE_LEN - i,
    {
        let at = off + 8 + 48 * i;
        let requester = read_key(b, at);
        let amount = read_u64(b, at + 32);
        proof {
            assert(field(f, 8 + 48 * i, 32) =~= field(b@, at as int, 32));
            assert(field(f, 8 + 48 * i + 32, 8) =~= field(b@, at + 32, 8));
        }
        entries[i] = WithdrawalQueueEntry { requester, amount };
        i = i + 1;
    }
    let head = read_u16(b, off);
    let tail = read_u16(b, off + 2);
    proof {
        assert(field(f, 0, 2) =~= field(b@, off as int, 2));
        assert(field(f, 2, 2) =~= field(b@, off + 2, 2));
    }
    WithdrawalQueue { head, tail, entries }
}

fn decode_pool(b: &[u8]) -> (p: Pool)
    requires
        b@.len() == POOL_LEN,
    ensures
        pool_decodes(p, b@),
{
    let market = decode_market(b, 128);
    let withdrawal_queue = decode_queue(b, 344);
    let p = Pool {
        authority: read_key(b, 0),
        collateral_mint: read_key(b, 32),
        lend_mint: read_key(b, 64),
        lp_mint: read_key(b, 96),
        market,
        rate_program: read_key(b, 208),
        irm_state: read_key(b, 240),
        feed_program: read_key(b, 272),
        feed_state: read_key(b, 304),
        lp_mint_bump: b[336],
        withdrawal_queue,
        guard_state: read_key(b, 49_512),
        guard_program: read_key(b, 49_544),
    };
    p
}

fn decode_user_position(b: &[u8]) -> (p: UserPosition)
    requires
        b@.len() == USER_POSITION_LEN,
    ensures
        user_position_decodes(p, b@),
{
    UserPosition {
        authority: read_key(b, 0),
        pool: read_key(b, 32),
        collateral_deposited: read_u64(b, 64),
        debt_shares: read_u64(b, 72),
        bump: b[80],
    }
}

fn decode_irm_config(b: &[u8]) -> (c: IrmConfig)
    requires
        b@.len() == IRM_CONFIG_LEN,
    ensures
        irm_config_decodes(c, b@),
{
    let mut points = [RatePoint { rate_bps: 0, util_bps: 0 }; MAX_POINTS];
    let mut i: usize = 0;
    while i < MAX_POINTS
        invariant
            b@.len() == IRM_CONFIG_LEN,
            i <= MAX_POINTS,
            forall|j: int|
                0 <= j < i ==> {
                    &&& (#[trigger] points@[j]).rate_bps == num_at(b@, 32 + 8 * j, 4)
                    &&& points@[j].util_bps == num_at(b@, 32 + 8 * j + 4, 2)
                },
        decreases MAX_POINTS - i,
    {
        let at = 32 + 8 * i;
        let rate_bps = crate::wire::read_u32(b, at);
        let util_bps = read_u16(b, at + 4);
        points[i] = RatePoint { rate_bps, util_bps };
        i = i + 1;
    }
    IrmConfig {
        pool: read_key(b, 0),
        model: PiecewiseLinearModel { points, len: b[64] },
        authority: read_key(b, 72),
        bump: b[104],
    }
}

/// The body of `data` when it is exactly a discriminator plus `len` bytes.
fn account_body(data: &[u8], len: usize) -> (r: Option<&[u8]>)
    ensures
        r is Some <==> sized(data@, len as int),
        r matches Some(b) ==> b@ == body_of(data@),
{
    if data.len() < DISCRIMINATOR {
        return None;
    }
    let body = slice_from(data, DISCRIMINATOR);
    if body.len() != len {
        return None;
    }
    Some(body)
}

// ── the Clock sysvar ──────────────────────────────────────────────────────────

/// `Clock::unix_timestamp` read out of raw Clock sysvar account data; `None`
/// when the data is too short to be a Clock.
pub fn clock_unix_timestamp(sysvar_data: &[u8]) -> (r: Option<i64>)
    ensures
        r == (if sysvar_data@.len() < CLOCK_LEN {
            None
        } else {
            Some(as_signed64(num_at(sysvar_data@, CLOCK_UNIX_TIMESTAMP_OFFSET as int, 8) as int) as i64)
        }),
{
    if sysvar_data.len() < CLOCK_LEN {
        return None;
    }
    Some(read_i64(sysvar_data, CLOCK_UNIX_TIMESTAMP_OFFSET))
}

// ── pool ──────────────────────────────────────────────────────────────────────

/// A parsed `Pool` account.
#[derive(Clone, Copy)]
pub struct PoolAccount(pub Pool);

impl PoolAccount {
    /// Parse from raw account bytes, discriminator included; `None` unless
    /// the body is exactly a `Pool`.
    pub fn from_bytes(account_data: &[u8]) -> (r: Option<PoolAccount>)
        ensures
            r is Some <==> sized(account_data@, POOL_LEN as int),
            r matches Some(a) ==> pool_decodes(a.0, body_of(account_data@)),
    {
        match account_body(account_data, POOL_LEN) {
            Some(body) => Some(PoolAccount(decode_pool(body))),
            None => None,
        }
    }

    /// Authority key as raw 32 bytes.
    pub fn authority(&self) -> (r: Vec<u8>)
        ensures
            r@ == self.0.authority@,
    {
        key_bytes(&self.0.authority)
    }

    /// Collateral mint key as raw 32 bytes.
    pub fn collateral_mint(&self) -> (r: Vec<u8>)
        ensures
            r@ == self.0.collateral_mint@,
    {
        key_bytes(&self.0.collateral_mint)
    }

    /// Lend mint key as raw 32 bytes.
    pub fn lend_mint(&self) -> (r: Vec<u8>)
        ensures
            r@ == self.0.lend_mint@,
    {
        key_bytes(&self.0.lend_mint)
    }

    /// LP mint key as raw 32 bytes.
    pub fn lp_mint(&self) -> (r: Vec<u8>)
        ensures
            r@ == self.0.lp_mint@,
    {
        key_bytes(&self.0.lp_mint)
    }

    /// Rate-curve account key as raw 32 bytes.
    pub fn irm_state(&self) -> (r: Vec<u8>)
        ensures
            r@ == self.0.irm_state@,
    {
        key_bytes(&self.0.irm_state)
    }

    /// Price account key as raw 32 bytes.
    pub fn feed_state(&self) -> (r: Vec<u8>)
        ensures
            r@ == self.0.feed_state@,
    {
        key_bytes(&self.0.feed_state)
    }

    /// Sum of lend tokens currently deposited.
    pub fn total_supply_assets(&self) -> (r: u64)
        ensures
            r == self.0.market.total_supply_assets,
    {
        self.0.market.total_supply_assets
    }

    /// Total LP tokens outstanding for the lend side.
    pub fn total_supply_shares(&self) -> (r: u64)
        ensures
            r == self.0.market.total_supply_shares,
    {
        self.0.market.total_supply_shares
    }

    /// Total borrowed lend tokens outstanding.
    pub fn total_borrow_assets(&self) -> (r: u64)
        ensures
            r == self.0.market.total_borrow_assets,
    {
        self.0.market.total_borrow_assets
    }

    /// Total debt shares outstanding.
    pub fn total_borrow_shares(&self) -> (r: u64)
        ensures
            r == self.0.market.total_borrow_shares,
    {
        self.0.market.total_borrow_shares
    }

    /// Unix timestamp of the last interest accrual.
    pub fn last_update(&self) -> (r: i64)
        ensures
            r == self.0.market.last_update,
    {
        self.0.market.last_update
    }

    pub fn fee(&self) -> (r: u64)
        ensures
            r == self.0.market.fee,
    {
        self.0.market.fee
    }

    pub fn assets_in_queue(&self) -> (r: u64)
        ensures
            r == self.0.market.assets_in_queue,
    {
        self.0.market.assets_in_queue
    }

    /// LTV percent (80 means 80%).
    pub fn ltv_percent(&self) -> (r: u8)
        ensures
            r == self.0.market.ltv_percent,
    {
        self.0.market.ltv_percent
    }

    /// LP mint bump seed.
    pub fn lp_mint_bump(&self) -> (r: u8)
        ensures
            r == self.0.lp_mint_bump,
    {
        self.0.lp_mint_bump
    }

    /// Lend tokens committed to pending withdrawals in the queue.
    pub fn pending_withdrawals(&self) -> (r: u64)
        ensures
            r == self.0.market.assets_in_queue,
    {
        self.0.market.assets_in_queue
    }

    /// Utilization including pending withdrawals, in bps, capped at 10_000
    /// for display.
    pub fn utilization_bps(&self) -> (r: u16)
        ensures
            r == min_int(
                utilization_of(
                    self.0.market.total_supply_assets as int,
                    self.0.market.total_borrow_assets as int,
                    self.0.market.assets_in_queue as int,
                ),
                10_000,
            ),
    {
        let m = &self.0.market;
        let u = crate::math::utilization_bps(m.total_supply_assets, m.total_borrow_assets, m.assets_in_queue);
        if u < 10_000 {
            u as u16
        } else {
            10_000
        }
    }

    /// Lend tokens a borrower can draw: supplied less borrowed, saturating at
    /// zero. Queued withdrawals already left the supply side, so they are not
    /// subtracted again; this is the figure the borrow check enforces.
    pub fn available_liquidity(&self) -> (r: u64)
        ensures
            r == sat_sub(self.0.market.total_supply_assets as int, self.0.market.total_borrow_assets as int),
    {
        crate::math::borrowable_liquidity_from_market(
            self.0.market.total_supply_assets,
            self.0.market.total_borrow_assets,
        )
    }
}

// ── user position ─────────────────────────────────────────────────────────────

/// A parsed `UserPosition` account.
#[derive(Clone, Copy)]
pub struct UserPositionAccount(pub UserPosition);

impl UserPositionAccount {
    /// Parse from raw account bytes, discriminator included; `None` unless
    /// the body is exactly a `UserPosition`.
    pub fn from_bytes(account_data: &[u8]) -> (r: Option<UserPositionAccount>)
        ensures
            r is Some <==> sized(account_data@, USER_POSITION_LEN as int),
            r matches Some(a) ==> user_position_decodes(a.0, body_of(account_data@)),
    {
        match account_body(account_data, USER_POSITION_LEN) {
            Some(body) => Some(UserPositionAccount(decode_user_position(body))),
            None => None,
        }
    }

    /// Authority key as raw 32 bytes.
    pub fn authority(&self) -> (r: Vec<u8>)
        ensures
            r@ == self.0.authority@,
    {
        key_bytes(&self.0.authority)
    }

    /// Pool key as raw 32 bytes.
    pub fn pool(&self) -> (r: Vec<u8>)
        ensures
            r@ == self.0.pool@,
    {
        key_bytes(&self.0.pool)
    }

    /// Raw collateral deposited, in token base units.
    pub fn collateral_deposited(&self) -> (r: u64)
        ensures
            r == self.0.collateral_deposited,
    {
        self.0.collateral_deposited
    }

    /// Raw debt shares held by this position.
    pub fn debt_shares(&self) -> (r: u64)
        ensures
            r == self.0.debt_shares,
    {
        self.0.debt_shares
    }

    /// Bump seed.
    pub fn bump(&self) -> (r: u8)
        ensures
            r == self.0.bump,
    {
        self.0.bump
    }

    /// `true` iff collateral has been deposited.
    pub fn has_collateral(&self) -> (r: bool)
        ensures
            r == (self.0.collateral_deposited > 0),
    {
        self.0.collateral_deposited > 0
    }

    /// `true` iff there is an active borrow.
    pub fn has_debt(&self) -> (r: bool)
        ensures
            r == (self.0.debt_shares > 0),
    {
        self.0.debt_shares > 0
    }

    /// The collateral as a decimal string (at most six decimal places,
    /// trailing zeros trimmed).
    pub fn format_collateral(&self, decimals: u8) -> (r: String)
        requires
            decimals <= 19,
        ensures
            r@ == ascii_text(token_amount_text(self.0.collateral_deposited as nat, decimals as nat)),
    {
        format_token_amount(self.0.collateral_deposited, decimals)
    }
}

// ── rate curve ────────────────────────────────────────────────────────────────

/// A parsed `IrmConfig` account.
#[derive(Clone, Copy)]
pub struct IrmConfigAccount(pub IrmConfig);

impl IrmConfigAccount {
    /// Parse from raw account bytes, discriminator included; `None` unless
    /// the body is exactly an `IrmConfig`.
    pub fn from_bytes(account_data: &[u8]) -> (r: Option<IrmConfigAccount>)
        ensures
            r is Some <==> sized(account_data@, IRM_CONFIG_LEN as int),
            r matches Some(a) ==> irm_config_decodes(a.0, body_of(account_data@)),
    {
        match account_body(account_data, IRM_CONFIG_LEN) {
            Some(body) => Some(IrmConfigAccount(decode_irm_config(body))),
            None => None,
        }
    }

    /// Pool key this curve is bound to, as raw 32 bytes.
    pub fn pool(&self) -> (r: Vec<u8>)
        ensures
            r@ == self.0.pool@,
    {
        key_bytes(&self.0.pool)
    }

    /// Borrow rate in bps at `utilization_bps`.
    pub fn fee_bps(&self, utilization_bps: u64) -> (r: u32)
        requires
            self.0.model.well_formed(),
        ensures
            r == self.0.model.rate_at(utilization_bps),
    {
        self.0.model.get_fee_bps(utilization_bps)
    }
}

// ── price feed ────────────────────────────────────────────────────────────────

/// A parsed manual price account: authority, price and bump.
#[derive(Clone, Copy)]
pub struct FeedAccount {
    pub authority: Pubkey,
    pub value: u64,
    pub bump: u8,
}

impl FeedAccount {
    /// Parse from raw account bytes, discriminator included. The body must
    /// be exactly 41 bytes: authority (32), value (8), bump (1).
    pub fn from_bytes(account_data: &[u8]) -> (r: Option<FeedAccount>)
        ensures
            r is Some <==> sized(account_data@, FEED_ACCOUNT_LEN as int),
            r matches Some(f) ==> {
                &&& f.authority@ == field(body_of(account_data@), 0, 32)
                &&& f.value == num_at(body_of(account_data@), 32, 8)
                &&& f.bump == body_of(account_data@)[40]
            },
    {
        match account_body(account_data, FEED_ACCOUNT_LEN) {
            Some(body) => Some(
                FeedAccount { authority: read_key(body, 0), value: read_u64(body, 32), bump: body[40] },
            ),
            None => None,
        }
    }

    /// Authority key as raw 32 bytes.
    pub fn authority(&self) -> (r: Vec<u8>)
        ensures
            r@ == self.authority@,
    {
        key_bytes(&self.authority)
    }
}

impl Oracle for FeedAccount {
    open spec fn price_of(&self) -> u64 {
        self.value
    }

    fn price(&self) -> (r: u64) {
        self.value
    }
}

// ── display helpers ───────────────────────────────────────────────────────────

/// Effective leverage of a position in bps: `collateral / (collateral − debt)
/// × 10_000`, saturated at `u32::MAX`; 10_000 (1×) when there is no
/// collateral or no equity.
pub fn position_leverage_bps(collateral: u64, debt: u64) -> (r: u32)
    ensures
        r == (if collateral == 0 || debt >= collateral {
            10_000
        } else {
            min_int(collateral * 10_000 / (collateral - debt) as int, u32::MAX as int)
        }),
{
    if collateral == 0 || debt >= collateral {
        return 10_000;
    }
    let equity = collateral - debt;
    proof {
        crate::arith::lemma_mul_le(collateral as int, 10_000, u64::MAX as int, 10_000);
    }
    let lev = (collateral as u128) * 10_000 / (equity as u128);
    if lev < u32::MAX as u128 {
        lev as u32
    } else {
        u32::MAX
    }
}

} // verus!
