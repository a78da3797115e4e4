//! The price-account contract every oracle writes and every market reads:
//! the [`PriceFeedHeader`] prefix, its decimal-adjusted price ratio and the
//! freshness gate, plus the reference feed program's own account and
//! ingestion rule.
use vstd::prelude::*;

use crate::arith::{lemma_mul_le, sat_i64};
use crate::math::fit_u64;
use crate::traits::Oracle;
use crate::wire::{as_signed64, field, keys_equal, le_value, read_i64, read_key, read_u32, read_u64, Pubkey};

verus! {

/// Fixed-point scale for prices: a ratio of `1_000_000` is parity.
pub const PRICE_SCALE: u128 = 1_000_000;

/// Suggested `price_ttl_ms` for a feed with no reason to choose otherwise: 90 seconds.
pub const DEFAULT_PRICE_TTL_MS: u32 = 90_000;

/// Floor on a non-zero `FeedRules::max_deviation_bps_per_hour`: 10% per hour.
pub const MIN_DEVIATION_BPS_PER_HOUR: u16 = 1_000;

/// Suggested `FeedRules::max_age_ms` for a Pyth-backed feed: 60 seconds.
pub const DEFAULT_PYTH_MAX_AGE_MS: u32 = 60_000;

/// Byte offset of a `Feed` account's collateral mint, discriminator included.
pub const FEED_COLLATERAL_MINT_OFFSET: u32 = 8;

/// Byte offset of a `Feed` account's lend mint, discriminator included.
pub const FEED_LEND_MINT_OFFSET: u32 = 40;

/// Serialized size of a [`PriceFeedHeader`].
pub const HEADER_LEN: usize = 94;

/// The prefix every price account lays out first, right after its 8-byte
/// discriminator.
#[derive(Clone, Copy, Debug, PartialEq, Eq)]
pub struct PriceFeedHeader {
    pub collateral_mint: Pubkey,
    pub lend_mint: Pubkey,
    pub collateral_price: u64,
    pub lend_price: u64,
    pub collateral_decimals: u8,
    pub lend_decimals: u8,
    /// When the prices above were last written, in Unix seconds.
    pub last_updated_ts: i64,
    /// Maximum age, in milliseconds, at which a consumer may still act on
    /// this price. `0` rejects everything.
    pub price_ttl_ms: u32,
}

pub open spec fn pow10(n: nat) -> nat
    decreases n,
{
    if n == 0 {
        1
    } else {
        10 * pow10((n - 1) as nat)
    }
}

/// The decimal-adjusted ratio, `None` when the lend price is zero or any
/// intermediate product of the fixed 128-bit evaluation overflows.
pub open spec fn price_ratio_of(
    collateral_price: int,
    lend_price: int,
    collateral_decimals: nat,
    lend_decimals: nat,
) -> Option<u64> {
    let coll_pow = pow10(collateral_decimals) as int;
    let lend_pow = pow10(lend_decimals) as int;
    if lend_price == 0 {
        None
    } else if coll_pow > u128::MAX || lend_pow > u128::MAX {
        None
    } else if collateral_price * lend_pow * PRICE_SCALE as int > u128::MAX {
        None
    } else if lend_price * coll_pow > u128::MAX {
        None
    } else {
        fit_u64(collateral_price * lend_pow * PRICE_SCALE as int / (lend_price * coll_pow))
    }
}

/// Stale iff the budget is zero or the age exceeds it, measured in milliseconds.
pub open spec fn stale_at(last_updated_ts: int, clock_ts: int, ttl_ms: int) -> bool {
    ttl_ms == 0 || (clock_ts - last_updated_ts) * 1_000 > ttl_ms
}

impl PriceFeedHeader {
    pub open spec fn ratio_spec(&self) -> Option<u64> {
        price_ratio_of(
            self.collateral_price as int,
            self.lend_price as int,
            self.collateral_decimals as nat,
            self.lend_decimals as nat,
        )
    }

    /// Decimal-adjusted price of the collateral token expressed in lend
    /// tokens, in [`PRICE_SCALE`] units.
    pub fn price_ratio(&self) -> (r: Option<u64>)
        ensures
            r == self.ratio_spec(),
    {
        if self.lend_price == 0 {
            return None;
        }
        let coll_price = self.collateral_price as u128;
        let lend_price = self.lend_price as u128;
        let coll_dec_pow = match checked_pow10(self.collateral_decimals as u32) {
            Some(p) => p,
            None => return None,
        };
        let lend_dec_pow = match checked_pow10(self.lend_decimals as u32) {
            Some(p) => p,
            None => return None,
        };
        let numerator = match coll_price.checked_mul(lend_dec_pow) {
            Some(v) => match v.checked_mul(PRICE_SCALE) {
                Some(w) => w,
                None => return None,
            },
            None => {
                proof {
                    lemma_mul_le(
                        u128::MAX as int + 1,
                        1,
                        coll_price as int * lend_dec_pow as int,
                        PRICE_SCALE as int,
                    );
                }
                return None;
            },
        };
        let denominator = match lend_price.checked_mul(coll_dec_pow) {
            Some(v) => v,
            None => return None,
        };
        proof {
            lemma_pow10_positive(self.collateral_decimals as nat);
            lemma_mul_le(1, 1, lend_price as int, coll_dec_pow as int);
        }
        let ratio = numerator / denominator;
        if ratio > u64::MAX as u128 {
            None
        } else {
            Some(ratio as u64)
        }
    }

    /// `true` iff this price is too old to act on at `clock_ts`, per its own TTL.
    pub fn is_stale_at(&self, clock_ts: i64) -> (r: bool)
        ensures
            r == stale_at(self.last_updated_ts as int, clock_ts as int, self.price_ttl_ms as int),
    {
        price_stale_at(self.last_updated_ts, clock_ts, self.price_ttl_ms)
    }
}

/// A header with an unusable price reads as a price of `0`.
impl Oracle for PriceFeedHeader {
    open spec fn price_of(&self) -> u64 {
        match self.ratio_spec() {
            Some(p) => p,
            None => 0,
        }
    }

    fn price(&self) -> (r: u64) {
        match self.price_ratio() {
            Some(p) => p,
            None => 0,
        }
    }
}

pub proof fn lemma_pow10_positive(n: nat)
    ensures
        pow10(n) >= 1,
    decreases n,
{
    if n > 0 {
        lemma_pow10_positive((n - 1) as nat);
    }
}

/// `10^exp` when it fits in a `u128`.
pub fn checked_pow10(exp: u32) -> (r: Option<u128>)
    ensures
        r == (if pow10(exp as nat) <= u128::MAX {
            Some(pow10(exp as nat) as u128)
        } else {
            None::<u128>
        }),
{
    let mut acc: u128 = 1;
    let mut i: u32 = 0;
    while i < exp
        invariant
            i <= exp,
            acc == pow10(i as nat),
        decreases exp - i,
    {
        match acc.checked_mul(10) {
            Some(next) => {
                acc = next;
                i = i + 1;
            },
            None => {
                proof {
                    lemma_pow10_monotone((i + 1) as nat, exp as nat);
                }
                return None;
            },
        }
    }
    Some(acc)
}

pub proof fn lemma_pow10_monotone(a: nat, b: nat)
    requires
        a <= b,
    ensures
        pow10(a) <= pow10(b),
    decreases b,
{
    if a < b {
        lemma_pow10_monotone(a, (b - 1) as nat);
    }
}

/// `true` iff a price stamped `last_updated_ts` is stale when read at
/// `clock_ts` under a budget of `ttl_ms`. A zero budget fails closed.
pub fn price_stale_at(last_updated_ts: i64, clock_ts: i64, ttl_ms: u32) -> (r: bool)
    ensures
        r == stale_at(last_updated_ts as int, clock_ts as int, ttl_ms as int),
{
    if ttl_ms == 0 {
        return true;
    }
    let elapsed_ms = (clock_ts as i128 - last_updated_ts as i128) * 1_000;
    elapsed_ms > ttl_ms as i128
}

/// Why a price account could not be read.
pub enum FeedReadError {
    /// The account is not the one the market recorded.
    ConstraintAddress,
    /// The account is not owned by the program the market recorded.
    ConstraintOwner,
    /// The account data is too short to hold a header.
    AccountDidNotDeserialize,
}

/// The header fields decoded from the start of `data` (discriminator already
/// stripped); bytes past the header are ignored.
pub open spec fn decodes_header(h: PriceFeedHeader, data: Seq<u8>) -> bool {
    &&& h.collateral_mint@ == field(data, 0, 32)
    &&& h.lend_mint@ == field(data, 32, 32)
    &&& h.collateral_price == le_value(field(data, 64, 8))
    &&& h.lend_price == le_value(field(data, 72, 8))
    &&& h.collateral_decimals == data[80]
    &&& h.lend_decimals == data[81]
    &&& h.last_updated_ts == as_signed64(le_value(field(data, 82, 8)) as int)
    &&& h.price_ttl_ms == le_value(field(data, 90, 4))
}

impl PriceFeedHeader {
    /// Decodes a header from its serialized bytes, which must hold at least
    /// [`HEADER_LEN`] bytes; the tail is left untouched.
    pub fn deserialize(data: &[u8]) -> (r: Option<PriceFeedHeader>)
        ensures
            match r {
                Some(h) => data@.len() >= HEADER_LEN && decodes_header(h, data@),
                None => data@.len() < HEADER_LEN,
            },
    {
        if data.len() < HEADER_LEN {
            return None;
        }
        Some(
            PriceFeedHeader {
                collateral_mint: read_key(data, 0),
                lend_mint: read_key(data, 32),
                collateral_price: read_u64(data, 64),
                lend_price: read_u64(data, 72),
                collateral_decimals: data[80],
                lend_decimals: data[81],
                last_updated_ts: read_i64(data, 82),
                price_ttl_ms: read_u32(data, 90),
            },
        )
    }
}

/// Reads a [`PriceFeedHeader`] out of a price account given its address,
/// owner and raw data (8-byte discriminator included, not verified).
/// The address must be `expected_key` and the owner `expected_owner`.
pub fn read_price_feed(
    key: &Pubkey,
    owner: &Pubkey,
    data: &[u8],
    expected_key: &Pubkey,
    expected_owner: &Pubkey,
) -> (r: Result<PriceFeedHeader, FeedReadError>)
    ensures
        key@ != expected_key@ ==> r is Err && r->Err_0 is ConstraintAddress,
        key@ == expected_key@ && owner@ != expected_owner@ ==> r is Err && r->Err_0 is ConstraintOwner,
        key@ == expected_key@ && owner@ == expected_owner@ ==> (match r {
            Ok(h) => data@.len() >= 8 + HEADER_LEN && decodes_header(h, data@.skip(8)),
            Err(e) => e is AccountDidNotDeserialize && data@.len() < 8 + HEADER_LEN,
        }),
{
    if !keys_equal(key, expected_key) {
        return Err(FeedReadError::ConstraintAddress);
    }
    if !keys_equal(owner, expected_owner) {
        return Err(FeedReadError::ConstraintOwner);
    }
    if data.len() < 8 {
        return Err(FeedReadError::AccountDidNotDeserialize);
    }
    let body = slice_from(data, 8);
    match PriceFeedHeader::deserialize(body) {
        Some(h) => Ok(h),
        None => Err(FeedReadError::AccountDidNotDeserialize),
    }
}

/// The suffix of `data` starting at `start`.
pub fn slice_from(data: &[u8], start: usize) -> (r: &[u8])
    requires
        start <= data@.len(),
    ensures
        r@ == data@.skip(start as int),
{
    let (_, tail) = data.split_at(start);
    tail
}

/// Where a reference feed takes its prices from.
pub enum PriceSource {
    Manual,
    Pyth,
    PythPush,
}

impl PriceSource {
    /// The wire value of this source, as the browser switches on it.
    pub fn as_u8(&self) -> (r: u8)
        ensures
            r == (match self {
                PriceSource::Manual => 0u8,
                PriceSource::Pyth => 1u8,
                PriceSource::PythPush => 2u8,
            }),
    {
        match self {
            PriceSource::Manual => 0,
            PriceSource::Pyth => 1,
            PriceSource::PythPush => 2,
        }
    }
}

pub struct FeedConfig {
    pub authority: Pubkey,
    pub source: PriceSource,
    pub bump: u8,
    pub collateral_feed_id: [u8; 32],
    pub lend_feed_id: [u8; 32],
}

/// Optional validation gates applied to Pyth updates. `0` disables each gate.
pub struct FeedRules {
    /// Reject if `conf / price` exceeds this many basis points.
    pub max_conf_bps: u16,
    /// Reject if the price moves faster than this many bps per elapsed hour.
    pub max_deviation_bps_per_hour: u16,
    /// Reject if `|price − ema_price| / ema_price` exceeds this many bps.
    pub ema_divergence_bps: u16,
    /// Reject if the normalized price is below this floor.
    pub min_price: u64,
    /// Reject if the normalized price is above this ceiling.
    pub max_price: u64,
    /// Reject if the Pyth price is older than this many milliseconds.
    pub max_age_ms: u32,
}

impl Default for FeedRules {
    /// Every gate disabled.
    fn default() -> (r: Self)
        ensures
            r.max_conf_bps == 0 && r.max_deviation_bps_per_hour == 0 && r.ema_divergence_bps == 0,
            r.min_price == 0 && r.max_price == 0 && r.max_age_ms == 0,
    {
        FeedRules {
            max_conf_bps: 0,
            max_deviation_bps_per_hour: 0,
            ema_divergence_bps: 0,
            min_price: 0,
            max_price: 0,
            max_age_ms: 0,
        }
    }
}

/// The reference feed program's price account: the header first, then its own fields.
pub struct Feed {
    pub header: PriceFeedHeader,
    pub id: u8,
    pub config: FeedConfig,
    pub rules: FeedRules,
}

/// Ingestion staleness with saturating `i64` arithmetic; a zero budget disables the check.
pub open spec fn pyth_stale(max_age_ms: int, publish_time: int, clock_ts: int) -> bool {
    max_age_ms != 0 && sat_i64(sat_i64(clock_ts - publish_time) * 1_000) > max_age_ms
}

fn saturate_i64(x: i128) -> (r: i64)
    ensures
        r == sat_i64(x as int),
{
    if x > i64::MAX as i128 {
        i64::MAX
    } else if x < i64::MIN as i128 {
        i64::MIN
    } else {
        x as i64
    }
}

impl Feed {
    /// `true` iff a Pyth price with `publish_time` would fail the ingestion
    /// gate at `clock_ts`. `0` in `rules.max_age_ms` disables the check.
    pub fn is_pyth_price_stale(&self, publish_time: i64, clock_ts: i64) -> (r: bool)
        ensures
            r == pyth_stale(self.rules.max_age_ms as int, publish_time as int, clock_ts as int),
    {
        let max_age_ms = self.rules.max_age_ms;
        if max_age_ms == 0 {
            return false;
        }
        let diff = saturate_i64(clock_ts as i128 - publish_time as i128);
        let elapsed_ms = saturate_i64(diff as i128 * 1_000);
        elapsed_ms > max_age_ms as i64
    }
}

} // verus!
