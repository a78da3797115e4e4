//! Values the browser reads from the library rather than transcribing: a
//! copy in TypeScript is a number that can drift, and drift here is silent.
use vstd::prelude::*;

use crate::accounts::{DISCRIMINATOR, POOL_LEN};
use crate::price_feed::{
    DEFAULT_PRICE_TTL_MS, DEFAULT_PYTH_MAX_AGE_MS, FEED_COLLATERAL_MINT_OFFSET, FEED_LEND_MINT_OFFSET, PRICE_SCALE,
};
use crate::seeds;

verus! {

/// Base-58 address of the Clock sysvar, so the app never hardcodes it.
///
/// Trusted: renders `solana_sdk_ids::sysvar::clock::ID` with its `Display`
/// impl. The crate declares that ID from the base-58 string
/// `SysvarC1ock11111111111111111111111111111111`, and the contract claims
/// the rendering gives that same string back.
#[verifier::external_body]
pub fn clock_sysvar_address() -> (r: String)
    ensures
        r@ == "SysvarC1ock11111111111111111111111111111111"@,
{
    solana_sdk_ids::sysvar::clock::ID.to_string()
}

/// Suggested `price_ttl_ms` when creating a feed.
pub fn default_price_ttl_ms() -> (r: u32)
    ensures
        r == DEFAULT_PRICE_TTL_MS,
{
    DEFAULT_PRICE_TTL_MS
}

/// Suggested ingestion `max_age_ms` when creating a Pyth feed.
pub fn default_pyth_max_age_ms() -> (r: u32)
    ensures
        r == DEFAULT_PYTH_MAX_AGE_MS,
{
    DEFAULT_PYTH_MAX_AGE_MS
}

/// Fixed-point scale of oracle prices and of the borrow math's price ratio.
pub fn price_scale() -> (r: u64)
    ensures
        r == PRICE_SCALE,
{
    PRICE_SCALE as u64
}

/// Bytes to allocate for a `Pool` account, discriminator included.
pub fn pool_space() -> (r: u32)
    ensures
        r == DISCRIMINATOR + POOL_LEN,
{
    (DISCRIMINATOR + POOL_LEN) as u32
}

/// Offset of a feed account's `collateral_mint`, for an RPC `memcmp` filter.
pub fn feed_collateral_mint_offset() -> (r: u32)
    ensures
        r == FEED_COLLATERAL_MINT_OFFSET,
{
    FEED_COLLATERAL_MINT_OFFSET
}

/// Offset of a feed account's `lend_mint`, for an RPC `memcmp` filter.
pub fn feed_lend_mint_offset() -> (r: u32)
    ensures
        r == FEED_LEND_MINT_OFFSET,
{
    FEED_LEND_MINT_OFFSET
}

/// Seed prefix of the protocol's signing authority.
pub fn state_seed() -> (r: String)
    ensures
        r@ == seeds::STATE@,
{
    seeds::STATE.to_owned()
}

/// Seed prefix of a market's collateral vault.
pub fn collateral_vault_seed() -> (r: String)
    ensures
        r@ == seeds::COLLATERAL_VAULT@,
{
    seeds::COLLATERAL_VAULT.to_owned()
}

/// Seed prefix of a market's lend vault.
pub fn lend_vault_seed() -> (r: String)
    ensures
        r@ == seeds::LEND_VAULT@,
{
    seeds::LEND_VAULT.to_owned()
}

/// Seed prefix of a market's LP mint.
pub fn lp_mint_seed() -> (r: String)
    ensures
        r@ == seeds::LP_MINT@,
{
    seeds::LP_MINT.to_owned()
}

/// Seed prefix of a borrower's position account.
pub fn user_position_seed() -> (r: String)
    ensures
        r@ == seeds::USER_POSITION@,
{
    seeds::USER_POSITION.to_owned()
}

/// Seed prefix of a market's rate-curve account.
pub fn irm_config_seed() -> (r: String)
    ensures
        r@ == seeds::IRM_CONFIG_SEED@,
{
    seeds::IRM_CONFIG_SEED.to_owned()
}

/// Seed prefix of a feed account.
pub fn feed_seed() -> (r: String)
    ensures
        r@ == seeds::FEED_SEED@,
{
    seeds::FEED_SEED.to_owned()
}

} // verus!
