//! PDA seed prefixes, shared byte-for-byte by the programs and every client
//! that derives their addresses.
use vstd::prelude::*;

verus! {

/// The protocol's single signing authority PDA: `["state"]`.
pub const STATE: &'static str = "state";

/// A market's collateral vault: `["collateral_vault", pool]`.
pub const COLLATERAL_VAULT: &'static str = "collateral_vault";

/// A market's lend vault: `["lend_vault", pool]`.
pub const LEND_VAULT: &'static str = "lend_vault";

/// A market's LP mint: `["lp_mint", pool]`.
pub const LP_MINT: &'static str = "lp_mint";

/// A borrower's position in a market: `["user_position", pool, authority]`.
pub const USER_POSITION: &'static str = "user_position";

/// A market's rate-curve account: `["irm_config", pool]`.
pub const IRM_CONFIG_SEED: &'static str = "irm_config";

/// A price feed account: `["feed", ...]`.
pub const FEED_SEED: &'static str = "feed";

} // verus!
