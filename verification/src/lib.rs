//! Lending-protocol arithmetic, market accounting and account decoding.
pub mod arith;
pub mod jbl_math;
pub mod math;
pub mod traits;
pub mod wire;
pub mod price_feed;
pub mod engine;
pub mod state;
pub mod withdrawal_queue;
pub mod rate_curve;
pub mod jbl_state;
pub mod laws;
pub mod amount_text;
pub mod accounts;
pub mod replay;
pub mod jbl_accounts;
pub mod seeds;
pub mod exports;
