//! Scenarios for the client-side account decoders, the figures derived from
//! them, and the replays of market operations on decoded state.

use calma::accounts::{
    clock_unix_timestamp, position_leverage_bps, FeedAccount, IrmConfigAccount, PoolAccount, UserPositionAccount,
    CLOCK_LEN, DISCRIMINATOR, FEED_ACCOUNT_LEN, IRM_CONFIG_LEN, POOL_LEN, POOL_QUEUE_OFFSET, QUEUE_ENTRY_LEN,
    USER_POSITION_LEN,
};
use calma::amount_text::format_token_amount;
use calma::exports::{
    clock_sysvar_address, collateral_vault_seed, default_price_ttl_ms, default_pyth_max_age_ms,
    feed_collateral_mint_offset, feed_lend_mint_offset, feed_seed, irm_config_seed, lend_vault_seed, lp_mint_seed,
    pool_space, price_scale, state_seed, user_position_seed,
};
use calma::jbl_accounts;
use calma::replay::PoolWithIrm;

const YEAR: i64 = 31_557_600;

fn account_bytes(body_len: usize) -> Vec<u8> {
    let mut v = vec![0u8; DISCRIMINATOR + body_len];
    v[..DISCRIMINATOR].fill(0xAA);
    v
}

// Pool body offsets: four keys (0..128), then the market at 128:
//   +0 total_supply_assets, +8 total_supply_shares, +16 total_borrow_assets,
//   +24 total_borrow_shares, +32 last_update, +40 fee, +48 assets_in_queue,
//   +56 ltv_percent, +64 accrued_fee_shares, +72 flash_loan_outstanding.
const POOL_MARKET_OFFSET: usize = 128;

fn put_u64(v: &mut [u8], at: usize, x: u64) {
    v[at..at + 8].copy_from_slice(&x.to_le_bytes());
}

/// Pool wire bytes with the given supply and borrow; everything else zero.
fn pool_wire(total_supply_assets: u64, total_borrow_assets: u64) -> Vec<u8> {
    let mut v = account_bytes(POOL_LEN);
    let m = DISCRIMINATOR + POOL_MARKET_OFFSET;
    put_u64(&mut v, m, total_supply_assets);
    put_u64(&mut v, m + 16, total_borrow_assets);
    v
}

/// Pool wire bytes with every market figure given.
fn pool_wire_full(supply: (u64, u64), borrow: (u64, u64), last_update: i64, ltv: u8) -> Vec<u8> {
    let mut v = pool_wire(supply.0, borrow.0);
    let m = DISCRIMINATOR + POOL_MARKET_OFFSET;
    put_u64(&mut v, m + 8, supply.1);
    put_u64(&mut v, m + 24, borrow.1);
    v[m + 32..m + 40].copy_from_slice(&last_update.to_le_bytes());
    v[m + 56] = ltv;
    v
}

/// Rate-curve wire bytes for a curve flat at `rate_bps`: points
/// (0, rate) and (10_000, rate). Each point is rate (4 bytes), utilization
/// (2 bytes) and 2 bytes of padding, starting at body offset 32; the point
/// count sits at 64.
fn irm_wire_flat(rate_bps: u32) -> Vec<u8> {
    irm_wire(&[(0, rate_bps), (10_000, rate_bps)])
}

fn irm_wire(points: &[(u16, u32)]) -> Vec<u8> {
    let mut v = account_bytes(IRM_CONFIG_LEN);
    for (i, (u, r)) in points.iter().enumerate() {
        let at = DISCRIMINATOR + 32 + 8 * i;
        v[at..at + 4].copy_from_slice(&r.to_le_bytes());
        v[at + 4..at + 6].copy_from_slice(&u.to_le_bytes());
    }
    v[DISCRIMINATOR + 64] = points.len() as u8;
    v
}

/// Feed wire bytes: authority zero, the given price, bump zero.
fn feed_wire_priced(price: u64) -> Vec<u8> {
    let mut v = account_bytes(FEED_ACCOUNT_LEN);
    put_u64(&mut v, DISCRIMINATOR + 32, price);
    v
}

fn feed_wire() -> Vec<u8> {
    account_bytes(FEED_ACCOUNT_LEN)
}

fn position_wire(collateral: u64, debt_shares: u64) -> Vec<u8> {
    let mut v = account_bytes(USER_POSITION_LEN);
    put_u64(&mut v, DISCRIMINATOR + 64, collateral);
    put_u64(&mut v, DISCRIMINATOR + 72, debt_shares);
    v
}

// ── Clock sysvar and exported values ─────────────────────────────────────────

#[test]
fn clock_decoder_picks_unix_timestamp_and_not_a_neighbouring_field() {
    let slot: u64 = 111;
    let epoch_start: i64 = 222;
    let epoch: u64 = 333;
    let leader_schedule_epoch: u64 = 444;
    let unix_timestamp: i64 = 1_700_000_000;

    let mut buf = Vec::new();
    buf.extend_from_slice(&slot.to_le_bytes());
    buf.extend_from_slice(&epoch_start.to_le_bytes());
    buf.extend_from_slice(&epoch.to_le_bytes());
    buf.extend_from_slice(&leader_schedule_epoch.to_le_bytes());
    buf.extend_from_slice(&unix_timestamp.to_le_bytes());
    assert_eq!(buf.len(), CLOCK_LEN);

    assert_eq!(clock_unix_timestamp(&buf), Some(unix_timestamp));
    assert_eq!(clock_unix_timestamp(&buf[..CLOCK_LEN - 1]), None);
    assert_eq!(clock_unix_timestamp(&[]), None);
}

#[test]
fn clock_decoder_reads_negative_timestamps() {
    let mut buf = vec![0u8; CLOCK_LEN];
    buf[32..40].copy_from_slice(&(-5i64).to_le_bytes());
    assert_eq!(clock_unix_timestamp(&buf), Some(-5));
}

#[test]
fn clock_sysvar_address_is_the_canonical_one() {
    assert_eq!(clock_sysvar_address(), "SysvarC1ock11111111111111111111111111111111");
}

#[test]
fn feed_memcmp_offsets_match_the_serialized_layout() {
    let collateral = [3u8; 32];
    let lend = [9u8; 32];
    // Discriminator, then the header: collateral mint, lend mint, the two
    // prices, the two decimals, the timestamp and the TTL.
    let mut bytes = vec![0x11u8; 8];
    bytes.extend_from_slice(&collateral);
    bytes.extend_from_slice(&lend);
    bytes.extend_from_slice(&1u64.to_le_bytes());
    bytes.extend_from_slice(&1u64.to_le_bytes());
    bytes.push(6);
    bytes.push(6);
    bytes.extend_from_slice(&0i64.to_le_bytes());
    bytes.extend_from_slice(&1u32.to_le_bytes());

    let at = |off: u32| &bytes[off as usize..off as usize + 32];
    assert_eq!(at(feed_collateral_mint_offset()), &collateral[..]);
    assert_eq!(at(feed_lend_mint_offset()), &lend[..]);
}

#[test]
fn exported_constants_have_their_values() {
    assert_eq!(default_price_ttl_ms(), 90_000);
    assert_eq!(default_pyth_max_age_ms(), 60_000);
    assert_eq!(price_scale(), 1_000_000);
    assert_eq!(pool_space(), 8 + 49_768);
}

#[test]
fn seed_prefixes_are_the_programs_own() {
    assert_eq!(state_seed(), "state");
    assert_eq!(collateral_vault_seed(), "collateral_vault");
    assert_eq!(lend_vault_seed(), "lend_vault");
    assert_eq!(lp_mint_seed(), "lp_mint");
    assert_eq!(user_position_seed(), "user_position");
    assert_eq!(irm_config_seed(), "irm_config");
    assert_eq!(feed_seed(), "feed");
}

// ── positions ────────────────────────────────────────────────────────────────

#[test]
fn state_rejects_short_slice() {
    let short = vec![0u8; DISCRIMINATOR + USER_POSITION_LEN - 1];
    assert!(UserPositionAccount::from_bytes(&short).is_none());
    assert!(jbl_accounts::UserPositionAccount::from_bytes(&short).is_none());
}

#[test]
fn state_rejects_missing_discriminator() {
    let body_only = vec![0u8; USER_POSITION_LEN];
    assert!(UserPositionAccount::from_bytes(&body_only).is_none());
    assert!(jbl_accounts::UserPositionAccount::from_bytes(&body_only).is_none());
}

#[test]
fn state_parses_zeroed_user_position() {
    let bytes = account_bytes(USER_POSITION_LEN);
    let pos = UserPositionAccount::from_bytes(&bytes).expect("should parse").0;
    assert_eq!(pos.collateral_deposited, 0);
    assert_eq!(pos.debt_shares, 0);
    assert_eq!(pos.bump, 0);

    let pos = jbl_accounts::UserPositionAccount::from_bytes(&bytes).expect("should parse").0;
    assert_eq!(pos.collateral_deposited, 0);
    assert_eq!(pos.debt_shares, 0);
    assert_eq!(pos.bump, 0);
}

#[test]
fn state_parses_user_position_known_values() {
    let mut bytes = account_bytes(USER_POSITION_LEN);
    bytes[DISCRIMINATOR] = 0xAB;
    bytes[DISCRIMINATOR + 31] = 0xCD;
    let cd_off = DISCRIMINATOR + 64;
    bytes[cd_off..cd_off + 8].copy_from_slice(&1_000_000u64.to_le_bytes());
    let ds_off = DISCRIMINATOR + 72;
    bytes[ds_off..ds_off + 8].copy_from_slice(&42u64.to_le_bytes());
    bytes[DISCRIMINATOR + 80] = 7;

    let pos = UserPositionAccount::from_bytes(&bytes).expect("should parse").0;
    assert_eq!(pos.authority[0], 0xAB);
    assert_eq!(pos.authority[31], 0xCD);
    assert_eq!(pos.collateral_deposited, 1_000_000);
    assert_eq!(pos.debt_shares, 42);
    assert_eq!(pos.bump, 7);

    let pos = jbl_accounts::UserPositionAccount::from_bytes(&bytes).expect("should parse").0;
    assert_eq!(pos.authority[0], 0xAB);
    assert_eq!(pos.authority[31], 0xCD);
    assert_eq!(pos.collateral_deposited, 1_000_000);
    assert_eq!(pos.debt_shares, 42);
    assert_eq!(pos.bump, 7);
}

#[test]
fn position_getters_hand_back_the_decoded_fields() {
    let mut bytes = position_wire(1_500_000, 0);
    for i in 0..32 {
        bytes[DISCRIMINATOR + i] = i as u8;
        bytes[DISCRIMINATOR + 32 + i] = 100 + i as u8;
    }
    let pos = UserPositionAccount::from_bytes(&bytes).unwrap();
    assert_eq!(pos.authority(), (0..32u8).collect::<Vec<u8>>());
    assert_eq!(pos.pool(), (100..132u8).collect::<Vec<u8>>());
    assert!(pos.has_collateral());
    assert!(!pos.has_debt());
    assert_eq!(pos.format_collateral(6), "1.5");
}

#[test]
fn jbl_debt_resolves_shares_against_pool_totals() {
    let pos = jbl_accounts::UserPositionAccount::from_bytes(&position_wire(2_000_000, 100)).unwrap();
    // 100 shares × 1_000 borrowed / 300 shares = 333.3… → 334, rounding up.
    assert_eq!(pos.debt_amount(1_000, 300), 334);
    // With no debt shares in the pool, the debt reads as zero.
    assert_eq!(pos.debt_amount(1_000, 0), 0);
    assert_eq!(pos.format_debt(1_500_000, 100, 6), "1.5");
    assert_eq!(pos.max_borrowable(75), 1_500_000);
    assert_eq!(pos.format_collateral(6), "2");
}

#[test]
fn rate_hedge_records_decode_field_by_field() {
    let mut offer = account_bytes(jbl_accounts::RATE_HEDGE_OFFER_LEN);
    offer[DISCRIMINATOR] = 1;
    offer[DISCRIMINATOR + 32] = 2;
    for (k, x) in [10u64, 500, 60, 600, 7_000, 12].iter().enumerate() {
        put_u64(&mut offer, DISCRIMINATOR + 64 + 8 * k, *x);
    }
    offer[DISCRIMINATOR + 112] = 9;
    let o = jbl_accounts::RateHedgeOfferAccount::from_bytes(&offer).unwrap().0;
    assert_eq!((o.pool[0], o.authority[0]), (1, 2));
    assert_eq!(
        (o.amount, o.fixed_rate_bps, o.min_duration, o.max_duration, o.collateral_deposited, o.locked_tokens),
        (10, 500, 60, 600, 7_000, 12)
    );
    assert_eq!(o.bump, 9);
    assert!(jbl_accounts::RateHedgeOfferAccount::from_bytes(&offer[..offer.len() - 1]).is_none());

    let mut m = account_bytes(jbl_accounts::RATE_HEDGE_MATCH_LEN);
    put_u64(&mut m, DISCRIMINATOR + 64, 1_000);
    put_u64(&mut m, DISCRIMINATOR + 72, 5);
    put_u64(&mut m, DISCRIMINATOR + 80, 1_005);
    m[DISCRIMINATOR + 88..DISCRIMINATOR + 96].copy_from_slice(&(-1i64).to_le_bytes());
    put_u64(&mut m, DISCRIMINATOR + 96, 3_600);
    m[DISCRIMINATOR + 104] = 4;
    let h = jbl_accounts::RateHedgeMatchAccount::from_bytes(&m).unwrap().0;
    assert_eq!((h.amount, h.upfront_fee, h.initial_debt_shares, h.start_ts, h.duration, h.bump), (1_000, 5, 1_005, -1, 3_600, 4));
}

// ── pools ────────────────────────────────────────────────────────────────────

#[test]
fn pool_decodes_market_keys_and_queue() {
    let mut bytes = pool_wire_full((9_000, 8_000), (4_000, 3_000), -7, 80);
    let m = DISCRIMINATOR + POOL_MARKET_OFFSET;
    put_u64(&mut bytes, m + 40, 5);
    put_u64(&mut bytes, m + 48, 250);
    put_u64(&mut bytes, m + 64, 11);
    put_u64(&mut bytes, m + 72, 12);
    bytes[DISCRIMINATOR..DISCRIMINATOR + 32].fill(1);
    bytes[DISCRIMINATOR + 240..DISCRIMINATOR + 272].fill(2);
    bytes[DISCRIMINATOR + 304..DISCRIMINATOR + 336].fill(3);
    bytes[DISCRIMINATOR + 336] = 254;
    // Queue head 1, tail 2, and one entry in slot 1.
    let q = DISCRIMINATOR + POOL_QUEUE_OFFSET;
    bytes[q..q + 2].copy_from_slice(&1u16.to_le_bytes());
    bytes[q + 2..q + 4].copy_from_slice(&2u16.to_le_bytes());
    let e = q + 8 + QUEUE_ENTRY_LEN;
    bytes[e..e + 32].fill(4);
    put_u64(&mut bytes, e + 32, 77);
    bytes[DISCRIMINATOR + 49_512..DISCRIMINATOR + 49_544].fill(5);
    bytes[DISCRIMINATOR + 49_544..DISCRIMINATOR + 49_576].fill(6);

    let pool = PoolAccount::from_bytes(&bytes).expect("should parse");
    assert_eq!(pool.total_supply_assets(), 9_000);
    assert_eq!(pool.total_supply_shares(), 8_000);
    assert_eq!(pool.total_borrow_assets(), 4_000);
    assert_eq!(pool.total_borrow_shares(), 3_000);
    assert_eq!(pool.last_update(), -7);
    assert_eq!(pool.fee(), 5);
    assert_eq!(pool.assets_in_queue(), 250);
    assert_eq!(pool.pending_withdrawals(), 250);
    assert_eq!(pool.ltv_percent(), 80);
    assert_eq!(pool.0.market.accrued_fee_shares, 11);
    assert_eq!(pool.0.market.flash_loan_outstanding, 12);
    assert_eq!(pool.authority(), vec![1u8; 32]);
    assert_eq!(pool.irm_state(), vec![2u8; 32]);
    assert_eq!(pool.feed_state(), vec![3u8; 32]);
    assert_eq!(pool.lp_mint_bump(), 254);
    assert_eq!(pool.0.withdrawal_queue.len(), 1);
    let pending = pool.0.withdrawal_queue.iter();
    assert_eq!(pending.len(), 1);
    assert_eq!(pending[0].requester, [4u8; 32]);
    assert_eq!(pending[0].amount, 77);
    assert_eq!(pool.0.guard_config(), ([5u8; 32], [6u8; 32]));
}

#[test]
fn pool_rejects_any_other_length() {
    let bytes = pool_wire(1, 1);
    assert!(PoolAccount::from_bytes(&bytes[..bytes.len() - 1]).is_none());
    let mut longer = bytes.clone();
    longer.push(0);
    assert!(PoolAccount::from_bytes(&longer).is_none());
    assert!(PoolAccount::from_bytes(&bytes[..7]).is_none());
}

#[test]
fn utilization_is_capped_for_display_and_liquidity_saturates() {
    // Borrowed beyond supply: utilization reads 100%, liquidity reads zero.
    let pool = PoolAccount::from_bytes(&pool_wire(1_000, 3_000)).unwrap();
    assert_eq!(pool.utilization_bps(), 10_000);
    assert_eq!(pool.available_liquidity(), 0);

    let mut bytes = pool_wire(10_000, 2_000);
    put_u64(&mut bytes, DISCRIMINATOR + POOL_MARKET_OFFSET + 48, 3_000);
    let pool = PoolAccount::from_bytes(&bytes).unwrap();
    // Pending withdrawals count on both sides: (2_000 + 3_000) / (10_000 + 3_000).
    assert_eq!(pool.utilization_bps(), 3_846);
    // The queued 3_000 already left the supply side; it is not taken twice.
    assert_eq!(pool.available_liquidity(), 8_000);
}

#[test]
fn rate_curve_account_decodes_its_points() {
    let bytes = irm_wire(&[(0, 100), (5_000, 300), (10_000, 900)]);
    let irm = IrmConfigAccount::from_bytes(&bytes).expect("should parse");
    assert_eq!(irm.0.model.len, 3);
    assert!(irm.0.model.is_well_formed());
    assert_eq!(irm.fee_bps(0), 100);
    assert_eq!(irm.fee_bps(2_500), 200);
    assert_eq!(irm.fee_bps(10_000), 900);
    assert_eq!(irm.pool(), vec![0u8; 32]);
    assert!(IrmConfigAccount::from_bytes(&bytes[..bytes.len() - 1]).is_none());

    // A curve whose utilizations do not increase is not one the reader accepts.
    let bad = IrmConfigAccount::from_bytes(&irm_wire(&[(0, 1), (0, 2)])).unwrap();
    assert!(!bad.0.model.is_well_formed());
}

#[test]
fn feed_account_is_exactly_forty_one_bytes() {
    let mut bytes = feed_wire_priced(1_234);
    bytes[DISCRIMINATOR..DISCRIMINATOR + 32].fill(8);
    bytes[DISCRIMINATOR + 40] = 3;
    let feed = FeedAccount::from_bytes(&bytes).expect("should parse");
    assert_eq!(feed.value, 1_234);
    assert_eq!(feed.bump, 3);
    assert_eq!(feed.authority(), vec![8u8; 32]);
    assert!(FeedAccount::from_bytes(&bytes[..bytes.len() - 1]).is_none());
}

// ── display helpers ──────────────────────────────────────────────────────────

#[test]
fn token_amounts_render_as_trimmed_decimals() {
    assert_eq!(format_token_amount(1_000_000, 6), "1");
    assert_eq!(format_token_amount(1_500_000, 6), "1.5");
    assert_eq!(format_token_amount(1_234_567, 6), "1.234567");
    assert_eq!(format_token_amount(1_234_560, 6), "1.23456");
    assert_eq!(format_token_amount(0, 6), "0");
    assert_eq!(format_token_amount(42, 0), "42");
    assert_eq!(format_token_amount(5, 2), "0.05");
    // Past six places the tail is cut before trimming.
    assert_eq!(format_token_amount(1_234_567_891, 9), "1.234567");
    assert_eq!(format_token_amount(1_000_000_100, 9), "1");
    assert_eq!(format_token_amount(u64::MAX, 19), "1.844674");
    assert_eq!(format_token_amount(u64::MAX, 0), "18446744073709551615");
}

#[test]
fn leverage_is_collateral_over_equity() {
    assert_eq!(position_leverage_bps(0, 0), 10_000);
    assert_eq!(position_leverage_bps(100, 100), 10_000);
    assert_eq!(position_leverage_bps(100, 150), 10_000);
    assert_eq!(position_leverage_bps(100, 0), 10_000);
    assert_eq!(position_leverage_bps(100, 50), 20_000);
    assert_eq!(position_leverage_bps(300, 200), 30_000);
    // A sliver of equity saturates rather than wrapping.
    assert_eq!(position_leverage_bps(u64::MAX, u64::MAX - 1), u32::MAX);
}

// ── pool with its rate curve and feed ────────────────────────────────────────

#[test]
fn pool_with_irm_zero_supply_yields_zero_supply_apy() {
    let pwi = PoolWithIrm::from_bytes(&pool_wire(0, 0), &irm_wire_flat(500), &feed_wire()).expect("should parse");
    assert_eq!(pwi.borrow_apy_bps(), 500);
    assert_eq!(pwi.supply_apy_bps(), 0);
}

#[test]
fn pool_with_irm_flat_rate_half_utilization() {
    let pwi =
        PoolWithIrm::from_bytes(&pool_wire(10_000, 5_000), &irm_wire_flat(800), &feed_wire()).expect("should parse");
    assert_eq!(pwi.borrow_apy_bps(), 800);
    assert_eq!(pwi.supply_apy_bps(), 400);
}

#[test]
fn pool_with_irm_full_utilization_supply_equals_borrow() {
    let pwi =
        PoolWithIrm::from_bytes(&pool_wire(5_000, 5_000), &irm_wire_flat(1_200), &feed_wire()).expect("should parse");
    assert_eq!(pwi.borrow_apy_bps(), 1_200);
    assert_eq!(pwi.supply_apy_bps(), 1_200);
}

#[test]
fn pool_with_irm_supply_apy_never_exceeds_borrow_apy() {
    for util_pct in [0u64, 10, 25, 50, 75, 90, 100] {
        let supply = 10_000u64;
        let borrow = supply * util_pct / 100;
        let pwi = PoolWithIrm::from_bytes(&pool_wire(supply, borrow), &irm_wire_flat(1_000), &feed_wire())
            .expect("should parse");
        assert!(
            pwi.supply_apy_bps() <= pwi.borrow_apy_bps(),
            "supply_apy ({}) > borrow_apy ({}) at util {}%",
            pwi.supply_apy_bps(),
            pwi.borrow_apy_bps(),
            util_pct
        );
    }
}

#[test]
fn pool_with_irm_rejects_bad_pool_bytes() {
    let short_pool = vec![0u8; 4];
    assert!(PoolWithIrm::from_bytes(&short_pool, &irm_wire_flat(500), &feed_wire()).is_none());
}

#[test]
fn pool_with_irm_rejects_bad_irm_bytes() {
    let short_irm = vec![0u8; 4];
    assert!(PoolWithIrm::from_bytes(&pool_wire(10_000, 5_000), &short_irm, &feed_wire()).is_none());
}

#[test]
fn pool_with_irm_pool_getter_roundtrips_data() {
    let pwi =
        PoolWithIrm::from_bytes(&pool_wire(12_345, 6_789), &irm_wire_flat(300), &feed_wire()).expect("should parse");
    let returned_pool = pwi.pool();
    assert_eq!(returned_pool.total_supply_assets(), 12_345);
    assert_eq!(returned_pool.total_borrow_assets(), 6_789);
}

#[test]
fn pool_with_irm_rejects_bad_feed_bytes() {
    assert!(PoolWithIrm::from_bytes(&pool_wire(1, 0), &irm_wire_flat(1), &feed_wire()[..48]).is_none());
}

#[test]
fn replays_follow_the_market_without_elapsed_time() {
    // 1_000_000 supplied, 500_000 borrowed against 500_000 debt shares, LTV 75%.
    let pool = pool_wire_full((1_000_000, 1_000_000), (500_000, 500_000), 1_000, 75);
    let pwi = PoolWithIrm::from_bytes(&pool, &irm_wire_flat(1_000), &feed_wire_priced(1_000_000)).unwrap();
    let position = UserPositionAccount::from_bytes(&position_wire(1_000_000, 100_000)).unwrap();

    assert_eq!(pwi.oracle_price(), 1_000_000);
    assert_eq!(pwi.accrued_interest(1_000), Some(0));
    assert_eq!(pwi.debt_amount(&position, 1_000), Some(100_000));
    assert_eq!(pwi.ltv(&position, 1_000), Some(1_000));
    assert_eq!(pwi.health_factor(&position, 1_000), Some(75_000));
    assert_eq!(pwi.liq_price(&position, 1_000), Some(1_333));
    assert_eq!(pwi.max_borrowable(&position), 750_000);
    assert_eq!(pwi.projected_ltv_after_deposit(&position, 1_000_000, 1_000), Some(500));
    assert_eq!(pwi.projected_health_factor_after_deposit(&position, 1_000_000, 1_000), Some(150_000));
    assert_eq!(pwi.projected_ltv_after_deposit(&position, u64::MAX, 1_000), None);
    assert_eq!(pwi.borrow_shares(&position, 1_000, 1_000), Some(1_000));
    // Past the collateral's capacity (750_000 less 100_000 owed) the borrow is refused.
    assert_eq!(pwi.borrow_shares(&position, 650_001, 1_000), None);
    assert_eq!(pwi.repay_shares(&position, 50_000, 1_000), Some(50_000));
    assert_eq!(pwi.format_debt(&position, 6, 1_000), "0.1");
    assert_eq!(pwi.lend_for_shares(500_000), Some(500_000));
}

#[test]
fn replays_accrue_interest_up_to_the_given_time() {
    let pool = pool_wire_full((1_000_000, 1_000_000), (500_000, 500_000), 0, 75);
    let pwi = PoolWithIrm::from_bytes(&pool, &irm_wire_flat(1_000), &feed_wire_priced(1_000_000)).unwrap();
    let position = UserPositionAccount::from_bytes(&position_wire(1_000_000, 500_000)).unwrap();

    // 10% a year on 500_000 borrowed.
    assert_eq!(pwi.accrued_interest(YEAR), Some(50_000));
    assert_eq!(pwi.debt_amount(&position, YEAR), Some(550_000));
    assert_eq!(pwi.ltv(&position, YEAR), Some(5_500));
    // Share redemption reads the pool as stored, before any accrual.
    assert_eq!(pwi.lend_for_shares(1_000_000), Some(1_000_000));
}

#[test]
fn projected_rate_reflects_the_extra_borrow() {
    let pwi = PoolWithIrm::from_bytes(
        &pool_wire(10_000, 0),
        &irm_wire(&[(0, 0), (10_000, 1_000)]),
        &feed_wire(),
    )
    .unwrap();
    assert_eq!(pwi.projected_borrow_apy_bps(5_000), 500);
    assert_eq!(pwi.borrow_apy_bps(), 0);
    let empty = PoolWithIrm::from_bytes(&pool_wire(0, 0), &irm_wire_flat(700), &feed_wire()).unwrap();
    assert_eq!(empty.projected_borrow_apy_bps(5_000), 0);
}

#[test]
fn leveraged_net_apy_weighs_supply_against_borrow() {
    // Half utilization on a flat 800: supply 400, borrow 800.
    let pwi =
        PoolWithIrm::from_bytes(&pool_wire(10_000, 5_000), &irm_wire_flat(800), &feed_wire()).unwrap();
    // 1×: just the supply rate.
    assert_eq!(pwi.leveraged_net_apy_bps(10_000), 400);
    // 1.5×: 1.5 × 400 − 0.5 × 800 = 200.
    assert_eq!(pwi.leveraged_net_apy_bps(15_000), 200);
    // 3×: 1_200 − 1_600 is negative, floored at 0.
    assert_eq!(pwi.leveraged_net_apy_bps(30_000), 0);
    // Below 1× the borrow term adds: 0.5 × 400 + 0.5 × 800 = 600.
    assert_eq!(pwi.leveraged_net_apy_bps(5_000), 600);
}

#[test]
fn pool_with_irm_delegates_to_the_pool() {
    let pool = pool_wire_full((1_000, 900), (400, 300), 5, 60);
    let pwi = PoolWithIrm::from_bytes(&pool, &irm_wire_flat(1), &feed_wire()).unwrap();
    assert_eq!(
        (pwi.total_supply_assets(), pwi.total_supply_shares(), pwi.total_borrow_assets(), pwi.total_borrow_shares()),
        (1_000, 900, 400, 300)
    );
    assert_eq!((pwi.last_update(), pwi.ltv_percent(), pwi.fee(), pwi.assets_in_queue()), (5, 60, 0, 0));
    assert_eq!(pwi.utilization_bps(), 4_000);
    assert_eq!(pwi.available_liquidity(), 600);
    assert_eq!(pwi.pending_withdrawals(), 0);
    assert_eq!(pwi.authority(), vec![0u8; 32]);
    assert_eq!(pwi.feed().value, 0);
}
