//! Properties that span several operations of [`crate::engine::Core`] and of
//! the share arithmetic, proved over the specifications the operations follow.
use vstd::prelude::*;

use crate::arith::{ceil_div, lemma_ceil_div_bounds, lemma_ceil_div_tight, lemma_div_bounds, lemma_mul_le};
use crate::engine::{
    accrued_market, borrow_accounting, borrow_plan, deposit_lp, repay_plan, withdraw_collateral_plan, deposit_lent_accounting, flash_borrow_plan, flash_repay_plan, flash_settled,
    lend_for_shares, queue_released, repay_accounting, withdraw_immediate_accounting, withdraw_queued_accounting,
};
use crate::math::{
    amount_to_shares_spec, collateral_value, flash_fee_of, interest_of, lemma_flash_fee_fits, lend_to_collateral_spec,
    shares_to_amount_spec, MathError, MAX_RATE_BPS, PRICE_SCALE,
};
use crate::traits::MarketView;

verus! {

/// The vault holds what lenders put in plus what is reserved for the queue,
/// less what has been lent out.
pub open spec fn books_balance(m: MarketView, vault_balance: int) -> bool {
    vault_balance == m.total_supply_assets + m.assets_in_queue - m.total_borrow_assets
}

/// A queued withdrawal followed by its settlement lands exactly where an
/// immediate withdrawal of the same shares does: the same tokens paid out and
/// the same supply figures, with the queue back where it started.
pub proof fn law_queued_then_processed_matches_immediate(m: MarketView, shares: u64)
    requires
        withdraw_queued_accounting(m, shares).1 is Some,
    ensures
        ({
            let (queued, claim) = withdraw_queued_accounting(m, shares);
            let (immediate, paid) = withdraw_immediate_accounting::<()>(m, shares);
            &&& paid == Ok::<u64, MathError<()>>(claim.unwrap())
            &&& queue_released(queued, claim.unwrap()) == Some(immediate)
        }),
{
}

/// Depositing keeps the books balanced once the deposit reaches the vault.
pub proof fn law_deposit_keeps_books(m: MarketView, amount: u64, vault_balance: int)
    requires
        books_balance(m, vault_balance),
        deposit_lent_accounting::<()>(m, amount).1 is Ok,
    ensures
        books_balance(deposit_lent_accounting::<()>(m, amount).0, vault_balance + amount),
{
}

/// An immediate LP exit keeps the books balanced once its payout leaves the vault.
pub proof fn law_immediate_exit_keeps_books(m: MarketView, shares: u64, vault_balance: int)
    requires
        books_balance(m, vault_balance),
        withdraw_immediate_accounting::<()>(m, shares).1 is Ok,
    ensures
        ({
            let (after, paid) = withdraw_immediate_accounting::<()>(m, shares);
            books_balance(after, vault_balance - paid->Ok_0)
        }),
{
}

/// A queued LP exit keeps the books balanced with the vault untouched.
pub proof fn law_queued_exit_keeps_books(m: MarketView, shares: u64, vault_balance: int)
    requires
        books_balance(m, vault_balance),
        withdraw_queued_accounting(m, shares).1 is Some,
    ensures
        books_balance(withdraw_queued_accounting(m, shares).0, vault_balance),
{
}

/// Settling a queued withdrawal keeps the books balanced once its payout leaves the vault.
pub proof fn law_queue_settlement_keeps_books(m: MarketView, amount: u64, vault_balance: int)
    requires
        books_balance(m, vault_balance),
        queue_released(m, amount) is Some,
    ensures
        books_balance(queue_released(m, amount).unwrap(), vault_balance - amount),
{
}

/// A borrow keeps the books balanced once the loan leaves the vault.
pub proof fn law_borrow_keeps_books(
    m: MarketView,
    collateral: u64,
    debt_shares: u64,
    oracle_price: u64,
    amount: u64,
    vault_balance: u64,
    held: int,
)
    requires
        books_balance(m, held),
        borrow_accounting::<()>(m, collateral, debt_shares, oracle_price, amount, vault_balance).2 is Ok,
    ensures
        books_balance(borrow_accounting::<()>(m, collateral, debt_shares, oracle_price, amount, vault_balance).1, held - amount),
{
}

/// A repayment keeps the books balanced once the repaid tokens reach the vault.
pub proof fn law_repay_keeps_books(m: MarketView, debt_shares: u64, amount: u64, vault_balance: int)
    requires
        books_balance(m, vault_balance),
        repay_accounting::<()>(m, debt_shares, amount).2 is Ok,
    ensures
        ({
            let (_, after, res) = repay_accounting::<()>(m, debt_shares, amount);
            books_balance(after, vault_balance + res->Ok_0.0)
        }),
{
}

/// Accrual adds the same interest to both sides of the books, so the
/// balance with the vault is unchanged.
pub proof fn law_accrual_keeps_books(m: MarketView, rate_bps: u32, now: i64, vault_balance: int)
    requires
        books_balance(m, vault_balance),
        accrued_market(m, rate_bps, now) is Some,
    ensures
        books_balance(accrued_market(m, rate_bps, now).unwrap(), vault_balance),
        accrued_market(m, rate_bps, now).unwrap().total_borrow_assets - m.total_borrow_assets
            == accrued_market(m, rate_bps, now).unwrap().total_supply_assets - m.total_supply_assets,
{
}

/// A flash loan repaid with exactly the minimum repayment closes the lock and
/// credits exactly the fee to lenders; every other figure is as it was.
pub proof fn law_flash_round_trip(m: MarketView, amount: u64, vault_balance: u64)
    requires
        flash_borrow_plan::<()>(m, amount, vault_balance) is Ok,
        m.total_supply_assets + flash_fee_of(amount as int) <= u64::MAX,
    ensures
        ({
            let min_repay = flash_borrow_plan::<()>(m, amount, vault_balance)->Ok_0;
            let open = MarketView { flash_loan_outstanding: amount, ..m };
            let fee = flash_fee_of(amount as int) as u64;
            &&& flash_repay_plan::<()>(open, min_repay) == Ok::<(u64, u64), MathError<()>>((amount, fee))
            &&& flash_settled(open, fee) == MarketView {
                total_supply_assets: (m.total_supply_assets + fee) as u64,
                ..m
            }
            &&& books_balance(m, vault_balance as int) ==> books_balance(
                flash_settled(open, fee),
                vault_balance + fee,
            )
        }),
{
    lemma_flash_fee_fits(amount as int);
}

/// A deposit never dilutes existing lenders: the assets backing each share
/// do not fall (the minted LP is rounded down).
pub proof fn law_deposit_never_dilutes(m: MarketView, amount: u64)
    requires
        deposit_lent_accounting::<()>(m, amount).1 is Ok,
        m.total_supply_shares > 0,
        m.total_supply_assets > 0,
    ensures
        ({
            let after = deposit_lent_accounting::<()>(m, amount).0;
            after.total_supply_assets * m.total_supply_shares >= m.total_supply_assets * after.total_supply_shares
        }),
{
    let a = m.total_supply_assets as int;
    let s = m.total_supply_shares as int;
    let lp = amount * s / a;
    lemma_div_bounds(amount * s, a);
    assert((a + amount) * s >= a * (s + lp)) by (nonlinear_arith)
        requires
            lp * a <= amount * s,
            a > 0,
            s > 0,
    ;
}

/// An LP exit, immediate or queued, never dilutes the lenders who stay: the
/// assets backing each remaining share do not fall (the payout is rounded down).
pub proof fn law_exit_never_dilutes(m: MarketView, shares: u64)
    requires
        withdraw_immediate_accounting::<()>(m, shares).1 is Ok,
    ensures
        ({
            let after = withdraw_immediate_accounting::<()>(m, shares).0;
            after.total_supply_assets * m.total_supply_shares >= m.total_supply_assets * after.total_supply_shares
        }),
        withdraw_queued_accounting(m, shares).1 is Some ==> ({
            let after = withdraw_queued_accounting(m, shares).0;
            after.total_supply_assets * m.total_supply_shares >= m.total_supply_assets * after.total_supply_shares
        }),
{
    let a = m.total_supply_assets as int;
    let s = m.total_supply_shares as int;
    let lend = shares * a / s;
    lemma_div_bounds(shares * a, s);
    assert((a - lend) * s >= a * (s - shares)) by (nonlinear_arith)
        requires
            lend * s <= shares * a,
            s > 0,
    ;
}

/// Minting debt shares rounds up and valuing them rounds up, so a borrower
/// always owes at least what was borrowed.
pub proof fn law_borrow_owes_at_least_what_was_borrowed(amount: u64, total_borrowed: u64, total_shares: u64)
    requires
        amount_to_shares_spec(amount as int, total_borrowed as int, total_shares as int) is Some,
    ensures
        ({
            let minted = amount_to_shares_spec(amount as int, total_borrowed as int, total_shares as int)->Some_0;
            match shares_to_amount_spec(minted as int, total_borrowed + amount, total_shares + minted) {
                Some(owed) => owed >= amount,
                None => true,
            }
        }),
{
    let minted = amount_to_shares_spec(amount as int, total_borrowed as int, total_shares as int)->Some_0 as int;
    let b = total_borrowed as int;
    let s = total_shares as int;
    let a = amount as int;
    if a > 0 {
        if s > 0 && b > 0 {
            lemma_ceil_div_bounds(a * s, b);
            assert(minted * b >= a * s);
        }
        // minted * (b + a) >= a * (s + minted)
        assert(minted * (b + a) >= a * (s + minted)) by (nonlinear_arith)
            requires
                minted * b >= a * s,
                a >= 0,
                minted >= 0,
        ;
        lemma_ceil_div_bounds(minted * (b + a), s + minted);
        crate::arith::lemma_div_at_least(minted * (b + a), s + minted, a);
    }
}

/// Converting collateral to its lend value (rounded down) and back (rounded
/// up) never returns more collateral than was put in, and at or above parity
/// returns exactly what was put in.
pub proof fn law_collateral_round_trip(collateral: u64, oracle_price: u64)
    requires
        oracle_price > 0,
        collateral_value(collateral as int, oracle_price as int) <= u64::MAX,
    ensures
        ({
            let lend = collateral_value(collateral as int, oracle_price as int);
            match lend_to_collateral_spec(lend, oracle_price as int) {
                Some(back) => back <= collateral && (oracle_price >= PRICE_SCALE ==> back == collateral),
                None => false,
            }
        }),
{
    let c = collateral as int;
    let p = oracle_price as int;
    let sc = PRICE_SCALE as int;
    let lend = c * p / sc;
    lemma_div_bounds(c * p, sc);
    lemma_mul_le(0, sc, lend, sc);
    if lend > 0 {
        // lend * sc <= c * p, so the ceiling of lend * sc / p is at most c
        crate::arith::lemma_ceil_div_at_most(lend * sc, p, c);
        if p >= sc {
            // lend * sc > c * p - sc >= (c - 1) * p, so the ceiling reaches c
            lemma_ceil_div_bounds(lend * sc, p);
            assert(ceil_div(lend * sc, p) >= c) by (nonlinear_arith)
                requires
                    c * p < lend * sc + sc,
                    p >= sc,
                    ceil_div(lend * sc, p) * p >= lend * sc,
                    p > 0,
            ;
        }
    } else {
        if p >= sc && c > 0 {
            lemma_mul_le(1, sc, c, p);
        }
    }
}

/// A rate above the ceiling accrues exactly what the ceiling does.
pub proof fn law_rate_above_ceiling_is_clamped(principal: int, rate_bps: int, elapsed: int)
    requires
        rate_bps >= MAX_RATE_BPS,
    ensures
        interest_of(principal, rate_bps, elapsed) == interest_of(principal, MAX_RATE_BPS as int, elapsed),
{
}

/// A collateral withdrawal succeeds only when the collateral left behind
/// still covers the position's debt at the market's LTV: with debt rounded
/// up from the position's shares, `debt <= left * price / PRICE_SCALE * ltv / 100`.
pub proof fn law_withdrawal_leaves_the_debt_covered(
    m: MarketView,
    collateral: u64,
    debt_shares: u64,
    oracle_price: u64,
    amount: u64,
)
    requires
        withdraw_collateral_plan::<()>(m, collateral, debt_shares, oracle_price, amount) is Ok,
    ensures
        ({
            let left = withdraw_collateral_plan::<()>(m, collateral, debt_shares, oracle_price, amount)->Ok_0;
            let cover = (left * oracle_price / PRICE_SCALE as int) * m.ltv_percent / 100;
            &&& 0 < amount <= collateral
            &&& left == collateral - amount
            &&& m.total_borrow_shares > 0 ==> debt_shares * m.total_borrow_assets <= cover * m.total_borrow_shares
        }),
{
    let left = (collateral - amount) as int;
    let cover = (left * oracle_price / PRICE_SCALE as int) * m.ltv_percent / 100;
    let tbs = m.total_borrow_shares as int;
    let tba = m.total_borrow_assets as int;
    let ds = debt_shares as int;
    if tbs > 0 && ds > 0 {
        lemma_ceil_div_bounds(ds * tba, tbs);
        let debt = ceil_div(ds * tba, tbs);
        assert(debt * tbs <= cover * tbs) by (nonlinear_arith)
            requires
                debt <= cover,
                tbs > 0,
        ;
    }
    if tbs > 0 && ds == 0 {
        assert(0 <= cover * tbs) by (nonlinear_arith)
            requires
                cover >= 0,
                tbs > 0,
        ;
    }
}

/// A successful borrow stays within liquidity and within what the collateral
/// covers, and mints debt shares at the pre-borrow share price rounded up: the
/// new shares are worth at least the amount borrowed, and one share fewer
/// would be worth less. The first borrow of an empty book mints 1:1.
pub proof fn law_borrow_mints_at_the_debt_share_price(
    m: MarketView,
    collateral: u64,
    debt_shares: u64,
    oracle_price: u64,
    amount: u64,
    vault_balance: u64,
)
    requires
        borrow_plan::<()>(m, collateral, debt_shares, oracle_price, amount, vault_balance) is Ok,
    ensures
        ({
            let minted = borrow_plan::<()>(m, collateral, debt_shares, oracle_price, amount, vault_balance)->Ok_0;
            let tba = m.total_borrow_assets as int;
            let tbs = m.total_borrow_shares as int;
            let cover = (collateral * oracle_price / PRICE_SCALE as int) * m.ltv_percent / 100;
            &&& amount > 0
            &&& amount + m.assets_in_queue <= vault_balance
            &&& (tba == 0 && tbs == 0) ==> minted == amount
            &&& !(tba == 0 && tbs == 0) ==> {
                &&& tba > 0 && tbs > 0
                &&& minted * tba >= amount * tbs
                &&& (minted - 1) * tba < amount * tbs
            }
            &&& amount <= cover
            &&& tbs > 0 ==> debt_shares * tba <= (cover - amount) * tbs
        }),
{
    let tba = m.total_borrow_assets as int;
    let tbs = m.total_borrow_shares as int;
    let ds = debt_shares as int;
    let cover = (collateral * oracle_price / PRICE_SCALE as int) * m.ltv_percent / 100;
    if !(tba == 0 && tbs == 0) {
        lemma_ceil_div_bounds(amount * tbs, tba);
        lemma_ceil_div_tight(amount * tbs, tba);
        assert(amount * tbs > 0) by (nonlinear_arith)
            requires
                amount > 0,
                tbs > 0,
        ;
    }
    if tbs > 0 {
        if ds > 0 {
            lemma_ceil_div_bounds(ds * tba, tbs);
            let debt = ceil_div(ds * tba, tbs);
            assert(debt * tbs <= (cover - amount) * tbs) by (nonlinear_arith)
                requires
                    debt <= cover - amount,
                    tbs > 0,
            ;
        } else {
            assert(0 <= (cover - amount) * tbs) by (nonlinear_arith)
                requires
                    cover - amount >= 0,
                    tbs > 0,
            ;
        }
    }
}

/// A repayment never takes more than offered, and burns shares worth no more
/// than what was repaid: a partial repayment burns the repaid amount's shares
/// rounded down, and burning every share takes at least their value.
pub proof fn law_repay_burns_no_more_than_was_paid(m: MarketView, debt_shares: u64, amount: u64)
    requires
        repay_plan::<()>(m, debt_shares, amount) is Ok,
    ensures
        ({
            let (repaid, burned) = repay_plan::<()>(m, debt_shares, amount)->Ok_0;
            let tba = m.total_borrow_assets as int;
            let tbs = m.total_borrow_shares as int;
            &&& repaid <= amount
            &&& burned <= debt_shares
            &&& burned < debt_shares ==> burned * tba <= repaid * tbs < (burned + 1) * tba
            &&& burned == debt_shares ==> repaid * tbs >= debt_shares * tba
        }),
{
    let tba = m.total_borrow_assets as int;
    let tbs = m.total_borrow_shares as int;
    let ds = debt_shares as int;
    let (repaid, burned) = repay_plan::<()>(m, debt_shares, amount)->Ok_0;
    let due = shares_to_amount_spec(ds, tba, tbs)->Some_0 as int;
    if ds > 0 {
        lemma_ceil_div_bounds(ds * tba, tbs);
    }
    if repaid as int == due {
        if ds > 0 {
            assert(repaid * tbs >= ds * tba);
        }
    } else {
        // A partial repayment: something is owed, so both totals are positive.
        assert(ds > 0);
        assert(tbs > 0);
        assert(ds * tba >= 0) by (nonlinear_arith)
            requires
                ds > 0,
                tba >= 0,
        ;
        if ds * tba == 0 {
            assert(0int / tbs == 0 && 0int % tbs == 0) by (nonlinear_arith)
                requires
                    tbs > 0,
            ;
            assert(due == 0);
        }
        assert(ds * tba > 0);
        assert(tba > 0) by (nonlinear_arith)
            requires
                ds * tba > 0,
                ds > 0,
        ;
        let q = (repaid * tbs) / tba;
        lemma_div_bounds(repaid * tbs, tba);
        assert(repaid < due);
        // repaid <= due - 1 < ds * tba / tbs, so the floor stays below ds
        lemma_ceil_div_tight(ds * tba, tbs);
        assert(repaid * tbs < ds * tba) by (nonlinear_arith)
            requires
                repaid <= due - 1,
                (due - 1) * tbs < ds * tba,
                tbs > 0,
                repaid >= 0,
        ;
        assert(q < ds) by (nonlinear_arith)
            requires
                q * tba <= repaid * tbs,
                repaid * tbs < ds * tba,
                tba > 0,
        ;
        assert(repaid as int == crate::arith::min_int(amount as int, due));
        assert(crate::math::shares_burned_spec(repaid as int, tba, tbs, ds) == Some(burned));
        assert(burned == q);
        assert((q + 1) * tba == q * tba + tba) by (nonlinear_arith);
    }
}

/// Accrual adds the interest to both sides and values the protocol's fee
/// shares against the supply excluding the fee itself, rounded down: the fee
/// shares are worth at most the fee, and one more share would be worth more.
pub proof fn law_fee_shares_are_worth_the_fee(m: MarketView, rate_bps: u32, now: i64)
    requires
        accrued_market(m, rate_bps, now) is Some,
    ensures
        ({
            let after = accrued_market(m, rate_bps, now)->Some_0;
            let interest = after.total_borrow_assets - m.total_borrow_assets;
            let fee_amount = interest * m.fee / 10_000;
            let fee_shares = after.total_supply_shares - m.total_supply_shares;
            &&& interest >= 0
            &&& after.total_supply_assets == m.total_supply_assets + interest
            &&& after.accrued_fee_shares - m.accrued_fee_shares == fee_shares
            &&& fee_shares >= 0
            &&& fee_shares * (after.total_supply_assets - fee_amount) <= fee_amount * m.total_supply_shares
            &&& after.total_supply_assets > fee_amount ==> fee_amount * m.total_supply_shares < (fee_shares + 1) * (
            after.total_supply_assets - fee_amount)
        }),
{
    let after = accrued_market(m, rate_bps, now)->Some_0;
    let interest = after.total_borrow_assets - m.total_borrow_assets;
    let fa = interest * m.fee / 10_000;
    let sa = after.total_supply_assets as int;
    let tss = m.total_supply_shares as int;
    let fs = after.total_supply_shares - m.total_supply_shares;
    assert(interest >= 0);
    assert(interest * m.fee >= 0) by (nonlinear_arith)
        requires
            interest >= 0,
            m.fee >= 0,
    ;
    lemma_div_bounds(interest * m.fee, 10_000);
    assert(fa * tss >= 0) by (nonlinear_arith)
        requires
            fa >= 0,
            tss >= 0,
    ;
    if fs == 0 {
        if sa > fa {
            if fa * tss >= sa - fa {
                // Then a nonzero share count would have been minted.
                lemma_div_bounds(fa * tss, sa - fa);
                crate::arith::lemma_div_at_least(fa * tss, sa - fa, 1);
            }
        }
    } else {
        lemma_div_bounds(fa * tss, sa - fa);
        assert((fs + 1) * (sa - fa) == fs * (sa - fa) + (sa - fa)) by (nonlinear_arith);
    }
}

/// A deposit into a live pool whose quote `amount * shares / assets` is
/// nonzero and fits, and whose new totals fit, always succeeds and mints
/// exactly that quote; the product itself may exceed 64 bits.
pub proof fn law_deposit_mints_the_quote_when_it_fits(m: MarketView, amount: u64)
    requires
        amount > 0,
        m.total_supply_shares > 0,
        m.total_supply_assets > 0,
        0 < amount * m.total_supply_shares / m.total_supply_assets as int <= u64::MAX,
        m.total_supply_assets + amount <= u64::MAX,
        m.total_supply_shares + amount * m.total_supply_shares / m.total_supply_assets as int <= u64::MAX,
    ensures
        ({
            let q = amount * m.total_supply_shares / m.total_supply_assets as int;
            deposit_lent_accounting::<()>(m, amount) == (
                MarketView {
                    total_supply_assets: (m.total_supply_assets + amount) as u64,
                    total_supply_shares: (m.total_supply_shares + q) as u64,
                    ..m
                },
                Ok::<u64, MathError<()>>(q as u64),
            )
        }),
{
}

} // verus!
