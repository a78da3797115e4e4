//! Scenarios for the pool's circular withdrawal queue.

use calma::state::ErrorCode;
use calma::withdrawal_queue::{
    WithdrawalQueue, WithdrawalQueueEntry, MAX_ENTRIES_PER_AUTHORITY, WITHDRAWAL_QUEUE_LEN,
};

fn make_queue() -> WithdrawalQueue {
    WithdrawalQueue::zeroed()
}

fn make_entry(seed: u8, amount: u64) -> WithdrawalQueueEntry {
    let mut bytes = [0u8; 32];
    bytes[0] = seed;
    WithdrawalQueueEntry::new(bytes, amount)
}

// ── basic state ───────────────────────────────────────────────────────────

#[test]
fn new_queue_is_empty() {
    let q = make_queue();
    assert!(q.is_empty());
    assert!(!q.is_full());
    assert_eq!(q.len(), 0);
}

// ── push / pop round-trip ─────────────────────────────────────────────────

#[test]
fn push_then_pop_returns_same_entry() {
    let mut q = make_queue();
    let entry = make_entry(1, 500);
    q.push(entry).unwrap();

    assert!(!q.is_empty());
    assert_eq!(q.len(), 1);

    let out = q.pop().unwrap();
    assert_eq!(out.requester, entry.requester);
    assert_eq!(out.amount, entry.amount);
    assert!(q.is_empty());
}

#[test]
fn fifo_ordering_preserved() {
    let mut q = make_queue();
    for i in 1..=10u8 {
        q.push(make_entry(i, i as u64 * 100)).unwrap();
    }
    for i in 1..=10u8 {
        let out = q.pop().unwrap();
        assert_eq!(out.amount, i as u64 * 100);
    }
    assert!(q.is_empty());
}

#[test]
fn count_for_capped_counts_only_the_named_requester() {
    let mut q = make_queue();
    for i in 0..5u8 {
        q.push(make_entry(1, i as u64 + 1)).unwrap(); // requester A
    }
    q.push(make_entry(2, 99)).unwrap(); // requester B

    let a = make_entry(1, 0).requester;
    let b = make_entry(2, 0).requester;
    let c = make_entry(3, 0).requester;
    assert_eq!(q.count_for_capped(&a, MAX_ENTRIES_PER_AUTHORITY), 5);
    assert_eq!(q.count_for_capped(&b, MAX_ENTRIES_PER_AUTHORITY), 1);
    assert_eq!(q.count_for_capped(&c, MAX_ENTRIES_PER_AUTHORITY), 0);
}

#[test]
fn count_for_capped_stops_at_the_cap() {
    // The early exit is the cost bound: a party already at the limit must
    // not force a walk of the whole queue to discover it.
    let mut q = make_queue();
    for i in 0..50u8 {
        q.push(make_entry(1, i as u64 + 1)).unwrap();
    }
    let a = make_entry(1, 0).requester;
    assert_eq!(q.count_for_capped(&a, 3), 3);
    assert_eq!(q.count_for_capped(&a, MAX_ENTRIES_PER_AUTHORITY), MAX_ENTRIES_PER_AUTHORITY);
}

#[test]
fn zero_amount_entry_is_refused() {
    // A zero-amount entry pays out nothing but still burns a queue slot and
    // keeps the queue non-empty, which forces every later withdrawal onto
    // the queued path. Refusing it is what keeps slot-spam from being free.
    let mut q = make_queue();
    let err = q.push(make_entry(1, 0)).err().expect("expected error");
    assert_eq!(err, ErrorCode::ZeroValueWithdrawal);
    assert!(q.is_empty());
}

// ── error paths ───────────────────────────────────────────────────────────

#[test]
fn pop_empty_returns_error() {
    let mut q = make_queue();
    let err = q.pop().err().expect("expected error");
    assert_eq!(err, ErrorCode::WithdrawalQueueEmpty);
}

#[test]
fn push_full_returns_error() {
    let mut q = make_queue();
    // The queue holds WITHDRAWAL_QUEUE_LEN - 1 items at most (one slot reserved).
    for i in 0..(WITHDRAWAL_QUEUE_LEN - 1) {
        q.push(make_entry(0, i as u64 + 1)).unwrap();
    }
    assert!(q.is_full());

    let err = q.push(make_entry(0, 9999)).err().expect("expected error");
    assert_eq!(err, ErrorCode::WithdrawalQueueFull);
}

// ── circular wrap-around ──────────────────────────────────────────────────

#[test]
fn circular_wraparound() {
    let mut q = make_queue();
    // Fill the queue halfway, then drain it, then fill again past the
    // original end to exercise the modular index wrap.
    let half = WITHDRAWAL_QUEUE_LEN / 2;
    for i in 0..half {
        q.push(make_entry(0, i as u64 + 1)).unwrap();
    }
    for _ in 0..half {
        q.pop().unwrap();
    }
    // head and tail are now both at `half`; push past WITHDRAWAL_QUEUE_LEN boundary
    for i in 0..half {
        q.push(make_entry(1, i as u64 + 1000)).unwrap();
    }
    assert_eq!(q.len(), half);
    for i in 0..half {
        let out = q.pop().unwrap();
        assert_eq!(out.amount, i as u64 + 1000);
    }
    assert!(q.is_empty());
}

// ── len tracking ─────────────────────────────────────────────────────────

#[test]
fn len_tracks_pushes_and_pops() {
    let mut q = make_queue();
    assert_eq!(q.len(), 0);
    q.push(make_entry(0, 1)).unwrap();
    assert_eq!(q.len(), 1);
    q.push(make_entry(1, 2)).unwrap();
    assert_eq!(q.len(), 2);
    q.pop().unwrap();
    assert_eq!(q.len(), 1);
    q.pop().unwrap();
    assert_eq!(q.len(), 0);
}
