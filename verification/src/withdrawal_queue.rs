//! Fixed-capacity circular queue of pending lend-token withdrawals, embedded
//! in the pool account. Seen through [`WithdrawalQueue::view`] it is a FIFO
//! sequence of at most `WITHDRAWAL_QUEUE_LEN - 1` entries.
use vstd::prelude::*;

use crate::state::ErrorCode;
use crate::wire::{keys_equal, Pubkey};

verus! {

pub const WITHDRAWAL_QUEUE_LEN: usize = 1024;

/// Most pending entries one authority may hold at a time.
pub const MAX_ENTRIES_PER_AUTHORITY: usize = 8;

/// A single pending withdrawal request.
#[derive(Clone, Copy)]
pub struct WithdrawalQueueEntry {
    /// The user authority who requested the withdrawal.
    pub requester: Pubkey,
    /// Amount of underlying tokens to withdraw.
    pub amount: u64,
}

impl WithdrawalQueueEntry {
    pub fn new(requester: Pubkey, amount: u64) -> (r: Self)
        ensures
            r.requester == requester,
            r.amount == amount,
    {
        WithdrawalQueueEntry { requester, amount }
    }
}

#[derive(Clone, Copy)]
pub struct WithdrawalQueue {
    pub head: u16,
    pub tail: u16,
    pub entries: [WithdrawalQueueEntry; WITHDRAWAL_QUEUE_LEN],
}

/// Number of entries of `s` whose requester is `requester`.
pub open spec fn count_for(s: Seq<WithdrawalQueueEntry>, requester: Seq<u8>) -> nat
    decreases s.len(),
{
    if s.len() == 0 {
        0
    } else {
        count_for(s.drop_last(), requester) + if s.last().requester@ == requester {
            1nat
        } else {
            0nat
        }
    }
}

impl WithdrawalQueue {
    /// Head and tail are slot indices.
    pub open spec fn well_formed(&self) -> bool {
        self.head < WITHDRAWAL_QUEUE_LEN && self.tail < WITHDRAWAL_QUEUE_LEN
    }

    pub open spec fn spec_len(&self) -> nat {
        ((self.tail + WITHDRAWAL_QUEUE_LEN - self.head) % WITHDRAWAL_QUEUE_LEN as int) as nat
    }

    /// The pending entries, oldest first.
    pub open spec fn view(&self) -> Seq<WithdrawalQueueEntry> {
        Seq::new(self.spec_len(), |i: int| self.entries@[(self.head + i) % WITHDRAWAL_QUEUE_LEN as int])
    }

    /// An empty queue with every slot zeroed.
    pub fn zeroed() -> (r: Self)
        ensures
            r.head == 0,
            r.tail == 0,
            forall|i: int|
                0 <= i < WITHDRAWAL_QUEUE_LEN ==> (#[trigger] r.entries@[i]).amount == 0
                    && r.entries@[i].requester@ == Seq::new(32, |j: int| 0u8),
            r.well_formed(),
            r.view() == Seq::<WithdrawalQueueEntry>::empty(),
    {
        WithdrawalQueue {
            head: 0,
            tail: 0,
            entries: [WithdrawalQueueEntry { requester: [0u8; 32], amount: 0 }; WITHDRAWAL_QUEUE_LEN],
        }
    }

    /// `true` iff nothing is queued.
    pub fn is_empty(&self) -> (r: bool)
        requires
            self.well_formed(),
        ensures
            r == (self.view().len() == 0),
    {
        self.head == self.tail
    }

    /// `true` iff every usable slot is taken.
    pub fn is_full(&self) -> (r: bool)
        requires
            self.well_formed(),
        ensures
            r == (self.view().len() == WITHDRAWAL_QUEUE_LEN - 1),
    {
        (self.tail as usize + 1) % WITHDRAWAL_QUEUE_LEN == self.head as usize
    }

    /// Number of entries currently in the queue.
    pub fn len(&self) -> (r: usize)
        requires
            self.well_formed(),
        ensures
            r == self.view().len(),
    {
        (self.tail as usize + WITHDRAWAL_QUEUE_LEN - self.head as usize) % WITHDRAWAL_QUEUE_LEN
    }

    /// Append `entry` at the back. A zero-amount entry is refused, and so is
    /// any entry while the queue is full.
    pub fn push(&mut self, entry: WithdrawalQueueEntry) -> (r: Result<(), ErrorCode>)
        requires
            old(self).well_formed(),
        ensures
            final(self).well_formed(),
            r is Err ==> *final(self) == *old(self),
            r is Ok ==> final(self).head == old(self).head && final(self).tail == (old(self).tail + 1)
                % WITHDRAWAL_QUEUE_LEN as int && final(self).entries@ == old(self).entries@.update(
                old(self).tail as int,
                entry,
            ),
            entry.amount == 0 ==> r == Err::<(), ErrorCode>(ErrorCode::ZeroValueWithdrawal)
                && final(self).view() == old(self).view(),
            entry.amount != 0 && old(self).view().len() == WITHDRAWAL_QUEUE_LEN - 1 ==> r == Err::<
                (),
                ErrorCode,
            >(ErrorCode::WithdrawalQueueFull) && final(self).view() == old(self).view(),
            entry.amount != 0 && old(self).view().len() < WITHDRAWAL_QUEUE_LEN - 1 ==> (r is Ok) && final(self).view()
                == old(self).view().push(entry),
    {
        if entry.amount == 0 {
            return Err(ErrorCode::ZeroValueWithdrawal);
        }
        if self.is_full() {
            return Err(ErrorCode::WithdrawalQueueFull);
        }
        let ghost before = self.view();
        let tail = self.tail as usize;
        self.entries[tail] = entry;
        self.tail = ((tail + 1) % WITHDRAWAL_QUEUE_LEN) as u16;
        assert(self.view() =~= before.push(entry));
        Ok(())
    }

    /// Remove and return the front entry.
    pub fn pop(&mut self) -> (r: Result<WithdrawalQueueEntry, ErrorCode>)
        requires
            old(self).well_formed(),
        ensures
            final(self).well_formed(),
            old(self).view().len() == 0 ==> r == Err::<WithdrawalQueueEntry, ErrorCode>(
                ErrorCode::WithdrawalQueueEmpty,
            ) && *final(self) == *old(self),
            old(self).view().len() > 0 ==> r == Ok::<WithdrawalQueueEntry, ErrorCode>(old(self).view()[0])
                && final(self).view() == old(self).view().drop_first() && final(self).head == (old(self).head + 1)
                % WITHDRAWAL_QUEUE_LEN as int && final(self).tail == old(self).tail && final(self).entries
                == old(self).entries,
    {
        if self.is_empty() {
            return Err(ErrorCode::WithdrawalQueueEmpty);
        }
        let ghost before = self.view();
        let head = self.head as usize;
        let entry = self.entries[head];
        self.head = ((head + 1) % WITHDRAWAL_QUEUE_LEN) as u16;
        assert(self.view() =~= before.drop_first());
        Ok(entry)
    }

    /// Pending entries belonging to `requester`, counted no further than
    /// `cap` (a `cap` of 0 stops at the first match).
    pub fn count_for_capped(&self, requester: &Pubkey, cap: usize) -> (r: usize)
        requires
            self.well_formed(),
        ensures
            r == (if count_for(self.view(), requester@) < (if cap == 0 {
                1
            } else {
                cap as int
            }) {
                count_for(self.view(), requester@) as int
            } else if cap == 0 {
                1
            } else {
                cap as int
            }),
    {
        let len = self.len();
        let ghost v = self.view();
        let ghost limit: int = if cap == 0 {
            1
        } else {
            cap as int
        };
        let mut seen: usize = 0;
        let mut i: usize = 0;
        while i < len
            invariant
                self.well_formed(),
                len == v.len(),
                v == self.view(),
                i <= len,
                seen == count_for(v.take(i as int), requester@),
                seen < limit,
                seen <= i,
                limit == (if cap == 0 {
                    1
                } else {
                    cap as int
                }),
            decreases len - i,
        {
            let idx = (self.head as usize + i) % WITHDRAWAL_QUEUE_LEN;
            proof {
                assert(v.take(i + 1).drop_last() =~= v.take(i as int));
                assert(v.take(i + 1).last() == v[i as int]);
            }
            if keys_equal(&self.entries[idx].requester, requester) {
                seen = seen + 1;
                if seen >= cap {
                    proof {
                        lemma_count_prefix(v, requester@, i + 1, len as int);
                        assert(v.take(len as int) =~= v);
                    }
                    return seen;
                }
            }
            i = i + 1;
        }
        assert(v.take(len as int) =~= v);
        seen
    }

    /// The pending entries in FIFO order (head → tail).
    pub fn iter(&self) -> (r: Vec<WithdrawalQueueEntry>)
        requires
            self.well_formed(),
        ensures
            r@ == self.view(),
    {
        let len = self.len();
        let mut out: Vec<WithdrawalQueueEntry> = Vec::new();
        let mut i: usize = 0;
        while i < len
            invariant
                self.well_formed(),
                len == self.view().len(),
                i <= len,
                out@ =~= self.view().take(i as int),
            decreases len - i,
        {
            out.push(self.entries[(self.head as usize + i) % WITHDRAWAL_QUEUE_LEN]);
            i = i + 1;
        }
        out
    }
}

/// Counting over a longer prefix never gives fewer matches.
pub proof fn lemma_count_prefix(s: Seq<WithdrawalQueueEntry>, requester: Seq<u8>, a: int, b: int)
    requires
        0 <= a <= b <= s.len(),
    ensures
        count_for(s.take(a), requester) <= count_for(s.take(b), requester),
    decreases b - a,
{
    if a < b {
        lemma_count_prefix(s, requester, a, b - 1);
        assert(s.take(b).drop_last() =~= s.take(b - 1));
    }
}

} // verus!
