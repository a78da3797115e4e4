//! Little-endian decoding of account bytes, and 32-byte keys.
use vstd::prelude::*;

use crate::arith::lemma_mul_le;

verus! {

/// A 32-byte account address.
pub type Pubkey = [u8; 32];

/// The unsigned value of `s` read as a little-endian number.
pub open spec fn le_value(s: Seq<u8>) -> nat
    decreases s.len(),
{
    if s.len() == 0 {
        0
    } else {
        s[0] as nat + 256 * le_value(s.drop_first())
    }
}

pub open spec fn pow256(n: nat) -> nat
    decreases n,
{
    if n == 0 {
        1
    } else {
        256 * pow256((n - 1) as nat)
    }
}

/// Two's-complement reading of a 64-bit pattern.
pub open spec fn as_signed64(v: int) -> int {
    if v <= i64::MAX {
        v
    } else {
        v - 0x1_0000_0000_0000_0000
    }
}

/// The `n` bytes of `data` starting at `off`.
pub open spec fn field(data: Seq<u8>, off: int, n: int) -> Seq<u8> {
    data.subrange(off, off + n)
}

pub proof fn lemma_le_value_bound(s: Seq<u8>)
    ensures
        le_value(s) < pow256(s.len()),
    decreases s.len(),
{
    if s.len() > 0 {
        lemma_le_value_bound(s.drop_first());
        let rest = le_value(s.drop_first()) as int;
        let p = pow256((s.len() - 1) as nat) as int;
        assert(s[0] as int + 256 * rest < 256 * p) by (nonlinear_arith)
            requires
                0 <= s[0] <= 255,
                0 <= rest < p,
        ;
    }
}

pub proof fn lemma_pow256_values()
    ensures
        pow256(0) == 1,
        pow256(1) == 256,
        pow256(2) == 0x1_0000,
        pow256(4) == 0x1_0000_0000,
        pow256(8) == 0x1_0000_0000_0000_0000,
{
    reveal_with_fuel(pow256, 9);
}

/// Reads `n <= 8` bytes at `off` as a little-endian number.
pub fn read_le(data: &[u8], off: usize, n: usize) -> (r: u64)
    requires
        n <= 8,
        off + n <= data@.len(),
    ensures
        r == le_value(field(data@, off as int, n as int)),
{
    let len = data.len();
    let mut acc: u64 = 0;
    let mut i: usize = n;
    proof {
        assert(field(data@, off + n, 0) =~= Seq::<u8>::empty());
    }
    while i > 0
        invariant
            n <= 8,
            len == data@.len(),
            off + n <= data@.len(),
            i <= n,
            acc == le_value(field(data@, (off + i) as int, (n - i) as int)),
        decreases i,
    {
        let ghost tail = field(data@, (off + i) as int, (n - i) as int);
        let ghost next = field(data@, (off + i - 1) as int, (n - i + 1) as int);
        proof {
            assert(next.drop_first() =~= tail);
            lemma_le_value_bound(tail);
            lemma_pow256_monotone((n - i) as nat, 7);
            lemma_pow256_values();
            lemma_mul_le(acc as int, 256, pow256(7) as int - 1, 256);
            assert(pow256(8) == 256 * pow256(7));
        }
        let b = data[off + i - 1];
        acc = (b as u64) + 256 * acc;
        i = i - 1;
    }
    acc
}

pub proof fn lemma_pow256_monotone(a: nat, b: nat)
    requires
        a <= b,
    ensures
        pow256(a) <= pow256(b),
    decreases b,
{
    if a < b {
        lemma_pow256_monotone(a, (b - 1) as nat);
    }
}

/// Reads a little-endian `u64` at `off`.
pub fn read_u64(data: &[u8], off: usize) -> (r: u64)
    requires
        off + 8 <= data@.len(),
    ensures
        r == le_value(field(data@, off as int, 8)),
{
    read_le(data, off, 8)
}

/// Reads a little-endian `i64` at `off`.
pub fn read_i64(data: &[u8], off: usize) -> (r: i64)
    requires
        off + 8 <= data@.len(),
    ensures
        r == as_signed64(le_value(field(data@, off as int, 8)) as int),
{
    let v = read_le(data, off, 8);
    if v <= i64::MAX as u64 {
        v as i64
    } else {
        -((u64::MAX - v) as i64) - 1
    }
}

/// Reads a little-endian `u32` at `off`.
pub fn read_u32(data: &[u8], off: usize) -> (r: u32)
    requires
        off + 4 <= data@.len(),
    ensures
        r == le_value(field(data@, off as int, 4)),
{
    let v = read_le(data, off, 4);
    proof {
        lemma_le_value_bound(field(data@, off as int, 4));
        lemma_pow256_values();
    }
    v as u32
}

/// Copies the 32 bytes at `off` into a key.
pub fn read_key(data: &[u8], off: usize) -> (r: Pubkey)
    requires
        off + 32 <= data@.len(),
    ensures
        r@ == field(data@, off as int, 32),
{
    let len = data.len();
    let mut key: Pubkey = [0u8; 32];
    let mut i: usize = 0;
    while i < 32
        invariant
            len == data@.len(),
            off + 32 <= data@.len(),
            i <= 32,
            key@.len() == 32,
            forall|j: int| 0 <= j < i ==> key@[j] == data@[off + j],
        decreases 32 - i,
    {
        key[i] = data[off + i];
        i = i + 1;
    }
    assert(key@ =~= field(data@, off as int, 32));
    key
}

/// `true` iff the two keys hold the same bytes.
pub fn keys_equal(a: &Pubkey, b: &Pubkey) -> (r: bool)
    ensures
        r == (a@ == b@),
{
    let mut i: usize = 0;
    while i < 32
        invariant
            i <= 32,
            a@.len() == 32,
            b@.len() == 32,
            forall|j: int| 0 <= j < i ==> a@[j] == b@[j],
        decreases 32 - i,
    {
        if a[i] != b[i] {
            return false;
        }
        i = i + 1;
    }
    assert(a@ =~= b@);
    true
}

/// The key as a byte vector, as handed across to JavaScript.
///
/// Trusted: calls `bytemuck::bytes_of` on the key and copies the slice into a
/// `Vec`; the contract claims that the bytes of a `[u8; 32]` are the array's
/// own 32 elements, in order.
#[verifier::external_body]
pub(crate) fn key_bytes(key: &Pubkey) -> (r: Vec<u8>)
    ensures
        r@ == key@,
{
    bytemuck::bytes_of(key).to_vec()
}

} // verus!
