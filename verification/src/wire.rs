//! Little-endian length fields of the bundle wire format: an eight-byte
//! unsigned length, written and read with exact round-trip contracts.

use vstd::prelude::*;
use vstd::arithmetic::div_mod::{
    lemma_div_denominator, lemma_fundamental_div_mod, lemma_fundamental_div_mod_converse,
};

verus! {

/// 256 to the power `n`.
pub open spec fn pow256(n: nat) -> nat
    decreases n,
{
    if n == 0 {
        1
    } else {
        256 * pow256((n - 1) as nat)
    }
}

/// The `n`-byte little-endian encoding of `x` (of `x` modulo `256^n`,
/// when `x` does not fit).
pub open spec fn le_bytes(x: nat, n: nat) -> Seq<u8>
    decreases n,
{
    if n == 0 {
        Seq::empty()
    } else {
        seq![(x % 256) as u8] + le_bytes(x / 256, (n - 1) as nat)
    }
}

/// The value a little-endian byte sequence stands for.
pub open spec fn le_value(s: Seq<u8>) -> nat
    decreases s.len(),
{
    if s.len() == 0 {
        0
    } else {
        (s[0] + 256 * le_value(s.drop_first())) as nat
    }
}

pub proof fn lemma_le_bytes_len(x: nat, n: nat)
    ensures
        le_bytes(x, n).len() == n,
    decreases n,
{
    if n > 0 {
        lemma_le_bytes_len(x / 256, (n - 1) as nat);
    }
}

/// A sequence of `n` bytes always stands for a value below `256^n`.
pub proof fn lemma_le_value_bound(s: Seq<u8>)
    ensures
        le_value(s) < pow256(s.len()),
    decreases s.len(),
{
    if s.len() > 0 {
        lemma_le_value_bound(s.drop_first());
        assert(256 * le_value(s.drop_first()) <= 256 * (pow256(s.drop_first().len()) - 1))
            by (nonlinear_arith)
            requires le_value(s.drop_first()) <= pow256(s.drop_first().len()) - 1;
    }
}

/// Reading back the encoding of a value that fits yields the value.
pub proof fn lemma_le_bytes_value(x: nat, n: nat)
    requires
        x < pow256(n),
    ensures
        le_value(le_bytes(x, n)) == x,
    decreases n,
{
    if n > 0 {
        assert(x / 256 < pow256((n - 1) as nat)) by (nonlinear_arith)
            requires x < 256 * pow256((n - 1) as nat);
        lemma_le_bytes_value(x / 256, (n - 1) as nat);
        let s = le_bytes(x, n);
        assert(s.drop_first() =~= le_bytes(x / 256, (n - 1) as nat));
        lemma_fundamental_div_mod(x as int, 256);
    }
}

/// Re-encoding the value a byte sequence stands for yields the same bytes.
pub proof fn lemma_le_value_bytes(s: Seq<u8>)
    ensures
        le_bytes(le_value(s), s.len()) == s,
    decreases s.len(),
{
    if s.len() > 0 {
        lemma_le_value_bytes(s.drop_first());
        let v = le_value(s);
        lemma_fundamental_div_mod_converse(
            v as int,
            256,
            le_value(s.drop_first()) as int,
            s[0] as int,
        );
        assert(le_bytes(v, s.len()) =~= s);
    }
}

/// Append the `k`-byte little-endian encoding of `v`.
fn push_le_bytes(out: &mut Vec<u8>, v: u64, k: usize)
    ensures
        final(out)@ == old(out)@ + le_bytes(v as nat, k as nat),
    decreases k,
{
    if k == 0 {
        proof {
            assert(out@ + le_bytes(v as nat, 0) =~= out@);
        }
    } else {
        out.push((v % 256) as u8);
        push_le_bytes(out, v / 256, k - 1);
        proof {
            assert(old(out)@ + le_bytes(v as nat, k as nat) =~= (old(out)@ + seq![
                (v % 256) as u8,
            ]) + le_bytes((v / 256) as nat, (k - 1) as nat));
            assert(old(out)@ + seq![(v % 256) as u8] =~= old(out)@.push((v % 256) as u8));
        }
    }
}

/// Append the eight-byte little-endian encoding of `x`.
pub fn push_u64_le(out: &mut Vec<u8>, x: u64)
    ensures
        final(out)@ == old(out)@ + le_bytes(x as nat, 8),
{
    push_le_bytes(out, x, 8);
}

/// `pow256(8)` is one more than the largest `u64`.
pub proof fn lemma_pow256_8()
    ensures
        pow256(8) == 0x1_0000_0000_0000_0000,
        pow256(7) == 0x1_0000_0000_0000_00,
{
    assert(pow256(0) == 1);
    assert(pow256(1) == 256);
    assert(pow256(2) == 0x1_0000);
    assert(pow256(3) == 0x100_0000);
    assert(pow256(4) == 0x1_0000_0000);
    assert(pow256(5) == 0x100_0000_0000);
    assert(pow256(6) == 0x1_0000_0000_0000);
    assert(pow256(7) == 0x100_0000_0000_0000);
}

/// Read the value of `k` little-endian bytes at `offset`.
fn read_le_bytes(bytes: &Vec<u8>, offset: usize, k: usize) -> (r: u64)
    requires
        offset + k <= bytes@.len(),
        k <= 8,
    ensures
        r as nat == le_value(bytes@.subrange(offset as int, offset + k)),
    decreases k,
{
    if k == 0 {
        proof {
            assert(bytes@.subrange(offset as int, offset as int).len() == 0);
        }
        0
    } else {
        let n = bytes.len();
        let rest = read_le_bytes(bytes, offset + 1, k - 1);
        let s = Ghost(bytes@.subrange(offset as int, offset + k));
        proof {
            assert(s@.drop_first() =~= bytes@.subrange(offset + 1, offset + 1 + (k - 1)));
            lemma_le_value_bound(s@.drop_first());
            lemma_pow256_8();
            assert(pow256(s@.drop_first().len()) <= pow256(7)) by {
                lemma_pow256_monotone(s@.drop_first().len(), 7);
            }
        }
        bytes[offset] as u64 + 256 * rest
    }
}

pub proof fn lemma_pow256_monotone(a: nat, b: nat)
    requires
        a <= b,
    ensures
        pow256(a) <= pow256(b),
    decreases b,
{
    if a < b && b > 0 {
        lemma_pow256_monotone(a, (b - 1) as nat);
        assert(pow256((b - 1) as nat) <= 256 * pow256((b - 1) as nat)) by (nonlinear_arith)
            requires pow256((b - 1) as nat) >= 0;
    }
}

/// Read an eight-byte little-endian length field at `offset`.
pub fn read_u64_le(bytes: &Vec<u8>, offset: usize) -> (r: u64)
    requires
        offset + 8 <= bytes@.len(),
    ensures
        r as nat == le_value(bytes@.subrange(offset as int, offset + 8)),
{
    read_le_bytes(bytes, offset, 8)
}

/// Copy `len` bytes starting at `start`.
pub fn copy_range(bytes: &Vec<u8>, start: usize, len: usize) -> (r: Vec<u8>)
    requires
        start + len <= bytes@.len(),
    ensures
        r@ == bytes@.subrange(start as int, start + len),
{
    let n = bytes.len();
    let mut r: Vec<u8> = Vec::new();
    let mut i: usize = 0;
    while i < len
        invariant
            start + len <= n == bytes@.len(),
            0 <= i <= len,
            r@ =~= bytes@.subrange(start as int, start + i),
        decreases len - i,
    {
        r.push(bytes[start + i]);
        i = i + 1;
    }
    proof {
        assert(r@ =~= bytes@.subrange(start as int, start + len));
    }
    r
}

} // verus!
