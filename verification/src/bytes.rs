//! Byte-string building blocks shared by the sighash preimage and the
//! contract-call encodings: appending fixed-size chunks to a buffer and
//! big-endian integer words.

use vstd::prelude::*;

verus! {

/// A run of `n` zero bytes.
pub open spec fn zeros(n: nat) -> Seq<u8> {
    Seq::new(n, |i: int| 0u8)
}

/// The 8-byte big-endian encoding of `n`.
pub open spec fn u64_be(n: u64) -> Seq<u8> {
    seq![
        ((n >> 56) & 0xff) as u8,
        ((n >> 48) & 0xff) as u8,
        ((n >> 40) & 0xff) as u8,
        ((n >> 32) & 0xff) as u8,
        ((n >> 24) & 0xff) as u8,
        ((n >> 16) & 0xff) as u8,
        ((n >> 8) & 0xff) as u8,
        (n & 0xff) as u8,
    ]
}

/// The 16-byte big-endian encoding of `n`.
pub open spec fn u128_be(n: u128) -> Seq<u8> {
    u64_be(((n >> 64) & 0xffff_ffff_ffff_ffff) as u64) + u64_be((n & 0xffff_ffff_ffff_ffff) as u64)
}

/// A 32-byte big-endian word holding `n`, as the contract ABI writes amounts.
pub open spec fn be32_of_u128(n: u128) -> Seq<u8> {
    zeros(16) + u128_be(n)
}

/// A 32-byte word holding the small number `n` (an ABI offset, length or
/// count).
pub open spec fn abi_word(n: u64) -> Seq<u8> {
    zeros(24) + u64_be(n)
}

/// Appends every byte of the fixed-size array `a` to `out`, in order.
pub fn extend_array<const N: usize>(out: &mut Vec<u8>, a: &[u8; N])
    ensures
        final(out)@ == old(out)@ + a@,
{
    let mut i: usize = 0;
    while i < N
        invariant
            i <= N,
            a@.len() == N,
            out@ == old(out)@ + a@.subrange(0, i as int),
        decreases N - i,
    {
        proof {
            assert(a@.subrange(0, i + 1) =~= a@.subrange(0, i as int).push(a@[i as int]));
        }
        out.push(a[i]);
        i += 1;
    }
    proof {
        assert(a@.subrange(0, a@.len() as int) =~= a@);
    }
}

/// Appends `n` zero bytes to `out`.
pub fn extend_zeros(out: &mut Vec<u8>, n: usize)
    ensures
        final(out)@ == old(out)@ + zeros(n as nat),
{
    let mut i: usize = 0;
    while i < n
        invariant
            i <= n,
            out@ == old(out)@ + zeros(i as nat),
        decreases n - i,
    {
        proof {
            assert(zeros((i + 1) as nat) =~= zeros(i as nat).push(0u8));
        }
        out.push(0u8);
        i += 1;
    }
}

/// Appends the 8-byte big-endian encoding of `n` to `out`.
pub fn extend_u64_be(out: &mut Vec<u8>, n: u64)
    ensures
        final(out)@ == old(out)@ + u64_be(n),
{
    let b0: u8 = ((n >> 56) & 0xff) as u8;
    let b1: u8 = ((n >> 48) & 0xff) as u8;
    let b2: u8 = ((n >> 40) & 0xff) as u8;
    let b3: u8 = ((n >> 32) & 0xff) as u8;
    let b4: u8 = ((n >> 24) & 0xff) as u8;
    let b5: u8 = ((n >> 16) & 0xff) as u8;
    let b6: u8 = ((n >> 8) & 0xff) as u8;
    let b7: u8 = (n & 0xff) as u8;
    out.push(b0);
    out.push(b1);
    out.push(b2);
    out.push(b3);
    out.push(b4);
    out.push(b5);
    out.push(b6);
    out.push(b7);
    proof {
        assert(out@ =~= old(out)@ + u64_be(n));
    }
}

/// Appends the 16-byte big-endian encoding of `n` to `out`.
pub fn extend_u128_be(out: &mut Vec<u8>, n: u128)
    ensures
        final(out)@ == old(out)@ + u128_be(n),
{
    let hi: u64 = ((n >> 64) & 0xffff_ffff_ffff_ffff) as u64;
    let lo: u64 = (n & 0xffff_ffff_ffff_ffff) as u64;
    extend_u64_be(out, hi);
    extend_u64_be(out, lo);
    proof {
        assert(out@ =~= old(out)@ + u128_be(n));
    }
}

/// Appends the 32-byte big-endian word holding `n` to `out`.
pub fn extend_be32_of_u128(out: &mut Vec<u8>, n: u128)
    ensures
        final(out)@ == old(out)@ + be32_of_u128(n),
{
    extend_zeros(out, 16);
    extend_u128_be(out, n);
    proof {
        assert(out@ =~= old(out)@ + be32_of_u128(n));
    }
}

/// Appends the 32-byte ABI word holding the small number `n` to `out`.
pub fn extend_abi_word(out: &mut Vec<u8>, n: u64)
    ensures
        final(out)@ == old(out)@ + abi_word(n),
{
    extend_zeros(out, 24);
    extend_u64_be(out, n);
    proof {
        assert(out@ =~= old(out)@ + abi_word(n));
    }
}

/// Copies `p[a..b]` into a fresh buffer.
pub fn copy_range(p: &Vec<u8>, a: usize, b: usize) -> (r: Vec<u8>)
    requires
        a <= b <= p@.len(),
    ensures
        r@ == p@.subrange(a as int, b as int),
{
    let mut r: Vec<u8> = Vec::new();
    let mut i: usize = a;
    while i < b
        invariant
            a <= i <= b <= p@.len(),
            r@ == p@.subrange(a as int, i as int),
        decreases b - i,
    {
        proof {
            assert(p@.subrange(a as int, i + 1) =~= p@.subrange(a as int, i as int).push(p@[i as int]));
        }
        r.push(p[i]);
        i += 1;
    }
    r
}

} // verus!
