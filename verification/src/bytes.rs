//! Big-endian integer encoding and small byte-sequence helpers used by the
//! APDU codec and the secure channel.

use vstd::prelude::*;

verus! {

/// A sequence of `n` zero bytes.
pub open spec fn zero_bytes(n: int) -> Seq<u8> {
    Seq::new(n as nat, |i: int| 0u8)
}

/// Big-endian encoding of a 16-bit integer as two bytes.
pub open spec fn spec_be16(n: u16) -> Seq<u8> {
    seq![(n / 256) as u8, (n % 256) as u8]
}

/// The 16-bit integer stored big-endian in two bytes.
pub open spec fn spec_read_be16(b0: u8, b1: u8) -> u16 {
    (b0 * 256 + b1) as u16
}

/// Big-endian encoding of a 32-bit integer as four bytes.
pub open spec fn spec_be32(n: u32) -> Seq<u8> {
    seq![
        (n / 0x100_0000) as u8,
        ((n / 0x1_0000) % 256) as u8,
        ((n / 256) % 256) as u8,
        (n % 256) as u8,
    ]
}

/// Reading back the two bytes of `spec_be16` yields the encoded integer.
pub proof fn lemma_be16_roundtrip(n: u16)
    ensures
        spec_read_be16(spec_be16(n)[0], spec_be16(n)[1]) == n,
{
}

/// Append the big-endian encoding of `n` to `out`.
pub fn write_be16(out: &mut Vec<u8>, n: u16)
    ensures
        final(out)@ == old(out)@ + spec_be16(n),
{
    out.push((n / 256) as u8);
    out.push((n % 256) as u8);
    proof {
        assert(out@ =~= old(out)@ + spec_be16(n));
    }
}

/// Decode a big-endian 16-bit integer from two bytes.
pub fn read_be16(b0: u8, b1: u8) -> (r: u16)
    ensures
        r == spec_read_be16(b0, b1),
{
    (b0 as u16) * 256 + (b1 as u16)
}

/// Append the big-endian encoding of `n` to `out`.
pub fn write_be32(out: &mut Vec<u8>, n: u32)
    ensures
        final(out)@ == old(out)@ + spec_be32(n),
{
    out.push((n / 0x100_0000) as u8);
    out.push(((n / 0x1_0000) % 256) as u8);
    out.push(((n / 256) % 256) as u8);
    out.push((n % 256) as u8);
    proof {
        assert(out@ =~= old(out)@ + spec_be32(n));
    }
}

/// Copy the bytes of `s` between `start` and `end` into a fresh vector.
pub fn copy_range(s: &[u8], start: usize, end: usize) -> (r: Vec<u8>)
    requires
        start <= end <= s@.len(),
    ensures
        r@ == s@.subrange(start as int, end as int),
{
    let mut r: Vec<u8> = Vec::new();
    let mut i: usize = start;
    while i < end
        invariant
            start <= i <= end <= s@.len(),
            r@ == s@.subrange(start as int, i as int),
        decreases end - i,
    {
        r.push(s[i]);
        i = i + 1;
        proof {
            assert(r@ =~= s@.subrange(start as int, i as int));
        }
    }
    r
}

/// Append `count` zero bytes to `out`.
pub fn write_zeros(out: &mut Vec<u8>, count: usize)
    ensures
        final(out)@ == old(out)@ + zero_bytes(count as int),
{
    let mut i: usize = 0;
    while i < count
        invariant
            i <= count,
            out@ == old(out)@ + zero_bytes(i as int),
        decreases count - i,
    {
        out.push(0u8);
        i = i + 1;
        proof {
            assert(out@ =~= old(out)@ + zero_bytes(i as int));
        }
    }
}

} // verus!
