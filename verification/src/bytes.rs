//! Big-endian integer fields of the wire format.

use vstd::prelude::*;

verus! {

/// The two big-endian bytes of a 16-bit value.
pub open spec fn be16_bytes(x: u16) -> Seq<u8> {
    seq![(x / 0x100) as u8, (x % 0x100) as u8]
}

/// The four big-endian bytes of a 32-bit value.
pub open spec fn be32_bytes(x: u32) -> Seq<u8> {
    seq![
        (x / 0x1000000) as u8,
        ((x / 0x10000) % 0x100) as u8,
        ((x / 0x100) % 0x100) as u8,
        (x % 0x100) as u8,
    ]
}

/// The eight big-endian bytes of a 64-bit value.
pub open spec fn be64_bytes(x: u64) -> Seq<u8> {
    seq![
        ((x / 0x100000000000000) % 0x100) as u8,
        ((x / 0x1000000000000) % 0x100) as u8,
        ((x / 0x10000000000) % 0x100) as u8,
        ((x / 0x100000000) % 0x100) as u8,
        ((x / 0x1000000) % 0x100) as u8,
        ((x / 0x10000) % 0x100) as u8,
        ((x / 0x100) % 0x100) as u8,
        (x % 0x100) as u8,
    ]
}

/// The 16-bit value read from two big-endian bytes.
pub open spec fn be16_value(b0: u8, b1: u8) -> u16 {
    (b0 * 0x100 + b1) as u16
}

/// The 32-bit value read from four big-endian bytes.
pub open spec fn be32_value(b0: u8, b1: u8, b2: u8, b3: u8) -> u32 {
    (b0 * 0x1000000 + b1 * 0x10000 + b2 * 0x100 + b3) as u32
}

/// The 64-bit value read from eight big-endian bytes.
pub open spec fn be64_value(b: Seq<u8>) -> u64
    recommends
        b.len() == 8,
{
    (b[0] * 0x100000000000000 + b[1] * 0x1000000000000 + b[2] * 0x10000000000 + b[3] * 0x100000000
        + b[4] * 0x1000000 + b[5] * 0x10000 + b[6] * 0x100 + b[7]) as u64
}

/// Reading back the two bytes of a 16-bit value gives the value.
pub proof fn lemma_be16_roundtrip(x: u16)
    ensures
        be16_value(be16_bytes(x)[0], be16_bytes(x)[1]) == x,
{
}

/// Reading back the four bytes of a 32-bit value gives the value.
pub proof fn lemma_be32_roundtrip(x: u32)
    ensures
        be32_value(be32_bytes(x)[0], be32_bytes(x)[1], be32_bytes(x)[2], be32_bytes(x)[3]) == x,
{
}

/// Reading back the eight bytes of a 64-bit value gives the value.
pub proof fn lemma_be64_roundtrip(x: u64)
    ensures
        be64_value(be64_bytes(x)) == x,
{
    let x0 = x as int;
    let x1 = x0 / 0x100;
    let x2 = x0 / 0x10000;
    let x3 = x0 / 0x1000000;
    let x4 = x0 / 0x100000000;
    let x5 = x0 / 0x10000000000;
    let x6 = x0 / 0x1000000000000;
    let x7 = x0 / 0x100000000000000;
    vstd::arithmetic::div_mod::lemma_div_denominator(x0, 0x100, 0x100);
    vstd::arithmetic::div_mod::lemma_div_denominator(x0, 0x10000, 0x100);
    vstd::arithmetic::div_mod::lemma_div_denominator(x0, 0x1000000, 0x100);
    vstd::arithmetic::div_mod::lemma_div_denominator(x0, 0x100000000, 0x100);
    vstd::arithmetic::div_mod::lemma_div_denominator(x0, 0x10000000000, 0x100);
    vstd::arithmetic::div_mod::lemma_div_denominator(x0, 0x1000000000000, 0x100);
    assert(x1 / 0x100 == x2 && x2 / 0x100 == x3 && x3 / 0x100 == x4 && x4 / 0x100 == x5 && x5
        / 0x100 == x6 && x6 / 0x100 == x7);
    assert(x0 == 0x100 * x1 + x0 % 0x100) by {
        vstd::arithmetic::div_mod::lemma_fundamental_div_mod(x0, 0x100);
    }
    assert(x1 == 0x100 * x2 + x1 % 0x100) by {
        vstd::arithmetic::div_mod::lemma_fundamental_div_mod(x1, 0x100);
    }
    assert(x2 == 0x100 * x3 + x2 % 0x100) by {
        vstd::arithmetic::div_mod::lemma_fundamental_div_mod(x2, 0x100);
    }
    assert(x3 == 0x100 * x4 + x3 % 0x100) by {
        vstd::arithmetic::div_mod::lemma_fundamental_div_mod(x3, 0x100);
    }
    assert(x4 == 0x100 * x5 + x4 % 0x100) by {
        vstd::arithmetic::div_mod::lemma_fundamental_div_mod(x4, 0x100);
    }
    assert(x5 == 0x100 * x6 + x5 % 0x100) by {
        vstd::arithmetic::div_mod::lemma_fundamental_div_mod(x5, 0x100);
    }
    assert(x6 == 0x100 * x7 + x6 % 0x100) by {
        vstd::arithmetic::div_mod::lemma_fundamental_div_mod(x6, 0x100);
    }
    assert(x7 < 0x100);
}

/// Two bytes read as a 16-bit value re-encode to the same two bytes.
pub proof fn lemma_be16_bytes_of_value(b0: u8, b1: u8)
    ensures
        be16_bytes(be16_value(b0, b1)) == seq![b0, b1],
{
    let x = be16_value(b0, b1);
    assert(x / 0x100 == b0 && x % 0x100 == b1) by (bit_vector)
        requires
            x == (b0 as u16) * 0x100 + (b1 as u16),
    ;
    assert(be16_bytes(x) =~= seq![b0, b1]);
}

/// Four bytes read as a 32-bit value re-encode to the same four bytes.
pub proof fn lemma_be32_bytes_of_value(b0: u8, b1: u8, b2: u8, b3: u8)
    ensures
        be32_bytes(be32_value(b0, b1, b2, b3)) == seq![b0, b1, b2, b3],
{
    let x = be32_value(b0, b1, b2, b3);
    assert(x / 0x1000000 == b0 && (x / 0x10000) % 0x100 == b1 && (x / 0x100) % 0x100 == b2 && x
        % 0x100 == b3) by (bit_vector)
        requires
            x == (b0 as u32) * 0x1000000 + (b1 as u32) * 0x10000 + (b2 as u32) * 0x100 + (
            b3 as u32),
    ;
    assert(be32_bytes(x) =~= seq![b0, b1, b2, b3]);
}

/// Append a 16-bit value to a buffer, most significant byte first.
pub fn push_be16(buf: &mut Vec<u8>, x: u16)
    ensures
        final(buf)@ == old(buf)@ + be16_bytes(x),
{
    buf.push((x / 0x100) as u8);
    buf.push((x % 0x100) as u8);
    assert(final(buf)@ =~= old(buf)@ + be16_bytes(x));
}

/// Append a 32-bit value to a buffer, most significant byte first.
pub fn push_be32(buf: &mut Vec<u8>, x: u32)
    ensures
        final(buf)@ == old(buf)@ + be32_bytes(x),
{
    buf.push((x / 0x1000000) as u8);
    buf.push(((x / 0x10000) % 0x100) as u8);
    buf.push(((x / 0x100) % 0x100) as u8);
    buf.push((x % 0x100) as u8);
    assert(final(buf)@ =~= old(buf)@ + be32_bytes(x));
}

/// Append a 64-bit value to a buffer, most significant byte first.
pub fn push_be64(buf: &mut Vec<u8>, x: u64)
    ensures
        final(buf)@ == old(buf)@ + be64_bytes(x),
{
    buf.push(((x / 0x100000000000000) % 0x100) as u8);
    buf.push(((x / 0x1000000000000) % 0x100) as u8);
    buf.push(((x / 0x10000000000) % 0x100) as u8);
    buf.push(((x / 0x100000000) % 0x100) as u8);
    buf.push(((x / 0x1000000) % 0x100) as u8);
    buf.push(((x / 0x10000) % 0x100) as u8);
    buf.push(((x / 0x100) % 0x100) as u8);
    buf.push((x % 0x100) as u8);
    assert(final(buf)@ =~= old(buf)@ + be64_bytes(x));
}

/// Read a 16-bit big-endian value at the given position.
pub fn read_be16(bytes: &Vec<u8>, pos: usize) -> (r: u16)
    requires
        pos + 2 <= bytes@.len(),
    ensures
        r == be16_value(bytes@[pos as int], bytes@[pos + 1]),
{
    let n = bytes.len();
    let b0 = bytes[pos];
    let b1 = bytes[pos + 1];
    (b0 as u16) * 0x100 + (b1 as u16)
}

/// Read a 32-bit big-endian value at the given position.
pub fn read_be32(bytes: &Vec<u8>, pos: usize) -> (r: u32)
    requires
        pos + 4 <= bytes@.len(),
    ensures
        r == be32_value(bytes@[pos as int], bytes@[pos + 1], bytes@[pos + 2], bytes@[pos + 3]),
{
    let n = bytes.len();
    let b0 = bytes[pos];
    let b1 = bytes[pos + 1];
    let b2 = bytes[pos + 2];
    let b3 = bytes[pos + 3];
    (b0 as u32) * 0x1000000 + (b1 as u32) * 0x10000 + (b2 as u32) * 0x100 + (b3 as u32)
}

/// Read a 64-bit big-endian value at the given position.
pub fn read_be64(bytes: &Vec<u8>, pos: usize) -> (r: u64)
    requires
        pos + 8 <= bytes@.len(),
    ensures
        r == be64_value(bytes@.subrange(pos as int, pos + 8)),
{
    let n = bytes.len();
    let b0 = bytes[pos];
    let b1 = bytes[pos + 1];
    let b2 = bytes[pos + 2];
    let b3 = bytes[pos + 3];
    let b4 = bytes[pos + 4];
    let b5 = bytes[pos + 5];
    let b6 = bytes[pos + 6];
    let b7 = bytes[pos + 7];
    let r = (b0 as u64) * 0x100000000000000 + (b1 as u64) * 0x1000000000000 + (b2 as u64)
        * 0x10000000000 + (b3 as u64) * 0x100000000 + (b4 as u64) * 0x1000000 + (b5 as u64)
        * 0x10000 + (b6 as u64) * 0x100 + (b7 as u64);
    proof {
        let s = bytes@.subrange(pos as int, pos + 8);
        assert(s[0] == b0 && s[1] == b1 && s[2] == b2 && s[3] == b3 && s[4] == b4 && s[5] == b5
            && s[6] == b6 && s[7] == b7);
    }
    r
}

} // verus!
