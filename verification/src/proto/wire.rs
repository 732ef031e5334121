//! Big-endian integers, as the wire format lays them out.

use vstd::prelude::*;

verus! {

broadcast use vstd::slice::group_slice_axioms;

/// The two bytes of `v`, most significant first.
pub open spec fn be16(v: u16) -> Seq<u8> {
    seq![(v / 0x100) as u8, (v % 0x100) as u8]
}

/// The four bytes of `v`, most significant first.
pub open spec fn be32(v: u32) -> Seq<u8> {
    be16((v / 0x1_0000) as u16) + be16((v % 0x1_0000) as u16)
}

/// The eight bytes of `v`, most significant first.
pub open spec fn be64(v: u64) -> Seq<u8> {
    be32((v / 0x1_0000_0000) as u32) + be32((v % 0x1_0000_0000) as u32)
}

/// The number that the first two bytes of `s` spell, most significant first.
pub open spec fn from_be16(s: Seq<u8>) -> u16
    recommends
        s.len() >= 2,
{
    (s[0] * 0x100 + s[1]) as u16
}

/// The number that the first four bytes of `s` spell, most significant first.
pub open spec fn from_be32(s: Seq<u8>) -> u32
    recommends
        s.len() >= 4,
{
    (from_be16(s.subrange(0, 2)) * 0x1_0000 + from_be16(s.subrange(2, 4))) as u32
}

/// The number that the first eight bytes of `s` spell, most significant first.
pub open spec fn from_be64(s: Seq<u8>) -> u64
    recommends
        s.len() >= 8,
{
    (from_be32(s.subrange(0, 4)) * 0x1_0000_0000 + from_be32(s.subrange(4, 8))) as u64
}

/// Reading back the bytes of a 16-bit number gives the number.
pub proof fn lemma_be16_round_trip(v: u16)
    ensures
        be16(v).len() == 2,
        from_be16(be16(v)) == v,
{
}

/// Reading back the bytes of a 32-bit number gives the number.
pub proof fn lemma_be32_round_trip(v: u32)
    ensures
        be32(v).len() == 4,
        from_be32(be32(v)) == v,
{
    let hi = (v / 0x1_0000) as u16;
    let lo = (v % 0x1_0000) as u16;
    lemma_be16_round_trip(hi);
    lemma_be16_round_trip(lo);
    assert(be32(v).subrange(0, 2) =~= be16(hi));
    assert(be32(v).subrange(2, 4) =~= be16(lo));
}

/// Reading back the bytes of a 64-bit number gives the number.
pub proof fn lemma_be64_round_trip(v: u64)
    ensures
        be64(v).len() == 8,
        from_be64(be64(v)) == v,
{
    let hi = (v / 0x1_0000_0000) as u32;
    let lo = (v % 0x1_0000_0000) as u32;
    lemma_be32_round_trip(hi);
    lemma_be32_round_trip(lo);
    assert(be64(v).subrange(0, 4) =~= be32(hi));
    assert(be64(v).subrange(4, 8) =~= be32(lo));
}

/// Two bytes are the bytes of the number they spell.
pub proof fn lemma_from_be16_round_trip(s: Seq<u8>)
    requires
        s.len() == 2,
    ensures
        be16(from_be16(s)) == s,
{
    assert(be16(from_be16(s)) =~= s);
}

/// Four bytes are the bytes of the number they spell.
pub proof fn lemma_from_be32_round_trip(s: Seq<u8>)
    requires
        s.len() == 4,
    ensures
        be32(from_be32(s)) == s,
{
    let hi = s.subrange(0, 2);
    let lo = s.subrange(2, 4);
    lemma_from_be16_round_trip(hi);
    lemma_from_be16_round_trip(lo);
    let v = from_be32(s);
    assert((v / 0x1_0000) as u16 == from_be16(hi));
    assert((v % 0x1_0000) as u16 == from_be16(lo));
    assert(be32(v) =~= s);
}

/// Eight bytes are the bytes of the number they spell.
pub proof fn lemma_from_be64_round_trip(s: Seq<u8>)
    requires
        s.len() == 8,
    ensures
        be64(from_be64(s)) == s,
{
    let hi = s.subrange(0, 4);
    let lo = s.subrange(4, 8);
    lemma_from_be32_round_trip(hi);
    lemma_from_be32_round_trip(lo);
    let v = from_be64(s);
    assert((v / 0x1_0000_0000) as u32 == from_be32(hi));
    assert((v % 0x1_0000_0000) as u32 == from_be32(lo));
    assert(be64(v) =~= s);
}

/// Appends the two bytes of `v` to `out`.
pub fn put_u16(out: &mut Vec<u8>, v: u16)
    ensures
        final(out)@ == old(out)@ + be16(v),
{
    out.push((v / 0x100) as u8);
    out.push((v % 0x100) as u8);
    assert(out@ =~= old(out)@ + be16(v));
}

/// Appends the four bytes of `v` to `out`.
pub fn put_u32(out: &mut Vec<u8>, v: u32)
    ensures
        final(out)@ == old(out)@ + be32(v),
{
    put_u16(out, (v / 0x1_0000) as u16);
    put_u16(out, (v % 0x1_0000) as u16);
    assert(out@ =~= old(out)@ + be32(v));
}

/// Appends the eight bytes of `v` to `out`.
pub fn put_u64(out: &mut Vec<u8>, v: u64)
    ensures
        final(out)@ == old(out)@ + be64(v),
{
    put_u32(out, (v / 0x1_0000_0000) as u32);
    put_u32(out, (v % 0x1_0000_0000) as u32);
    assert(out@ =~= old(out)@ + be64(v));
}

/// Reads the 16-bit number at offset `at` of `bytes`.
pub fn get_u16(bytes: &[u8], at: usize) -> (r: u16)
    requires
        at + 2 <= bytes.len(),
    ensures
        r == from_be16(bytes@.subrange(at as int, at + 2)),
{
    let hi: u16 = bytes[at] as u16;
    let lo: u16 = bytes[at + 1] as u16;
    hi * 0x100 + lo
}

/// Reads the 32-bit number at offset `at` of `bytes`.
pub fn get_u32(bytes: &[u8], at: usize) -> (r: u32)
    requires
        at + 4 <= bytes.len(),
    ensures
        r == from_be32(bytes@.subrange(at as int, at + 4)),
{
    let hi: u32 = get_u16(bytes, at) as u32;
    let lo: u32 = get_u16(bytes, at + 2) as u32;
    proof {
        let s = bytes@.subrange(at as int, at + 4);
        assert(s.subrange(0, 2) =~= bytes@.subrange(at as int, at + 2));
        assert(s.subrange(2, 4) =~= bytes@.subrange(at + 2, at + 4));
    }
    hi * 0x1_0000 + lo
}

/// Reads the 64-bit number at offset `at` of `bytes`.
pub fn get_u64(bytes: &[u8], at: usize) -> (r: u64)
    requires
        at + 8 <= bytes.len(),
    ensures
        r == from_be64(bytes@.subrange(at as int, at + 8)),
{
    let hi: u64 = get_u32(bytes, at) as u64;
    let lo: u64 = get_u32(bytes, at + 4) as u64;
    proof {
        let s = bytes@.subrange(at as int, at + 8);
        assert(s.subrange(0, 4) =~= bytes@.subrange(at as int, at + 4));
        assert(s.subrange(4, 8) =~= bytes@.subrange(at + 4, at + 8));
    }
    hi * 0x1_0000_0000 + lo
}

} // verus!
