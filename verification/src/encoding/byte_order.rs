//! Fixed-width integers in network (big-endian) and little-endian byte order.
use vstd::prelude::*;

verus! {

/// The two bytes of `v`, most significant first.
pub open spec fn u16_be_bytes(v: u16) -> Seq<u8> {
    seq![(v / 0x100) as u8, (v % 0x100) as u8]
}

/// The four bytes of `v`, most significant first.
pub open spec fn u32_be_bytes(v: u32) -> Seq<u8> {
    seq![
        (v / 0x1000000) as u8,
        ((v / 0x10000) % 0x100) as u8,
        ((v / 0x100) % 0x100) as u8,
        (v % 0x100) as u8,
    ]
}

/// The eight bytes of `v`, most significant first.
pub open spec fn u64_be_bytes(v: u64) -> Seq<u8> {
    u32_be_bytes((v / 0x1_0000_0000) as u32) + u32_be_bytes((v % 0x1_0000_0000) as u32)
}

/// The four bytes of `v`, least significant first.
pub open spec fn u32_le_bytes(v: u32) -> Seq<u8> {
    u32_be_bytes(v).reverse()
}

/// The eight bytes of `v`, least significant first.
pub open spec fn u64_le_bytes(v: u64) -> Seq<u8> {
    u64_be_bytes(v).reverse()
}

/// The big-endian number held by the first two bytes of `s`.
pub open spec fn be16(s: Seq<u8>) -> u16 {
    (s[0] * 0x100 + s[1]) as u16
}

/// The big-endian number held by the first four bytes of `s`.
pub open spec fn be32(s: Seq<u8>) -> u32 {
    (s[0] * 0x1000000 + s[1] * 0x10000 + s[2] * 0x100 + s[3]) as u32
}

/// The big-endian number held by the first eight bytes of `s`.
pub open spec fn be64(s: Seq<u8>) -> u64 {
    (be32(s) * 0x1_0000_0000 + be32(s.subrange(4, 8))) as u64
}

/// The little-endian number held by the first two bytes of `s`.
pub open spec fn le16(s: Seq<u8>) -> u16 {
    (s[1] * 0x100 + s[0]) as u16
}

/// The little-endian number held by the first four bytes of `s`.
pub open spec fn le32(s: Seq<u8>) -> u32 {
    (s[3] * 0x1000000 + s[2] * 0x10000 + s[1] * 0x100 + s[0]) as u32
}

/// The little-endian number held by the first eight bytes of `s`.
pub open spec fn le64(s: Seq<u8>) -> u64 {
    (le32(s.subrange(4, 8)) * 0x1_0000_0000 + le32(s)) as u64
}

/// Reading back what a big-endian write of a `u16` produced gives the value.
pub proof fn lemma_be16_roundtrip(v: u16)
    ensures
        be16(u16_be_bytes(v)) == v,
{
}

/// Reading back what a big-endian write of a `u32` produced gives the value.
pub proof fn lemma_be32_roundtrip(v: u32)
    ensures
        be32(u32_be_bytes(v)) == v,
{
}

/// Reading back what a big-endian write of a `u64` produced gives the value.
pub proof fn lemma_be64_roundtrip(v: u64)
    ensures
        be64(u64_be_bytes(v)) == v,
{
    let hi = (v / 0x1_0000_0000) as u32;
    let lo = (v % 0x1_0000_0000) as u32;
    lemma_be32_roundtrip(hi);
    lemma_be32_roundtrip(lo);
    assert(u64_be_bytes(v).subrange(4, 8) =~= u32_be_bytes(lo));
}

/// Reading back what a little-endian write of a `u32` produced gives the value.
pub proof fn lemma_le32_roundtrip(v: u32)
    ensures
        le32(u32_le_bytes(v)) == v,
{
}

/// Reading back what a little-endian write of a `u64` produced gives the value.
pub proof fn lemma_le64_roundtrip(v: u64)
    ensures
        le64(u64_le_bytes(v)) == v,
{
    let hi = (v / 0x1_0000_0000) as u32;
    let lo = (v % 0x1_0000_0000) as u32;
    lemma_le32_roundtrip(hi);
    lemma_le32_roundtrip(lo);
    assert(u64_le_bytes(v).subrange(4, 8) =~= u32_le_bytes(hi));
    assert(u64_le_bytes(v).subrange(0, 4) =~= u32_le_bytes(lo));
}

/// The bytes of a big-endian `u16`, most significant first.
pub fn u16_to_be_bytes(v: u16) -> (b: [u8; 2])
    ensures
        b@ == u16_be_bytes(v),
{
    let b = [(v / 0x100) as u8, (v % 0x100) as u8];
    assert(b@ =~= u16_be_bytes(v));
    b
}

/// The bytes of a big-endian `u32`, most significant first.
pub fn u32_to_be_bytes(v: u32) -> (b: [u8; 4])
    ensures
        b@ == u32_be_bytes(v),
{
    let b = [
        (v / 0x1000000) as u8,
        ((v / 0x10000) % 0x100) as u8,
        ((v / 0x100) % 0x100) as u8,
        (v % 0x100) as u8,
    ];
    assert(b@ =~= u32_be_bytes(v));
    b
}

pub fn read_u16_be(slice: &[u8]) -> (r: Option<u16>)
    ensures
        r == (if slice@.len() < 2 { None } else { Some(be16(slice@)) }),
{
    if slice.len() < 2 {
        return None;
    }
    Some((slice[0] as u16) * 0x100 + slice[1] as u16)
}

pub fn read_u32_be(slice: &[u8]) -> (r: Option<u32>)
    ensures
        r == (if slice@.len() < 4 { None } else { Some(be32(slice@)) }),
{
    if slice.len() < 4 {
        return None;
    }
    Some((slice[0] as u32) * 0x1000000 + (slice[1] as u32) * 0x10000 + (slice[2] as u32) * 0x100
        + slice[3] as u32)
}

pub fn read_u64_be(slice: &[u8]) -> (r: Option<u64>)
    ensures
        r == (if slice@.len() < 8 { None } else { Some(be64(slice@)) }),
{
    if slice.len() < 8 {
        return None;
    }
    let hi = (slice[0] as u64) * 0x1000000 + (slice[1] as u64) * 0x10000 + (slice[2] as u64)
        * 0x100 + slice[3] as u64;
    let lo = (slice[4] as u64) * 0x1000000 + (slice[5] as u64) * 0x10000 + (slice[6] as u64)
        * 0x100 + slice[7] as u64;
    assert(slice@.subrange(4, 8)[0] == slice@[4]);
    assert(slice@.subrange(4, 8)[1] == slice@[5]);
    assert(slice@.subrange(4, 8)[2] == slice@[6]);
    assert(slice@.subrange(4, 8)[3] == slice@[7]);
    Some(hi * 0x1_0000_0000 + lo)
}

pub fn write_u16_be(target: &mut [u8], value: u16) -> (ok: bool)
    ensures
        ok == (old(target)@.len() >= 2),
        ok ==> final(target)@ == u16_be_bytes(value) + old(target)@.subrange(2, old(target)@.len() as int),
        !ok ==> final(target)@ == old(target)@,
{
    if target.len() < 2 {
        return false;
    }
    target[0] = (value / 0x100) as u8;
    target[1] = (value % 0x100) as u8;
    assert(target@ =~= u16_be_bytes(value) + old(target)@.subrange(2, old(target)@.len() as int));
    true
}

pub fn write_u32_be(target: &mut [u8], value: u32) -> (ok: bool)
    ensures
        ok == (old(target)@.len() >= 4),
        ok ==> final(target)@ == u32_be_bytes(value) + old(target)@.subrange(4, old(target)@.len() as int),
        !ok ==> final(target)@ == old(target)@,
{
    if target.len() < 4 {
        return false;
    }
    target[0] = (value / 0x1000000) as u8;
    target[1] = ((value / 0x10000) % 0x100) as u8;
    target[2] = ((value / 0x100) % 0x100) as u8;
    target[3] = (value % 0x100) as u8;
    assert(target@ =~= u32_be_bytes(value) + old(target)@.subrange(4, old(target)@.len() as int));
    true
}

pub fn write_u64_be(target: &mut [u8], value: u64) -> (ok: bool)
    ensures
        ok == (old(target)@.len() >= 8),
        ok ==> final(target)@ == u64_be_bytes(value) + old(target)@.subrange(8, old(target)@.len() as int),
        !ok ==> final(target)@ == old(target)@,
{
    if target.len() < 8 {
        return false;
    }
    let hi = (value / 0x1_0000_0000) as u32;
    let lo = (value % 0x1_0000_0000) as u32;
    target[0] = (hi / 0x1000000) as u8;
    target[1] = ((hi / 0x10000) % 0x100) as u8;
    target[2] = ((hi / 0x100) % 0x100) as u8;
    target[3] = (hi % 0x100) as u8;
    target[4] = (lo / 0x1000000) as u8;
    target[5] = ((lo / 0x10000) % 0x100) as u8;
    target[6] = ((lo / 0x100) % 0x100) as u8;
    target[7] = (lo % 0x100) as u8;
    assert(target@ =~= u64_be_bytes(value) + old(target)@.subrange(8, old(target)@.len() as int));
    true
}

pub fn read_u16_le(slice: &[u8]) -> (r: Option<u16>)
    ensures
        r == (if slice@.len() < 2 { None } else { Some(le16(slice@)) }),
{
    if slice.len() < 2 {
        return None;
    }
    Some((slice[1] as u16) * 0x100 + slice[0] as u16)
}

pub fn read_u32_le(slice: &[u8]) -> (r: Option<u32>)
    ensures
        r == (if slice@.len() < 4 { None } else { Some(le32(slice@)) }),
{
    if slice.len() < 4 {
        return None;
    }
    Some((slice[3] as u32) * 0x1000000 + (slice[2] as u32) * 0x10000 + (slice[1] as u32) * 0x100
        + slice[0] as u32)
}

pub fn write_u32_le(target: &mut [u8], value: u32) -> (ok: bool)
    ensures
        ok == (old(target)@.len() >= 4),
        ok ==> final(target)@ == u32_le_bytes(value) + old(target)@.subrange(4, old(target)@.len() as int),
        !ok ==> final(target)@ == old(target)@,
{
    if target.len() < 4 {
        return false;
    }
    target[3] = (value / 0x1000000) as u8;
    target[2] = ((value / 0x10000) % 0x100) as u8;
    target[1] = ((value / 0x100) % 0x100) as u8;
    target[0] = (value % 0x100) as u8;
    assert(target@ =~= u32_le_bytes(value) + old(target)@.subrange(4, old(target)@.len() as int));
    true
}

} // verus!

verus! {

/// The bytes of a little-endian `u32`, least significant first.
pub fn u32_to_le_bytes(v: u32) -> (b: [u8; 4])
    ensures
        b@ == u32_le_bytes(v),
{
    let b = [
        (v % 0x100) as u8,
        ((v / 0x100) % 0x100) as u8,
        ((v / 0x10000) % 0x100) as u8,
        (v / 0x1000000) as u8,
    ];
    assert(b@ =~= u32_le_bytes(v));
    b
}

/// The bytes of a little-endian `u64`, least significant first.
pub fn u64_to_le_bytes(v: u64) -> (b: [u8; 8])
    ensures
        b@ == u64_le_bytes(v),
{
    let lo = u32_to_le_bytes((v % 0x1_0000_0000) as u32);
    let hi = u32_to_le_bytes((v / 0x1_0000_0000) as u32);
    let b = [lo[0], lo[1], lo[2], lo[3], hi[0], hi[1], hi[2], hi[3]];
    assert(b@ =~= u64_le_bytes(v));
    b
}

/// Copies `src` into `target` from position `off` on.
pub fn put_bytes(target: &mut [u8], off: usize, src: &[u8])
    requires
        off + src@.len() <= old(target)@.len(),
    ensures
        final(target)@ == old(target)@.subrange(0, off as int) + src@ + old(target)@.subrange(
            off + src@.len(),
            old(target)@.len() as int,
        ),
{
    let tl = target.len();
    let mut i: usize = 0;
    while i < src.len()
        invariant
            i <= src@.len(),
            tl == target@.len(),
            off + src@.len() <= target@.len(),
            target@.len() == old(target)@.len(),
            target@ == old(target)@.subrange(0, off as int) + src@.subrange(0, i as int) + old(target)@.subrange(
                off + i,
                old(target)@.len() as int,
            ),
        decreases src@.len() - i,
    {
        target[off + i] = src[i];
        i += 1;
        proof {
            assert(target@ =~= old(target)@.subrange(0, off as int) + src@.subrange(0, i as int) + old(
                target,
            )@.subrange(off + i, old(target)@.len() as int));
        }
    }
    proof {
        assert(src@.subrange(0, i as int) =~= src@);
    }
}

/// The little-endian `u64` at `off`.
pub fn get_u64_le(source: &[u8], off: usize) -> (v: u64)
    requires
        off + 8 <= source@.len(),
    ensures
        v == le64(source@.subrange(off as int, off + 8)),
{
    let _ = source.len();
    let ghost s = source@.subrange(off as int, off + 8);
    assert(s.subrange(4, 8) =~= source@.subrange(off + 4, off + 8));
    let lo = get_u32_le(source, off);
    let hi = get_u32_le(source, off + 4);
    (hi as u64) * 0x1_0000_0000 + lo as u64
}

/// The little-endian `u32` at `off`.
pub fn get_u32_le(source: &[u8], off: usize) -> (v: u32)
    requires
        off + 4 <= source@.len(),
    ensures
        v == le32(source@.subrange(off as int, off + 4)),
{
    let _ = source.len();
    (source[off + 3] as u32) * 0x1000000 + (source[off + 2] as u32) * 0x10000 + (source[off + 1] as u32)
        * 0x100 + source[off] as u32
}

} // verus!
