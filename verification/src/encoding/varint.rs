//! Protobuf-style base-128 variable-length integers (1 to 10 bytes).
use vstd::prelude::*;
use crate::error::{Result, SunriseError};

verus! {

pub const MAX_VARINT_BYTES: usize = 10;

/// The canonical encoding of `v`: seven bits per byte, least significant group
/// first, with the high bit set on every byte but the last.
pub open spec fn varint_bytes(v: u64) -> Seq<u8>
    decreases v,
{
    if v < 128 {
        seq![v as u8]
    } else {
        seq![(v % 128 + 128) as u8] + varint_bytes(v / 128)
    }
}

/// What the decoder reports for a byte sequence.
pub enum VarintOutcome {
    /// A value and the number of bytes it took.
    Done(nat, nat),
    /// The input ended before the last byte; the decoder needed this many bytes.
    Short(nat),
    /// More than ten bytes, or a tenth byte that does not fit in 64 bits.
    Corrupt,
}

/// Decoding of `s`, whose first byte is byte number `k` of the varint.
pub open spec fn varint_decode_from(s: Seq<u8>, k: nat) -> VarintOutcome
    decreases s.len(),
{
    if s.len() == 0 {
        VarintOutcome::Short(k + 1)
    } else if k >= 10 {
        VarintOutcome::Corrupt
    } else if k == 9 && s[0] % 128 > 1 {
        VarintOutcome::Corrupt
    } else if s[0] < 128 {
        VarintOutcome::Done(s[0] as nat, 1)
    } else {
        match varint_decode_from(s.drop_first(), k + 1) {
            VarintOutcome::Done(v, n) => VarintOutcome::Done((s[0] % 128) as nat + 128 * v, n + 1),
            other => other,
        }
    }
}

/// Decoding of a byte sequence that starts a varint.
pub open spec fn varint_decode(s: Seq<u8>) -> VarintOutcome {
    varint_decode_from(s, 0)
}

/// The exclusive bound on what a varint may still hold from byte `k` on.
pub open spec fn varint_cap(k: nat) -> nat
    decreases 10 - k,
{
    if k >= 9 {
        2
    } else {
        128 * varint_cap(k + 1)
    }
}

proof fn lemma_cap_top()
    ensures
        varint_cap(0) == 0x1_0000_0000_0000_0000,
{
    reveal_with_fuel(varint_cap, 11);
}

proof fn lemma_cap_pos(k: nat)
    ensures
        varint_cap(k) >= 2,
    decreases 10 - k,
{
    if k < 9 {
        lemma_cap_pos(k + 1);
    }
}

/// Every value the decoder produces from byte `k` on is below `varint_cap(k)`.
proof fn lemma_decode_bound(s: Seq<u8>, k: nat)
    ensures
        varint_decode_from(s, k) matches VarintOutcome::Done(v, n) ==> v < varint_cap(k) && 1 <= n
            <= s.len() && k + n <= 10,
    decreases s.len(),
{
    lemma_cap_pos(k);
    if s.len() > 0 && k < 10 && !(k == 9 && s[0] % 128 > 1) && s[0] >= 128 {
        lemma_decode_bound(s.drop_first(), k + 1);
        if let VarintOutcome::Done(v, n) = varint_decode_from(s.drop_first(), k + 1) {
            assert(k < 9);
            assert(varint_cap(k) == 128 * varint_cap(k + 1));
            assert((s[0] % 128) as nat + 128 * v < varint_cap(k)) by (nonlinear_arith)
                requires
                    v < varint_cap(k + 1),
                    varint_cap(k) == 128 * varint_cap(k + 1),
                    s[0] % 128 < 128,
            ;
        }
    } else if s.len() > 0 && k < 10 && !(k == 9 && s[0] % 128 > 1) {
        if k < 9 {
            assert(varint_cap(k) == 128 * varint_cap(k + 1));
        }
    }
}

/// The encoding of any value takes between one and ten bytes.
pub proof fn lemma_varint_len(v: u64)
    ensures
        1 <= varint_bytes(v).len() <= 10,
        v < 128 ==> varint_bytes(v).len() == 1,
{
    lemma_cap_top();
    lemma_varint_len_from(v, 0);
}

proof fn lemma_varint_len_from(v: u64, k: nat)
    requires
        k <= 9,
        v < varint_cap(k),
    ensures
        1 <= varint_bytes(v).len() <= 10 - k,
    decreases v,
{
    if v >= 128 {
        if k >= 9 {
            assert(varint_cap(k) == 2);
        }
        assert(v / 128 < varint_cap(k + 1));
        lemma_varint_len_from(v / 128, k + 1);
    }
}

proof fn lemma_varint_roundtrip_from(v: u64, k: nat, rest: Seq<u8>)
    requires
        k <= 9,
        v < varint_cap(k),
    ensures
        varint_decode_from(varint_bytes(v) + rest, k) == VarintOutcome::Done(v as nat, varint_bytes(v).len()),
    decreases v,
{
    let s = varint_bytes(v) + rest;
    if v < 128 {
        if k == 9 {
            assert(varint_cap(9) == 2);
        }
        assert(s[0] == v as u8);
    } else {
        if k >= 9 {
            assert(varint_cap(k) == 2);
        }
        assert(varint_cap(k) == 128 * varint_cap(k + 1));
        assert(v / 128 < varint_cap(k + 1));
        lemma_varint_roundtrip_from(v / 128, k + 1, rest);
        assert(s.drop_first() =~= varint_bytes(v / 128) + rest);
        assert(s[0] == (v % 128 + 128) as u8);
    }
}

/// Decoding the encoding of `v`, whatever follows it, gives back `v` and the
/// number of bytes the encoding took.
pub proof fn lemma_varint_roundtrip(v: u64, rest: Seq<u8>)
    ensures
        varint_decode(varint_bytes(v) + rest) == VarintOutcome::Done(v as nat, varint_bytes(v).len()),
{
    lemma_cap_top();
    lemma_varint_roundtrip_from(v, 0, rest);
}

pub fn encode_varint(value: u64, target: &mut [u8]) -> (r: Result<usize>)
    ensures
        final(target)@.len() == old(target)@.len(),
        old(target)@.len() >= varint_bytes(value).len() ==> {
            &&& r matches Ok(n)
            &&& n == varint_bytes(value).len()
            &&& final(target)@ == varint_bytes(value) + old(target)@.skip(n as int)
        },
        old(target)@.len() < varint_bytes(value).len() ==> {
            &&& r matches Err(SunriseError::BufferTooShort { needed, available })
            &&& needed == old(target)@.len() + 1
            &&& available == old(target)@.len()
            &&& final(target)@ == varint_bytes(value).take(old(target)@.len() as int)
        },
{
    proof {
        lemma_varint_len(value);
    }
    let ghost orig = value;
    let mut value = value;
    let mut written: usize = 0;
    let mut short = false;
    loop
        invariant_except_break
            varint_bytes(orig) == target@.take(written as int) + varint_bytes(value),
            !short,
        invariant
            written <= target@.len(),
            target@.len() == old(target)@.len(),
            target@.skip(written as int) == old(target)@.skip(written as int),
            varint_bytes(orig).len() <= 10,
        ensures
            target@.len() == old(target)@.len(),
            !short ==> {
                &&& written == varint_bytes(orig).len()
                &&& target@ == varint_bytes(orig) + old(target)@.skip(written as int)
            },
            short ==> {
                &&& written == target@.len()
                &&& written < varint_bytes(orig).len()
                &&& target@ == varint_bytes(orig).take(target@.len() as int)
            },
        decreases target@.len() - written,
    {
        if written >= target.len() {
            proof {
                assert(target@.take(written as int) =~= target@);
                assert(varint_bytes(orig).take(written as int) =~= target@);
                assert(varint_bytes(value).len() >= 1) by { lemma_varint_len(value); }
            }
            short = true;
            break;
        }
        let ghost before = target@;
        let ghost vb = varint_bytes(value);
        if value >= 128 {
            let byte = (value % 128 + 128) as u8;
            target[written] = byte;
            value = value / 128;
            written += 1;
            proof {
                assert(vb =~= seq![byte] + varint_bytes(value));
                assert(target@.take(written as int) =~= before.take((written - 1) as int).push(byte));
                assert(before.skip((written - 1) as int) == old(target)@.skip((written - 1) as int));
                assert(target@.skip(written as int) =~= before.skip((written - 1) as int).skip(1));
                assert(target@.skip(written as int) =~= old(target)@.skip(written as int));
            }
        } else {
            target[written] = value as u8;
            written += 1;
            proof {
                assert(vb =~= seq![value as u8]);
                assert(target@.take(written as int) =~= before.take((written - 1) as int).push(value as u8));
                assert(varint_bytes(orig) =~= target@.take(written as int));
                assert(target@ =~= target@.take(written as int) + target@.skip(written as int));
                assert(before.skip((written - 1) as int) == old(target)@.skip((written - 1) as int));
                assert(target@.skip(written as int) =~= before.skip((written - 1) as int).skip(1));
                assert(target@.skip(written as int) =~= old(target)@.skip(written as int));
            }
            break;
        }
    }
    if short {
        let available = target.len();
        return Err(SunriseError::BufferTooShort { needed: available + 1, available });
    }
    Ok(written)
}

pub fn varint_size(value: u64) -> (size: usize)
    ensures
        size == varint_bytes(value).len(),
        1 <= size <= 10,
{
    proof {
        lemma_varint_len(value);
    }
    let ghost orig = value;
    let mut value = value;
    let mut size: usize = 0;
    loop
        invariant_except_break
            size + varint_bytes(value).len() == varint_bytes(orig).len(),
        invariant
            varint_bytes(orig).len() <= 10,
        ensures
            size == varint_bytes(orig).len(),
        decreases value,
    {
        size += 1;
        if value < 128 {
            break;
        }
        value = value / 128;
    }
    size
}

} // verus!

verus! {

/// `128` raised to `n`.
pub open spec fn pow128(n: nat) -> nat
    decreases n,
{
    if n == 0 {
        1
    } else {
        128 * pow128((n - 1) as nat)
    }
}

/// The outcome of the whole decoding, given the outcome from byte `read` on and
/// what the bytes before it contributed.
pub open spec fn varint_lift(o: VarintOutcome, acc: nat, mult: nat, read: nat) -> VarintOutcome {
    match o {
        VarintOutcome::Done(v, n) => VarintOutcome::Done(acc + mult * v, read + n),
        other => other,
    }
}

proof fn lemma_pow128_nine()
    ensures
        pow128(9) == 0x8000_0000_0000_0000,
{
    reveal_with_fuel(pow128, 10);
}

proof fn lemma_pow128_mono(a: nat, b: nat)
    requires
        a <= b,
    ensures
        pow128(a) <= pow128(b),
    decreases b - a,
{
    if a < b {
        lemma_pow128_mono(a, (b - 1) as nat);
    }
}

pub fn decode_varint(source: &[u8]) -> (r: Result<(u64, usize)>)
    ensures
        match varint_decode(source@) {
            VarintOutcome::Done(v, n) => r matches Ok((value, read)) && value == v && read == n,
            VarintOutcome::Short(needed) => r matches Err(SunriseError::BufferTooShort { needed: nd, available })
                && nd == needed && available == source@.len(),
            VarintOutcome::Corrupt => r matches Err(SunriseError::CorruptVarint),
        },
{
    let mut result: u64 = 0;
    let mut mult: u64 = 1;
    let mut read: usize = 0;
    proof {
        assert(source@.skip(0) =~= source@);
        lemma_pow128_nine();
    }
    while read < source.len()
        invariant
            read <= source@.len(),
            read <= 10,
            read <= 9 ==> mult == pow128(read as nat),
            read <= 9 ==> result < pow128(read as nat),
            varint_decode(source@) == varint_lift(
                varint_decode_from(source@.skip(read as int), read as nat),
                result as nat,
                pow128(read as nat),
                read as nat,
            ),
            pow128(9) == 0x8000_0000_0000_0000,
        decreases source@.len() - read,
    {
        let ghost rest = source@.skip(read as int);
        let byte = source[read];
        assert(rest[0] == byte);
        if read + 1 > MAX_VARINT_BYTES {
            return Err(SunriseError::CorruptVarint);
        }
        let val = (byte % 128) as u64;
        if read == 9 && val > 1 {
            return Err(SunriseError::CorruptVarint);
        }
        proof {
            lemma_pow128_mono(read as nat, 9);
        }
        assert(result + mult * val < 128 * pow128(read as nat)) by (nonlinear_arith)
            requires
                result < pow128(read as nat),
                mult == pow128(read as nat),
                val < 128,
        ;
        assert(read == 9 ==> result + mult * val < 0x1_0000_0000_0000_0000) by (nonlinear_arith)
            requires
                read == 9 ==> result < 0x8000_0000_0000_0000,
                read == 9 ==> mult == 0x8000_0000_0000_0000,
                read == 9 ==> val <= 1,
        ;
        assert(read < 9 ==> 128 * pow128(read as nat) <= 0x8000_0000_0000_0000) by {
            if read < 9 {
                lemma_pow128_mono((read + 1) as nat, 9);
            }
        }
        let next = result + mult * val;
        if byte < 128 {
            return Ok((next, read + 1));
        }
        proof {
            assert(rest.drop_first() =~= source@.skip(read + 1));
            let inner = varint_decode_from(source@.skip(read + 1), (read + 1) as nat);
            if let VarintOutcome::Done(v, n) = inner {
                assert(result + mult * (val + 128 * v) == next + (128 * mult) * v) by (nonlinear_arith)
                    requires
                        next == result + mult * val,
                ;
            }
        }
        result = next;
        if read < 9 {
            mult = mult * 128;
        }
        read = read + 1;
    }
    Err(SunriseError::BufferTooShort { needed: read + 1, available: source.len() })
}

/// The protobuf tag for a field number and wire type.
pub open spec fn tag_value(field_number: u32, wire_type: u8) -> u64 {
    (field_number * 8 + wire_type % 8) as u64
}

pub fn encode_tag(field_number: u32, wire_type: u8, target: &mut [u8]) -> (r: Result<usize>)
    ensures
        final(target)@.len() == old(target)@.len(),
        old(target)@.len() >= varint_bytes(tag_value(field_number, wire_type)).len() ==> {
            &&& r matches Ok(n)
            &&& n == varint_bytes(tag_value(field_number, wire_type)).len()
            &&& final(target)@ == varint_bytes(tag_value(field_number, wire_type)) + old(target)@.skip(n as int)
        },
        old(target)@.len() < varint_bytes(tag_value(field_number, wire_type)).len() ==> {
            &&& r matches Err(SunriseError::BufferTooShort { needed, available })
            &&& needed == old(target)@.len() + 1
            &&& available == old(target)@.len()
            &&& final(target)@ == varint_bytes(tag_value(field_number, wire_type)).take(old(target)@.len() as int)
        },
{
    let tag = (field_number as u64) * 8 + (wire_type as u64) % 8;
    encode_varint(tag, target)
}

pub fn decode_tag(source: &[u8]) -> (r: Result<((u32, u8), usize)>)
    ensures
        match varint_decode(source@) {
            VarintOutcome::Done(v, n) => r matches Ok(((field, wire), read))
                && field == (v / 8) as u32 && wire == (v % 8) as u8 && read == n,
            VarintOutcome::Short(needed) => r matches Err(SunriseError::BufferTooShort { needed: nd, available })
                && nd == needed && available == source@.len(),
            VarintOutcome::Corrupt => r matches Err(SunriseError::CorruptVarint),
        },
{
    let (tag, read) = decode_varint(source)?;
    let field_number = (tag / 8) as u32;
    let wire_type = (tag % 8) as u8;
    Ok(((field_number, wire_type), read))
}

/// A tag written by `encode_tag` decodes to the same field number and the wire
/// type's low three bits.
pub proof fn lemma_tag_roundtrip(field_number: u32, wire_type: u8, rest: Seq<u8>)
    ensures
        varint_decode(varint_bytes(tag_value(field_number, wire_type)) + rest) matches VarintOutcome::Done(v, n)
            && (v / 8) as u32 == field_number && (v % 8) as u8 == wire_type % 8
            && n == varint_bytes(tag_value(field_number, wire_type)).len(),
{
    lemma_varint_roundtrip(tag_value(field_number, wire_type), rest);
}

} // verus!
