//! Bit-level writer and reader over a byte buffer, most significant bit first.
use vstd::prelude::*;
use vstd::arithmetic::power2::*;
use crate::error::{Result, SunriseError};

verus! {

/// Bit `i` of `buf`, counting from the most significant bit of the first byte.
pub open spec fn bit_at(buf: Seq<u8>, i: int) -> bool {
    (buf[i / 8] >> ((7 - i % 8) as u8)) & 1 == 1
}

/// The bits of `buf` from position `start`, `n` of them.
pub open spec fn bits_of(buf: Seq<u8>, start: int, n: nat) -> Seq<bool> {
    Seq::new(n, |j: int| bit_at(buf, start + j))
}

/// The low `n` bits of `v`, most significant first.
pub open spec fn msb_bits(v: nat, n: nat) -> Seq<bool>
    decreases n,
{
    if n == 0 {
        Seq::empty()
    } else {
        msb_bits(v / 2, (n - 1) as nat).push(v % 2 == 1)
    }
}

/// The number whose binary digits, most significant first, are `s`.
pub open spec fn bits_value(s: Seq<bool>) -> nat
    decreases s.len(),
{
    if s.len() == 0 {
        0
    } else {
        2 * bits_value(s.drop_last()) + (if s.last() { 1nat } else { 0nat })
    }
}

/// The number of bytes that hold `bits` bits.
pub open spec fn bytes_for_bits(bits: int) -> int {
    (bits + 7) / 8
}

/// The largest buffer the bit streams take: any longer one has more bits than
/// a `usize` counts.
pub open spec fn max_stream_bytes() -> int {
    usize::MAX / 8 - 16
}

/// Digit `j` of `msb_bits(v, n)` is bit `n - 1 - j` of `v`.
proof fn lemma_msb_bits_index(v: nat, n: nat, j: int)
    requires
        0 <= j < n,
    ensures
        msb_bits(v, n).len() == n,
        msb_bits(v, n)[j] == ((v / pow2((n - 1 - j) as nat)) % 2 == 1),
    decreases n,
{
    lemma_msb_bits_len(v, n);
    if j == n - 1 {
        lemma2_to64();
        assert(v / pow2(0) == v);
    } else {
        lemma_msb_bits_index(v / 2, (n - 1) as nat, j);
        lemma_msb_bits_len(v / 2, (n - 1) as nat);
        let e = (n - 2 - j) as nat;
        lemma_pow2_pos(e);
        vstd::arithmetic::div_mod::lemma_div_denominator(v as int, 2, pow2(e) as int);
        lemma_pow2_unfold((e + 1) as nat);
        assert(pow2((n - 1 - j) as nat) == 2 * pow2(e));
    }
}

proof fn lemma_msb_bits_len(v: nat, n: nat)
    ensures
        msb_bits(v, n).len() == n,
    decreases n,
{
    if n > 0 {
        lemma_msb_bits_len(v / 2, (n - 1) as nat);
    }
}

/// The number read back from the low `n` bits of `v` is `v` modulo `2^n`.
pub proof fn lemma_msb_bits_value(v: nat, n: nat)
    ensures
        bits_value(msb_bits(v, n)) == v % pow2(n),
    decreases n,
{
    if n == 0 {
        lemma2_to64();
    } else {
        lemma_msb_bits_value(v / 2, (n - 1) as nat);
        lemma_msb_bits_len(v / 2, (n - 1) as nat);
        let s = msb_bits(v, n);
        assert(s.drop_last() =~= msb_bits(v / 2, (n - 1) as nat));
        lemma_pow2_unfold(n);
        lemma_pow2_pos((n - 1) as nat);
        let p = pow2((n - 1) as nat) as int;
        vstd::arithmetic::div_mod::lemma_breakdown(v as int, 2, p);
    }
}

/// Setting bit `k` of a byte leaves the other bits alone and makes bit `k` one.
proof fn lemma_set_bit(b: u8, k: u8, m: u8)
    requires
        k < 8,
        m < 8,
    ensures
        ((b | (1u8 << k)) >> m) & 1 == (if m == k { 1u8 } else { (b >> m) & 1 }),
{
    assert(((b | (1u8 << k)) >> m) & 1 == (if m == k { 1u8 } else { (b >> m) & 1 })) by (bit_vector)
        requires
            k < 8,
            m < 8,
    ;
}

/// The bits of a zero byte are zero.
proof fn lemma_zero_byte(m: u8)
    requires
        m < 8,
    ensures
        (0u8 >> m) & 1 == 0,
{
    assert((0u8 >> m) & 1 == 0) by (bit_vector);
}

/// Bit `i` of `v` as a `u64` shift and mask is the same bit as division gives.
proof fn lemma_u64_bit(v: u64, i: u64)
    requires
        i < 64,
    ensures
        ((v >> i) & 1 == 1) == ((v as nat / pow2(i as nat)) % 2 == 1),
{
    vstd::bits::lemma_u64_shr_is_div(v, i);
    let w = v >> i;
    assert(w & 1 == w % 2) by (bit_vector);
}

/// Writes bits into a borrowed byte buffer. The buffer and the cursor are
/// open so that what the writer leaves in the caller's buffer can be stated.
pub struct BitWriter<'a> {
    pub buffer: &'a mut [u8],
    pub bit_cursor: usize,
}

/// The buffer after writing `n` bits, the low `n` bits of `value` most
/// significant first, at bit `start` of `before`: those bits set as written,
/// every other bit as it was.
pub open spec fn written_at(before: Seq<u8>, after: Seq<u8>, start: int, value: u64, n: nat) -> bool {
    &&& after.len() == before.len()
    &&& forall|p: int|
        0 <= p < 8 * before.len() ==> #[trigger] bit_at(after, p) == if start <= p < start + n {
            msb_bits(value as nat, n)[p - start]
        } else {
            bit_at(before, p)
        }
}

impl<'a> BitWriter<'a> {
    /// The bits written so far.
    pub open spec fn bits(&self) -> Seq<bool> {
        bits_of(self.buffer@, 0, self.bit_cursor as nat)
    }

    /// The size of the buffer in bytes.
    pub open spec fn capacity(&self) -> nat {
        self.buffer@.len()
    }

    /// The writer's invariant: the cursor lies inside the buffer and every bit
    /// at or after it is still zero.
    pub open spec fn wf(&self) -> bool {
        &&& self.buffer@.len() <= max_stream_bytes()
        &&& self.bit_cursor <= 8 * self.buffer@.len()
        &&& forall|p: int| self.bit_cursor <= p < 8 * self.buffer@.len() ==> !#[trigger] bit_at(self.buffer@, p)
    }

    /// Zeroes `buffer` and starts writing at its first bit; what the writer
    /// leaves in its buffer is what the caller's buffer holds afterwards.
    pub fn new(buffer: &'a mut [u8]) -> (w: Self)
        requires
            old(buffer)@.len() <= max_stream_bytes(),
        ensures
            w.wf(),
            w.bit_cursor == 0,
            w.buffer@ == Seq::new(old(buffer)@.len(), |i: int| 0u8),
            final(w.buffer)@ == final(buffer)@,
            w.bits() == Seq::<bool>::empty(),
            w.capacity() == old(buffer)@.len(),
    {
        let mut i: usize = 0;
        while i < buffer.len()
            invariant
                i <= buffer@.len(),
                buffer@.len() == old(buffer)@.len(),
                forall|k: int| 0 <= k < i ==> buffer@[k] == 0u8,
            decreases buffer@.len() - i,
        {
            buffer[i] = 0;
            i += 1;
        }
        proof {
            assert(buffer@ =~= Seq::new(old(buffer)@.len(), |i: int| 0u8));
        }
        let w = BitWriter { buffer, bit_cursor: 0 };
        assert forall|p: int| 0 <= p < 8 * w.buffer@.len() implies !#[trigger] bit_at(w.buffer@, p) by {
            lemma_zero_byte((7 - p % 8) as u8);
        }
        assert(w.bits() =~= Seq::<bool>::empty());
        w
    }

    /// Appends the low `bit_count` bits of `value`, most significant first:
    /// bit `7 - (c + j) % 8` of byte `(c + j) / 8` becomes digit `j`, where `c`
    /// is the cursor before the call; every other bit keeps its value. When the
    /// call fails, or writes nothing, the buffer and the cursor are unchanged.
    pub fn write_bits(&mut self, value: u64, bit_count: usize) -> (r: Result<()>)
        requires
            old(self).wf(),
        ensures
            final(self).wf(),
            final(self).capacity() == old(self).capacity(),
            final(final(self).buffer)@ == final(old(self).buffer)@,
            bit_count == 0 ==> r is Ok && final(self).buffer@ == old(self).buffer@ && final(self).bit_cursor == old(
                self,
            ).bit_cursor,
            bit_count > 64 ==> (r matches Err(SunriseError::InvalidBitStream) && final(self).buffer@ == old(
                self,
            ).buffer@ && final(self).bit_cursor == old(self).bit_cursor),
            0 < bit_count <= 64 && bytes_for_bits(old(self).bits().len() + bit_count) > old(self).capacity() ==> {
                &&& r matches Err(SunriseError::BufferTooShort { needed, available })
                &&& needed == bytes_for_bits(old(self).bits().len() + bit_count)
                &&& available == old(self).capacity()
                &&& final(self).buffer@ == old(self).buffer@
                &&& final(self).bit_cursor == old(self).bit_cursor
            },
            0 < bit_count <= 64 && bytes_for_bits(old(self).bits().len() + bit_count) <= old(self).capacity() ==> {
                &&& r is Ok
                &&& final(self).bit_cursor == old(self).bit_cursor + bit_count
                &&& written_at(
                    old(self).buffer@,
                    final(self).buffer@,
                    old(self).bit_cursor as int,
                    value,
                    bit_count as nat,
                )
                &&& final(self).bits() == old(self).bits() + msb_bits(value as nat, bit_count as nat)
            },
    {
        if bit_count == 0 {
            return Ok(());
        }
        if bit_count > 64 {
            return Err(SunriseError::InvalidBitStream);
        }
        let total_bits_needed = self.bit_cursor + bit_count;
        let bytes_needed = (total_bits_needed + 7) / 8;
        if bytes_needed > self.buffer.len() {
            return Err(SunriseError::BufferTooShort { needed: bytes_needed, available: self.buffer.len() });
        }
        let ghost start = self.bit_cursor as int;
        let ghost old_bits = self.bits();
        let ghost target = msb_bits(value as nat, bit_count as nat);
        proof {
            lemma_msb_bits_len(value as nat, bit_count as nat);
        }
        let mut k: usize = 0;
        while k < bit_count
            invariant
                0 < bit_count <= 64,
                k <= bit_count,
                self.bit_cursor == start + k,
                start + bit_count <= 8 * self.buffer@.len(),
                self.buffer@.len() == old(self).buffer@.len(),
                self.buffer@.len() <= max_stream_bytes(),
                final(self.buffer)@ == final(old(self).buffer)@,
                target.len() == bit_count,
                target == msb_bits(value as nat, bit_count as nat),
                forall|p: int| 0 <= p < start ==> #[trigger] bit_at(self.buffer@, p) == old_bits[p],
                forall|p: int| start <= p < start + k ==> #[trigger] bit_at(self.buffer@, p) == target[p - start],
                forall|p: int| start + k <= p < 8 * self.buffer@.len() ==> !#[trigger] bit_at(self.buffer@, p),
                old_bits == old(self).bits(),
                old_bits.len() == start,
                old_bits == bits_of(old(self).buffer@, 0, start as nat),
                start == old(self).bit_cursor,
                old(self).wf(),
            decreases bit_count - k,
        {
            let i = bit_count - 1 - k;
            let bit = ((value >> (i as u64)) & 1) as u8;
            let byte_idx = self.bit_cursor / 8;
            let bit_idx = (7 - (self.bit_cursor % 8)) as u8;
            let ghost before = self.buffer@;
            let ghost cur = self.bit_cursor as int;
            proof {
                lemma_u64_bit(value, i as u64);
                lemma_msb_bits_index(value as nat, bit_count as nat, k as int);
                assert((value >> (i as u64)) & 1 <= 1) by (bit_vector);
            }
            if bit == 1 {
                let old_byte = self.buffer[byte_idx];
                self.buffer[byte_idx] = old_byte | (1u8 << bit_idx);
                proof {
                    assert forall|p: int| 0 <= p < 8 * self.buffer@.len() implies #[trigger] bit_at(self.buffer@, p)
                        == (if p == cur { true } else { bit_at(before, p) }) by {
                        if p / 8 == byte_idx as int {
                            lemma_set_bit(old_byte, bit_idx, (7 - p % 8) as u8);
                        }
                    }
                }
            } else {
                proof {
                    assert(!bit_at(before, cur));
                }
            }
            self.bit_cursor += 1;
            k += 1;
        }
        proof {
            assert(self.bits() =~= old(self).bits() + msb_bits(value as nat, bit_count as nat));
            assert forall|p: int| 0 <= p < 8 * old(self).buffer@.len() implies #[trigger] bit_at(self.buffer@, p)
                == if start <= p < start + bit_count {
                msb_bits(value as nat, bit_count as nat)[p - start]
            } else {
                bit_at(old(self).buffer@, p)
            } by {
                if p < start {
                    assert(old_bits[p] == bit_at(old(self).buffer@, p));
                } else if p >= start + bit_count {
                    assert(!bit_at(old(self).buffer@, p));
                }
            }
        }
        Ok(())
    }

    /// The number of bytes the written bits occupy, at most the buffer's
    /// length; the buffer keeps what was written.
    pub fn finish(self) -> (n: usize)
        requires
            self.wf(),
        ensures
            n == bytes_for_bits(self.bits().len() as int),
            n <= old(self.buffer)@.len(),
            final(self.buffer)@ == old(self.buffer)@,
    {
        (self.bit_cursor + 7) / 8
    }

    /// The number of bits written so far.
    pub fn total_bits(&self) -> (n: usize)
        ensures
            n == self.bits().len(),
    {
        self.bit_cursor
    }
}

pub struct BitReader<'a> {
    buffer: &'a [u8],
    bit_cursor: usize,
}

impl<'a> BitReader<'a> {
    /// The bytes being read.
    pub closed spec fn source(&self) -> Seq<u8> {
        self.buffer@
    }

    /// The number of bits read so far.
    pub closed spec fn position(&self) -> nat {
        self.bit_cursor as nat
    }

    /// The reader's invariant: the buffer's bits can be counted in a `usize`.
    pub closed spec fn wf(&self) -> bool {
        &&& self.buffer@.len() <= max_stream_bytes()
        &&& self.bit_cursor <= 8 * self.buffer@.len()
    }

    pub fn new(buffer: &'a [u8]) -> (r: Self)
        requires
            buffer@.len() <= max_stream_bytes(),
        ensures
            r.wf(),
            r.source() == buffer@,
            r.position() == 0,
    {
        BitReader { buffer, bit_cursor: 0 }
    }

    /// Reads the next `bit_count` bits as a number, most significant first.
    pub fn read_bits(&mut self, bit_count: usize) -> (r: Result<u64>)
        requires
            old(self).wf(),
        ensures
            final(self).wf(),
            final(self).source() == old(self).source(),
            bit_count == 0 ==> r == Ok::<u64, SunriseError>(0) && final(self).position() == old(self).position(),
            bit_count > 64 ==> (r matches Err(SunriseError::InvalidBitStream) && final(self).position()
                == old(self).position()),
            0 < bit_count <= 64 && bytes_for_bits(old(self).position() + bit_count) > old(self).source().len() ==> {
                &&& r matches Err(SunriseError::BufferTooShort { needed, available })
                &&& needed == bytes_for_bits(old(self).position() + bit_count)
                &&& available == old(self).source().len()
                &&& final(self).position() == old(self).position()
            },
            0 < bit_count <= 64 && bytes_for_bits(old(self).position() + bit_count) <= old(self).source().len() ==> {
                &&& r matches Ok(v)
                &&& v == bits_value(bits_of(old(self).source(), old(self).position() as int, bit_count as nat))
                &&& final(self).position() == old(self).position() + bit_count
            },
    {
        if bit_count == 0 {
            return Ok(0);
        }
        if bit_count > 64 {
            return Err(SunriseError::InvalidBitStream);
        }
        let total_bits_needed = self.bit_cursor + bit_count;
        let bytes_needed = (total_bits_needed + 7) / 8;
        if bytes_needed > self.buffer.len() {
            return Err(SunriseError::BufferTooShort { needed: bytes_needed, available: self.buffer.len() });
        }
        let ghost start = self.bit_cursor as int;
        proof {
            lemma2_to64();
            assert(bits_of(self.buffer@, start, 0) =~= Seq::<bool>::empty());
        }
        let mut result: u64 = 0;
        let mut k: usize = 0;
        while k < bit_count
            invariant
                k <= bit_count <= 64,
                self.bit_cursor == start + k,
                start + bit_count <= 8 * self.buffer@.len(),
                self.buffer@ == old(self).buffer@,
                self.buffer@.len() <= max_stream_bytes(),
                result == bits_value(bits_of(self.buffer@, start, k as nat)),
                result < pow2(k as nat),
            decreases bit_count - k,
        {
            let byte_idx = self.bit_cursor / 8;
            let bit_idx = (7 - (self.bit_cursor % 8)) as u8;
            let byte = self.buffer[byte_idx];
            let bit = (byte >> bit_idx) & 1;
            proof {
                assert(bit <= 1) by (bit_vector)
                    requires
                        bit == (byte >> bit_idx) & 1,
                ;
                let s = bits_of(self.buffer@, start, (k + 1) as nat);
                assert(s.drop_last() =~= bits_of(self.buffer@, start, k as nat));
                assert(s.last() == bit_at(self.buffer@, start + k));
                lemma_pow2_unfold((k + 1) as nat);
                lemma2_to64();
                if k + 1 < 64 {
                    lemma_pow2_strictly_increases((k + 1) as nat, 64);
                }
                assert(result * 2 + bit < pow2((k + 1) as nat));
                assert(pow2((k + 1) as nat) <= 0x1_0000_0000_0000_0000);
            }
            result = result * 2 + bit as u64;
            self.bit_cursor += 1;
            k += 1;
        }
        Ok(result)
    }

    /// The number of bits not yet read.
    pub fn remaining_bits(&self) -> (n: usize)
        requires
            self.wf(),
        ensures
            n == self.source().len() * 8 - self.position(),
    {
        (self.buffer.len() * 8) - self.bit_cursor
    }
}

/// Reading back what a writer wrote: if the bits at `start` of a buffer are the
/// low `n` bits of `v`, most significant first, reading `n` bits there gives
/// `v` modulo `2^n`.
pub proof fn lemma_read_what_was_written(buf: Seq<u8>, start: int, v: u64, n: nat)
    requires
        n <= 64,
        bits_of(buf, start, n) == msb_bits(v as nat, n),
    ensures
        bits_value(bits_of(buf, start, n)) == v as nat % pow2(n),
{
    lemma_msb_bits_value(v as nat, n);
}

/// Reading back what `write_bits` wrote: after `value`'s low `n` bits were
/// written at bit `start`, reading `n` bits from `start` gives `value`
/// modulo `2^n`.
pub proof fn lemma_write_then_read(before: Seq<u8>, after: Seq<u8>, start: int, value: u64, n: nat)
    requires
        0 <= start,
        n <= 64,
        start + n <= 8 * before.len(),
        written_at(before, after, start, value, n),
    ensures
        bits_of(after, start, n) == msb_bits(value as nat, n),
        bits_value(bits_of(after, start, n)) == value as nat % pow2(n),
{
    lemma_msb_bits_len(value as nat, n);
    assert forall|j: int| 0 <= j < n implies #[trigger] bits_of(after, start, n)[j] == msb_bits(value as nat, n)[j] by {
        assert(bit_at(after, start + j) == msb_bits(value as nat, n)[j]);
    }
    assert(bits_of(after, start, n) =~= msb_bits(value as nat, n));
    lemma_read_what_was_written(after, start, value, n);
}

/// The bits a writer holds after the writes `writes`, each a value and a bit
/// count, made in order: the low bits of each value, most significant first,
/// one write after the other.
pub open spec fn written_stream(writes: Seq<(u64, nat)>) -> Seq<bool>
    decreases writes.len(),
{
    if writes.len() == 0 {
        Seq::empty()
    } else {
        written_stream(writes.drop_last()) + msb_bits(writes.last().0 as nat, writes.last().1)
    }
}

/// Where the `i`-th write starts: the number of bits the writes before it
/// put down.
pub open spec fn stream_offset(writes: Seq<(u64, nat)>, i: int) -> int {
    written_stream(writes.take(i)).len() as int
}

/// One more write appends its bits: what `write_bits` states of the
/// writer's bits, step by step.
pub proof fn lemma_written_stream_push(writes: Seq<(u64, nat)>, value: u64, n: nat)
    ensures
        written_stream(writes.push((value, n))) == written_stream(writes) + msb_bits(value as nat, n),
{
    assert(writes.push((value, n)).drop_last() =~= writes);
}

proof fn lemma_written_stream_len(writes: Seq<(u64, nat)>)
    ensures
        written_stream(writes).len() == (if writes.len() == 0 {
            0
        } else {
            written_stream(writes.drop_last()).len() + writes.last().1
        }),
{
    if writes.len() > 0 {
        lemma_msb_bits_len(writes.last().0 as nat, writes.last().1);
    }
}

/// The bits of the first `k` writes begin the bits of all of them.
proof fn lemma_written_stream_prefix(writes: Seq<(u64, nat)>, k: int)
    requires
        0 <= k <= writes.len(),
    ensures
        written_stream(writes.take(k)).len() <= written_stream(writes).len(),
        written_stream(writes).subrange(0, written_stream(writes.take(k)).len() as int) == written_stream(
            writes.take(k),
        ),
    decreases writes.len(),
{
    if k == writes.len() {
        assert(writes.take(k) =~= writes);
        assert(written_stream(writes).subrange(0, written_stream(writes).len() as int) =~= written_stream(writes));
    } else {
        let w = writes.drop_last();
        assert(writes.take(k) =~= w.take(k));
        lemma_written_stream_prefix(w, k);
        lemma_msb_bits_len(writes.last().0 as nat, writes.last().1);
        let a = written_stream(w.take(k));
        assert(written_stream(writes).subrange(0, a.len() as int) =~= written_stream(w).subrange(0, a.len() as int));
    }
}

/// Reading back a sequence of writes: when a buffer begins with the bits of
/// the writes `writes` (what a `BitWriter` holds after making them, as
/// `write_bits` states), a reader that has read the bits of the first `i`
/// writes stands at `stream_offset(writes, i)`, and reading the `i`-th
/// write's bit count there gives its value modulo `2^count`.
pub proof fn lemma_stream_read_back(buf: Seq<u8>, writes: Seq<(u64, nat)>, i: int)
    requires
        0 <= i < writes.len(),
        forall|j: int| 0 <= j < writes.len() ==> (#[trigger] writes[j]).1 <= 64,
        bits_of(buf, 0, written_stream(writes).len()) == written_stream(writes),
    ensures
        stream_offset(writes, i + 1) == stream_offset(writes, i) + writes[i].1,
        stream_offset(writes, i) + writes[i].1 <= written_stream(writes).len(),
        bits_of(buf, stream_offset(writes, i), writes[i].1) == msb_bits(writes[i].0 as nat, writes[i].1),
        bits_value(bits_of(buf, stream_offset(writes, i), writes[i].1)) == writes[i].0 as nat % pow2(writes[i].1),
{
    let t = writes.take(i + 1);
    assert(t.drop_last() =~= writes.take(i));
    assert(t.last() == writes[i]);
    lemma_written_stream_len(t);
    lemma_written_stream_prefix(writes, i + 1);
    lemma_msb_bits_len(writes[i].0 as nat, writes[i].1);
    let off = stream_offset(writes, i);
    let n = writes[i].1;
    let whole = written_stream(writes);
    let m = msb_bits(writes[i].0 as nat, n);
    assert(written_stream(t) == written_stream(writes.take(i)) + m);
    assert forall|j: int| 0 <= j < n implies #[trigger] bits_of(buf, off, n)[j] == m[j] by {
        assert(bits_of(buf, 0, whole.len())[off + j] == whole[off + j]);
        assert(whole.subrange(0, written_stream(t).len() as int)[off + j] == written_stream(t)[off + j]);
    }
    assert(bits_of(buf, off, n) =~= m);
    lemma_read_what_was_written(buf, off, writes[i].0, n);
}

} // verus!
