//! BAP0 outer framing of a byte stream: magic, body length, transaction id,
//! opcode, payload.
use vstd::prelude::*;
use crate::encoding::byte_order::{be16, be32, read_u16_be, read_u32_be, u16_be_bytes, u32_be_bytes, u32_to_be_bytes};
use crate::error::{Result, SunriseError};
use crate::protocol::opcode::{opcode_code, opcode_from_code, opcode_is_canonical, Opcode};

verus! {

/// "BAP0"
pub const BAP_MAGIC: [u8; 4] = [0x42, 0x41, 0x50, 0x30];

/// Magic (4) + body length (4) + transaction id (4) + opcode (2).
pub const HEADER_SIZE: usize = 14;

/// The largest payload a frame carries: 16 MiB.
pub const MAX_PAYLOAD_SIZE: usize = 16777216;

pub open spec fn bap_magic() -> Seq<u8> {
    seq![0x42u8, 0x41u8, 0x50u8, 0x30u8]
}

#[derive(Debug, Clone, PartialEq, Eq)]
pub struct BapFrame {
    pub transaction_id: u32,
    pub opcode: Opcode,
    pub payload: Vec<u8>,
}

/// `a` and `b` carry the same transaction id, opcode and payload.
pub open spec fn same_frame(a: BapFrame, b: BapFrame) -> bool {
    a.transaction_id == b.transaction_id && a.opcode == b.opcode && a.payload@ == b.payload@
}

/// The wire form of a frame.
pub open spec fn frame_bytes(transaction_id: u32, opcode: Opcode, payload: Seq<u8>) -> Seq<u8> {
    bap_magic() + u32_be_bytes((payload.len() + 6) as u32) + u32_be_bytes(transaction_id) + u16_be_bytes(
        opcode_code(opcode),
    ) + payload
}

/// What decoding the start of a byte stream finds.
pub enum FrameParse {
    /// A whole frame and the number of bytes it took.
    Frame(u32, Opcode, Seq<u8>, nat),
    /// Fewer bytes than a part of the frame needs.
    TooShort(nat, nat),
    /// The first four bytes are not the magic.
    BadMagic(Seq<u8>),
    /// A body length announcing more payload than a frame may carry.
    TooLarge(nat, nat),
}

pub open spec fn parse_frame(s: Seq<u8>) -> FrameParse {
    if s.len() < 14 {
        FrameParse::TooShort(14, s.len())
    } else if s.subrange(0, 4) != bap_magic() {
        FrameParse::BadMagic(s.subrange(0, 4))
    } else {
        let body_len = be32(s.subrange(4, 8)) as nat;
        if body_len < 6 {
            FrameParse::TooShort(6, body_len)
        } else if body_len - 6 > 16777216 {
            FrameParse::TooLarge((body_len - 6) as nat, 16777216)
        } else if s.len() < 8 + body_len {
            FrameParse::TooShort(8 + body_len, s.len())
        } else {
            FrameParse::Frame(
                be32(s.subrange(8, 12)),
                opcode_from_code(be16(s.subrange(12, 14))),
                s.subrange(14, 8 + body_len as int),
                8 + body_len,
            )
        }
    }
}

/// The error a failed parse is reported as.
pub open spec fn frame_error_matches(e: SunriseError, p: FrameParse) -> bool {
    match p {
        FrameParse::TooShort(needed, available) => e matches SunriseError::BufferTooShort { needed: n, available: a }
            && n == needed && a == available,
        FrameParse::BadMagic(got) => e matches SunriseError::InvalidMagicNumber(g) && g@ == got,
        FrameParse::TooLarge(length, max) => e matches SunriseError::PayloadTooLarge { length: l, max: m } && l
            == length && m == max,
        FrameParse::Frame(..) => false,
    }
}

/// Decoding an encoded frame, whatever follows it, gives back the frame and its
/// length, provided the payload fits and the opcode is one decoding produces.
pub proof fn lemma_frame_roundtrip(transaction_id: u32, opcode: Opcode, payload: Seq<u8>, rest: Seq<u8>)
    requires
        payload.len() <= 16777216,
        opcode_is_canonical(opcode),
    ensures
        parse_frame(frame_bytes(transaction_id, opcode, payload) + rest) == FrameParse::Frame(
            transaction_id,
            opcode,
            payload,
            14 + payload.len(),
        ),
{
    let s = frame_bytes(transaction_id, opcode, payload) + rest;
    crate::encoding::byte_order::lemma_be32_roundtrip((payload.len() + 6) as u32);
    crate::encoding::byte_order::lemma_be32_roundtrip(transaction_id);
    crate::encoding::byte_order::lemma_be16_roundtrip(opcode_code(opcode));
    assert(s.subrange(0, 4) =~= bap_magic());
    assert(s.subrange(4, 8) =~= u32_be_bytes((payload.len() + 6) as u32));
    assert(s.subrange(8, 12) =~= u32_be_bytes(transaction_id));
    assert(s.subrange(12, 14) =~= u16_be_bytes(opcode_code(opcode)));
    assert(s.subrange(14, 14 + payload.len() as int) =~= payload);
}

impl BapFrame {
    pub fn new(transaction_id: u32, opcode: Opcode, payload: Vec<u8>) -> (f: Self)
        ensures
            f.transaction_id == transaction_id,
            f.opcode == opcode,
            f.payload == payload,
    {
        BapFrame { transaction_id, opcode, payload }
    }

    /// A frame with the same transaction id, opcode and payload.
    pub fn duplicate(&self) -> (d: Self)
        ensures
            same_frame(d, *self),
    {
        BapFrame { transaction_id: self.transaction_id, opcode: self.opcode, payload: self.payload.clone() }
    }

    /// The wire form of this frame.
    pub open spec fn wire(&self) -> Seq<u8> {
        frame_bytes(self.transaction_id, self.opcode, self.payload@)
    }

    pub fn encoded_size(&self) -> (n: usize)
        requires
            self.payload@.len() + 14 <= usize::MAX,
        ensures
            n == 14 + self.payload@.len(),
    {
        HEADER_SIZE + self.payload.len()
    }

    pub fn encode(&self, target: &mut [u8]) -> (r: Result<usize>)
        requires
            self.payload@.len() + 14 <= usize::MAX,
        ensures
            final(target)@.len() == old(target)@.len(),
            old(target)@.len() < 14 + self.payload@.len() ==> (r matches Err(SunriseError::BufferTooShort { needed, available })
                && needed == 14 + self.payload@.len() && available == old(target)@.len()
                && final(target)@ == old(target)@),
            old(target)@.len() >= 14 + self.payload@.len() && self.payload@.len() > 16777216 ==> (r matches Err(
                SunriseError::PayloadTooLarge { length, max },
            ) && length == self.payload@.len() && max == 16777216 && final(target)@ == old(target)@),
            old(target)@.len() >= 14 + self.payload@.len() && self.payload@.len() <= 16777216 ==> (r matches Ok(n) && n == 14
                + self.payload@.len() && final(target)@ == self.wire() + old(target)@.skip(
                14 + self.payload@.len() as int,
            )),
    {
        let needed = self.encoded_size();
        if target.len() < needed {
            return Err(SunriseError::BufferTooShort { needed, available: target.len() });
        }
        if self.payload.len() > MAX_PAYLOAD_SIZE {
            return Err(SunriseError::PayloadTooLarge { length: self.payload.len(), max: MAX_PAYLOAD_SIZE });
        }
        let ghost orig = target@;
        target[0] = 0x42;
        target[1] = 0x41;
        target[2] = 0x50;
        target[3] = 0x30;
        let total_body_len = (self.payload.len() + 6) as u32;
        let body = u32_to_be_bytes(total_body_len);
        let tx = u32_to_be_bytes(self.transaction_id);
        let op = self.opcode.code();
        let mut i: usize = 0;
        while i < 4
            invariant
                0 <= i <= 4,
                target@.len() == orig.len(),
                orig.len() >= 14,
                body@ == u32_be_bytes(total_body_len),
                tx@ == u32_be_bytes(self.transaction_id),
                forall|k: int| 0 <= k < 4 ==> target@[k] == bap_magic()[k],
                forall|k: int| 0 <= k < i ==> target@[4 + k] == body@[k] && target@[8 + k] == tx@[k],
                forall|k: int| 14 <= k < orig.len() ==> target@[k] == orig[k],
            decreases 4 - i,
        {
            target[4 + i] = body[i];
            target[8 + i] = tx[i];
            i += 1;
        }
        target[12] = (op / 0x100) as u8;
        target[13] = (op % 0x100) as u8;
        let mut j: usize = 0;
        while j < self.payload.len()
            invariant
                j <= self.payload@.len(),
                target@.len() == orig.len(),
                needed == 14 + self.payload@.len(),
                orig.len() >= needed,
                forall|k: int| 0 <= k < 4 ==> target@[k] == bap_magic()[k],
                forall|k: int| 0 <= k < 4 ==> target@[4 + k] == body@[k] && target@[8 + k] == tx@[k],
                target@[12] == (op / 0x100) as u8,
                target@[13] == (op % 0x100) as u8,
                forall|k: int| 0 <= k < j ==> target@[14 + k] == self.payload@[k],
                forall|k: int| 14 + self.payload@.len() <= k < orig.len() ==> target@[k] == orig[k],
            decreases self.payload@.len() - j,
        {
            target[14 + j] = self.payload[j];
            j += 1;
        }
        proof {
            assert(target@ =~= self.wire() + orig.skip(needed as int));
        }
        Ok(needed)
    }

    pub fn to_bytes(&self) -> (r: Result<Vec<u8>>)
        requires
            self.payload@.len() + 14 <= usize::MAX,
        ensures
            self.payload@.len() > 16777216 ==> (r matches Err(SunriseError::PayloadTooLarge { length, max })
                && length == self.payload@.len() && max == 16777216),
            self.payload@.len() <= 16777216 ==> (r matches Ok(v) && v@ == self.wire()),
    {
        let mut buf = vec![0u8; self.encoded_size()];
        match self.encode(buf.as_mut_slice()) {
            Ok(_) => {
                proof {
                    assert(buf@ =~= self.wire());
                }
                Ok(buf)
            },
            Err(e) => Err(e),
        }
    }

    pub fn decode(source: &[u8]) -> (r: Result<(Self, usize)>)
        ensures
            match parse_frame(source@) {
                FrameParse::Frame(tx, op, payload, n) => r matches Ok((f, used)) && f.transaction_id == tx
                    && f.opcode == op && f.payload@ == payload && used == n,
                p => r matches Err(e) && frame_error_matches(e, p),
            },
    {
        if source.len() < HEADER_SIZE {
            return Err(SunriseError::BufferTooShort { needed: HEADER_SIZE, available: source.len() });
        }
        if source[0] != 0x42 || source[1] != 0x41 || source[2] != 0x50 || source[3] != 0x30 {
            let got = [source[0], source[1], source[2], source[3]];
            proof {
                assert(got@ =~= source@.subrange(0, 4));
            }
            return Err(SunriseError::InvalidMagicNumber(got));
        }
        proof {
            assert(source@.subrange(0, 4) =~= bap_magic());
        }
        let body_len = match read_u32_be(&source[4..8]) {
            Some(v) => v as usize,
            None => {
                return Err(SunriseError::BufferTooShort { needed: 8, available: source.len() });
            },
        };
        if body_len < 6 {
            return Err(SunriseError::BufferTooShort { needed: 6, available: body_len });
        }
        let payload_len = body_len - 6;
        if payload_len > MAX_PAYLOAD_SIZE {
            return Err(SunriseError::PayloadTooLarge { length: payload_len, max: MAX_PAYLOAD_SIZE });
        }
        let total_frame_len = 8 + body_len;
        if source.len() < total_frame_len {
            return Err(SunriseError::BufferTooShort { needed: total_frame_len, available: source.len() });
        }
        let tx_id = match read_u32_be(&source[8..12]) {
            Some(v) => v,
            None => 0,
        };
        let raw_opcode = match read_u16_be(&source[12..14]) {
            Some(v) => v,
            None => 0,
        };
        let payload = slice_range_to_vec(source, 14, total_frame_len);
        Ok((BapFrame { transaction_id: tx_id, opcode: Opcode::from_code(raw_opcode), payload }, total_frame_len))
    }
}

/// A copy of `source[from..to]`.
pub(crate) fn slice_range_to_vec(source: &[u8], from: usize, to: usize) -> (v: Vec<u8>)
    requires
        from <= to <= source@.len(),
    ensures
        v@ == source@.subrange(from as int, to as int),
{
    let mut v: Vec<u8> = Vec::new();
    let mut i = from;
    while i < to
        invariant
            from <= i <= to <= source@.len(),
            v@ == source@.subrange(from as int, i as int),
        decreases to - i,
    {
        v.push(source[i]);
        i += 1;
        proof {
            assert(v@ =~= source@.subrange(from as int, i as int));
        }
    }
    v
}

} // verus!
