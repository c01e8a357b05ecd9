//! The service response envelope: opcode, transaction id, status, version and
//! payload.
use vstd::prelude::*;
use crate::encoding::byte_order::{be16, be32, read_u16_be, read_u32_be, u16_be_bytes, u32_be_bytes, u32_to_be_bytes};
use crate::error::{Result, SunriseError};
use crate::protocol::bap_frame::slice_range_to_vec;
use crate::protocol::opcode::{opcode_code, opcode_from_code, opcode_is_canonical, Opcode};

verus! {

#[derive(Debug, Clone, Copy, PartialEq, Eq, Structural)]
pub enum ServiceStatusCode {
    Success,
    MalformedRequest,
    Unauthorized,
    InternalError,
    ItemLocked,
    InvalidBucket,
}

/// The wire number of a status.
pub open spec fn status_code(s: ServiceStatusCode) -> u32 {
    match s {
        ServiceStatusCode::Success => 1,
        ServiceStatusCode::MalformedRequest => 2,
        ServiceStatusCode::Unauthorized => 3,
        ServiceStatusCode::InternalError => 4,
        ServiceStatusCode::ItemLocked => 5,
        ServiceStatusCode::InvalidBucket => 6,
    }
}

/// The status a wire number names; numbers outside the table read as
/// `InternalError`.
pub open spec fn status_from_code(v: u32) -> ServiceStatusCode {
    if v == 1 {
        ServiceStatusCode::Success
    } else if v == 2 {
        ServiceStatusCode::MalformedRequest
    } else if v == 3 {
        ServiceStatusCode::Unauthorized
    } else if v == 5 {
        ServiceStatusCode::ItemLocked
    } else if v == 6 {
        ServiceStatusCode::InvalidBucket
    } else {
        ServiceStatusCode::InternalError
    }
}

impl ServiceStatusCode {
    pub fn code(self) -> (v: u32)
        ensures
            v == status_code(self),
    {
        match self {
            ServiceStatusCode::Success => 1,
            ServiceStatusCode::MalformedRequest => 2,
            ServiceStatusCode::Unauthorized => 3,
            ServiceStatusCode::InternalError => 4,
            ServiceStatusCode::ItemLocked => 5,
            ServiceStatusCode::InvalidBucket => 6,
        }
    }

    pub fn from_code(v: u32) -> (s: ServiceStatusCode)
        ensures
            s == status_from_code(v),
    {
        match v {
            1 => ServiceStatusCode::Success,
            2 => ServiceStatusCode::MalformedRequest,
            3 => ServiceStatusCode::Unauthorized,
            5 => ServiceStatusCode::ItemLocked,
            6 => ServiceStatusCode::InvalidBucket,
            _ => ServiceStatusCode::InternalError,
        }
    }
}

#[derive(Debug, Clone, PartialEq, Eq)]
pub struct ServiceResponseEnvelope {
    pub opcode: Opcode,
    pub transaction_id: u32,
    pub status: ServiceStatusCode,
    pub version: u32,
    pub payload: Vec<u8>,
}

/// The wire form of an envelope.
pub open spec fn envelope_bytes(
    opcode: Opcode,
    transaction_id: u32,
    status: ServiceStatusCode,
    version: u32,
    payload: Seq<u8>,
) -> Seq<u8> {
    u16_be_bytes(opcode_code(opcode)) + u32_be_bytes(transaction_id) + u32_be_bytes(status_code(status))
        + u32_be_bytes(version) + payload
}

/// What decoding reads from `s`: nothing when it is shorter than the 14-byte
/// header; else the opcode, transaction id, status, version and payload.
pub open spec fn parse_envelope(s: Seq<u8>) -> Option<(Opcode, u32, ServiceStatusCode, u32, Seq<u8>)> {
    if s.len() < 14 {
        None
    } else {
        Some(
            (
                opcode_from_code(be16(s.subrange(0, 2))),
                be32(s.subrange(2, 6)),
                status_from_code(be32(s.subrange(6, 10))),
                be32(s.subrange(10, 14)),
                s.subrange(14, s.len() as int),
            ),
        )
    }
}

/// Decoding an encoded envelope gives back every field, provided the opcode is
/// one decoding produces.
pub proof fn lemma_envelope_roundtrip(
    opcode: Opcode,
    transaction_id: u32,
    status: ServiceStatusCode,
    version: u32,
    payload: Seq<u8>,
)
    requires
        opcode_is_canonical(opcode),
    ensures
        ({
            let s = envelope_bytes(opcode, transaction_id, status, version, payload);
            &&& s.len() >= 14
            &&& opcode_from_code(be16(s.subrange(0, 2))) == opcode
            &&& be32(s.subrange(2, 6)) == transaction_id
            &&& status_from_code(be32(s.subrange(6, 10))) == status
            &&& be32(s.subrange(10, 14)) == version
            &&& s.subrange(14, s.len() as int) == payload
            &&& parse_envelope(s) == Some((opcode, transaction_id, status, version, payload))
        }),
{
    let s = envelope_bytes(opcode, transaction_id, status, version, payload);
    crate::encoding::byte_order::lemma_be16_roundtrip(opcode_code(opcode));
    crate::encoding::byte_order::lemma_be32_roundtrip(transaction_id);
    crate::encoding::byte_order::lemma_be32_roundtrip(status_code(status));
    crate::encoding::byte_order::lemma_be32_roundtrip(version);
    assert(s.subrange(0, 2) =~= u16_be_bytes(opcode_code(opcode)));
    assert(s.subrange(2, 6) =~= u32_be_bytes(transaction_id));
    assert(s.subrange(6, 10) =~= u32_be_bytes(status_code(status)));
    assert(s.subrange(10, 14) =~= u32_be_bytes(version));
    assert(s.subrange(14, s.len() as int) =~= payload);
}

/// Decoding what `encode` wrote gives back the same envelope, whatever its
/// status, provided its opcode is one decoding produces.
pub proof fn lemma_envelope_decode_encode(e: ServiceResponseEnvelope)
    requires
        opcode_is_canonical(e.opcode),
    ensures
        parse_envelope(e.wire()) == Some((e.opcode, e.transaction_id, e.status, e.version, e.payload@)),
{
    lemma_envelope_roundtrip(e.opcode, e.transaction_id, e.status, e.version, e.payload@);
}

impl ServiceResponseEnvelope {
    pub fn new(
        opcode: Opcode,
        transaction_id: u32,
        status: ServiceStatusCode,
        version: u32,
        payload: Vec<u8>,
    ) -> (e: Self)
        ensures
            e.opcode == opcode,
            e.transaction_id == transaction_id,
            e.status == status,
            e.version == version,
            e.payload == payload,
    {
        ServiceResponseEnvelope { opcode, transaction_id, status, version, payload }
    }

    /// The wire form of this envelope.
    pub open spec fn wire(&self) -> Seq<u8> {
        envelope_bytes(self.opcode, self.transaction_id, self.status, self.version, self.payload@)
    }

    pub fn encode(&self) -> (r: Result<Vec<u8>>)
        ensures
            r matches Ok(v) && v@ == self.wire(),
    {
        let mut buffer: Vec<u8> = Vec::new();
        let op = self.opcode.code();
        buffer.push((op / 0x100) as u8);
        buffer.push((op % 0x100) as u8);
        push_u32_be(&mut buffer, self.transaction_id);
        push_u32_be(&mut buffer, self.status.code());
        push_u32_be(&mut buffer, self.version);
        let ghost head = buffer@;
        let mut i: usize = 0;
        while i < self.payload.len()
            invariant
                i <= self.payload@.len(),
                buffer@ == head + self.payload@.subrange(0, i as int),
            decreases self.payload@.len() - i,
        {
            buffer.push(self.payload[i]);
            i += 1;
            proof {
                assert(buffer@ =~= head + self.payload@.subrange(0, i as int));
            }
        }
        proof {
            assert(self.payload@.subrange(0, i as int) =~= self.payload@);
            assert(buffer@ =~= self.wire());
        }
        Ok(buffer)
    }

    pub fn decode(source: &[u8]) -> (r: Result<Self>)
        ensures
            match parse_envelope(source@) {
                None => r matches Err(SunriseError::BufferTooShort { needed, available }) && needed == 14
                    && available == source@.len(),
                Some((op, tx, st, ver, p)) => r matches Ok(e) && e.opcode == op && e.transaction_id == tx
                    && e.status == st && e.version == ver && e.payload@ == p,
            },
            source@.len() < 14 ==> (r matches Err(SunriseError::BufferTooShort { needed, available }) && needed
                == 14 && available == source@.len()),
            source@.len() >= 14 ==> (r matches Ok(e) && e.opcode == opcode_from_code(be16(source@.subrange(0, 2)))
                && e.transaction_id == be32(source@.subrange(2, 6)) && e.status == status_from_code(
                be32(source@.subrange(6, 10)),
            ) && e.version == be32(source@.subrange(10, 14)) && e.payload@ == source@.subrange(
                14,
                source@.len() as int,
            )),
    {
        if source.len() < 14 {
            return Err(SunriseError::BufferTooShort { needed: 14, available: source.len() });
        }
        let raw_opcode = match read_u16_be(&source[0..2]) {
            Some(v) => v,
            None => 0,
        };
        let tx_id = match read_u32_be(&source[2..6]) {
            Some(v) => v,
            None => 0,
        };
        let raw_status = match read_u32_be(&source[6..10]) {
            Some(v) => v,
            None => 0,
        };
        let version = match read_u32_be(&source[10..14]) {
            Some(v) => v,
            None => 0,
        };
        let payload = slice_range_to_vec(source, 14, source.len());
        Ok(ServiceResponseEnvelope {
            opcode: Opcode::from_code(raw_opcode),
            transaction_id: tx_id,
            status: ServiceStatusCode::from_code(raw_status),
            version,
            payload,
        })
    }
}

/// Appends the big-endian bytes of `v`.
pub(crate) fn push_u32_be(buffer: &mut Vec<u8>, v: u32)
    ensures
        final(buffer)@ == old(buffer)@ + u32_be_bytes(v),
{
    let b = u32_to_be_bytes(v);
    buffer.push(b[0]);
    buffer.push(b[1]);
    buffer.push(b[2]);
    buffer.push(b[3]);
    assert(buffer@ =~= old(buffer)@ + u32_be_bytes(v));
}

} // verus!
