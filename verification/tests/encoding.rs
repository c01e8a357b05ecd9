use thanatonaut::encoding::bit_stream::{BitReader, BitWriter};
use thanatonaut::encoding::byte_order::{
    read_u16_be, read_u16_le, read_u32_be, read_u32_le, read_u64_be, write_u16_be, write_u32_be, write_u32_le,
    write_u64_be,
};
use thanatonaut::encoding::varint::{decode_tag, decode_varint, encode_tag, encode_varint, varint_size};
use thanatonaut::error::SunriseError;

#[test]
fn byte_order_roundtrips() {
    let mut b = [0u8; 8];
    assert!(write_u64_be(&mut b, 0x0102030405060708));
    assert_eq!(b, [1, 2, 3, 4, 5, 6, 7, 8]);
    assert_eq!(read_u64_be(&b), Some(0x0102030405060708));
    assert!(write_u32_be(&mut b, 0xAABBCCDD));
    assert_eq!(read_u32_be(&b), Some(0xAABBCCDD));
    assert!(write_u16_be(&mut b, 0x1234));
    assert_eq!(read_u16_be(&b), Some(0x1234));
    assert_eq!(read_u16_le(&b), Some(0x3412));
    assert!(write_u32_le(&mut b, 0x11223344));
    assert_eq!(&b[..4], &[0x44, 0x33, 0x22, 0x11]);
    assert_eq!(read_u32_le(&b), Some(0x11223344));
    assert_eq!(read_u32_be(&[1, 2, 3]), None);
    assert!(!write_u16_be(&mut [0u8; 1], 7));
}

#[test]
fn varint_known_encodings() {
    let mut buf = [0u8; 10];
    assert_eq!(encode_varint(300, &mut buf).unwrap(), 2);
    assert_eq!(&buf[..2], &[0xAC, 0x02]);
    assert_eq!(decode_varint(&buf[..2]).unwrap(), (300, 2));
    assert_eq!(varint_size(0), 1);
    assert_eq!(varint_size(127), 1);
    assert_eq!(varint_size(128), 2);
    assert_eq!(varint_size(u64::MAX), 10);
    let n = encode_varint(u64::MAX, &mut buf).unwrap();
    assert_eq!(n, 10);
    assert_eq!(decode_varint(&buf).unwrap(), (u64::MAX, 10));
}

#[test]
fn varint_errors() {
    let mut small = [0u8; 1];
    assert!(matches!(encode_varint(300, &mut small), Err(SunriseError::BufferTooShort { needed: 2, available: 1 })));
    assert!(matches!(decode_varint(&[0x80, 0x80]), Err(SunriseError::BufferTooShort { .. })));
    assert!(matches!(decode_varint(&[0xFF; 11]), Err(SunriseError::CorruptVarint)));
}

#[test]
fn tag_roundtrip() {
    let mut buf = [0u8; 5];
    let n = encode_tag(150, 2, &mut buf).unwrap();
    assert_eq!(decode_tag(&buf[..n]).unwrap(), ((150, 2), n));
}

#[test]
fn bit_stream_roundtrip() {
    let mut storage = [0xFFu8; 4];
    let mut w = BitWriter::new(&mut storage);
    w.write_bits(0b101, 3).unwrap();
    w.write_bits(0x3FF, 10).unwrap();
    assert_eq!(w.total_bits(), 13);
    assert!(matches!(w.write_bits(1, 65), Err(SunriseError::InvalidBitStream)));
    assert!(matches!(w.write_bits(0, 20), Err(SunriseError::BufferTooShort { needed: 5, available: 4 })));
    assert_eq!(w.finish(), 2);
    assert_eq!(storage[0], 0b1011_1111);
    let mut r = BitReader::new(&storage);
    assert_eq!(r.read_bits(3).unwrap(), 0b101);
    assert_eq!(r.read_bits(10).unwrap(), 0x3FF);
    assert_eq!(r.remaining_bits(), 32 - 13);
    assert!(r.read_bits(20).is_err());
}

#[test]
fn bit_writer_fills_the_callers_buffer() {
    let mut buf = [0x55u8, 0xAA];
    let mut w = BitWriter::new(&mut buf);
    w.write_bits(0b101, 3).unwrap();
    w.write_bits(0xFF, 8).unwrap();
    assert!(w.write_bits(1, 6).is_err());
    assert_eq!(w.total_bits(), 11);
    assert_eq!(w.finish(), 2);
    assert_eq!(buf, [0xBF, 0xE0]);
    let mut r = BitReader::new(&buf);
    assert_eq!(r.read_bits(3).unwrap(), 0b101);
    assert_eq!(r.read_bits(8).unwrap(), 0xFF);
    assert_eq!(r.remaining_bits(), 5);
}
