pub mod byte_order;
pub mod varint;
pub mod bit_stream;
