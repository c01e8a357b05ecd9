pub mod opcode;
pub mod bap_frame;
pub mod envelope;
pub mod udp_magic;
pub mod udp_packet;
