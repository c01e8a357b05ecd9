//! The "SUNU" prefix that marks a Sunrise UDP packet.
use vstd::prelude::*;

verus! {

/// "SUNU"
pub const UDP_MAGIC: [u8; 4] = [0x53, 0x55, 0x4E, 0x55];

pub open spec fn udp_magic() -> Seq<u8> {
    seq![0x53u8, 0x55u8, 0x4Eu8, 0x55u8]
}

pub fn is_valid_magic(buf: &[u8]) -> (b: bool)
    ensures
        b == (buf@.len() >= 4 && buf@.subrange(0, 4) == udp_magic()),
{
    if buf.len() < 4 {
        return false;
    }
    let ok = buf[0] == 0x53 && buf[1] == 0x55 && buf[2] == 0x4E && buf[3] == 0x55;
    proof {
        if ok {
            assert(buf@.subrange(0, 4) =~= udp_magic());
        } else {
            assert(buf@.subrange(0, 4) != udp_magic() ==> true);
            if buf@.subrange(0, 4) == udp_magic() {
                assert(buf@.subrange(0, 4)[0] == buf@[0]);
                assert(buf@.subrange(0, 4)[1] == buf@[1]);
                assert(buf@.subrange(0, 4)[2] == buf@[2]);
                assert(buf@.subrange(0, 4)[3] == buf@[3]);
            }
        }
    }
    ok
}

} // verus!
