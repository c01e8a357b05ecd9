//! The byte-stream side of the TCP listener: the address it binds, and the
//! frames a chunk of received bytes holds.
use vstd::prelude::*;
use crate::protocol::bap_frame::{frame_bytes, lemma_frame_roundtrip, parse_frame, BapFrame, FrameParse};
use crate::protocol::opcode::{opcode_is_canonical, Opcode};
use crate::server::client_registry::ClientRegistry;
use crate::server::fireteam::Fireteam;
use crate::server::session_handler::SessionHandler;
use crate::settings::ServerConfig;
use crate::state::activity::left;
use crate::text::{dec_digits, push_decimal, string_push};

verus! {

/// The frames at the start of `s`, one after the other, up to the first
/// place where no whole frame can be read.
pub open spec fn frames_in(s: Seq<u8>) -> Seq<(u32, Opcode, Seq<u8>)>
    decreases s.len(),
{
    match parse_frame(s) {
        FrameParse::Frame(tx, op, payload, n) => if 0 < n <= s.len() {
            seq![(tx, op, payload)] + frames_in(s.skip(n as int))
        } else {
            Seq::empty()
        },
        _ => Seq::empty(),
    }
}

/// The wire form of frames sent one after the other.
pub open spec fn stream_bytes(frames: Seq<(u32, Opcode, Seq<u8>)>) -> Seq<u8>
    decreases frames.len(),
{
    if frames.len() == 0 {
        seq![]
    } else {
        frame_bytes(frames[0].0, frames[0].1, frames[0].2) + stream_bytes(frames.drop_first())
    }
}

/// Frames sent one after the other on a stream are read back, in order, as
/// the same frames, provided each payload fits and each opcode is one
/// decoding produces.
pub proof fn lemma_stream_roundtrip(frames: Seq<(u32, Opcode, Seq<u8>)>)
    requires
        forall|i: int| 0 <= i < frames.len() ==> (#[trigger] frames[i]).2.len() <= 16777216 && opcode_is_canonical(
            frames[i].1,
        ),
    ensures
        frames_in(stream_bytes(frames)) == frames,
    decreases frames.len(),
{
    if frames.len() == 0 {
        assert(frames_in(stream_bytes(frames)) =~= frames);
    } else {
        let f = frames[0];
        let tail = frames.drop_first();
        assert forall|i: int| 0 <= i < tail.len() implies (#[trigger] tail[i]).2.len() <= 16777216
            && opcode_is_canonical(tail[i].1) by {
            assert(tail[i] == frames[i + 1]);
        }
        lemma_stream_roundtrip(tail);
        let rest = stream_bytes(tail);
        let s = stream_bytes(frames);
        lemma_frame_roundtrip(f.0, f.1, f.2, rest);
        let n = 14 + f.2.len();
        assert(frame_bytes(f.0, f.1, f.2).len() == n);
        assert(s.skip(n as int) =~= rest);
        assert(frames_in(s) == seq![(f.0, f.1, f.2)] + frames_in(rest));
        assert(frames_in(s) =~= frames);
    }
}

/// The transaction id, opcode and payload of each frame.
pub open spec fn frame_triples(v: Seq<BapFrame>) -> Seq<(u32, Opcode, Seq<u8>)> {
    v.map_values(|f: BapFrame| (f.transaction_id, f.opcode, f.payload@))
}

/// Every whole frame at the start of `data`, in order; decoding stops at the
/// first bytes that do not form a frame.
pub fn decode_frames(data: &[u8]) -> (v: Vec<BapFrame>)
    ensures
        frame_triples(v@) == frames_in(data@),
{
    let mut v: Vec<BapFrame> = Vec::new();
    let mut cursor: usize = 0;
    let n = data.len();
    let mut done = false;
    proof {
        assert(data@.skip(0) =~= data@);
        assert(frame_triples(v@) =~= Seq::empty());
        assert(frames_in(data@) =~= frame_triples(v@) + frames_in(data@.skip(0)));
    }
    while !done && cursor < n
        invariant
            n == data@.len(),
            cursor <= n,
            !done ==> frames_in(data@) == frame_triples(v@) + frames_in(data@.skip(cursor as int)),
            done ==> frames_in(data@) == frame_triples(v@),
        decreases n - cursor + if done { 0int } else { 1int },
    {
        let rest = slice_from(data, cursor);
        match BapFrame::decode(rest.as_slice()) {
            Ok((frame, consumed)) => {
                let ghost s = data@.skip(cursor as int);
                let ghost old_v = v@;
                proof {
                    assert(rest@ == s);
                    assert(s.skip(consumed as int) =~= data@.skip(cursor + consumed));
                }
                v.push(frame);
                proof {
                    assert(frame_triples(v@) =~= frame_triples(old_v).push(
                        (frame.transaction_id, frame.opcode, frame.payload@),
                    ));
                    assert(frames_in(s) == seq![(frame.transaction_id, frame.opcode, frame.payload@)] + frames_in(
                        s.skip(consumed as int),
                    ));
                    assert(frames_in(data@) =~= frame_triples(v@) + frames_in(data@.skip(cursor + consumed)));
                }
                cursor = cursor + consumed;
            },
            Err(_) => {
                proof {
                    let s = data@.skip(cursor as int);
                    assert(rest@ == s);
                    assert(frames_in(s).len() == 0);
                    assert(frames_in(data@) =~= frame_triples(v@));
                }
                done = true;
            },
        }
    }
    proof {
        if !done {
            assert(data@.skip(cursor as int).len() == 0);
            assert(parse_frame(data@.skip(cursor as int)) is TooShort);
            assert(frames_in(data@) =~= frame_triples(v@));
        }
    }
    v
}

/// A copy of `data[from..]`.
fn slice_from(data: &[u8], from: usize) -> (v: Vec<u8>)
    requires
        from <= data@.len(),
    ensures
        v@ == data@.skip(from as int),
{
    let v = crate::protocol::bap_frame::slice_range_to_vec(data, from, data.len());
    proof {
        assert(data@.skip(from as int) =~= data@.subrange(from as int, data@.len() as int));
    }
    v
}

/// `host:port`.
pub open spec fn bind_address_text(host: Seq<char>, port: u16) -> Seq<char> {
    host + seq![':'] + dec_digits(port as nat)
}

/// The address a listener binds: the host, a colon and the port.
pub fn bind_address(host: &str, port: u16) -> (s: String)
    ensures
        s@ == bind_address_text(host@, port),
{
    let mut s = host.to_owned();
    string_push(&mut s, ':');
    push_decimal(&mut s, port as u64);
    s
}

/// The TCP listener's settings and whether it is to keep accepting.
pub struct SunriseTcpServer {
    config: ServerConfig,
    running: bool,
}

impl SunriseTcpServer {
    pub closed spec fn config_spec(&self) -> ServerConfig {
        self.config
    }

    pub closed spec fn running_spec(&self) -> bool {
        self.running
    }

    /// A stopped listener with `config`.
    pub fn new(config: ServerConfig) -> (s: Self)
        ensures
            s.config_spec() == config,
            !s.running_spec(),
    {
        SunriseTcpServer { config, running: false }
    }

    /// The address the listener binds: the configured host and port.
    pub fn listen_address(&self) -> (a: String)
        ensures
            a@ == bind_address_text(self.config_spec().bind_address@, self.config_spec().port),
    {
        bind_address(self.config.bind_address.as_str(), self.config.port)
    }

    /// Marks the listener as accepting.
    pub fn start(&mut self)
        ensures
            final(self).running_spec(),
            final(self).config_spec() == old(self).config_spec(),
    {
        self.running = true;
    }

    /// Asks the listener, and every connection it serves, to stop.
    pub fn stop(&mut self)
        ensures
            !final(self).running_spec(),
            final(self).config_spec() == old(self).config_spec(),
    {
        self.running = false;
    }

    /// Whether the listener is accepting.
    pub fn is_running(&self) -> (r: bool)
        ensures
            r == self.running_spec(),
    {
        self.running
    }
}

/// The name a fresh connection goes by until it signs on.
pub open spec fn ephemeral_name_text(id: u64) -> Seq<char> {
    "Ephemeral-"@ + dec_digits(id as nat)
}

/// The display name of the connection numbered `id`.
pub fn ephemeral_display_name(id: u64) -> (s: String)
    ensures
        s@ == ephemeral_name_text(id),
{
    let mut s = "Ephemeral-".to_owned();
    push_decimal(&mut s, id);
    s
}

/// What a closed connection leaves behind: its account's client is taken
/// out of the registry, and its account leaves the fireteam of its current
/// destination.
pub fn end_session(session: &SessionHandler, registry: &mut ClientRegistry, fireteam: &mut Fireteam)
    requires
        old(registry).wf(),
    ensures
        final(registry).wf(),
        final(registry).clients() == old(registry).clients().remove(session.account.membership_id),
        final(fireteam).next_id() == old(fireteam).next_id(),
        !old(fireteam).sessions_spec().contains_key(session.active_destination_hash) ==> final(fireteam).sessions_spec()
            == old(fireteam).sessions_spec(),
        old(fireteam).sessions_spec().contains_key(session.active_destination_hash) ==> ({
            let o = old(fireteam).sessions_spec()[session.active_destination_hash];
            let rest = left(o.participants@, session.account.membership_id);
            &&& rest.len() == 0 ==> final(fireteam).sessions_spec() == old(fireteam).sessions_spec().remove(
                session.active_destination_hash,
            )
            &&& rest.len() > 0 ==> final(fireteam).sessions_spec()[session.active_destination_hash].participants@
                == rest
        }),
{
    registry.unregister(session.account.membership_id);
    fireteam.leave(session.active_destination_hash, session.account.membership_id);
}

} // verus!
