//! Which clients take part in which activity, and fan-out of frames to the
//! other members of an activity.
use vstd::prelude::*;
use std::collections::HashMap;
use crate::protocol::bap_frame::{same_frame, BapFrame};
use crate::server::client_registry::{ClientHandle, ClientRegistry};
use crate::server::udp_bindings::PeerAddr;
use crate::state::activity::{joined, left, ActivityPhase, ActivitySession};

verus! {

broadcast use vstd::std_specs::hash::group_hash_axioms;

/// How many times `x` occurs in `s`.
pub open spec fn occurrences(s: Seq<u64>, x: u64) -> nat
    decreases s.len(),
{
    if s.len() == 0 {
        0
    } else {
        occurrences(s.drop_last(), x) + if s.last() == x {
            1nat
        } else {
            0nat
        }
    }
}

/// The participants of `ps` that a broadcast from `sender` reaches, with
/// repetitions: every entry but the sender's.
pub open spec fn broadcast_count(ps: Seq<u64>, sender: u64, id: u64) -> nat {
    if id == sender {
        0
    } else {
        occurrences(ps, id)
    }
}

/// `h` is `o` with `k` more frames like `frame` queued, and nothing else changed.
pub open spec fn queued_more(h: ClientHandle, o: ClientHandle, frame: BapFrame, k: nat) -> bool {
    &&& h.outbound@.len() == o.outbound@.len() + k
    &&& h.outbound@.subrange(0, o.outbound@.len() as int) == o.outbound@
    &&& forall|j: int| o.outbound@.len() <= j < h.outbound@.len() ==> same_frame(#[trigger] h.outbound@[j], frame)
    &&& h.membership_id == o.membership_id
    &&& h.display_name == o.display_name
    &&& h.ephemeral == o.ephemeral
    &&& h.udp_source == o.udp_source
}

pub struct Fireteam {
    sessions: HashMap<u32, ActivitySession>,
    next_session_id: u64,
}

impl Fireteam {
    /// The activity sessions, by activity hash.
    pub closed spec fn sessions_spec(&self) -> Map<u32, ActivitySession> {
        self.sessions@
    }

    /// The id the next new session gets.
    pub closed spec fn next_id(&self) -> u64 {
        self.next_session_id
    }

    pub fn new() -> (f: Self)
        ensures
            f.sessions_spec() == Map::<u32, ActivitySession>::empty(),
            f.next_id() == 1,
    {
        Fireteam { sessions: HashMap::new(), next_session_id: 1 }
    }

    /// Adds `membership_id` to the session of `activity_hash`, creating the
    /// session (at `destination_hash`, idle) when there is none. Every call
    /// uses up one session id, whether or not it creates a session.
    pub fn join(&mut self, activity_hash: u32, destination_hash: u32, membership_id: u64)
        ensures
            final(self).next_id() == vstd::wrapping::u64_specs::wrapping_add(old(self).next_id(), 1),
            final(self).sessions_spec().dom() == old(self).sessions_spec().dom().insert(activity_hash),
            forall|h: u32| h != activity_hash ==> #[trigger] final(self).sessions_spec()[h] == old(self).sessions_spec()[h],
            ({
                let s = final(self).sessions_spec()[activity_hash];
                if old(self).sessions_spec().contains_key(activity_hash) {
                    let o = old(self).sessions_spec()[activity_hash];
                    &&& s.session_id == o.session_id
                    &&& s.activity_hash == o.activity_hash
                    &&& s.destination_hash == o.destination_hash
                    &&& s.phase == o.phase
                    &&& s.participants@ == joined(o.participants@, membership_id)
                } else {
                    &&& s.session_id == old(self).next_id()
                    &&& s.activity_hash == activity_hash
                    &&& s.destination_hash == destination_hash
                    &&& s.phase == ActivityPhase::Idle
                    &&& s.participants@ == seq![membership_id]
                }
            }),
    {
        let next_id = self.next_session_id;
        self.next_session_id = self.next_session_id.wrapping_add(1);
        let mut session = match self.sessions.remove(&activity_hash) {
            Some(s) => s,
            None => ActivitySession::new(next_id, activity_hash, destination_hash),
        };
        proof {
            assert(Seq::<u64>::empty().push(membership_id) =~= seq![membership_id]);
        }
        session.join(membership_id);
        self.sessions.insert(activity_hash, session);
    }

    /// Removes `membership_id` from the session of `activity_hash`, and the
    /// session itself once nobody is left in it.
    pub fn leave(&mut self, activity_hash: u32, membership_id: u64)
        ensures
            final(self).next_id() == old(self).next_id(),
            !old(self).sessions_spec().contains_key(activity_hash) ==> final(self).sessions_spec() == old(
                self,
            ).sessions_spec(),
            old(self).sessions_spec().contains_key(activity_hash) ==> ({
                let o = old(self).sessions_spec()[activity_hash];
                let rest = left(o.participants@, membership_id);
                &&& forall|h: u32| h != activity_hash ==> #[trigger] final(self).sessions_spec()[h] == old(
                    self,
                ).sessions_spec()[h]
                &&& rest.len() == 0 ==> final(self).sessions_spec() == old(self).sessions_spec().remove(activity_hash)
                &&& rest.len() > 0 ==> final(self).sessions_spec().dom() == old(self).sessions_spec().dom() && ({
                    let s = final(self).sessions_spec()[activity_hash];
                    &&& s.session_id == o.session_id
                    &&& s.activity_hash == o.activity_hash
                    &&& s.destination_hash == o.destination_hash
                    &&& s.phase == o.phase
                    &&& s.participants@ == rest
                })
            }),
    {
        match self.sessions.remove(&activity_hash) {
            Some(mut session) => {
                session.leave(membership_id);
                if session.participants.len() > 0 {
                    self.sessions.insert(activity_hash, session);
                }
            },
            None => {
                proof {
                    assert(self.sessions@ =~= old(self).sessions@);
                }
            },
        }
    }

    /// Queues a copy of `frame` for every participant of the session of
    /// `activity_hash` other than `sender_id` that the registry knows.
    pub fn broadcast_to_others(
        &self,
        activity_hash: u32,
        sender_id: u64,
        frame: &BapFrame,
        registry: &mut ClientRegistry,
    )
        requires
            old(registry).wf(),
        ensures
            final(registry).wf(),
            forall|a: PeerAddr| #[trigger] final(registry).udp_owner(a) == old(registry).udp_owner(a),
            final(registry).clients().dom() == old(registry).clients().dom(),
            !self.sessions_spec().contains_key(activity_hash) ==> final(registry).clients() == old(registry).clients(),
            self.sessions_spec().contains_key(activity_hash) ==> forall|id: u64| #[trigger]
                old(registry).clients().contains_key(id) ==> queued_more(
                    final(registry).clients()[id],
                    old(registry).clients()[id],
                    *frame,
                    broadcast_count(self.sessions_spec()[activity_hash].participants@, sender_id, id),
                ),
    {
        let session = match self.sessions.get(&activity_hash) {
            Some(s) => s,
            None => {
                return;
            },
        };
        let ghost ps = session.participants@;
        let n = session.participants.len();
        let mut i: usize = 0;
        proof {
            assert forall|id: u64| #[trigger] old(registry).clients().contains_key(id) implies queued_more(
                registry.clients()[id],
                old(registry).clients()[id],
                *frame,
                broadcast_count(ps.subrange(0, 0), sender_id, id),
            ) by {
                let o = old(registry).clients()[id];
                assert(o.outbound@.subrange(0, o.outbound@.len() as int) =~= o.outbound@);
            }
        }
        while i < n
            invariant
                n == ps.len(),
                ps == session.participants@,
                i <= n,
                registry.wf(),
                forall|a: PeerAddr| #[trigger] registry.udp_owner(a) == old(registry).udp_owner(a),
                registry.clients().dom() == old(registry).clients().dom(),
                forall|id: u64| #[trigger]
                    old(registry).clients().contains_key(id) ==> queued_more(
                        registry.clients()[id],
                        old(registry).clients()[id],
                        *frame,
                        broadcast_count(ps.subrange(0, i as int), sender_id, id),
                    ),
            decreases n - i,
        {
            let peer = session.participants[i];
            let ghost before = *registry;
            if peer != sender_id {
                registry.push_outbound(peer, frame.duplicate());
            }
            proof {
                let next = ps.subrange(0, i + 1);
                assert(next.drop_last() =~= ps.subrange(0, i as int));
                assert forall|id: u64| #[trigger] old(registry).clients().contains_key(id) implies queued_more(
                    registry.clients()[id],
                    old(registry).clients()[id],
                    *frame,
                    broadcast_count(next, sender_id, id),
                ) by {
                    let o = old(registry).clients()[id];
                    let b = before.clients()[id];
                    let h = registry.clients()[id];
                    if peer != sender_id && id == peer {
                        assert(h.outbound@.subrange(0, o.outbound@.len() as int) =~= o.outbound@) by {
                            assert(h.outbound@ == b.outbound@.push(h.outbound@.last()));
                            assert(b.outbound@.subrange(0, o.outbound@.len() as int) == o.outbound@);
                        }
                        assert forall|j: int| o.outbound@.len() <= j < h.outbound@.len() implies same_frame(
                            #[trigger] h.outbound@[j],
                            *frame,
                        ) by {
                            if j < b.outbound@.len() {
                                assert(h.outbound@[j] == b.outbound@[j]);
                            }
                        }
                    }
                }
            }
            i += 1;
        }
        proof {
            assert(ps.subrange(0, n as int) =~= ps);
        }
    }

    /// How many take part in the session of `activity_hash` (0 without one).
    pub fn participant_count(&self, activity_hash: u32) -> (n: usize)
        ensures
            n == if self.sessions_spec().contains_key(activity_hash) {
                self.sessions_spec()[activity_hash].participants@.len()
            } else {
                0
            },
    {
        match self.sessions.get(&activity_hash) {
            Some(s) => s.participants.len(),
            None => 0,
        }
    }

    /// The participants of the session of `activity_hash`, in joining order
    /// (empty without one).
    pub fn participants(&self, activity_hash: u32) -> (v: Vec<u64>)
        ensures
            v@ == if self.sessions_spec().contains_key(activity_hash) {
                self.sessions_spec()[activity_hash].participants@
            } else {
                Seq::<u64>::empty()
            },
    {
        match self.sessions.get(&activity_hash) {
            Some(s) => s.participants.clone(),
            None => Vec::new(),
        }
    }

    pub fn session_count(&self) -> (n: usize)
        ensures
            n == self.sessions_spec().dom().len(),
    {
        self.sessions.len()
    }
}

} // verus!
