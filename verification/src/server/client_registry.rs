//! The connected clients, by membership id and by UDP source address.
use vstd::prelude::*;
use std::collections::HashMap;
use vstd::std_specs::iter::IteratorSpec;
use crate::protocol::bap_frame::BapFrame;
use crate::server::outbound_queue::OutboundQueue;
use crate::server::udp_bindings::{PeerAddr, UdpBindings};

verus! {

broadcast use vstd::std_specs::hash::group_hash_axioms;

/// One connected client: who it is, the frames waiting for it, and the UDP
/// address it sends game state from.
#[derive(Debug)]
pub struct ClientHandle {
    pub membership_id: u64,
    pub display_name: String,
    pub ephemeral: bool,
    pub outbound: OutboundQueue,
    pub udp_source: Option<PeerAddr>,
}

impl ClientHandle {
    /// A client with nothing queued and no UDP address yet.
    pub fn new(membership_id: u64, display_name: &str, ephemeral: bool) -> (h: Self)
        ensures
            h.membership_id == membership_id,
            h.display_name@ == display_name@,
            h.ephemeral == ephemeral,
            h.outbound@ == Seq::<BapFrame>::empty(),
            h.udp_source is None,
    {
        ClientHandle {
            membership_id,
            display_name: display_name.to_owned(),
            ephemeral,
            outbound: OutboundQueue::new(),
            udp_source: None,
        }
    }

    pub fn set_udp_source(&mut self, addr: Option<PeerAddr>)
        ensures
            final(self).udp_source == addr,
            final(self).membership_id == old(self).membership_id,
            final(self).display_name == old(self).display_name,
            final(self).ephemeral == old(self).ephemeral,
            final(self).outbound == old(self).outbound,
    {
        self.udp_source = addr;
    }

    pub fn udp_source(&self) -> (a: Option<PeerAddr>)
        ensures
            a == self.udp_source,
    {
        self.udp_source
    }
}

pub struct ClientRegistry {
    by_membership: HashMap<u64, ClientHandle>,
    by_udp_source: UdpBindings,
}

impl ClientRegistry {
    pub closed spec fn wf(&self) -> bool {
        self.by_udp_source.wf()
    }

    /// The clients, by membership id.
    pub closed spec fn clients(&self) -> Map<u64, ClientHandle> {
        self.by_membership@
    }

    /// The membership id a UDP source address is bound to.
    pub closed spec fn udp_owner(&self, a: PeerAddr) -> Option<u64> {
        self.by_udp_source.get_spec(a)
    }

    pub fn new() -> (r: Self)
        ensures
            r.wf(),
            r.clients() == Map::<u64, ClientHandle>::empty(),
            forall|a: PeerAddr| #[trigger] r.udp_owner(a) is None,
    {
        ClientRegistry { by_membership: HashMap::new(), by_udp_source: UdpBindings::new() }
    }

    /// Registers a client connected from `peer_addr`, replacing any client
    /// with the same membership id, and binds `peer_addr` to it. A UDP address
    /// the replaced client had, other than `peer_addr`, is unbound.
    pub fn register(&mut self, membership_id: u64, display_name: &str, peer_addr: PeerAddr) -> (h: &ClientHandle)
        requires
            old(self).wf(),
        ensures
            final(self).wf(),
            h.membership_id == membership_id,
            h.display_name@ == display_name@,
            h.ephemeral,
            h.outbound@ == Seq::<BapFrame>::empty(),
            h.udp_source == Some(peer_addr),
            final(self).clients() == old(self).clients().insert(membership_id, *h),
            forall|a: PeerAddr| #[trigger]
                final(self).udp_owner(a) == if a == peer_addr {
                    Some(membership_id)
                } else if old(self).clients().contains_key(membership_id) && old(self).clients()[membership_id].udp_source
                    == Some(a) {
                    None
                } else {
                    old(self).udp_owner(a)
                },
    {
        let stale = match self.by_membership.get(&membership_id) {
            Some(prev) => prev.udp_source(),
            None => None,
        };
        match stale {
            Some(prev) => {
                if prev != peer_addr {
                    self.by_udp_source.remove(prev);
                }
            },
            None => {},
        }
        let mut handle = ClientHandle::new(membership_id, display_name, true);
        handle.set_udp_source(Some(peer_addr));
        self.by_membership.insert(membership_id, handle);
        self.by_udp_source.insert(peer_addr, membership_id);
        self.by_membership.get(&membership_id).unwrap()
    }

    /// Stores `handle`, replacing any client with its membership id. When it
    /// has a UDP address, that address is bound to it and every other address
    /// bound to its membership id is unbound.
    pub fn upsert(&mut self, handle: ClientHandle) -> (h: &ClientHandle)
        requires
            old(self).wf(),
        ensures
            final(self).wf(),
            *h == handle,
            final(self).clients() == old(self).clients().insert(handle.membership_id, handle),
            forall|a: PeerAddr| #[trigger]
                final(self).udp_owner(a) == match handle.udp_source {
                    Some(addr) => if a == addr {
                        Some(handle.membership_id)
                    } else if old(self).udp_owner(a) == Some(handle.membership_id) {
                        None
                    } else {
                        old(self).udp_owner(a)
                    },
                    None => old(self).udp_owner(a),
                },
    {
        let membership_id = handle.membership_id;
        match handle.udp_source() {
            Some(addr) => {
                self.by_udp_source.retain_bindings(None, Some(membership_id), Some(addr));
                self.by_udp_source.insert(addr, membership_id);
            },
            None => {},
        }
        self.by_membership.insert(membership_id, handle);
        self.by_membership.get(&membership_id).unwrap()
    }

    /// Removes the client with `membership_id`, and unbinds its UDP address
    /// when that address is still bound to it.
    pub fn unregister(&mut self, membership_id: u64)
        requires
            old(self).wf(),
        ensures
            final(self).wf(),
            final(self).clients() == old(self).clients().remove(membership_id),
            forall|a: PeerAddr| #[trigger]
                final(self).udp_owner(a) == if old(self).clients().contains_key(membership_id) && old(
                    self,
                ).clients()[membership_id].udp_source == Some(a) && old(self).udp_owner(a) == Some(membership_id) {
                    None
                } else {
                    old(self).udp_owner(a)
                },
    {
        let removed = self.by_membership.remove(&membership_id);
        match removed {
            Some(handle) => {
                match handle.udp_source() {
                    Some(addr) => {
                        if self.by_udp_source.get(addr) == Some(membership_id) {
                            self.by_udp_source.remove(addr);
                        }
                    },
                    None => {},
                }
            },
            None => {},
        }
    }

    pub fn get(&self, membership_id: u64) -> (r: Option<&ClientHandle>)
        ensures
            match r {
                Some(h) => self.clients().contains_key(membership_id) && self.clients()[membership_id] == *h,
                None => !self.clients().contains_key(membership_id),
            },
    {
        self.by_membership.get(&membership_id)
    }

    /// The client whose UDP address is `source`.
    pub fn lookup_by_udp(&self, source: PeerAddr) -> (r: Option<&ClientHandle>)
        requires
            self.wf(),
        ensures
            match r {
                Some(h) => self.udp_owner(source) matches Some(id) && self.clients().contains_key(id)
                    && self.clients()[id] == *h,
                None => match self.udp_owner(source) {
                    Some(id) => !self.clients().contains_key(id),
                    None => true,
                },
            },
    {
        match self.by_udp_source.get(source) {
            Some(id) => self.by_membership.get(&id),
            None => None,
        }
    }

    /// Binds `source` to the client with `membership_id`, unbinding every
    /// other address bound to it, and records it as the client's UDP address.
    /// Returns false, changing nothing, when there is no such client.
    pub fn bind_udp_source(&mut self, membership_id: u64, source: PeerAddr) -> (found: bool)
        requires
            old(self).wf(),
        ensures
            final(self).wf(),
            found == old(self).clients().contains_key(membership_id),
            !found ==> final(self).clients() == old(self).clients() && forall|a: PeerAddr| #[trigger]
                final(self).udp_owner(a) == old(self).udp_owner(a),
            found ==> final(self).clients().dom() == old(self).clients().dom(),
            found ==> forall|id: u64| id != membership_id ==> #[trigger] final(self).clients()[id] == old(self).clients()[id],
            found ==> ({
                let h = final(self).clients()[membership_id];
                let o = old(self).clients()[membership_id];
                &&& h.udp_source == Some(source)
                &&& h.membership_id == o.membership_id
                &&& h.display_name == o.display_name
                &&& h.ephemeral == o.ephemeral
                &&& h.outbound == o.outbound
            }),
            found ==> forall|a: PeerAddr| #[trigger]
                final(self).udp_owner(a) == if a == source {
                    Some(membership_id)
                } else if old(self).udp_owner(a) == Some(membership_id) {
                    None
                } else {
                    old(self).udp_owner(a)
                },
    {
        let removed = self.by_membership.remove(&membership_id);
        let mut handle = match removed {
            Some(h) => h,
            None => {
                return false;
            },
        };
        match handle.udp_source() {
            Some(prev) => {
                if prev != source && self.by_udp_source.get(prev) == Some(membership_id) {
                    self.by_udp_source.remove(prev);
                }
            },
            None => {},
        }
        self.by_udp_source.retain_bindings(None, Some(membership_id), None);
        self.by_udp_source.insert(source, membership_id);
        handle.set_udp_source(Some(source));
        self.by_membership.insert(membership_id, handle);
        true
    }

    /// Records `addr` as the UDP address of the client with `membership_id`
    /// without binding it; returns whether there is such a client.
    pub fn set_udp_source(&mut self, membership_id: u64, addr: Option<PeerAddr>) -> (found: bool)
        requires
            old(self).wf(),
        ensures
            final(self).wf(),
            found == old(self).clients().contains_key(membership_id),
            forall|a: PeerAddr| #[trigger] final(self).udp_owner(a) == old(self).udp_owner(a),
            !found ==> final(self).clients() == old(self).clients(),
            found ==> final(self).clients().dom() == old(self).clients().dom(),
            found ==> forall|id: u64| id != membership_id ==> #[trigger] final(self).clients()[id] == old(self).clients()[id],
            found ==> ({
                let h = final(self).clients()[membership_id];
                let o = old(self).clients()[membership_id];
                &&& h.udp_source == addr
                &&& h.membership_id == o.membership_id
                &&& h.display_name == o.display_name
                &&& h.ephemeral == o.ephemeral
                &&& h.outbound == o.outbound
            }),
    {
        let removed = self.by_membership.remove(&membership_id);
        let mut handle = match removed {
            Some(h) => h,
            None => {
                return false;
            },
        };
        handle.set_udp_source(addr);
        self.by_membership.insert(membership_id, handle);
        true
    }

    /// Queues `frame` for the client with `membership_id`; returns whether
    /// there is such a client.
    pub fn push_outbound(&mut self, membership_id: u64, frame: BapFrame) -> (found: bool)
        requires
            old(self).wf(),
        ensures
            final(self).wf(),
            found == old(self).clients().contains_key(membership_id),
            forall|a: PeerAddr| #[trigger] final(self).udp_owner(a) == old(self).udp_owner(a),
            !found ==> final(self).clients() == old(self).clients(),
            found ==> final(self).clients().dom() == old(self).clients().dom(),
            found ==> forall|id: u64| id != membership_id ==> #[trigger] final(self).clients()[id] == old(self).clients()[id],
            found ==> ({
                let h = final(self).clients()[membership_id];
                let o = old(self).clients()[membership_id];
                &&& h.outbound@ == o.outbound@.push(frame)
                &&& h.udp_source == o.udp_source
                &&& h.membership_id == o.membership_id
                &&& h.display_name == o.display_name
                &&& h.ephemeral == o.ephemeral
            }),
    {
        let removed = self.by_membership.remove(&membership_id);
        let mut handle = match removed {
            Some(h) => h,
            None => {
                return false;
            },
        };
        handle.outbound.push(frame);
        self.by_membership.insert(membership_id, handle);
        true
    }

    /// Takes the oldest frame queued for the client with `membership_id`.
    pub fn drain_outbound(&mut self, membership_id: u64) -> (r: Option<BapFrame>)
        requires
            old(self).wf(),
        ensures
            final(self).wf(),
            forall|a: PeerAddr| #[trigger] final(self).udp_owner(a) == old(self).udp_owner(a),
            final(self).clients().dom() == old(self).clients().dom(),
            forall|id: u64| id != membership_id ==> #[trigger] final(self).clients()[id] == old(self).clients()[id],
            !old(self).clients().contains_key(membership_id) ==> r is None,
            old(self).clients().contains_key(membership_id) ==> ({
                let h = final(self).clients()[membership_id];
                let o = old(self).clients()[membership_id];
                &&& o.outbound@.len() == 0 ==> r is None && h.outbound@ == o.outbound@
                &&& o.outbound@.len() > 0 ==> r == Some(o.outbound@[0]) && h.outbound@ == o.outbound@.drop_first()
                &&& h.udp_source == o.udp_source
                &&& h.membership_id == o.membership_id
                &&& h.display_name == o.display_name
                &&& h.ephemeral == o.ephemeral
            }),
    {
        let removed = self.by_membership.remove(&membership_id);
        let mut handle = match removed {
            Some(h) => h,
            None => {
                proof {
                    assert(self.by_membership@ =~= old(self).by_membership@);
                }
                return None;
            },
        };
        let r = handle.outbound.try_drain_next();
        self.by_membership.insert(membership_id, handle);
        r
    }

    pub fn client_count(&self) -> (n: usize)
        ensures
            n == self.clients().dom().len(),
    {
        self.by_membership.len()
    }

    /// Every registered membership id once, in the map's own order.
    pub fn all_membership_ids(&self) -> (v: Vec<u64>)
        ensures
            v@.to_set() == self.clients().dom(),
            v@.no_duplicates(),
    {
        let mut v: Vec<u64> = Vec::new();
        let ghost expected = vstd::std_specs::hash::spec_keys_iter(&self.by_membership).remaining().unref();
        for k in it: self.by_membership.keys()
            invariant
                expected == vstd::std_specs::hash::spec_keys_iter(&self.by_membership).remaining().unref(),
                it.seq().unref() == expected,
                v@ == expected.take(it.index() as int),
        {
            v.push(*k);
            proof {
                assert(v@ =~= expected.take(it.index() + 1));
            }
        }
        proof {
            assert(v@ =~= expected);
        }
        v
    }
}

impl Default for ClientRegistry {
    fn default() -> (r: Self)
        ensures
            r.wf(),
            r.clients() == Map::<u64, ClientHandle>::empty(),
            forall|a: PeerAddr| #[trigger] r.udp_owner(a) is None,
    {
        ClientRegistry::new()
    }
}

} // verus!
