//! The last known position of every player, and numbered snapshots of them.
use vstd::prelude::*;
use std::collections::HashMap;
use vstd::std_specs::iter::IteratorSpec;
use crate::protocol::udp_packet::{PlayerPosition, WorldSnapshot};

verus! {

broadcast use vstd::std_specs::hash::group_hash_axioms;

/// After a player's position is recorded, a snapshot holds that player at
/// that position, once, and every other player as before; after a player is
/// removed, a snapshot no longer holds it.
pub proof fn lemma_update_then_snapshot(positions: Map<u64, PlayerPosition>, m: u64, p: PlayerPosition)
    ensures
        positions.insert(m, p).kv_pairs().contains((m, p)),
        forall|q: PlayerPosition| #[trigger] positions.insert(m, p).kv_pairs().contains((m, q)) ==> q == p,
        forall|k: u64, q: PlayerPosition|
            k != m ==> (#[trigger] positions.insert(m, p).kv_pairs().contains((k, q)) <==> positions.kv_pairs().contains(
                (k, q),
            )),
        forall|q: PlayerPosition| !(#[trigger] positions.remove(m).kv_pairs().contains((m, q))),
{
    let after = positions.insert(m, p);
    assert(after.contains_key(m) && after[m] == p);
    assert forall|k: u64, q: PlayerPosition| k != m implies (#[trigger] after.kv_pairs().contains((k, q))
        <==> positions.kv_pairs().contains((k, q))) by {
        if after.kv_pairs().contains((k, q)) {
            assert(after.contains_key(k) && after[k] == q);
        }
        if positions.kv_pairs().contains((k, q)) {
            assert(positions.contains_key(k) && positions[k] == q);
        }
    }
}

pub struct WorldState {
    players: HashMap<u64, PlayerPosition>,
    sequence: u32,
}

impl WorldState {
    /// The position of every player, by membership id.
    pub closed spec fn positions(&self) -> Map<u64, PlayerPosition> {
        self.players@
    }

    /// The number of the last snapshot taken, 0 before the first.
    pub closed spec fn last_sequence(&self) -> u32 {
        self.sequence
    }

    pub fn new() -> (w: Self)
        ensures
            w.positions() == Map::<u64, PlayerPosition>::empty(),
            w.last_sequence() == 0,
    {
        WorldState { players: HashMap::new(), sequence: 0 }
    }

    /// Records where `membership_id` is now.
    pub fn update_position(&mut self, membership_id: u64, position: PlayerPosition)
        ensures
            final(self).positions() == old(self).positions().insert(membership_id, position),
            final(self).positions().dom().len() <= old(self).positions().dom().len() + 1,
            final(self).last_sequence() == old(self).last_sequence(),
    {
        proof {
            assert(self.players@.dom().finite());
        }
        self.players.insert(membership_id, position);
        proof {
            vstd::set_lib::lemma_len_subset(
                self.players@.dom(),
                old(self).players@.dom().insert(membership_id),
            );
        }
    }

    pub fn remove_player(&mut self, membership_id: u64)
        ensures
            final(self).positions() == old(self).positions().remove(membership_id),
            final(self).last_sequence() == old(self).last_sequence(),
    {
        self.players.remove(&membership_id);
    }

    /// A snapshot of every player under the next sequence number (wrapping).
    /// The entries come in the map's own order: each player once, with its
    /// position.
    pub fn snapshot(&mut self) -> (s: WorldSnapshot)
        ensures
            final(self).positions() == old(self).positions(),
            final(self).last_sequence() == s.sequence,
            s.sequence == vstd::wrapping::u32_specs::wrapping_add(old(self).last_sequence(), 1),
            s.players@.len() == old(self).positions().dom().len(),
            s.players@.to_set() == old(self).positions().kv_pairs(),
            s.players@.map_values(|e: (u64, PlayerPosition)| e.0).no_duplicates(),
    {
        self.sequence = self.sequence.wrapping_add(1);
        let mut entries: Vec<(u64, PlayerPosition)> = Vec::new();
        let ghost expected = vstd::std_specs::hash::spec_hash_map_iter(&self.players).remaining().unref();
        for pair in it: self.players.iter()
            invariant
                expected == vstd::std_specs::hash::spec_hash_map_iter(&self.players).remaining().unref(),
                it.seq().unref() == expected,
                entries@ == expected.take(it.index() as int),
        {
            let (k, v) = pair;
            entries.push((*k, *v));
            proof {
                assert(entries@ =~= expected.take(it.index() + 1));
            }
        }
        proof {
            assert(entries@ =~= expected);
            let keys = entries@.map_values(|e: (u64, PlayerPosition)| e.0);
            assert forall|i: int, j: int| 0 <= i < keys.len() && 0 <= j < keys.len() && i != j implies keys[i]
                != keys[j] by {
                let ei = entries@[i];
                let ej = entries@[j];
                assert(self.players@.contains_key(ei.0) && self.players@[ei.0] == ei.1);
                assert(self.players@.contains_key(ej.0) && self.players@[ej.0] == ej.1);
            }
        }
        WorldSnapshot { sequence: self.sequence, players: entries }
    }

    pub fn player_count(&self) -> (n: usize)
        ensures
            n == self.positions().dom().len(),
    {
        self.players.len()
    }
}

impl Default for WorldState {
    fn default() -> (w: Self)
        ensures
            w.positions() == Map::<u64, PlayerPosition>::empty(),
            w.last_sequence() == 0,
    {
        WorldState::new()
    }
}

} // verus!
