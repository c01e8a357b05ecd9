//! One activity instance: its phase and who takes part in it.
use vstd::prelude::*;

verus! {

#[derive(Debug, Clone, Copy, PartialEq, Eq, Structural)]
pub enum ActivityPhase {
    Idle,
    Matchmaking,
    Loading,
    InWorld,
    Ending,
}

/// The number a phase is known by on the wire.
pub open spec fn phase_code(p: ActivityPhase) -> u32 {
    match p {
        ActivityPhase::Idle => 0,
        ActivityPhase::Matchmaking => 1,
        ActivityPhase::Loading => 2,
        ActivityPhase::InWorld => 3,
        ActivityPhase::Ending => 4,
    }
}

impl ActivityPhase {
    pub fn code(self) -> (v: u32)
        ensures
            v == phase_code(self),
    {
        match self {
            ActivityPhase::Idle => 0,
            ActivityPhase::Matchmaking => 1,
            ActivityPhase::Loading => 2,
            ActivityPhase::InWorld => 3,
            ActivityPhase::Ending => 4,
        }
    }
}

/// The participants after `m` joins: unchanged when `m` is already there,
/// else `m` is added at the end.
pub open spec fn joined(s: Seq<u64>, m: u64) -> Seq<u64> {
    if s.contains(m) {
        s
    } else {
        s.push(m)
    }
}

/// The participants after `m` leaves: every entry of `m` is gone, the others
/// keep their order.
pub open spec fn left(s: Seq<u64>, m: u64) -> Seq<u64> {
    s.filter(other_than(m))
}

/// Holds of every id but `m`.
pub open spec fn other_than(m: u64) -> spec_fn(u64) -> bool {
    |x: u64| x != m
}

proof fn lemma_push_no_dup(t: Seq<u64>, x: u64)
    requires
        t.no_duplicates(),
        !t.contains(x),
    ensures
        t.push(x).no_duplicates(),
{
    let u = t.push(x);
    assert forall|i: int, j: int| 0 <= i < u.len() && 0 <= j < u.len() && i != j implies u[i] != u[j] by {
        if i < t.len() && j < t.len() {
        } else if i < t.len() {
            assert(t.contains(t[i]));
        } else {
            assert(t.contains(t[j]));
        }
    }
}

proof fn lemma_left_no_dup(s: Seq<u64>, m: u64)
    requires
        s.no_duplicates(),
    ensures
        left(s, m).no_duplicates(),
    decreases s.len(),
{
    reveal(Seq::filter);
    if s.len() > 0 {
        let r = s.drop_last();
        let x = s.last();
        assert(r.no_duplicates());
        lemma_left_no_dup(r, m);
        assert(r.push(x) =~= s);
        r.lemma_filter_push(x, other_than(m));
        if x != m {
            if left(r, m).contains(x) {
                r.lemma_filter_contains_rev(other_than(m), x);
                let k = choose|k: int| 0 <= k < r.len() && r[k] == x;
                assert(s[k] == s[s.len() - 1]);
            }
            lemma_push_no_dup(left(r, m), x);
        }
    }
}

/// Joining twice is joining once; joining keeps a list free of duplicates and
/// puts the member in it; leaving keeps it free of duplicates and takes the
/// member out; joining after a leave puts the member last.
pub proof fn lemma_membership_laws(s: Seq<u64>, m: u64)
    ensures
        joined(joined(s, m), m) == joined(s, m),
        joined(s, m).contains(m),
        !left(s, m).contains(m),
        s.no_duplicates() ==> joined(s, m).no_duplicates(),
        s.no_duplicates() ==> left(s, m).no_duplicates(),
        joined(left(s, m), m) == left(s, m).push(m),
{
    broadcast use vstd::seq_lib::group_filter_ensures;

    if !s.contains(m) {
        assert(s.push(m)[s.len() as int] == m);
        if s.no_duplicates() {
            lemma_push_no_dup(s, m);
        }
    }
    if s.no_duplicates() {
        lemma_left_no_dup(s, m);
    }
    if left(s, m).contains(m) {
        let k = choose|k: int| 0 <= k < left(s, m).len() && left(s, m)[k] == m;
        s.lemma_filter_pred(other_than(m), k);
    }
}

#[derive(Debug, Clone)]
pub struct ActivitySession {
    pub session_id: u64,
    pub activity_hash: u32,
    pub destination_hash: u32,
    pub phase: ActivityPhase,
    pub participants: Vec<u64>,
}

impl ActivitySession {
    /// An idle session with no participants.
    pub fn new(session_id: u64, activity_hash: u32, destination_hash: u32) -> (s: Self)
        ensures
            s.session_id == session_id,
            s.activity_hash == activity_hash,
            s.destination_hash == destination_hash,
            s.phase == ActivityPhase::Idle,
            s.participants@ == Seq::<u64>::empty(),
    {
        ActivitySession {
            session_id,
            activity_hash,
            destination_hash,
            phase: ActivityPhase::Idle,
            participants: Vec::new(),
        }
    }

    /// Adds `membership_id` unless it already takes part.
    pub fn join(&mut self, membership_id: u64)
        ensures
            final(self).participants@ == joined(old(self).participants@, membership_id),
            final(self).session_id == old(self).session_id,
            final(self).activity_hash == old(self).activity_hash,
            final(self).destination_hash == old(self).destination_hash,
            final(self).phase == old(self).phase,
    {
        let mut i: usize = 0;
        while i < self.participants.len()
            invariant
                i <= self.participants@.len(),
                forall|j: int| 0 <= j < i ==> #[trigger] self.participants@[j] != membership_id,
            decreases self.participants@.len() - i,
        {
            if self.participants[i] == membership_id {
                proof {
                    assert(self.participants@.contains(membership_id));
                }
                return;
            }
            i += 1;
        }
        self.participants.push(membership_id);
    }

    /// Removes every entry of `membership_id`.
    pub fn leave(&mut self, membership_id: u64)
        ensures
            final(self).participants@ == left(old(self).participants@, membership_id),
            final(self).session_id == old(self).session_id,
            final(self).activity_hash == old(self).activity_hash,
            final(self).destination_hash == old(self).destination_hash,
            final(self).phase == old(self).phase,
    {
        let mut kept: Vec<u64> = Vec::new();
        let mut i: usize = 0;
        while i < self.participants.len()
            invariant
                i <= self.participants@.len(),
                kept@ == left(self.participants@.subrange(0, i as int), membership_id),
            decreases self.participants@.len() - i,
        {
            proof {
                let p = self.participants@;
                assert(p.subrange(0, i + 1).drop_last() =~= p.subrange(0, i as int));
                reveal(Seq::filter);
            }
            if self.participants[i] != membership_id {
                kept.push(self.participants[i]);
            }
            i += 1;
        }
        proof {
            assert(self.participants@.subrange(0, i as int) =~= self.participants@);
        }
        self.participants = kept;
    }

    pub fn advance_phase(&mut self, new_phase: ActivityPhase)
        ensures
            final(self).phase == new_phase,
            final(self).participants == old(self).participants,
            final(self).session_id == old(self).session_id,
            final(self).activity_hash == old(self).activity_hash,
            final(self).destination_hash == old(self).destination_hash,
    {
        self.phase = new_phase;
    }
}

} // verus!
