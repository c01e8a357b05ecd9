//! Which client each UDP source address belongs to: a list of address and
//! membership id pairs in which no address occurs twice.
use vstd::prelude::*;

verus! {

/// A socket address: the IP address as a number (IPv4 in the low 32 bits),
/// whether it is IPv6, and the port.
#[derive(Debug, Clone, Copy, PartialEq, Eq, Hash, Structural)]
pub struct PeerAddr {
    pub ip: u128,
    pub is_v6: bool,
    pub port: u16,
}

impl PeerAddr {
    /// The same host at another port.
    pub fn with_port(self, port: u16) -> (a: PeerAddr)
        ensures
            a == (PeerAddr { port, ..self }),
    {
        PeerAddr { ip: self.ip, is_v6: self.is_v6, port }
    }
}

/// No address occurs twice in `v`.
pub open spec fn keys_unique(v: Seq<(PeerAddr, u64)>) -> bool {
    forall|i: int, j: int| 0 <= i < v.len() && 0 <= j < v.len() && i != j ==> #[trigger] v[i].0 != #[trigger] v[j].0
}

/// The membership id bound to `a` in `v`, if any.
pub open spec fn binding(v: Seq<(PeerAddr, u64)>, a: PeerAddr) -> Option<u64> {
    if exists|i: int| 0 <= i < v.len() && v[i].0 == a {
        Some(v[choose|i: int| 0 <= i < v.len() && v[i].0 == a].1)
    } else {
        None
    }
}

pub proof fn lemma_binding_at(v: Seq<(PeerAddr, u64)>, i: int)
    requires
        keys_unique(v),
        0 <= i < v.len(),
    ensures
        binding(v, v[i].0) == Some(v[i].1),
{
    let a = v[i].0;
    let k = choose|k: int| 0 <= k < v.len() && v[k].0 == a;
    if k != i {
        assert(v[k].0 == v[i].0);
    }
}

/// Whether a pair is dropped by `retain_bindings`: its address is
/// `drop_addr`, or its id is `drop_id` and its address is not `keep_addr`.
pub open spec fn is_dropped(
    e: (PeerAddr, u64),
    drop_addr: Option<PeerAddr>,
    drop_id: Option<u64>,
    keep_addr: Option<PeerAddr>,
) -> bool {
    drop_addr == Some(e.0) || (drop_id == Some(e.1) && keep_addr != Some(e.0))
}

/// Holds of the pairs that `retain_bindings` keeps.
pub open spec fn kept_by(
    drop_addr: Option<PeerAddr>,
    drop_id: Option<u64>,
    keep_addr: Option<PeerAddr>,
) -> spec_fn((PeerAddr, u64)) -> bool {
    |e: (PeerAddr, u64)| !is_dropped(e, drop_addr, drop_id, keep_addr)
}

proof fn lemma_binding_push(r: Seq<(PeerAddr, u64)>, x: (PeerAddr, u64), a: PeerAddr)
    requires
        keys_unique(r.push(x)),
    ensures
        keys_unique(r),
        binding(r.push(x), a) == if a == x.0 {
            Some(x.1)
        } else {
            binding(r, a)
        },
{
    let v = r.push(x);
    assert forall|i: int, j: int| 0 <= i < r.len() && 0 <= j < r.len() && i != j implies #[trigger] r[i].0
        != #[trigger] r[j].0 by {
        assert(v[i] == r[i] && v[j] == r[j]);
    }
    lemma_binding_at(v, r.len() as int);
    if a != x.0 {
        if exists|j: int| 0 <= j < r.len() && r[j].0 == a {
            let j = choose|j: int| 0 <= j < r.len() && r[j].0 == a;
            lemma_binding_at(r, j);
            assert(v[j] == r[j]);
            lemma_binding_at(v, j);
        } else if exists|j: int| 0 <= j < v.len() && v[j].0 == a {
            let j = choose|j: int| 0 <= j < v.len() && v[j].0 == a;
            if j < r.len() {
                assert(v[j] == r[j]);
            }
        }
    }
}

proof fn lemma_filter_binding(v: Seq<(PeerAddr, u64)>, p: spec_fn((PeerAddr, u64)) -> bool, a: PeerAddr)
    requires
        keys_unique(v),
    ensures
        keys_unique(v.filter(p)),
        binding(v.filter(p), a) == match binding(v, a) {
            Some(id) => if p((a, id)) {
                Some(id)
            } else {
                None
            },
            None => None,
        },
    decreases v.len(),
{
    reveal(Seq::filter);
    if v.len() == 0 {
        assert(v.filter(p) =~= v);
    } else {
        let r = v.drop_last();
        let x = v.last();
        assert(r.push(x) =~= v);
        lemma_binding_push(r, x, a);
        lemma_filter_binding(r, p, a);
        let fr = r.filter(p);
        if p(x) {
            assert(v.filter(p) == fr.push(x));
            assert forall|i: int, j: int| 0 <= i < fr.push(x).len() && 0 <= j < fr.push(x).len() && i != j implies
                #[trigger] fr.push(x)[i].0 != #[trigger] fr.push(x)[j].0 by {
                let u = fr.push(x);
                if i < fr.len() && j < fr.len() {
                } else if i < fr.len() {
                    assert(fr.contains(fr[i]));
                    r.lemma_filter_contains_rev(p, fr[i]);
                    let k = choose|k: int| 0 <= k < r.len() && r[k] == fr[i];
                    assert(v[k] == r[k]);
                    assert(v[v.len() - 1] == x);
                } else if j < fr.len() {
                    assert(fr.contains(fr[j]));
                    r.lemma_filter_contains_rev(p, fr[j]);
                    let k = choose|k: int| 0 <= k < r.len() && r[k] == fr[j];
                    assert(v[k] == r[k]);
                    assert(v[v.len() - 1] == x);
                }
            }
            lemma_binding_push(fr, x, a);
        } else {
            assert(v.filter(p) == fr);
            if a == x.0 {
                if exists|j: int| 0 <= j < fr.len() && fr[j].0 == a {
                    let j = choose|j: int| 0 <= j < fr.len() && fr[j].0 == a;
                    assert(fr.contains(fr[j]));
                    r.lemma_filter_contains_rev(p, fr[j]);
                    let k = choose|k: int| 0 <= k < r.len() && r[k] == fr[j];
                    assert(v[k] == r[k]);
                    assert(v[v.len() - 1] == x);
                }
            }
        }
    }
}

/// The bindings in the order they were made.
pub struct UdpBindings {
    entries: Vec<(PeerAddr, u64)>,
}

impl UdpBindings {
    pub closed spec fn wf(&self) -> bool {
        keys_unique(self.entries@)
    }

    /// The membership id bound to `a`, if any.
    pub closed spec fn get_spec(&self, a: PeerAddr) -> Option<u64> {
        binding(self.entries@, a)
    }

    pub fn new() -> (b: Self)
        ensures
            b.wf(),
            forall|a: PeerAddr| #[trigger] b.get_spec(a) is None,
    {
        UdpBindings { entries: Vec::new() }
    }

    pub fn get(&self, a: PeerAddr) -> (r: Option<u64>)
        requires
            self.wf(),
        ensures
            r == self.get_spec(a),
    {
        let mut i: usize = 0;
        while i < self.entries.len()
            invariant
                self.wf(),
                i <= self.entries@.len(),
                forall|j: int| 0 <= j < i ==> #[trigger] self.entries@[j].0 != a,
            decreases self.entries@.len() - i,
        {
            if self.entries[i].0 == a {
                proof {
                    lemma_binding_at(self.entries@, i as int);
                }
                return Some(self.entries[i].1);
            }
            i += 1;
        }
        None
    }

    /// Drops every binding that `is_dropped` picks; the others stay.
    pub fn retain_bindings(
        &mut self,
        drop_addr: Option<PeerAddr>,
        drop_id: Option<u64>,
        keep_addr: Option<PeerAddr>,
    )
        requires
            old(self).wf(),
        ensures
            final(self).wf(),
            forall|a: PeerAddr| #[trigger]
                final(self).get_spec(a) == match old(self).get_spec(a) {
                    Some(id) => if is_dropped((a, id), drop_addr, drop_id, keep_addr) {
                        None
                    } else {
                        Some(id)
                    },
                    None => None,
                },
    {
        let ghost old_v = self.entries@;
        let ghost keep = kept_by(drop_addr, drop_id, keep_addr);
        let mut kept: Vec<(PeerAddr, u64)> = Vec::new();
        let n = self.entries.len();
        let mut i: usize = 0;
        while i < n
            invariant
                n == old_v.len(),
                self.entries@ == old_v,
                i <= n,
                keep == kept_by(drop_addr, drop_id, keep_addr),
                kept@ == old_v.subrange(0, i as int).filter(keep),
            decreases n - i,
        {
            let e = self.entries[i];
            let dropped = match drop_addr {
                Some(x) => x == e.0,
                None => false,
            } || (match drop_id {
                Some(d) => d == e.1,
                None => false,
            } && match keep_addr {
                Some(x) => x != e.0,
                None => true,
            });
            proof {
                assert(old_v.subrange(0, i + 1) =~= old_v.subrange(0, i as int).push(e));
                old_v.subrange(0, i as int).lemma_filter_push(e, keep);
            }
            if !dropped {
                kept.push(e);
            }
            i += 1;
        }
        proof {
            assert(old_v.subrange(0, n as int) =~= old_v);
            assert forall|a: PeerAddr| #[trigger]
                binding(kept@, a) == match binding(old_v, a) {
                    Some(id) => if is_dropped((a, id), drop_addr, drop_id, keep_addr) {
                        None
                    } else {
                        Some(id)
                    },
                    None => None,
                } by {
                lemma_filter_binding(old_v, keep, a);
            }
            lemma_filter_binding(old_v, keep, drop_addr.unwrap_or(PeerAddr { ip: 0, is_v6: false, port: 0 }));
        }
        self.entries = kept;
    }

    /// Binds `a` to `id`, replacing what `a` was bound to.
    pub fn insert(&mut self, a: PeerAddr, id: u64)
        requires
            old(self).wf(),
        ensures
            final(self).wf(),
            forall|b: PeerAddr| #[trigger]
                final(self).get_spec(b) == if b == a {
                    Some(id)
                } else {
                    old(self).get_spec(b)
                },
    {
        self.retain_bindings(Some(a), None, None);
        let ghost mid = self.entries@;
        let ghost mid_self = *self;
        proof {
            assert(self.get_spec(a) is None);
            assert forall|k: int| 0 <= k < mid.len() implies mid[k].0 != a by {
                lemma_binding_at(mid, k);
            }
        }
        self.entries.push((a, id));
        proof {
            let v = self.entries@;
            assert(keys_unique(v)) by {
                assert forall|i: int, j: int| 0 <= i < v.len() && 0 <= j < v.len() && i != j implies #[trigger] v[i].0
                    != #[trigger] v[j].0 by {
                    if i < mid.len() && j < mid.len() {
                        assert(v[i] == mid[i] && v[j] == mid[j]);
                    } else if i < mid.len() {
                        assert(v[i] == mid[i]);
                    } else if j < mid.len() {
                        assert(v[j] == mid[j]);
                    }
                }
            }
            assert(v =~= mid.push((a, id)));
            assert forall|b: PeerAddr| #[trigger]
                self.get_spec(b) == if b == a {
                    Some(id)
                } else {
                    old(self).get_spec(b)
                } by {
                lemma_binding_push(mid, (a, id), b);
                assert(mid_self.get_spec(b) == binding(mid, b));
                if b != a {
                    assert(mid_self.get_spec(b) == old(self).get_spec(b));
                }
            }
        }
    }

    /// Removes the binding of `a`, if any.
    pub fn remove(&mut self, a: PeerAddr)
        requires
            old(self).wf(),
        ensures
            final(self).wf(),
            forall|b: PeerAddr| #[trigger]
                final(self).get_spec(b) == if b == a {
                    None
                } else {
                    old(self).get_spec(b)
                },
    {
        self.retain_bindings(Some(a), None, None);
    }
}

} // verus!
