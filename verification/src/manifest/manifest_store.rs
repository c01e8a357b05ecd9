//! The item definitions known locally, by item hash, with lookup by name.
use vstd::prelude::*;
use std::collections::HashMap;
use vstd::std_specs::iter::IteratorSpec;
use crate::manifest::item_definition::DestinyItemDefinition;
use crate::text::{is_substring, lowercase_of, string_push_str, to_lowercase};
use crate::text_scan::str_contains;

verus! {

broadcast use vstd::std_specs::hash::group_hash_axioms;

#[derive(Debug, Clone)]
pub struct ManifestStore {
    pub items: HashMap<u32, DestinyItemDefinition>,
}

/// `d` is found by a search for `query`: its name contains the query, both
/// taken in lower case.
pub open spec fn name_matches(d: DestinyItemDefinition, query: Seq<char>) -> bool {
    is_substring(lowercase_of(query), lowercase_of(d.name@))
}

/// The keys whose definition a search for `query` finds.
pub open spec fn matching_keys(items: Map<u32, DestinyItemDefinition>, query: Seq<char>) -> Set<u32> {
    items.dom().filter(|k: u32| name_matches(items[k], query))
}

impl ManifestStore {
    pub fn new() -> (s: Self)
        ensures
            s.items@ == Map::<u32, DestinyItemDefinition>::empty(),
    {
        ManifestStore { items: HashMap::new() }
    }

    /// The cache file: under /data when that directory exists, else under the
    /// user's configuration directory.
    pub fn default_cache_path(data_dir_exists: bool, home_dir: &str) -> (p: String)
        ensures
            data_dir_exists ==> p@ == "/data/manifest_cache.json"@,
            !data_dir_exists ==> p@ == home_dir@ + "/.config/sunrise/manifest_cache.json"@,
    {
        if data_dir_exists {
            "/data/manifest_cache.json".to_owned()
        } else {
            let mut p = home_dir.to_owned();
            string_push_str(&mut p, "/.config/sunrise/manifest_cache.json");
            p
        }
    }

    /// Stores `item` under its hash, replacing any definition with that hash.
    pub fn insert_item(&mut self, item: DestinyItemDefinition)
        ensures
            final(self).items@ == old(self).items@.insert(item.item_hash, item),
    {
        self.items.insert(item.item_hash, item);
    }

    pub fn get_item(&self, hash: u32) -> (r: Option<&DestinyItemDefinition>)
        ensures
            match r {
                Some(d) => self.items@.contains_key(hash) && self.items@[hash] == *d,
                None => !self.items@.contains_key(hash),
            },
    {
        self.items.get(&hash)
    }

    /// The definitions whose name contains `query`, ignoring case, in the
    /// map's own order: one for every key whose definition matches.
    pub fn search_by_name(&self, query: &str) -> (v: Vec<&DestinyItemDefinition>)
        ensures
            v@.len() == matching_keys(self.items@, query@).len(),
            forall|i: int|
                0 <= i < v@.len() ==> self.items@.values().contains(*v@[i]) && name_matches(*v@[i], query@),
            forall|d: DestinyItemDefinition|
                #![trigger self.items@.values().contains(d)]
                self.items@.values().contains(d) && name_matches(d, query@) ==> exists|i: int|
                    0 <= i < v@.len() && *v@[i] == d,
    {
        let q = to_lowercase(query);
        let mut v: Vec<&DestinyItemDefinition> = Vec::new();
        let ghost m = self.items@;
        let ghost expected = vstd::std_specs::hash::spec_hash_map_iter(&self.items).remaining().unref();
        let ghost mut js: Seq<int> = Seq::empty();
        for pair in it: self.items.iter()
            invariant
                m == self.items@,
                expected == vstd::std_specs::hash::spec_hash_map_iter(&self.items).remaining().unref(),
                it.seq().unref() == expected,
                expected.len() == m.dom().len(),
                q@ == lowercase_of(query@),
                forall|j: int| 0 <= j < expected.len() ==> m.contains_key(#[trigger] expected[j].0) && m[expected[j].0] == expected[j].1,
                js.len() == v@.len(),
                forall|i: int|
                    0 <= i < js.len() ==> 0 <= #[trigger] js[i] < it.index() && *v@[i] == expected[js[i]].1
                        && name_matches(expected[js[i]].1, query@),
                forall|i: int, j: int| 0 <= i < j < js.len() ==> #[trigger] js[i] < #[trigger] js[j],
                forall|j: int|
                    0 <= j < it.index() && name_matches(#[trigger] expected[j].1, query@) ==> exists|i: int|
                        0 <= i < js.len() && js[i] == j,
        {
            let ghost idx = it.index();
            let ghost old_js = js;
            let (_k, d) = pair;
            let lowered = to_lowercase(d.name.as_str());
            proof {
                assert(*d == expected[idx as int].1);
            }
            if str_contains(lowered.as_str(), q.as_str()) {
                v.push(d);
                proof {
                    js = js.push(idx as int);
                }
            }
            proof {
                assert forall|j: int|
                    0 <= j < idx + 1 && name_matches(#[trigger] expected[j].1, query@) implies exists|i: int|
                        0 <= i < js.len() && js[i] == j by {
                    if j == idx {
                        assert(js[js.len() - 1] == j);
                    } else {
                        let i = choose|i: int| 0 <= i < old_js.len() && old_js[i] == j;
                        assert(js[i] == old_js[i]);
                    }
                }
            }
        }
        proof {
            assert forall|i: int, j: int| 0 <= i < expected.len() && 0 <= j < expected.len() && i != j implies
                expected[i].0 != expected[j].0 by {
                let ei = expected[i];
                let ej = expected[j];
                assert(m.contains_key(ei.0) && m[ei.0] == ei.1);
                assert(m.contains_key(ej.0) && m[ej.0] == ej.1);
            }
            let ks = js.map_values(|j: int| expected[j].0);
            assert forall|a: int, b: int| 0 <= a < ks.len() && 0 <= b < ks.len() && a != b implies ks[a] != ks[b] by {
                if a < b {
                    assert(js[a] < js[b]);
                } else {
                    assert(js[b] < js[a]);
                }
            }
            assert(ks.no_duplicates());
            ks.unique_seq_to_set();
            assert forall|k: u32| #[trigger] matching_keys(m, query@).contains(k) implies ks.to_set().contains(k) by {
                assert(m.contains_key(k));
                assert(m.kv_pairs().contains((k, m[k])));
                assert(expected.to_set().contains((k, m[k])));
                let j = choose|j: int| 0 <= j < expected.len() && expected[j] == (k, m[k]);
                assert(name_matches(expected[j].1, query@));
                let i = choose|i: int| 0 <= i < js.len() && js[i] == j;
                assert(ks[i] == k);
            }
            assert forall|k: u32| ks.to_set().contains(k) implies #[trigger] matching_keys(m, query@).contains(k) by {
                let i = choose|i: int| 0 <= i < ks.len() && ks[i] == k;
                assert(ks[i] == expected[js[i]].0);
            }
            assert(ks.to_set() =~= matching_keys(m, query@));
            assert forall|i: int| 0 <= i < v@.len() implies self.items@.values().contains(*v@[i]) && name_matches(
                *v@[i],
                query@,
            ) by {
                let k = expected[js[i]].0;
                assert(m.contains_key(k) && m[k] == *v@[i]);
                assert(name_matches(expected[js[i]].1, query@));
            }
            assert forall|d: DestinyItemDefinition|
                #![trigger self.items@.values().contains(d)]
                self.items@.values().contains(d) && name_matches(d, query@) implies exists|i: int|
                    0 <= i < v@.len() && *v@[i] == d by {
                let k = choose|k: u32| m.contains_key(k) && m[k] == d;
                assert(m.kv_pairs().contains((k, m[k])));
                assert(expected.to_set().contains((k, m[k])));
                let j = choose|j: int| 0 <= j < expected.len() && expected[j] == (k, m[k]);
                assert(name_matches(expected[j].1, query@));
                let i = choose|i: int| 0 <= i < js.len() && js[i] == j;
                assert(*v@[i] == expected[j].1);
            }
        }
        v
    }
}

impl Default for ManifestStore {
    fn default() -> (s: Self)
        ensures
            s.items@ == Map::<u32, DestinyItemDefinition>::empty(),
    {
        ManifestStore::new()
    }
}

} // verus!
