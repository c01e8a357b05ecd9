//! Item definitions as the content manifest describes them.
use vstd::prelude::*;
use std::collections::HashMap;
use vstd::string::StringSliceAdditionalSpecFns;

verus! {

broadcast use vstd::std_specs::hash::group_hash_axioms;

#[derive(Debug, Clone)]
pub struct ItemStatDefinition {
    pub stat_hash: u32,
    pub stat_name: String,
    pub value: i32,
}

#[derive(Debug, Clone)]
pub struct DestinyItemDefinition {
    pub item_hash: u32,
    pub name: String,
    pub description: String,
    pub item_type: String,
    pub tier_type: String,
    pub icon_path: String,
    pub is_exotic: bool,
    pub stats: HashMap<u32, ItemStatDefinition>,
}

/// The ASCII lower-case form of a byte; other bytes stay.
pub open spec fn ascii_lower(c: u8) -> u8 {
    if 65 <= c <= 90 {
        (c + 32) as u8
    } else {
        c
    }
}

/// `a` and `b` are equal up to the case of ASCII letters.
pub open spec fn eq_ignore_ascii_case(a: Seq<u8>, b: Seq<u8>) -> bool {
    a.len() == b.len() && forall|i: int| 0 <= i < a.len() ==> #[trigger] ascii_lower(a[i]) == ascii_lower(b[i])
}

/// The bytes of "Exotic".
pub open spec fn exotic_bytes() -> Seq<u8> {
    seq![69u8, 120u8, 111u8, 116u8, 105u8, 99u8]
}

fn lower_byte(c: u8) -> (r: u8)
    ensures
        r == ascii_lower(c),
{
    if 65 <= c && c <= 90 {
        c + 32
    } else {
        c
    }
}

/// Whether `tier` names the Exotic tier, in any ASCII case.
pub fn is_exotic_tier(tier: &str) -> (b: bool)
    ensures
        b == eq_ignore_ascii_case(tier.spec_bytes(), exotic_bytes()),
{
    let t = tier.as_bytes();
    let e: [u8; 6] = [69, 120, 111, 116, 105, 99];
    assert(e@ =~= exotic_bytes());
    if t.len() != 6 {
        return false;
    }
    let mut i: usize = 0;
    while i < 6
        invariant
            i <= 6,
            t@.len() == 6,
            t@ == tier.spec_bytes(),
            e@ == exotic_bytes(),
            forall|k: int| 0 <= k < i ==> #[trigger] ascii_lower(t@[k]) == ascii_lower(e@[k]),
        decreases 6 - i,
    {
        if lower_byte(t[i]) != lower_byte(e[i]) {
            return false;
        }
        i += 1;
    }
    true
}

impl DestinyItemDefinition {
    /// A definition with no icon and no stats; it is exotic when its tier is
    /// "Exotic" in any ASCII case.
    pub fn new(item_hash: u32, name: &str, description: &str, item_type: &str, tier_type: &str) -> (d: Self)
        ensures
            d.item_hash == item_hash,
            d.name@ == name@,
            d.description@ == description@,
            d.item_type@ == item_type@,
            d.tier_type@ == tier_type@,
            d.icon_path@ == Seq::<char>::empty(),
            d.is_exotic == eq_ignore_ascii_case(tier_type.spec_bytes(), exotic_bytes()),
            d.stats@ == Map::<u32, ItemStatDefinition>::empty(),
    {
        let is_exotic = is_exotic_tier(tier_type);
        DestinyItemDefinition {
            item_hash,
            name: name.to_owned(),
            description: description.to_owned(),
            item_type: item_type.to_owned(),
            tier_type: tier_type.to_owned(),
            icon_path: String::new(),
            is_exotic,
            stats: HashMap::new(),
        }
    }

    /// Sets the stat `stat_hash`, replacing any earlier value of it.
    pub fn add_stat(&mut self, stat_hash: u32, stat_name: &str, value: i32)
        ensures
            final(self).stats@.dom() == old(self).stats@.dom().insert(stat_hash),
            forall|h: u32| h != stat_hash ==> #[trigger] final(self).stats@[h] == old(self).stats@[h],
            final(self).stats@[stat_hash].stat_hash == stat_hash,
            final(self).stats@[stat_hash].stat_name@ == stat_name@,
            final(self).stats@[stat_hash].value == value,
            final(self).item_hash == old(self).item_hash,
            final(self).name == old(self).name,
            final(self).description == old(self).description,
            final(self).item_type == old(self).item_type,
            final(self).tier_type == old(self).tier_type,
            final(self).icon_path == old(self).icon_path,
            final(self).is_exotic == old(self).is_exotic,
    {
        self.stats.insert(stat_hash, ItemStatDefinition { stat_hash, stat_name: stat_name.to_owned(), value });
    }
}

} // verus!
