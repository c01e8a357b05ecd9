//! The destinations a player can travel to, and lookup by destination or
//! activity hash.
use vstd::prelude::*;

verus! {

#[derive(Debug, Clone)]
pub struct DestinationManifest {
    pub name: String,
    pub destination_hash: u32,
    pub activity_hash: u32,
    pub recommended_light: u32,
    pub description: String,
}

/// A destination as plain values.
pub struct DestinationView {
    pub name: Seq<char>,
    pub destination_hash: u32,
    pub activity_hash: u32,
    pub recommended_light: u32,
    pub description: Seq<char>,
}

impl View for DestinationManifest {
    type V = DestinationView;

    open spec fn view(&self) -> DestinationView {
        DestinationView {
            name: self.name@,
            destination_hash: self.destination_hash,
            activity_hash: self.activity_hash,
            recommended_light: self.recommended_light,
            description: self.description@,
        }
    }
}

pub open spec fn destination(name: &str, destination_hash: u32, activity_hash: u32, description: &str) -> DestinationView {
    DestinationView { name: name@, destination_hash, activity_hash, recommended_light: 750, description: description@ }
}

/// Every destination, in the order they are offered.
pub open spec fn destination_table() -> Seq<DestinationView> {
    seq![
        destination(
            "Titan // New Pacific Arcology",
            373711905,
            2166136261,
            "Submerged Golden Age metropolis on the methane seas of Titan.",
        ),
        destination(
            "Io // The Rupture & Lost Oasis",
            4136426117,
            3373516314,
            "The last site touched by the Traveler before the Collapse.",
        ),
        destination(
            "Mars // Hellas Basin & Mindlab",
            2877881079,
            3737671190,
            "Frozen red dunes and the central server core of Warmind Rasputin.",
        ),
        destination(
            "Mercury // The Lighthouse & Forest",
            3455118012,
            4188371101,
            "Vex simulation machine under the blazing solar storms.",
        ),
        destination(
            "The Leviathan // Calus Palace & Raid",
            2693136600,
            2693136601,
            "Emperor Calus's flagship world-eater with the royal pleasure gardens.",
        ),
        destination(
            "The Farm // European Dead Zone",
            2171538392,
            2171538393,
            "The peaceful refugee sanctuary from the Red War campaign.",
        ),
        destination(
            "Tangled Shore // High Plains",
            1475704108,
            1475704109,
            "Lawless frontier of the reef, asteroid debris, and Fallen barons.",
        ),
        destination(
            "The Dreaming City // Divalian Mists",
            1475704110,
            1475704111,
            "Sacred Awoken sanctuary hidden behind cloaking shields.",
        ),
    ]
}

/// `d` is found by `hash`.
pub open spec fn destination_matches(d: DestinationView, hash: u32) -> bool {
    d.destination_hash == hash || d.activity_hash == hash
}

/// The index of the first destination found by `hash`, if any.
pub open spec fn destination_index(hash: u32) -> Option<int> {
    if exists|i: int| first_destination_at(hash, i) {
        Some(choose|i: int| first_destination_at(hash, i))
    } else {
        None
    }
}

/// Entry `i` is the first destination found by `hash`.
pub open spec fn first_destination_at(hash: u32, i: int) -> bool {
    &&& 0 <= i < destination_table().len()
    &&& destination_matches(destination_table()[i], hash)
    &&& forall|j: int| 0 <= j < i ==> !destination_matches(#[trigger] destination_table()[j], hash)
}

fn entry(name: &str, destination_hash: u32, activity_hash: u32, description: &str) -> (d: DestinationManifest)
    ensures
        d@ == destination(name, destination_hash, activity_hash, description),
{
    DestinationManifest {
        name: name.to_owned(),
        destination_hash,
        activity_hash,
        recommended_light: 750,
        description: description.to_owned(),
    }
}

pub struct ActivityDirector;

impl ActivityDirector {
    pub fn get_available_destinations() -> (v: Vec<DestinationManifest>)
        ensures
            v@.len() == destination_table().len(),
            forall|i: int| 0 <= i < v@.len() ==> #[trigger] v@[i]@ == destination_table()[i],
    {
        let mut v: Vec<DestinationManifest> = Vec::new();
        v.push(
            entry(
                "Titan // New Pacific Arcology",
                373711905,
                2166136261,
                "Submerged Golden Age metropolis on the methane seas of Titan.",
            ),
        );
        v.push(
            entry(
                "Io // The Rupture & Lost Oasis",
                4136426117,
                3373516314,
                "The last site touched by the Traveler before the Collapse.",
            ),
        );
        v.push(
            entry(
                "Mars // Hellas Basin & Mindlab",
                2877881079,
                3737671190,
                "Frozen red dunes and the central server core of Warmind Rasputin.",
            ),
        );
        v.push(
            entry(
                "Mercury // The Lighthouse & Forest",
                3455118012,
                4188371101,
                "Vex simulation machine under the blazing solar storms.",
            ),
        );
        v.push(
            entry(
                "The Leviathan // Calus Palace & Raid",
                2693136600,
                2693136601,
                "Emperor Calus's flagship world-eater with the royal pleasure gardens.",
            ),
        );
        v.push(
            entry(
                "The Farm // European Dead Zone",
                2171538392,
                2171538393,
                "The peaceful refugee sanctuary from the Red War campaign.",
            ),
        );
        v.push(
            entry(
                "Tangled Shore // High Plains",
                1475704108,
                1475704109,
                "Lawless frontier of the reef, asteroid debris, and Fallen barons.",
            ),
        );
        v.push(
            entry(
                "The Dreaming City // Divalian Mists",
                1475704110,
                1475704111,
                "Sacred Awoken sanctuary hidden behind cloaking shields.",
            ),
        );
        v
    }

    /// The first destination whose destination or activity hash is `hash`.
    pub fn lookup_destination(hash: u32) -> (r: Option<DestinationManifest>)
        ensures
            match destination_index(hash) {
                Some(i) => r matches Some(d) && d@ == destination_table()[i],
                None => r is None,
            },
    {
        let mut all = Self::get_available_destinations();
        let n = all.len();
        let mut i: usize = 0;
        while i < n
            invariant
                i <= n == all@.len() == destination_table().len(),
                forall|k: int| 0 <= k < n ==> #[trigger] all@[k]@ == destination_table()[k],
                forall|j: int| 0 <= j < i ==> !destination_matches(#[trigger] destination_table()[j], hash),
            decreases n - i,
        {
            if all[i].destination_hash == hash || all[i].activity_hash == hash {
                proof {
                    assert(all@[i as int]@ == destination_table()[i as int]);
                    assert(first_destination_at(hash, i as int));
                    let k = choose|k: int| first_destination_at(hash, k);
                    if k < i {
                        assert(destination_matches(destination_table()[k], hash));
                    } else if k > i {
                        assert(destination_matches(destination_table()[i as int], hash));
                    }
                }
                return Some(all.remove(i));
            }
            proof {
                assert(all@[i as int]@ == destination_table()[i as int]);
            }
            i += 1;
        }
        None
    }
}

} // verus!
