//! Player accounts and their characters.
use vstd::prelude::*;
use crate::state::inventory::{equipped_item, CharacterInventory, ItemBucketType, ItemInstance};
use crate::state::light_calculator::{base_light, calculate_base_light, GearSlots};

verus! {

#[derive(Debug, Clone, Copy, PartialEq, Eq, Structural)]
pub enum CharacterClass {
    Titan,
    Hunter,
    Warlock,
}

/// The number a class is known by on the wire.
pub open spec fn class_code(c: CharacterClass) -> u32 {
    match c {
        CharacterClass::Titan => 0,
        CharacterClass::Hunter => 1,
        CharacterClass::Warlock => 2,
    }
}

impl CharacterClass {
    pub fn code(self) -> (v: u32)
        ensures
            v == class_code(self),
    {
        match self {
            CharacterClass::Titan => 0,
            CharacterClass::Hunter => 1,
            CharacterClass::Warlock => 2,
        }
    }
}

/// The power of the first equipped item of bucket `b`, or 0 when none is equipped.
pub open spec fn equipped_power(items: Seq<ItemInstance>, b: ItemBucketType) -> u32 {
    match equipped_item(items, b) {
        Some(it) => it.power_level,
        None => 0,
    }
}

/// The gear slots filled from what `items` has equipped.
pub open spec fn equipped_slots(items: Seq<ItemInstance>) -> GearSlots {
    GearSlots {
        kinetic: equipped_power(items, ItemBucketType::KineticWeapons),
        energy: equipped_power(items, ItemBucketType::EnergyWeapons),
        power: equipped_power(items, ItemBucketType::PowerWeapons),
        helmet: equipped_power(items, ItemBucketType::Helmet),
        gauntlets: equipped_power(items, ItemBucketType::Gauntlets),
        chest: equipped_power(items, ItemBucketType::ChestArmor),
        legs: equipped_power(items, ItemBucketType::LegArmor),
        class_item: equipped_power(items, ItemBucketType::ClassArmor),
    }
}

/// Each gear slot reads the bucket of its own name: the three weapon slots the
/// kinetic, energy and power weapons, the five armor slots the helmet,
/// gauntlets, chest, leg and class armor; and the light of those slots is the
/// sum of the eight equipped powers divided by eight, rounded down.
pub proof fn lemma_slots_read_own_bucket(items: Seq<ItemInstance>)
    ensures
        equipped_slots(items).kinetic == equipped_power(items, ItemBucketType::KineticWeapons),
        equipped_slots(items).energy == equipped_power(items, ItemBucketType::EnergyWeapons),
        equipped_slots(items).power == equipped_power(items, ItemBucketType::PowerWeapons),
        equipped_slots(items).helmet == equipped_power(items, ItemBucketType::Helmet),
        equipped_slots(items).gauntlets == equipped_power(items, ItemBucketType::Gauntlets),
        equipped_slots(items).chest == equipped_power(items, ItemBucketType::ChestArmor),
        equipped_slots(items).legs == equipped_power(items, ItemBucketType::LegArmor),
        equipped_slots(items).class_item == equipped_power(items, ItemBucketType::ClassArmor),
        base_light(equipped_slots(items)) == (equipped_power(items, ItemBucketType::KineticWeapons)
            + equipped_power(items, ItemBucketType::EnergyWeapons) + equipped_power(
            items,
            ItemBucketType::PowerWeapons,
        ) + equipped_power(items, ItemBucketType::Helmet) + equipped_power(items, ItemBucketType::Gauntlets)
            + equipped_power(items, ItemBucketType::ChestArmor) + equipped_power(items, ItemBucketType::LegArmor)
            + equipped_power(items, ItemBucketType::ClassArmor)) / 8,
{
}

/// The light a character has once recalculated from what it has equipped.
pub open spec fn recalculated_light(c: CharacterState) -> int {
    base_light(equipped_slots(c.inventory.items@))
}

#[derive(Debug, Clone)]
pub struct CharacterState {
    pub character_id: u64,
    pub class_type: CharacterClass,
    pub light_level: u32,
    pub inventory: CharacterInventory,
}

impl CharacterState {
    /// A character with light 0 and an empty inventory.
    pub fn new(character_id: u64, class_type: CharacterClass) -> (c: Self)
        ensures
            c.character_id == character_id,
            c.class_type == class_type,
            c.light_level == 0,
            c.inventory.items@ == Seq::<ItemInstance>::empty(),
    {
        CharacterState { character_id, class_type, light_level: 0, inventory: CharacterInventory::new() }
    }

    fn equipped_power_of(&self, b: ItemBucketType) -> (p: u32)
        ensures
            p == equipped_power(self.inventory.items@, b),
    {
        match self.inventory.get_equipped_item(b) {
            Some(it) => it.power_level,
            None => 0,
        }
    }

    /// Sets the light level from the equipped weapons and armor.
    pub fn recalculate_light(&mut self)
        ensures
            final(self).light_level == base_light(equipped_slots(old(self).inventory.items@)),
            final(self).light_level == (equipped_power(old(self).inventory.items@, ItemBucketType::KineticWeapons)
                + equipped_power(old(self).inventory.items@, ItemBucketType::EnergyWeapons) + equipped_power(
                old(self).inventory.items@,
                ItemBucketType::PowerWeapons,
            ) + equipped_power(old(self).inventory.items@, ItemBucketType::Helmet) + equipped_power(
                old(self).inventory.items@,
                ItemBucketType::Gauntlets,
            ) + equipped_power(old(self).inventory.items@, ItemBucketType::ChestArmor) + equipped_power(
                old(self).inventory.items@,
                ItemBucketType::LegArmor,
            ) + equipped_power(old(self).inventory.items@, ItemBucketType::ClassArmor)) / 8,
            final(self).character_id == old(self).character_id,
            final(self).class_type == old(self).class_type,
            final(self).inventory == old(self).inventory,
    {
        let slots = GearSlots::new(
            self.equipped_power_of(ItemBucketType::KineticWeapons),
            self.equipped_power_of(ItemBucketType::EnergyWeapons),
            self.equipped_power_of(ItemBucketType::PowerWeapons),
            self.equipped_power_of(ItemBucketType::Helmet),
            self.equipped_power_of(ItemBucketType::Gauntlets),
            self.equipped_power_of(ItemBucketType::ChestArmor),
            self.equipped_power_of(ItemBucketType::LegArmor),
            self.equipped_power_of(ItemBucketType::ClassArmor),
        );
        self.light_level = calculate_base_light(&slots);
        proof {
            lemma_slots_read_own_bucket(self.inventory.items@);
        }
    }
}

/// `characters[i]` is the first character with id `id`.
pub open spec fn first_character_at(characters: Seq<CharacterState>, id: u64, i: int) -> bool {
    &&& 0 <= i < characters.len()
    &&& characters[i].character_id == id
    &&& forall|j: int| 0 <= j < i ==> #[trigger] characters[j].character_id != id
}

/// The index of the first character with id `id`, if any.
pub open spec fn character_index(characters: Seq<CharacterState>, id: u64) -> Option<int> {
    if exists|i: int| first_character_at(characters, id, i) {
        Some(choose|i: int| first_character_at(characters, id, i))
    } else {
        None
    }
}

proof fn lemma_first_character_unique(characters: Seq<CharacterState>, id: u64, i: int)
    requires
        first_character_at(characters, id, i),
    ensures
        character_index(characters, id) == Some(i),
{
    let k = choose|k: int| first_character_at(characters, id, k);
    if k < i {
        assert(characters[k].character_id == id);
    } else if k > i {
        assert(characters[i].character_id == id);
    }
}

#[derive(Debug, Clone)]
pub struct AccountState {
    pub membership_id: u64,
    pub display_name: String,
    pub characters: Vec<CharacterState>,
}

impl AccountState {
    /// An account with no characters.
    pub fn new(membership_id: u64, display_name: &str) -> (a: Self)
        ensures
            a.membership_id == membership_id,
            a.display_name@ == display_name@,
            a.characters@ == Seq::<CharacterState>::empty(),
    {
        AccountState { membership_id, display_name: display_name.to_owned(), characters: Vec::new() }
    }

    pub fn add_character(&mut self, character: CharacterState)
        ensures
            final(self).membership_id == old(self).membership_id,
            final(self).display_name == old(self).display_name,
            final(self).characters@ == old(self).characters@.push(character),
    {
        self.characters.push(character);
    }

    fn find_character(&self, character_id: u64) -> (r: Option<usize>)
        ensures
            match r {
                Some(k) => character_index(self.characters@, character_id) == Some(k as int),
                None => character_index(self.characters@, character_id) is None,
            },
    {
        let n = self.characters.len();
        let mut k: usize = 0;
        while k < n
            invariant
                k <= n == self.characters@.len(),
                forall|j: int| 0 <= j < k ==> #[trigger] self.characters@[j].character_id != character_id,
            decreases n - k,
        {
            if self.characters[k].character_id == character_id {
                proof {
                    lemma_first_character_unique(self.characters@, character_id, k as int);
                }
                return Some(k);
            }
            k += 1;
        }
        None
    }

    /// The first character with `character_id`.
    pub fn get_character(&self, character_id: u64) -> (r: Option<&CharacterState>)
        ensures
            match character_index(self.characters@, character_id) {
                Some(k) => r == Some(&self.characters@[k]),
                None => r is None,
            },
    {
        match self.find_character(character_id) {
            Some(k) => Some(&self.characters[k]),
            None => None,
        }
    }

    /// The first character, to change in place.
    pub fn get_first_character_mut(&mut self) -> (r: Option<&mut CharacterState>)
        ensures
            old(self).characters@.len() > 0 ==> (r matches Some(c) && *c == old(self).characters@[0]
                && final(self).characters@ == old(self).characters@.update(0, *final(c)) && final(self).membership_id
                == old(self).membership_id && final(self).display_name == old(self).display_name),
            old(self).characters@.len() == 0 ==> r is None && *final(self) == *old(self),
    {
        if self.characters.len() > 0 {
            Some(&mut self.characters[0])
        } else {
            None
        }
    }

    /// The first character with `character_id`, to change in place.
    pub fn get_character_mut(&mut self, character_id: u64) -> (r: Option<&mut CharacterState>)
        ensures
            match character_index(old(self).characters@, character_id) {
                Some(k) => r matches Some(c) && *c == old(self).characters@[k] && final(self).characters@
                    == old(self).characters@.update(k, *final(c)) && final(self).membership_id == old(
                    self,
                ).membership_id && final(self).display_name == old(self).display_name,
                None => r is None && *final(self) == *old(self),
            },
    {
        match self.find_character(character_id) {
            Some(k) => Some(&mut self.characters[k]),
            None => None,
        }
    }
}

} // verus!
