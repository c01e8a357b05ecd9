//! The loadout a new character starts with.
use vstd::prelude::*;
use crate::state::account::{equipped_slots, CharacterClass, CharacterState};
use crate::state::inventory::{lemma_first_equipped_unique, ItemBucketType, ItemInstance};
use crate::state::light_calculator::base_light;

verus! {

pub struct StarterLoadoutFactory;

/// A starter item: one of it, at power 1050, unlocked.
pub open spec fn starter_item(id: u64, hash: u32, bucket: ItemBucketType, equipped: bool) -> ItemInstance {
    ItemInstance {
        item_instance_id: id,
        item_hash: hash,
        quantity: 1,
        power_level: 1050,
        is_equipped: equipped,
        is_locked: false,
        bucket,
    }
}

/// The item hashes of a class's helmet, gauntlets, chest, legs and class item.
pub open spec fn class_armor_hashes(c: CharacterClass) -> (u32, u32, u32, u32, u32) {
    match c {
        CharacterClass::Titan => (1357901, 1357902, 1357903, 1357904, 1357905),
        CharacterClass::Hunter => (2468001, 2468002, 2468003, 2468004, 2468005),
        CharacterClass::Warlock => (3579101, 3579102, 3579103, 3579104, 3579105),
    }
}

/// The starter inventory of a class, in order: three weapons of each weapon
/// bucket (the first equipped), the class's five armor pieces, a ghost shell
/// and a sparrow, all equipped.
pub open spec fn starter_items(c: CharacterClass) -> Seq<ItemInstance> {
    let (helm, arms, chest, legs, class_item) = class_armor_hashes(c);
    seq![
        starter_item(101, 2357508056, ItemBucketType::KineticWeapons, true),
        starter_item(102, 3993415705, ItemBucketType::KineticWeapons, false),
        starter_item(103, 347366834, ItemBucketType::KineticWeapons, false),
        starter_item(201, 2354271539, ItemBucketType::EnergyWeapons, true),
        starter_item(202, 2222560548, ItemBucketType::EnergyWeapons, false),
        starter_item(203, 814876684, ItemBucketType::EnergyWeapons, false),
        starter_item(301, 614426548, ItemBucketType::PowerWeapons, true),
        starter_item(302, 1891561814, ItemBucketType::PowerWeapons, false),
        starter_item(303, 2220014607, ItemBucketType::PowerWeapons, false),
        starter_item(401, helm, ItemBucketType::Helmet, true),
        starter_item(501, arms, ItemBucketType::Gauntlets, true),
        starter_item(601, chest, ItemBucketType::ChestArmor, true),
        starter_item(701, legs, ItemBucketType::LegArmor, true),
        starter_item(801, class_item, ItemBucketType::ClassArmor, true),
        starter_item(901, 10000001, ItemBucketType::GhostShell, true),
        starter_item(902, 1903459814, ItemBucketType::Vehicle, true),
    ]
}

/// Every slot of a starter inventory holds an equipped item at 1050, so its
/// light is 1050.
pub proof fn lemma_starter_light(c: CharacterClass)
    ensures
        base_light(equipped_slots(starter_items(c))) == 1050,
{
    let items = starter_items(c);
    lemma_first_equipped_unique(items, ItemBucketType::KineticWeapons, 0);
    lemma_first_equipped_unique(items, ItemBucketType::EnergyWeapons, 3);
    lemma_first_equipped_unique(items, ItemBucketType::PowerWeapons, 6);
    lemma_first_equipped_unique(items, ItemBucketType::Helmet, 9);
    lemma_first_equipped_unique(items, ItemBucketType::Gauntlets, 10);
    lemma_first_equipped_unique(items, ItemBucketType::ChestArmor, 11);
    lemma_first_equipped_unique(items, ItemBucketType::LegArmor, 12);
    lemma_first_equipped_unique(items, ItemBucketType::ClassArmor, 13);
}

fn equipped(mut item: ItemInstance) -> (r: ItemInstance)
    ensures
        r == (ItemInstance { is_equipped: true, ..item }),
{
    item.is_equipped = true;
    item
}

impl StarterLoadoutFactory {
    /// A new character of `class_type` carrying the starter inventory, with its
    /// light computed from it.
    pub fn create_default_character(char_id: u64, class_type: CharacterClass) -> (c: CharacterState)
        ensures
            c.character_id == char_id,
            c.class_type == class_type,
            c.inventory.items@ == starter_items(class_type),
            c.light_level == 1050,
    {
        let mut character = CharacterState::new(char_id, class_type);
        let inv = &mut character.inventory;
        inv.add_item(equipped(ItemInstance::new(101, 2357508056, 1, 1050, ItemBucketType::KineticWeapons)));
        inv.add_item(ItemInstance::new(102, 3993415705, 1, 1050, ItemBucketType::KineticWeapons));
        inv.add_item(ItemInstance::new(103, 347366834, 1, 1050, ItemBucketType::KineticWeapons));
        inv.add_item(equipped(ItemInstance::new(201, 2354271539, 1, 1050, ItemBucketType::EnergyWeapons)));
        inv.add_item(ItemInstance::new(202, 2222560548, 1, 1050, ItemBucketType::EnergyWeapons));
        inv.add_item(ItemInstance::new(203, 814876684, 1, 1050, ItemBucketType::EnergyWeapons));
        inv.add_item(equipped(ItemInstance::new(301, 614426548, 1, 1050, ItemBucketType::PowerWeapons)));
        inv.add_item(ItemInstance::new(302, 1891561814, 1, 1050, ItemBucketType::PowerWeapons));
        inv.add_item(ItemInstance::new(303, 2220014607, 1, 1050, ItemBucketType::PowerWeapons));
        let (helm_hash, arms_hash, chest_hash, legs_hash, class_hash) = match class_type {
            CharacterClass::Titan => (1357901u32, 1357902u32, 1357903u32, 1357904u32, 1357905u32),
            CharacterClass::Hunter => (2468001u32, 2468002u32, 2468003u32, 2468004u32, 2468005u32),
            CharacterClass::Warlock => (3579101u32, 3579102u32, 3579103u32, 3579104u32, 3579105u32),
        };
        inv.add_item(equipped(ItemInstance::new(401, helm_hash, 1, 1050, ItemBucketType::Helmet)));
        inv.add_item(equipped(ItemInstance::new(501, arms_hash, 1, 1050, ItemBucketType::Gauntlets)));
        inv.add_item(equipped(ItemInstance::new(601, chest_hash, 1, 1050, ItemBucketType::ChestArmor)));
        inv.add_item(equipped(ItemInstance::new(701, legs_hash, 1, 1050, ItemBucketType::LegArmor)));
        inv.add_item(equipped(ItemInstance::new(801, class_hash, 1, 1050, ItemBucketType::ClassArmor)));
        inv.add_item(equipped(ItemInstance::new(901, 10000001, 1, 1050, ItemBucketType::GhostShell)));
        inv.add_item(equipped(ItemInstance::new(902, 1903459814, 1, 1050, ItemBucketType::Vehicle)));
        proof {
            assert(character.inventory.items@ =~= starter_items(class_type));
            lemma_starter_light(class_type);
        }
        character.recalculate_light();
        character
    }
}

} // verus!
