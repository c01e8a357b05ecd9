use thanatonaut::error::SunriseError;
use thanatonaut::state::account::{CharacterClass, CharacterState};
use thanatonaut::state::inventory::{ItemBucketType, ItemInstance};
use thanatonaut::state::light_calculator::{
    calculate_base_light, calculate_fractional_light, calculate_light_from_slice,
    calculate_max_cross_character_power, GearSlots,
};

#[test]
fn test_uniform_light_calculation() {
    let slots = GearSlots::new(750, 750, 750, 750, 750, 750, 750, 750);
    assert_eq!(calculate_base_light(&slots), 750);

    let (base, eighths) = calculate_fractional_light(&slots);
    assert_eq!(base, 750);
    assert_eq!(eighths, 0);
}

#[test]
fn test_fractional_light_rounding() {
    let slots = GearSlots::new(751, 751, 751, 751, 751, 751, 751, 750);
    assert_eq!(calculate_base_light(&slots), 750);

    let (base, eighths) = calculate_fractional_light(&slots);
    assert_eq!(base, 750);
    assert_eq!(eighths, 7);
}

#[test]
fn test_light_from_slice_validation() {
    let valid_slice = [750u32; 8];
    assert_eq!(calculate_light_from_slice(&valid_slice).unwrap(), 750);

    let invalid_slice = [750u32; 7];
    assert!(calculate_light_from_slice(&invalid_slice).is_err());
}

#[test]
fn test_cross_character_power_calculation() {
    let weapons = [1050, 1050, 1050];
    let armor = [1000, 1000, 1000, 1000, 1000];
    let total = calculate_max_cross_character_power(&weapons, &armor, 15);
    assert_eq!(total, 1033);
}

#[test]
fn test_character_inventory_recalculate_light() {
    let mut character = CharacterState::new(2001, CharacterClass::Hunter);

    let buckets = [
        ItemBucketType::KineticWeapons,
        ItemBucketType::EnergyWeapons,
        ItemBucketType::PowerWeapons,
        ItemBucketType::Helmet,
        ItemBucketType::Gauntlets,
        ItemBucketType::ChestArmor,
        ItemBucketType::LegArmor,
        ItemBucketType::ClassArmor,
    ];

    for (idx, &bucket) in buckets.iter().enumerate() {
        let mut item = ItemInstance::new((idx + 1) as u64, 100000 + idx as u32, 1, 950, bucket);
        item.is_equipped = true;
        character.inventory.add_item(item);
    }

    character.recalculate_light();
    assert_eq!(character.light_level, 950);
}

#[test]
fn light_extremes_do_not_overflow() {
    let slots = GearSlots::new(u32::MAX, u32::MAX, u32::MAX, u32::MAX, u32::MAX, u32::MAX, u32::MAX, u32::MAX);
    assert_eq!(calculate_base_light(&slots), u32::MAX);
    assert_eq!(slots.to_array(), [u32::MAX; 8]);
    assert!(matches!(calculate_light_from_slice(&[1u32; 9]), Err(SunriseError::InvalidBucketCount(9))));
}

#[test]
fn unequipped_slots_count_as_zero() {
    let mut character = CharacterState::new(1, CharacterClass::Titan);
    let mut helm = ItemInstance::new(1, 10, 1, 800, ItemBucketType::Helmet);
    helm.is_equipped = true;
    character.inventory.add_item(helm);
    character.inventory.add_item(ItemInstance::new(2, 11, 1, 1600, ItemBucketType::KineticWeapons));
    character.recalculate_light();
    assert_eq!(character.light_level, 100);
}

#[test]
fn equip_moves_the_equipped_mark_within_a_bucket() {
    let mut character = CharacterState::new(1, CharacterClass::Warlock);
    let mut a = ItemInstance::new(1, 10, 1, 100, ItemBucketType::KineticWeapons);
    a.is_equipped = true;
    character.inventory.add_item(a);
    character.inventory.add_item(ItemInstance::new(2, 11, 1, 900, ItemBucketType::KineticWeapons));
    let mut other = ItemInstance::new(3, 12, 1, 300, ItemBucketType::Helmet);
    other.is_equipped = true;
    character.inventory.add_item(other);
    assert!(character.inventory.equip_item(2));
    assert!(!character.inventory.items[0].is_equipped);
    assert!(character.inventory.items[1].is_equipped);
    assert!(character.inventory.items[2].is_equipped);
    assert_eq!(character.inventory.get_equipped_item(ItemBucketType::KineticWeapons).unwrap().item_instance_id, 2);
    assert!(!character.inventory.equip_item(99));
    assert!(character.inventory.set_locked(3, true));
    assert!(character.inventory.items[2].is_locked);
    assert!(!character.inventory.set_locked(42, true));
    assert_eq!(ItemBucketType::Vault.code(), 15);
}
