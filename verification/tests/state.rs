use thanatonaut::error::SunriseError;
use thanatonaut::state::account::{AccountState, CharacterClass, CharacterState};
use thanatonaut::state::activity::{ActivityPhase, ActivitySession};
use thanatonaut::state::inventory::ItemBucketType;
use thanatonaut::state::package_scanner::{PackageIndex, PackageMetadata};
use thanatonaut::state::profile_store::ProfileStore;
use thanatonaut::state::starter_loadout::StarterLoadoutFactory;

#[test]
fn test_ephemeral_fallback() {
    assert_ne!(
        ProfileStore::hash_steam_id_to_membership(0),
        0,
        "Ephemeral fallback for steam_id=None must hash to a non-zero membership_id"
    );
    let h1 = ProfileStore::hash_steam_id_to_membership(12345);
    let h2 = ProfileStore::hash_steam_id_to_membership(12345);
    assert_eq!(h1, h2, "hash_steam_id_to_membership must be deterministic");
    assert_ne!(h1, 0);
    let h3 = ProfileStore::hash_steam_id_to_membership(12346);
    assert_ne!(h1, h3, "Distinct steam IDs must hash to distinct membership IDs");
}

fn splitmix(steam_id: u64) -> u64 {
    let mut z = steam_id.wrapping_add(0x53555253_53554E52);
    z = (z ^ (z >> 30)).wrapping_mul(0xBF58476D1CE4E5B9);
    z = (z ^ (z >> 27)).wrapping_mul(0x94D049BB133111EB);
    z ^ (z >> 31)
}

#[test]
fn membership_hash_matches_splitmix() {
    for id in [0u64, 1, 76561197960287930, u64::MAX] {
        assert_eq!(ProfileStore::hash_steam_id_to_membership(id), splitmix(id));
    }
}

#[test]
fn steam_display_name_is_low_bits_in_hex() {
    let steam_id: u64 = 76561197960287930;
    assert_eq!(ProfileStore::steam_display_name(steam_id), format!("Guardian-{:x}", steam_id & 0xFFFF));
    assert_eq!(ProfileStore::steam_display_name(0x10000), "Guardian-0");
}

#[test]
fn new_profile_has_three_starter_characters() {
    let account = ProfileStore::load_or_create_account(4611686018428383838, "GuardianTester", None);
    assert_eq!(account.display_name, "GuardianTester");
    assert_eq!(account.characters.len(), 3);
    let titan = account.characters.iter().find(|c| c.class_type == CharacterClass::Titan).unwrap();
    assert!(titan.light_level >= 1050);
    assert!(titan.inventory.get_equipped_item(ItemBucketType::KineticWeapons).is_some());
    assert!(titan.inventory.get_equipped_item(ItemBucketType::EnergyWeapons).is_some());
    assert!(titan.inventory.get_equipped_item(ItemBucketType::PowerWeapons).is_some());
    let stored = AccountState::new(7, "Kept");
    let kept = ProfileStore::load_or_create_account(7, "Other", Some(stored));
    assert_eq!(kept.display_name, "Kept");
    assert!(kept.characters.is_empty());
}

#[test]
fn starter_character_light_is_1050() {
    let c = StarterLoadoutFactory::create_default_character(9, CharacterClass::Warlock);
    assert_eq!(c.light_level, 1050);
    assert_eq!(c.inventory.items.len(), 16);
    assert_eq!(c.inventory.items[9].item_hash, 3579101);
}

#[test]
fn find_and_merge_accounts() {
    let accounts = vec![AccountState::new(1, "a"), AccountState::new(2, "b"), AccountState::new(1, "c")];
    let found = ProfileStore::find_account(accounts, 1).unwrap();
    assert_eq!(found.display_name, "a");
    let missing = ProfileStore::find_account(vec![AccountState::new(1, "a")], 77);
    match missing {
        Err(SunriseError::FileNotFound(m)) => assert_eq!(m, "Account 77 not found"),
        other => panic!("unexpected {:?}", other),
    }
    let merged = ProfileStore::merge_account(
        vec![AccountState::new(1, "a"), AccountState::new(2, "b"), AccountState::new(1, "c")],
        AccountState::new(1, "new"),
    );
    let names: Vec<&str> = merged.iter().map(|a| a.display_name.as_str()).collect();
    assert_eq!(names, vec!["b", "new"]);
}

#[test]
fn store_paths() {
    assert_eq!(ProfileStore::default_store(true, "/home/x").storage_path(), "/data/profiles.json");
    assert_eq!(
        ProfileStore::default_store(false, "/home/x").storage_path(),
        "/home/x/.config/thanatonaut/profiles.json"
    );
    assert_eq!(ProfileStore::with_path("/tmp/p.json").storage_path(), "/tmp/p.json");
}

#[test]
fn activity_session_membership() {
    let mut s = ActivitySession::new(1, 100, 200);
    s.join(5);
    s.join(5);
    s.join(6);
    assert_eq!(s.participants, vec![5, 6]);
    s.leave(5);
    assert_eq!(s.participants, vec![6]);
    s.advance_phase(ActivityPhase::InWorld);
    assert_eq!(s.phase.code(), 3);
}

#[test]
fn account_character_lookup() {
    let mut a = AccountState::new(1, "x");
    a.add_character(CharacterState::new(10, CharacterClass::Titan));
    a.add_character(CharacterState::new(11, CharacterClass::Hunter));
    assert_eq!(a.get_character(11).unwrap().class_type, CharacterClass::Hunter);
    assert!(a.get_character(12).is_none());
    a.get_character_mut(10).unwrap().light_level = 5;
    assert_eq!(a.characters[0].light_level, 5);
    assert_eq!(CharacterClass::Warlock.code(), 2);
}

#[test]
fn package_ids_from_names() {
    assert_eq!(PackageIndex::parse_package_id_from_name("w64_bootflow_01a3_0.pkg"), 0x01a3);
    assert_eq!(PackageIndex::parse_package_id_from_name("w64_sandbox_ABCD_6.pkg"), 0xABCD);
    assert_eq!(PackageIndex::parse_package_id_from_name("a_+1f2_b"), 0x1f2);
    assert_eq!(PackageIndex::parse_package_id_from_name("zzzz_0010"), 0x10);
    assert_eq!(PackageIndex::parse_package_id_from_name("no_id_here"), 0);
    assert_eq!(PackageIndex::parse_package_id_from_name(""), 0);
}

#[test]
fn package_metadata_and_totals() {
    let mut header = [0u8; 16];
    header[4..8].copy_from_slice(&513u32.to_le_bytes());
    let m = PackageIndex::metadata_from_header("w64_x_00ff_1.pkg", 1000, Some(header));
    assert_eq!(
        m,
        PackageMetadata { package_id: 0xff, filename: "w64_x_00ff_1.pkg".to_string(), file_size: 1000, entry_count: 513 }
    );
    let none = PackageIndex::metadata_from_header("x.pkg", 5, None);
    assert_eq!(none.entry_count, 0);
    let mut index = PackageIndex::default();
    index.add_package(m);
    index.add_package(none);
    assert_eq!(index.total_packages, 2);
    assert_eq!(index.total_bytes, 1005);
    assert_eq!(
        index.cache_contents(),
        "{\n  \"total_packages\": 2,\n  \"total_bytes\": 1005,\n  \"indexed_at\": \"offline\"\n}"
    );
}
