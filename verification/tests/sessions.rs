use thanatonaut::protocol::bap_frame::BapFrame;
use thanatonaut::protocol::opcode::Opcode;
use thanatonaut::server::client_registry::ClientRegistry;
use thanatonaut::server::fireteam::Fireteam;
use thanatonaut::server::session_handler::SessionHandler;
use thanatonaut::server::tcp_server::{decode_frames, end_session, ephemeral_display_name, SunriseTcpServer};
use thanatonaut::server::udp_bindings::PeerAddr;
use thanatonaut::settings::ServerConfig;
use thanatonaut::state::account::{AccountState, CharacterClass};
use thanatonaut::state::inventory::{CharacterInventory, ItemBucketType, ItemInstance};
use thanatonaut::state::profile_store::ProfileStore;

fn loopback(port: u16) -> PeerAddr {
    PeerAddr { ip: u32::from_be_bytes([127, 0, 0, 1]) as u128, is_v6: false, port }
}

#[test]
fn tcp_server_start_and_stop() {
    let mut config = ServerConfig::default();
    config.port = 17891;
    let mut server = SunriseTcpServer::new(config);
    assert!(!server.is_running());
    assert_eq!(server.listen_address(), "127.0.0.1:17891");
    server.start();
    assert!(server.is_running());
    server.stop();
    assert!(!server.is_running());
}

#[test]
fn ephemeral_names() {
    assert_eq!(ephemeral_display_name(1000), "Ephemeral-1000");
    assert_eq!(ephemeral_display_name(0), "Ephemeral-0");
}

#[test]
fn frames_sent_back_to_back_are_read_in_order() {
    let a = BapFrame::new(1, Opcode::ActivityJoin, b"{\"activity_hash\":1}".to_vec());
    let b = BapFrame::new(2, Opcode::FireteamBroadcast, vec![]);
    let mut stream = a.to_bytes().unwrap();
    stream.extend_from_slice(&b.to_bytes().unwrap());
    let frames = decode_frames(&stream);
    assert_eq!(frames, vec![a.clone(), b.clone()]);
    // A partial frame at the end is left for the next read.
    let mut partial = a.to_bytes().unwrap();
    partial.extend_from_slice(&b.to_bytes().unwrap()[..5]);
    assert_eq!(decode_frames(&partial), vec![a]);
}

#[test]
fn closed_connection_leaves_registry_and_fireteam() {
    let mut reg = ClientRegistry::new();
    let mut fireteam = Fireteam::new();
    let mut s = SessionHandler::new(
        1000,
        "Ephemeral-1000",
        loopback(40000),
        &mut reg,
        AccountState::new(1000, "Ephemeral-1000"),
        ProfileStore::with_path("/tmp/unused.json"),
    );
    s.active_destination_hash = 77;
    reg.register(1001, "Other", loopback(40001));
    fireteam.join(77, 77, 1000);
    fireteam.join(77, 77, 1001);
    end_session(&s, &mut reg, &mut fireteam);
    assert!(reg.get(1000).is_none());
    assert!(reg.get(1001).is_some());
    assert_eq!(fireteam.participants(77), vec![1001]);
}

#[test]
fn test_fireteam_leave_removes_participant() {
    let mut registry = ClientRegistry::new();
    let peer_alice = loopback(51001);
    let peer_bob = loopback(51002);

    registry.register(1001, "Alice", peer_alice);
    registry.register(1002, "Bob", peer_bob);

    let mut fireteam = Fireteam::new();

    fireteam.join(12345, 12345, 1001);
    fireteam.join(12345, 12345, 1002);

    assert_eq!(fireteam.participant_count(12345), 2);

    fireteam.leave(12345, 1001);

    assert_eq!(fireteam.participant_count(12345), 1);
    assert_eq!(fireteam.participants(12345), vec![1002_u64]);

    fireteam.leave(12345, 1002);
    assert_eq!(fireteam.participant_count(12345), 0);
    assert!(fireteam.participants(12345).is_empty());
}

#[test]
fn test_steam_id_persistence() {
    let steam_id: u64 = 76561197960287930;

    // The first signon finds nothing stored and creates the profile, which is
    // then saved; the second finds the saved profile.
    let acct1 = ProfileStore::load_or_create_account_by_steam(steam_id, None);
    let saved = ProfileStore::merge_account(Vec::new(), acct1.clone());
    let stored = ProfileStore::find_account(saved, ProfileStore::hash_steam_id_to_membership(steam_id)).ok();
    let acct2 = ProfileStore::load_or_create_account_by_steam(steam_id, stored);

    assert_eq!(acct1.membership_id, acct2.membership_id);
    let expected_name = format!("Guardian-{:x}", steam_id & 0xFFFF);
    assert_eq!(acct1.display_name, expected_name);
    assert_eq!(acct2.display_name, expected_name);
}

#[test]
fn test_profile_store_create_and_persist() {
    let account = ProfileStore::load_or_create_account(4611686018428383838, "GuardianTester", None);

    assert_eq!(account.display_name, "GuardianTester");
    assert_eq!(account.characters.len(), 3);

    let titan = account.characters.iter().find(|c| c.class_type == CharacterClass::Titan).unwrap();
    assert!(titan.light_level >= 1050);
    assert!(titan.inventory.get_equipped_item(ItemBucketType::KineticWeapons).is_some());
    assert!(titan.inventory.get_equipped_item(ItemBucketType::EnergyWeapons).is_some());
    assert!(titan.inventory.get_equipped_item(ItemBucketType::PowerWeapons).is_some());

    // Saving among other profiles and reading back.
    let others = vec![AccountState::new(1, "A"), AccountState::new(4611686018428383838, "Old")];
    let saved = ProfileStore::merge_account(others, account);
    assert_eq!(saved.len(), 2);
    let reloaded = ProfileStore::find_account(saved.clone(), 4611686018428383838).unwrap();
    assert_eq!(reloaded.membership_id, 4611686018428383838);
    assert_eq!(reloaded.display_name, "GuardianTester");
    assert_eq!(reloaded.characters.len(), 3);
    assert_eq!(ProfileStore::find_account(saved, 1).unwrap().display_name, "A");
}

#[test]
fn equipping_replaces_the_equipped_item_of_its_bucket() {
    let mut inv = CharacterInventory::new();
    inv.add_item(ItemInstance::new(1, 100, 1, 1000, ItemBucketType::KineticWeapons));
    inv.add_item(ItemInstance::new(2, 200, 1, 1010, ItemBucketType::KineticWeapons));
    inv.add_item(ItemInstance::new(3, 300, 1, 1020, ItemBucketType::Helmet));
    assert!(inv.equip_item(3));
    assert!(inv.equip_item(1));
    assert_eq!(inv.get_equipped_item(ItemBucketType::KineticWeapons).unwrap().item_instance_id, 1);
    assert!(inv.equip_item(2));
    assert_eq!(inv.get_equipped_item(ItemBucketType::KineticWeapons).unwrap().item_instance_id, 2);
    assert_eq!(inv.get_equipped_item(ItemBucketType::Helmet).unwrap().item_instance_id, 3);
    assert!(!inv.equip_item(9));
}
