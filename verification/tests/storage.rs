use thanatonaut::error::SunriseError;
use thanatonaut::manifest::item_definition::{is_exotic_tier, DestinyItemDefinition};
use thanatonaut::manifest::manifest_downloader::ManifestDownloader;
use thanatonaut::manifest::manifest_store::ManifestStore;
use thanatonaut::path_policy::{
    allowed_bases, is_within_allowed, path_has_parent_component, path_starts_with, validate_path, AllowedBase,
    ParentFacts, PathFacts,
};
use thanatonaut::settings::{ServerConfig, SunriseSettings};
use thanatonaut::state::package_scanner::PackageIndex;

fn bases() -> Vec<AllowedBase> {
    vec![
        AllowedBase { path: "/data".to_string(), canonical: None },
        AllowedBase { path: "/home/g/.config/sunrise".to_string(), canonical: Some("/home/g/.config/sunrise".to_string()) },
    ]
}

fn plain_facts(parent: &str) -> PathFacts {
    PathFacts {
        is_symlink: false,
        canonical: None,
        parent: Some(ParentFacts {
            path: parent.to_string(),
            is_symlink: false,
            exists: false,
            canonical: None,
            parent_canonical: None,
        }),
    }
}

#[test]
fn exotic_tier_ignores_ascii_case() {
    assert!(is_exotic_tier("Exotic"));
    assert!(is_exotic_tier("eXOTIC"));
    assert!(!is_exotic_tier("Legendary"));
    assert!(!is_exotic_tier("Exotics"));
    let d = DestinyItemDefinition::new(1, "Gjallarhorn", "Wolfpack rounds", "Rocket Launcher", "exotic");
    assert!(d.is_exotic);
    assert!(d.stats.is_empty());
}

#[test]
fn stats_replace_by_hash() {
    let mut d = DestinyItemDefinition::new(2, "Ace of Spades", "", "Hand Cannon", "Exotic");
    d.add_stat(10, "Impact", 84);
    d.add_stat(11, "Range", 60);
    d.add_stat(10, "Impact", 90);
    assert_eq!(d.stats.len(), 2);
    assert_eq!(d.stats[&10].value, 90);
    assert_eq!(d.stats[&11].stat_name, "Range");
}

#[test]
fn manifest_store_lookup_and_search() {
    let mut store = ManifestStore::new();
    store.insert_item(DestinyItemDefinition::new(1, "Gjallarhorn", "", "Rocket Launcher", "Exotic"));
    store.insert_item(DestinyItemDefinition::new(2, "Ace of Spades", "", "Hand Cannon", "Exotic"));
    store.insert_item(DestinyItemDefinition::new(3, "Fatebringer", "", "Hand Cannon", "Legendary"));
    assert_eq!(store.get_item(2).unwrap().name, "Ace of Spades");
    assert!(store.get_item(9).is_none());
    let found = store.search_by_name("HORN");
    assert_eq!(found.len(), 1);
    assert_eq!(found[0].item_hash, 1);
    let mut hashes: Vec<u32> = store.search_by_name("a").iter().map(|d| d.item_hash).collect();
    hashes.sort();
    assert_eq!(hashes, vec![1, 2, 3]);
    assert!(store.search_by_name("zzz").is_empty());
}

#[test]
fn manifest_cache_location() {
    assert_eq!(ManifestStore::default_cache_path(true, "/home/g"), "/data/manifest_cache.json");
    assert_eq!(
        ManifestStore::default_cache_path(false, "/home/g"),
        "/home/g/.config/sunrise/manifest_cache.json"
    );
}

#[test]
fn bootstrap_prefers_a_non_empty_cache() {
    let mut cache = ManifestStore::new();
    cache.insert_item(DestinyItemDefinition::new(1, "A", "", "", ""));
    let mut vault = ManifestStore::new();
    vault.insert_item(DestinyItemDefinition::new(2, "B", "", "", ""));
    vault.insert_item(DestinyItemDefinition::new(3, "C", "", "", ""));
    let m = ManifestDownloader::bootstrap_essential_manifest(Some(cache), Some(vault.clone()));
    assert!(m.get_item(1).is_some());
    let m = ManifestDownloader::bootstrap_essential_manifest(Some(ManifestStore::new()), Some(vault));
    assert_eq!(m.items.len(), 2);
    let m = ManifestDownloader::bootstrap_essential_manifest(None, None);
    assert!(m.items.is_empty());
}

#[test]
fn downloaded_file_checks() {
    match ManifestDownloader::verify_downloaded_file("/tmp/m.json", false, 0, None, b"") {
        Err(SunriseError::FileNotFound(p)) => assert_eq!(p, "/tmp/m.json"),
        _ => panic!("expected FileNotFound"),
    }
    match ManifestDownloader::verify_downloaded_file("/tmp/m.json", true, 0, None, b"") {
        Err(SunriseError::IoError(m)) => assert_eq!(m, "downloaded file empty: /tmp/m.json"),
        _ => panic!("expected an empty-file error"),
    }
    assert!(ManifestDownloader::verify_downloaded_file("/tmp/m.json", true, 3, None, b"abc").is_ok());
    let digest = "BA7816BF8F01CFEA414140DE5DAE2223B00361A396177A9CB410FF61F20015AD";
    assert!(ManifestDownloader::verify_downloaded_file("/tmp/m.json", true, 3, Some(digest), b"abc").is_ok());
    match ManifestDownloader::verify_downloaded_file("/tmp/m.json", true, 3, Some("00"), b"abc") {
        Err(SunriseError::IoError(m)) => assert_eq!(
            m,
            "SHA256 mismatch for /tmp/m.json: expected 00, got ba7816bf8f01cfea414140de5dae2223b00361a396177a9cb410ff61f20015ad"
        ),
        _ => panic!("expected a digest mismatch"),
    }
}

#[test]
fn settings_defaults() {
    let c = ServerConfig::default();
    assert_eq!(c.bind_address, "127.0.0.1");
    assert_eq!(c.port, 7777);
    assert_eq!(c.udp_port, 7778);
    assert!(c.enable_queuez);
    assert_eq!(c.max_connections, 64);
    let s = SunriseSettings::default();
    assert_eq!(s.version, "0.6.5");
    assert!(s.auto_unlock_entitlements);
    assert_eq!(s.default_power_cap, 1000);
}

#[test]
fn path_prefix_by_component() {
    assert!(path_starts_with("/tmp/x.json", "/tmp"));
    assert!(path_starts_with("/tmp", "/tmp/"));
    assert!(path_starts_with("//tmp/./a", "/tmp"));
    assert!(!path_starts_with("/tmpfoo/x", "/tmp"));
    assert!(!path_starts_with("tmp/x", "/tmp"));
    assert!(path_starts_with("./a/b", "./a"));
    assert!(!path_starts_with("/a", "/a/b"));
}

#[test]
fn parent_components_are_found() {
    assert!(path_has_parent_component("/data/../etc/passwd"));
    assert!(path_has_parent_component(".."));
    assert!(!path_has_parent_component("/data/..x/file"));
    assert!(!path_has_parent_component("/data/x../file"));
}

#[test]
fn allowed_bases_and_membership() {
    let b = allowed_bases("/home/g", "sunrise");
    assert_eq!(b, vec!["/data".to_string(), "/home/g/.config/sunrise".to_string()]);
    assert!(is_within_allowed("/tmp/a", &None, &None, &bases()));
    assert!(is_within_allowed("/data/profiles.json", &None, &None, &bases()));
    assert!(!is_within_allowed("/etc/passwd", &None, &None, &bases()));
    // Through the canonical form of the path's parent.
    assert!(is_within_allowed(
        "/link/profiles.json",
        &None,
        &Some("/home/g/.config/sunrise".to_string()),
        &bases()
    ));
}

#[test]
fn validate_path_reasons() {
    assert!(validate_path("/data/p.json", &plain_facts("/data"), &bases()).is_ok());
    match validate_path("/data/../p.json", &plain_facts("/data/.."), &bases()) {
        Err(SunriseError::IoError(m)) => assert_eq!(m, "path traversal rejected: /data/../p.json"),
        _ => panic!("expected traversal rejection"),
    }
    let mut f = plain_facts("/data");
    f.is_symlink = true;
    match validate_path("/data/p.json", &f, &bases()) {
        Err(SunriseError::IoError(m)) => assert_eq!(m, "symlink traversal rejected: /data/p.json"),
        _ => panic!("expected symlink rejection"),
    }
    match validate_path("/etc/p.json", &plain_facts("/etc"), &bases()) {
        Err(SunriseError::IoError(m)) => assert_eq!(m, "path outside allowed base: /etc/p.json"),
        _ => panic!("expected base rejection"),
    }
    let mut f = plain_facts("/data/sub");
    if let Some(p) = f.parent.as_mut() {
        p.exists = true;
        p.canonical = Some("/etc/sub".to_string());
    }
    match validate_path("/data/sub/p.json", &f, &bases()) {
        Err(SunriseError::IoError(m)) => assert_eq!(m, "canonical path outside allowed base: /data/sub/p.json"),
        _ => panic!("expected canonical rejection"),
    }
    let no_parent = PathFacts { is_symlink: false, canonical: None, parent: None };
    assert!(validate_path("/", &no_parent, &bases()).is_ok());
}

#[test]
fn package_file_names() {
    assert!(PackageIndex::is_package_name("w64_bootflow_01a3_0.pkg"));
    assert!(!PackageIndex::is_package_name(".pkg"));
    assert!(PackageIndex::is_package_name("a.pkg"));
    assert!(!PackageIndex::is_package_name("a.pkg.bak"));
    assert!(!PackageIndex::is_package_name("apkg"));
}

#[test]
fn search_lists_each_matching_key_once() {
    let mut store = ManifestStore::new();
    let d = DestinyItemDefinition::new(1, "Gjallarhorn", "", "Rocket Launcher", "Exotic");
    store.insert_item(d.clone());
    store.items.insert(7, d);
    store.insert_item(DestinyItemDefinition::new(2, "Ace of Spades", "", "Hand Cannon", "Exotic"));
    assert_eq!(store.search_by_name("gjallar").len(), 2);
    assert_eq!(store.search_by_name("").len(), 3);
}
