use thanatonaut::error::SunriseError;
use thanatonaut::installer::ghost_narrative::{confirm_answer, progress_bar, wrap_text};
use thanatonaut::installer::mod_installer::{HookSource, ModInstaller, DEFAULT_HOOK_URL};
use thanatonaut::installer::steam_locator::{
    candidate_steam_roots, destiny_dir_in, home_dir_from, installation_candidates, join_path, keep_unique_present,
    library_folders_file, parse_libraryfolders_vdf, search_destiny2_installations, Destiny2Paths, SteamRootFacts,
};

fn paths() -> Destiny2Paths {
    Destiny2Paths::from_root("/games/Destiny 2", true).unwrap()
}

#[test]
fn join_path_inserts_one_slash() {
    assert_eq!(join_path("/a", "b"), "/a/b");
    assert_eq!(join_path("/a/", "b"), "/a/b");
    assert_eq!(join_path("", "b"), "b");
}

#[test]
fn destiny_paths_from_root() {
    assert!(Destiny2Paths::from_root("/x", false).is_none());
    let p = paths();
    assert_eq!(p.game_root, "/games/Destiny 2");
    assert_eq!(p.packages_dir, "/games/Destiny 2/packages");
    assert_eq!(p.bin_x64_dir, "/games/Destiny 2/bin/x64");
    assert_eq!(p.steam_api_dll, "/games/Destiny 2/bin/x64/steam_api64.dll");
    assert_eq!(Destiny2Paths::exe_path("/games/Destiny 2"), "/games/Destiny 2/destiny2.exe");
}

#[test]
fn home_dir_needs_an_absolute_value() {
    assert_eq!(home_dir_from(Some("/home/g")), "/home/g");
    assert_eq!(home_dir_from(Some("relative")), "/tmp");
    assert_eq!(home_dir_from(Some("")), "/tmp");
    assert_eq!(home_dir_from(None), "/tmp");
}

#[test]
fn steam_roots_in_search_order() {
    let roots = candidate_steam_roots("/home/g");
    assert_eq!(roots.len(), 7);
    assert_eq!(roots[0], "/home/g/.local/share/Steam");
    assert_eq!(roots[6], "/home/g/.steam/debian-installation");
    assert_eq!(destiny_dir_in("/lib"), "/lib/steamapps/common/Destiny 2");
    assert_eq!(library_folders_file("/s"), "/s/steamapps/libraryfolders.vdf");
}

#[test]
fn vdf_library_paths() {
    let vdf = "\"libraryfolders\"\n{\n\t\"0\"\n\t{\n\t\t\"path\"\t\t\"/home/g/.local/share/Steam\"\n\t}\n\t\"1\"\n\t{\n\t\t\"path\"\t\t\"  /mnt/games  \"\n\t\t\"label\"\t\t\"\"\n\t}\n\t\"2\"\n\t{\n\t\t\"path\"\t\t\"   \"\n\t}\n}\n";
    let libs = parse_libraryfolders_vdf(vdf);
    assert_eq!(libs, vec!["/home/g/.local/share/Steam".to_string(), "/mnt/games".to_string()]);
    assert!(parse_libraryfolders_vdf("no paths here").is_empty());
}

#[test]
fn libraries_kept_once_when_present() {
    let items = vec!["/a".to_string(), "/b".to_string(), "/a".to_string(), "/c".to_string()];
    let kept = keep_unique_present(&items, &[true, false, true, true]);
    assert_eq!(kept, vec!["/a".to_string(), "/c".to_string()]);
}

#[test]
fn installations_found_once_each() {
    let mut facts: Vec<SteamRootFacts> = Vec::new();
    for i in 0..7 {
        facts.push(SteamRootFacts {
            exists: i == 0 || i == 1,
            libraries: if i == 0 { vec!["/mnt/lib".to_string()] } else { vec![] },
        });
    }
    let candidates = installation_candidates("/home/g", &facts);
    assert_eq!(
        candidates,
        vec![
            "/home/g/.local/share/Steam/steamapps/common/Destiny 2".to_string(),
            "/mnt/lib/steamapps/common/Destiny 2".to_string(),
            "/home/g/.steam/steam/steamapps/common/Destiny 2".to_string(),
        ]
    );
    let mut again = candidates.clone();
    again.push(candidates[1].clone());
    let found = search_destiny2_installations(&again, &[false, true, true, true]);
    assert_eq!(found.len(), 2);
    assert_eq!(found[0].game_root, "/mnt/lib/steamapps/common/Destiny 2");
    assert_eq!(found[0].steam_api_dll, "/mnt/lib/steamapps/common/Destiny 2/bin/x64/steam_api64.dll");
    assert_eq!(found[1].game_root, "/home/g/.steam/steam/steamapps/common/Destiny 2");
}

#[test]
fn wrap_text_fills_lines_greedily() {
    assert_eq!(wrap_text("the quick brown fox", 10), vec!["the quick", "brown fox"]);
    assert_eq!(wrap_text("  a  \n\n b c ", 80), vec!["a", "", "b c"]);
    assert_eq!(wrap_text("extraordinarily long", 5), vec!["extraordinarily", "long"]);
    assert!(wrap_text("", 10).is_empty());
}

#[test]
fn progress_bar_cells() {
    assert_eq!(progress_bar(0), "░".repeat(20));
    assert_eq!(progress_bar(47), "█".repeat(9) + &"░".repeat(11));
    assert_eq!(progress_bar(100), "█".repeat(20));
}

#[test]
fn confirmation_answers() {
    assert!(confirm_answer(Some("  YES \n"), false));
    assert!(confirm_answer(Some("y"), false));
    assert!(!confirm_answer(Some("nope"), true));
    assert!(confirm_answer(Some("   "), true));
    assert!(!confirm_answer(None, false));
}

#[test]
fn hook_locations() {
    let p = paths();
    assert_eq!(ModInstaller::original_backup_path(&p), "/games/Destiny 2/bin/x64/steam_api64_original.dll");
    assert_eq!(ModInstaller::hook_cache_path("/home/g"), "/home/g/.config/thanatonaut/steam_api64.dll");
    let c = ModInstaller::hook_candidates("/home/g");
    assert_eq!(c[0], "build-win/Sunrise.dll");
    assert_eq!(c[3], "/home/g/.config/thanatonaut/steam_api64.dll");
    assert_eq!(ModInstaller::hook_download_url(None), DEFAULT_HOOK_URL);
    assert_eq!(ModInstaller::hook_download_url(Some("http://x/h.dll")), "http://x/h.dll");
}

#[test]
fn resolve_hook_prefers_first_local_file() {
    match ModInstaller::resolve_hook_dll("/home/g", &[false, true, true, false], None) {
        HookSource::Local(p) => assert_eq!(p, "../build-win/Sunrise.dll"),
        _ => panic!("expected a local hook"),
    }
    match ModInstaller::resolve_hook_dll("/home/g", &[false, false, false, false], Some("http://x/h.dll")) {
        HookSource::Download { url, dest } => {
            assert_eq!(url, "http://x/h.dll");
            assert_eq!(dest, "/home/g/.config/thanatonaut/steam_api64.dll");
        }
        _ => panic!("expected a download"),
    }
}

#[test]
fn backup_plans() {
    let p = paths();
    match ModInstaller::backup_original_dll(&p, false, false) {
        Err(SunriseError::FileNotFound(f)) => assert_eq!(f, p.steam_api_dll),
        _ => panic!("expected FileNotFound"),
    }
    let (backup, copies) = ModInstaller::backup_original_dll(&p, true, false).unwrap();
    assert_eq!(backup, "/games/Destiny 2/bin/x64/steam_api64_original.dll");
    assert_eq!(copies.len(), 1);
    assert_eq!(copies[0].from, p.steam_api_dll);
    assert_eq!(copies[0].to, backup);
    let (_, copies) = ModInstaller::backup_original_dll(&p, true, true).unwrap();
    assert!(copies.is_empty());
}

#[test]
fn install_hook_plans() {
    let p = paths();
    match ModInstaller::install_hook_dll(&p, "Sunrise.dll", false, true, true) {
        Err(SunriseError::FileNotFound(f)) => assert_eq!(f, "Sunrise.dll"),
        _ => panic!("expected FileNotFound for the hook"),
    }
    match ModInstaller::install_hook_dll(&p, "Sunrise.dll", true, false, true) {
        Err(SunriseError::FileNotFound(f)) => assert_eq!(f, p.steam_api_dll),
        _ => panic!("expected FileNotFound for the library"),
    }
    let copies = ModInstaller::install_hook_dll(&p, "Sunrise.dll", true, true, false).unwrap();
    assert_eq!(copies.len(), 2);
    assert_eq!(copies[1].from, "Sunrise.dll");
    assert_eq!(copies[1].to, p.steam_api_dll);
}

#[test]
fn launcher_plans() {
    let p = paths();
    match ModInstaller::backup_and_bypass_launcher(&p, false, true, false) {
        Err(SunriseError::FileNotFound(f)) => assert_eq!(f, "/games/Destiny 2/destiny2.exe"),
        _ => panic!("expected FileNotFound"),
    }
    let copies = ModInstaller::backup_and_bypass_launcher(&p, true, true, false).unwrap();
    assert_eq!(copies.len(), 2);
    assert_eq!(copies[0].to, "/games/Destiny 2/destiny2launcher_original.exe");
    assert_eq!(copies[1].from, "/games/Destiny 2/destiny2.exe");
    assert_eq!(copies[1].to, "/games/Destiny 2/destiny2launcher.exe");
    let copies = ModInstaller::backup_and_bypass_launcher(&p, true, true, true).unwrap();
    assert_eq!(copies.len(), 1);
    assert!(ModInstaller::restore_launcher(&p, false).is_none());
    let c = ModInstaller::restore_launcher(&p, true).unwrap();
    assert_eq!(c.from, "/games/Destiny 2/destiny2launcher_original.exe");
    match ModInstaller::restore_original_dll(&p, false) {
        Err(SunriseError::FileNotFound(f)) => assert_eq!(f, "/games/Destiny 2/bin/x64/steam_api64_original.dll"),
        _ => panic!("expected FileNotFound"),
    }
    let c = ModInstaller::restore_original_dll(&p, true).unwrap();
    assert_eq!(c.to, p.steam_api_dll);
}
