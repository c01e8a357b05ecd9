use thanatonaut::tui::app_state::{InstallPhase, TuiAppState};
use thanatonaut::tui::ghost_art::{get_animated_ghost_frame, get_radar_sweep};
use thanatonaut::tui::installer_flow::{
    advance, finish_backup, finish_config, finish_integration, finish_scan, handle_key, InstallerKey, KeyOutcome,
    TickAction, VAULT_PACKAGE_COUNT,
};
use thanatonaut::tui::views::{footer_kind, gauge_label, options_selector_lines, transcript_start, FooterKind, LineTone};

#[test]
fn new_state_greets_and_selects_everything() {
    let s = TuiAppState::new();
    assert_eq!(s.phase, InstallPhase::SelectOptions);
    assert!(s.install_server);
    assert!(s.install_desktop_shortcut);
    assert_eq!(s.selected_option, 0);
    assert_eq!(s.logs.len(), 1);
    assert!(s.logs[0].is_ghost_speech);
    assert_eq!(s.logs[0].title, "Ghost");
    assert_eq!(
        s.logs[0].detail,
        "\"Eyes up, Guardian! Select which components you wish to materialize into your sandbox.\""
    );
}

#[test]
fn option_navigation_wraps() {
    let mut s = TuiAppState::new();
    s.prev_option();
    assert_eq!(s.selected_option, 2);
    s.next_option();
    assert_eq!(s.selected_option, 0);
    s.next_option();
    s.toggle_selected();
    assert!(!s.install_desktop_shortcut);
    assert!(s.install_server);
    s.next_option();
    s.toggle_selected();
    assert!(!s.install_desktop_shortcut);
    assert!(s.install_server);
}

#[test]
fn keys_drive_the_selector() {
    let mut s = TuiAppState::new();
    let mut step = 5u64;
    assert_eq!(handle_key(&mut s, &mut step, InstallerKey::Down), KeyOutcome::Continue);
    assert_eq!(s.selected_option, 1);
    assert_eq!(handle_key(&mut s, &mut step, InstallerKey::Char(' ')), KeyOutcome::Continue);
    assert!(!s.install_desktop_shortcut);
    assert_eq!(handle_key(&mut s, &mut step, InstallerKey::Up), KeyOutcome::Continue);
    assert_eq!(s.selected_option, 0);
    assert_eq!(handle_key(&mut s, &mut step, InstallerKey::Enter), KeyOutcome::Continue);
    assert_eq!(s.phase, InstallPhase::InitialScan);
    assert_eq!(step, 0);
    assert_eq!(s.logs.len(), 2);
    assert_eq!(s.logs[1].detail, "\"Components confirmed! Scanning local storage sectors...\"");
    // Navigation does nothing once installing.
    handle_key(&mut s, &mut step, InstallerKey::Down);
    assert_eq!(s.selected_option, 0);
}

#[test]
fn escape_and_q_leave_without_server() {
    let mut s = TuiAppState::new();
    let mut step = 0u64;
    assert_eq!(handle_key(&mut s, &mut step, InstallerKey::Esc), KeyOutcome::Finish(false));
    assert!(s.should_exit);
    let mut t = TuiAppState::new();
    assert_eq!(handle_key(&mut t, &mut step, InstallerKey::Char('q')), KeyOutcome::Finish(false));
}

#[test]
fn enter_when_finished_reports_server_choice() {
    let mut s = TuiAppState::new();
    s.phase = InstallPhase::Finished;
    let mut step = 0u64;
    assert_eq!(handle_key(&mut s, &mut step, InstallerKey::Enter), KeyOutcome::Finish(true));
    s.install_server = false;
    assert_eq!(handle_key(&mut s, &mut step, InstallerKey::Enter), KeyOutcome::Finish(false));
}

#[test]
fn full_install_walkthrough() {
    let mut s = TuiAppState::new();
    let mut step = 0u64;
    assert_eq!(advance(&mut s, &mut step), TickAction::Idle);
    assert_eq!(s.tick, 1);
    assert_eq!(step, 0);
    handle_key(&mut s, &mut step, InstallerKey::Enter);
    let mut action = TickAction::Idle;
    let mut ticks = 0;
    while action == TickAction::Idle {
        action = advance(&mut s, &mut step);
        ticks += 1;
    }
    assert_eq!(action, TickAction::ScanForVault);
    assert_eq!(ticks, 10);
    assert_eq!(s.progress, 20);
    finish_scan(&mut s, &mut step, Some("/games/Destiny 2"));
    assert_eq!(s.phase, InstallPhase::FoundVault);
    assert_eq!(s.game_path, "/games/Destiny 2");
    assert_eq!(s.package_count, VAULT_PACKAGE_COUNT);
    let n = s.logs.len();
    assert_eq!(s.logs[n - 2].title, "VAULT LOCATED");
    assert_eq!(s.logs[n - 2].detail, "/games/Destiny 2");

    let mut action = TickAction::Idle;
    while action == TickAction::Idle {
        action = advance(&mut s, &mut step);
    }
    assert_eq!(action, TickAction::BackupDlls);
    finish_backup(&mut s, &mut step, &vec!["/a/steam_api64_original.dll".to_string()]);
    assert_eq!(s.phase, InstallPhase::SecuringCore);
    let n = s.logs.len();
    assert_eq!(s.logs[n - 2].title, "CORE SAFEGUARD");
    assert_eq!(s.logs[n - 1].detail, "\"Backed up original steam_api64.dll safely.\"");

    let mut action = TickAction::Idle;
    while action == TickAction::Idle {
        action = advance(&mut s, &mut step);
    }
    assert_eq!(action, TickAction::InitializeConfig);
    finish_config(&mut s, &mut step, "/home/g/.config/thanatonaut");
    assert_eq!(s.phase, InstallPhase::WritingConfig);
    let n = s.logs.len();
    assert_eq!(s.logs[n - 2].title, "BAP ENDPOINT");
    assert_eq!(s.logs[n - 2].detail, "127.0.0.1:7777");

    let mut action = TickAction::Idle;
    while action == TickAction::Idle {
        action = advance(&mut s, &mut step);
    }
    assert_eq!(action, TickAction::IntegrateDesktop { desktop: true, service: true });
    let before = s.logs.len();
    finish_integration(&mut s, &mut step, true, true);
    assert_eq!(s.logs.len(), before + 3);
    assert_eq!(s.logs[before + 2].detail, "thanatonaut.service");
    assert_eq!(s.phase, InstallPhase::DesktopSetup);

    assert_eq!(advance(&mut s, &mut step), TickAction::Idle);
    assert_eq!(s.phase, InstallPhase::Finished);
    assert_eq!(s.progress, 100);
    assert_eq!(gauge_label(&s), "100% - Installation Complete - Ready for Transmat");
}

#[test]
fn phases_without_work_move_on_by_themselves() {
    let mut s = TuiAppState::new();
    s.install_server = false;
    s.install_desktop_shortcut = false;
    s.phase = InstallPhase::FoundVault;
    let mut step = 0u64;
    for _ in 0..8 {
        assert_eq!(advance(&mut s, &mut step), TickAction::Idle);
    }
    assert_eq!(s.phase, InstallPhase::SecuringCore);
    assert_eq!(step, 0);
    for _ in 0..8 {
        advance(&mut s, &mut step);
    }
    assert_eq!(s.phase, InstallPhase::WritingConfig);
    for _ in 0..8 {
        advance(&mut s, &mut step);
    }
    assert_eq!(s.phase, InstallPhase::DesktopSetup);
}

#[test]
fn scan_without_install_reports_it() {
    let mut s = TuiAppState::new();
    let mut step = 3u64;
    finish_scan(&mut s, &mut step, None);
    assert_eq!(step, 0);
    assert_eq!(s.package_count, 0);
    assert_eq!(s.logs[1].title, "SECTOR STATUS");
    assert_eq!(s.logs[1].detail, "No standard Destiny 2 install detected");
}

#[test]
fn selector_lines_show_choices() {
    let mut s = TuiAppState::new();
    s.install_desktop_shortcut = false;
    s.selected_option = 2;
    let lines = options_selector_lines(&s);
    assert_eq!(lines.len(), 10);
    assert_eq!(lines[3].text, "  [X] 1. Install Sunrise Linux Emulation Server");
    assert_eq!(lines[3].tone, LineTone::Plain);
    assert_eq!(lines[6].text, "  [ ] 2. Install Destiny 2 Desktop & Steam Integration");
    assert_eq!(lines[9].tone, LineTone::ProceedSelected);
}

#[test]
fn gauge_footer_and_transcript_window() {
    let mut s = TuiAppState::new();
    s.phase = InstallPhase::InitialScan;
    s.progress = 12;
    assert_eq!(gauge_label(&s), "12% - Scanning Drive Sectors");
    assert_eq!(footer_kind(InstallPhase::Finished), FooterKind::Finished);
    assert_eq!(footer_kind(InstallPhase::SelectOptions), FooterKind::Customizing);
    assert_eq!(footer_kind(InstallPhase::WritingConfig), FooterKind::Installing);
    assert_eq!(transcript_start(4), 0);
    assert_eq!(transcript_start(10), 0);
    assert_eq!(transcript_start(17), 7);
}

#[test]
fn ghost_frames_cycle() {
    let f0 = get_animated_ghost_frame(0);
    assert_eq!(f0.len(), 9);
    assert_eq!(f0[4], " <    V | (o) | V   > ");
    assert_eq!(get_animated_ghost_frame(4), f0);
    assert_eq!(get_animated_ghost_frame(3)[4], " <    V | (-) | V   > ");
    assert_eq!(get_radar_sweep(0), "⠋ SCANNING SECTOR ALPHA...");
    assert_eq!(get_radar_sweep(9), "⠙ VERIFYING STEAM VAULT...");
}
