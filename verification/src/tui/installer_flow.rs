//! The installer screen as a state machine: what a key press does, what one
//! animation tick does, and how the results of the installation steps enter
//! the transcript. The steps themselves (searching the disk, copying files,
//! writing configuration) are done by the caller when a tick asks for them.
use vstd::prelude::*;
use crate::tui::app_state::{is_event, is_speech, same_but_logs, InstallPhase, TuiAppState};

verus! {

/// A key as the installer reads it.
#[derive(Debug, Clone, Copy, PartialEq, Eq, Structural)]
pub enum InstallerKey {
    Esc,
    Char(char),
    Up,
    Down,
    Tab,
    Enter,
    Other,
}

/// What the loop does after a key.
#[derive(Debug, Clone, Copy, PartialEq, Eq, Structural)]
pub enum KeyOutcome {
    /// Keep going.
    Continue,
    /// Leave the installer with this answer (whether to start the server).
    Finish(bool),
}

/// The outside work a tick asks for.
#[derive(Debug, Clone, Copy, PartialEq, Eq, Structural)]
pub enum TickAction {
    Idle,
    /// Search the disk for a game installation, then `finish_scan`.
    ScanForVault,
    /// Back up the game's steam_api64.dll in every installation, then `finish_backup`.
    BackupDlls,
    /// Create the configuration directories, then `finish_config`.
    InitializeConfig,
    /// Install the desktop entries and/or the service, then `finish_integration`.
    IntegrateDesktop { desktop: bool, service: bool },
}

pub open spec fn confirm_speech() -> Seq<char> {
    "Components confirmed! Scanning local storage sectors..."@
}

pub open spec fn finished_speech() -> Seq<char> {
    "All selected components installed, Guardian! Press [Enter] to launch or [Esc] to exit."@
}

/// `new` is `old` with the given fields changed and nothing else.
pub open spec fn same_except(old: TuiAppState, new: TuiAppState, phase: InstallPhase, progress: u16) -> bool {
    &&& new.phase == phase
    &&& new.progress == progress
    &&& new.tick == old.tick
    &&& new.game_path == old.game_path
    &&& new.package_count == old.package_count
    &&& new.install_server == old.install_server
    &&& new.install_desktop_shortcut == old.install_desktop_shortcut
    &&& new.selected_option == old.selected_option
    &&& new.should_exit == old.should_exit
}

/// `new` holds the entries of `old` and then `k` more.
pub open spec fn logs_grew(old: TuiAppState, new: TuiAppState, k: nat) -> bool {
    &&& new.logs@.len() == old.logs@.len() + k
    &&& new.logs@.subrange(0, old.logs@.len() as int) == old.logs@
}

/// The effect of a key.
pub open spec fn key_effect(old: TuiAppState, new: TuiAppState, old_tick: u64, new_tick: u64, key: InstallerKey, r: KeyOutcome) -> bool {
    let selecting = old.phase == InstallPhase::SelectOptions;
    match key {
        InstallerKey::Esc | InstallerKey::Char('q') => {
            &&& r == KeyOutcome::Finish(false)
            &&& new == TuiAppState { should_exit: true, ..old }
            &&& new_tick == old_tick
        },
        InstallerKey::Up => {
            &&& r == KeyOutcome::Continue
            &&& new_tick == old_tick
            &&& new.logs == old.logs
            &&& same_but_logs(
                new,
                TuiAppState {
                    selected_option: if selecting {
                        if old.selected_option == 0 {
                            2
                        } else {
                            (old.selected_option - 1) as usize
                        }
                    } else {
                        old.selected_option
                    },
                    ..old
                },
            )
        },
        InstallerKey::Down | InstallerKey::Tab => {
            &&& r == KeyOutcome::Continue
            &&& new_tick == old_tick
            &&& new.logs == old.logs
            &&& same_but_logs(
                new,
                TuiAppState {
                    selected_option: if selecting {
                        ((old.selected_option + 1) % 3) as usize
                    } else {
                        old.selected_option
                    },
                    ..old
                },
            )
        },
        InstallerKey::Char(' ') => {
            &&& r == KeyOutcome::Continue
            &&& new_tick == old_tick
            &&& new.logs == old.logs
            &&& same_but_logs(
                new,
                TuiAppState {
                    install_server: if selecting && old.selected_option == 0 {
                        !old.install_server
                    } else {
                        old.install_server
                    },
                    install_desktop_shortcut: if selecting && old.selected_option == 1 {
                        !old.install_desktop_shortcut
                    } else {
                        old.install_desktop_shortcut
                    },
                    ..old
                },
            )
        },
        InstallerKey::Enter => if selecting && old.selected_option <= 2 {
            &&& r == KeyOutcome::Continue
            &&& new_tick == 0
            &&& same_except(old, new, InstallPhase::InitialScan, old.progress)
            &&& logs_grew(old, new, 1)
            &&& is_speech(new.logs@.last(), confirm_speech())
        } else if old.phase == InstallPhase::Finished {
            &&& r == KeyOutcome::Finish(old.install_server)
            &&& new == old
            &&& new_tick == old_tick
        } else {
            &&& r == KeyOutcome::Continue
            &&& new == old
            &&& new_tick == old_tick
        },
        _ => {
            &&& r == KeyOutcome::Continue
            &&& new == old
            &&& new_tick == old_tick
        },
    }
}

/// Applies a key press.
pub fn handle_key(state: &mut TuiAppState, step_tick: &mut u64, key: InstallerKey) -> (r: KeyOutcome)
    requires
        old(state).selected_option < usize::MAX,
    ensures
        key_effect(*old(state), *final(state), *old(step_tick), *final(step_tick), key, r),
{
    match key {
        InstallerKey::Esc => {
            state.should_exit = true;
            KeyOutcome::Finish(false)
        },
        InstallerKey::Char(c) => {
            if c == 'q' {
                state.should_exit = true;
                KeyOutcome::Finish(false)
            } else if c == ' ' {
                if state.phase == InstallPhase::SelectOptions {
                    state.toggle_selected();
                }
                KeyOutcome::Continue
            } else {
                KeyOutcome::Continue
            }
        },
        InstallerKey::Up => {
            if state.phase == InstallPhase::SelectOptions {
                state.prev_option();
            }
            KeyOutcome::Continue
        },
        InstallerKey::Down | InstallerKey::Tab => {
            if state.phase == InstallPhase::SelectOptions {
                state.next_option();
            }
            KeyOutcome::Continue
        },
        InstallerKey::Enter => {
            if state.phase == InstallPhase::SelectOptions {
                if state.selected_option == 2 || state.selected_option == 0 || state.selected_option == 1 {
                    state.phase = InstallPhase::InitialScan;
                    state.add_speech("Components confirmed! Scanning local storage sectors...");
                    *step_tick = 0;
                }
                KeyOutcome::Continue
            } else if state.phase == InstallPhase::Finished {
                KeyOutcome::Finish(state.install_server)
            } else {
                KeyOutcome::Continue
            }
        },
        InstallerKey::Other => KeyOutcome::Continue,
    }
}

/// `p + step`, but no more than `cap`.
pub open spec fn capped(p: u16, step: u16, cap: u16) -> u16 {
    if p + step < cap {
        (p + step) as u16
    } else {
        cap
    }
}

fn capped_add(p: u16, step: u16, cap: u16) -> (r: u16)
    requires
        p + step <= u16::MAX,
    ensures
        r == capped(p, step, cap),
{
    if p + step < cap {
        p + step
    } else {
        cap
    }
}

/// One animation tick: the animation advances; while installing, the step
/// counter advances, the gauge creeps toward the phase's ceiling, and once
/// a phase has shown long enough it asks for its outside work (or, when
/// there is none to do, moves straight to the next phase).
pub fn advance(state: &mut TuiAppState, step_tick: &mut u64) -> (action: TickAction)
    requires
        old(state).progress + 4 <= u16::MAX,
        *old(step_tick) < u64::MAX,
    ensures
        final(state).tick == vstd::wrapping::usize_specs::wrapping_add(old(state).tick, 1),
        ({
            let o = TuiAppState { tick: final(state).tick, ..*old(state) };
            let n = *final(state);
            let t = (*old(step_tick) + 1) as u64;
            match old(state).phase {
                InstallPhase::SelectOptions => action == TickAction::Idle && n == o && *final(step_tick) == *old(step_tick),
                InstallPhase::InitialScan => {
                    &&& n == TuiAppState { progress: capped(o.progress, 4, 20), ..o }
                    &&& *final(step_tick) == t
                    &&& action == (if t >= 10 { TickAction::ScanForVault } else { TickAction::Idle })
                },
                InstallPhase::FoundVault => {
                    &&& action == (if t >= 8 && o.install_desktop_shortcut { TickAction::BackupDlls } else { TickAction::Idle })
                    &&& if t >= 8 && !o.install_desktop_shortcut {
                        n == TuiAppState { progress: capped(o.progress, 3, 45), phase: InstallPhase::SecuringCore, ..o }
                            && *final(step_tick) == 0
                    } else {
                        n == TuiAppState { progress: capped(o.progress, 3, 45), ..o } && *final(step_tick) == t
                    }
                },
                InstallPhase::SecuringCore => {
                    &&& action == (if t >= 8 && o.install_server { TickAction::InitializeConfig } else { TickAction::Idle })
                    &&& if t >= 8 && !o.install_server {
                        n == TuiAppState { progress: capped(o.progress, 3, 70), phase: InstallPhase::WritingConfig, ..o }
                            && *final(step_tick) == 0
                    } else {
                        n == TuiAppState { progress: capped(o.progress, 3, 70), ..o } && *final(step_tick) == t
                    }
                },
                InstallPhase::WritingConfig => {
                    let any = o.install_desktop_shortcut || o.install_server;
                    &&& action == (if t >= 8 && any {
                        TickAction::IntegrateDesktop { desktop: o.install_desktop_shortcut, service: o.install_server }
                    } else {
                        TickAction::Idle
                    })
                    &&& if t >= 8 && !any {
                        n == TuiAppState { progress: capped(o.progress, 3, 90), phase: InstallPhase::DesktopSetup, ..o }
                            && *final(step_tick) == 0
                    } else {
                        n == TuiAppState { progress: capped(o.progress, 3, 90), ..o } && *final(step_tick) == t
                    }
                },
                InstallPhase::DesktopSetup => {
                    &&& action == TickAction::Idle
                    &&& *final(step_tick) == t
                    &&& same_except(o, n, InstallPhase::Finished, 100)
                    &&& logs_grew(o, n, 1)
                    &&& is_speech(n.logs@.last(), finished_speech())
                },
                InstallPhase::Finished => action == TickAction::Idle && n == o && *final(step_tick) == t,
            }
        }),
{
    state.advance_tick();
    if state.phase == InstallPhase::SelectOptions {
        return TickAction::Idle;
    }
    *step_tick = *step_tick + 1;
    match state.phase {
        InstallPhase::InitialScan => {
            state.progress = capped_add(state.progress, 4, 20);
            if *step_tick >= 10 {
                TickAction::ScanForVault
            } else {
                TickAction::Idle
            }
        },
        InstallPhase::FoundVault => {
            state.progress = capped_add(state.progress, 3, 45);
            if *step_tick >= 8 {
                if state.install_desktop_shortcut {
                    TickAction::BackupDlls
                } else {
                    state.phase = InstallPhase::SecuringCore;
                    *step_tick = 0;
                    TickAction::Idle
                }
            } else {
                TickAction::Idle
            }
        },
        InstallPhase::SecuringCore => {
            state.progress = capped_add(state.progress, 3, 70);
            if *step_tick >= 8 {
                if state.install_server {
                    TickAction::InitializeConfig
                } else {
                    state.phase = InstallPhase::WritingConfig;
                    *step_tick = 0;
                    TickAction::Idle
                }
            } else {
                TickAction::Idle
            }
        },
        InstallPhase::WritingConfig => {
            state.progress = capped_add(state.progress, 3, 90);
            if *step_tick >= 8 {
                if state.install_desktop_shortcut || state.install_server {
                    TickAction::IntegrateDesktop {
                        desktop: state.install_desktop_shortcut,
                        service: state.install_server,
                    }
                } else {
                    state.phase = InstallPhase::DesktopSetup;
                    *step_tick = 0;
                    TickAction::Idle
                }
            } else {
                TickAction::Idle
            }
        },
        InstallPhase::DesktopSetup => {
            state.progress = 100;
            state.phase = InstallPhase::Finished;
            state.add_speech(
                "All selected components installed, Guardian! Press [Enter] to launch or [Esc] to exit.",
            );
            TickAction::Idle
        },
        _ => TickAction::Idle,
    }
}

/// The number of packages a located game vault is reported to hold.
pub const VAULT_PACKAGE_COUNT: usize = 126608;

/// Records the result of the vault search (`first_install`: the root of the
/// first installation found) and moves on to the vault phase.
pub fn finish_scan(state: &mut TuiAppState, step_tick: &mut u64, first_install: Option<&str>)
    ensures
        *final(step_tick) == 0,
        final(state).phase == InstallPhase::FoundVault,
        final(state).progress == old(state).progress,
        final(state).tick == old(state).tick,
        final(state).install_server == old(state).install_server,
        final(state).install_desktop_shortcut == old(state).install_desktop_shortcut,
        final(state).selected_option == old(state).selected_option,
        final(state).should_exit == old(state).should_exit,
        logs_grew(*old(state), *final(state), 2),
        match first_install {
            Some(root) => {
                &&& final(state).game_path@ == root@
                &&& final(state).package_count == VAULT_PACKAGE_COUNT
                &&& is_event(final(state).logs@[old(state).logs@.len() as int], "VAULT LOCATED"@, root@)
                &&& is_speech(final(state).logs@.last(), "Found it! Your Destiny 2 package vault is intact."@)
            },
            None => {
                &&& final(state).game_path == old(state).game_path
                &&& final(state).package_count == old(state).package_count
                &&& is_event(
                    final(state).logs@[old(state).logs@.len() as int],
                    "SECTOR STATUS"@,
                    "No standard Destiny 2 install detected"@,
                )
                &&& is_speech(
                    final(state).logs@.last(),
                    "No game install found yet, but initializing sandbox transponder."@,
                )
            },
        },
{
    let ghost start = state.logs@;
    match first_install {
        Some(root) => {
            state.game_path = root.to_owned();
            state.package_count = VAULT_PACKAGE_COUNT;
            state.add_event("VAULT LOCATED", root);
            state.add_speech("Found it! Your Destiny 2 package vault is intact.");
        },
        None => {
            state.add_event("SECTOR STATUS", "No standard Destiny 2 install detected");
            state.add_speech("No game install found yet, but initializing sandbox transponder.");
        },
    }
    proof {
        assert(state.logs@.subrange(0, start.len() as int) =~= start);
    }
    state.phase = InstallPhase::FoundVault;
    *step_tick = 0;
}

/// Records the backups made (one event per backup file) and moves on to
/// securing the core.
pub fn finish_backup(state: &mut TuiAppState, step_tick: &mut u64, backups: &Vec<String>)
    ensures
        *final(step_tick) == 0,
        same_except(*old(state), *final(state), InstallPhase::SecuringCore, old(state).progress),
        logs_grew(*old(state), *final(state), backups@.len() + 1),
        forall|i: int|
            0 <= i < backups@.len() ==> is_event(
                #[trigger] final(state).logs@[old(state).logs@.len() + i],
                "CORE SAFEGUARD"@,
                backups@[i]@,
            ),
        is_speech(final(state).logs@.last(), "Backed up original steam_api64.dll safely."@),
{
    let ghost start = state.logs@;
    let mut i: usize = 0;
    while i < backups.len()
        invariant
            i <= backups@.len(),
            same_except(*old(state), *state, old(state).phase, old(state).progress),
            start == old(state).logs@,
            state.logs@.len() == start.len() + i,
            state.logs@.subrange(0, start.len() as int) == start,
            forall|k: int|
                0 <= k < i ==> is_event(#[trigger] state.logs@[start.len() + k], "CORE SAFEGUARD"@, backups@[k]@),
        decreases backups@.len() - i,
    {
        let ghost before = state.logs@;
        state.add_event("CORE SAFEGUARD", backups[i].as_str());
        proof {
            assert forall|k: int| 0 <= k < i + 1 implies is_event(
                #[trigger] state.logs@[start.len() + k],
                "CORE SAFEGUARD"@,
                backups@[k]@,
            ) by {
                if k < i {
                    assert(state.logs@[start.len() + k] == before[start.len() + k]);
                }
            }
            assert(state.logs@.subrange(0, start.len() as int) =~= start);
        }
        i += 1;
    }
    let ghost before = state.logs@;
    state.add_speech("Backed up original steam_api64.dll safely.");
    proof {
        assert forall|k: int| 0 <= k < backups@.len() implies is_event(
            #[trigger] state.logs@[start.len() + k],
            "CORE SAFEGUARD"@,
            backups@[k]@,
        ) by {
            assert(state.logs@[start.len() + k] == before[start.len() + k]);
        }
        assert(state.logs@.subrange(0, start.len() as int) =~= start);
    }
    state.phase = InstallPhase::SecuringCore;
    *step_tick = 0;
}

/// Records where the configuration went and moves on to writing it.
pub fn finish_config(state: &mut TuiAppState, step_tick: &mut u64, config_dir: &str)
    ensures
        *final(step_tick) == 0,
        same_except(*old(state), *final(state), InstallPhase::WritingConfig, old(state).progress),
        logs_grew(*old(state), *final(state), 3),
        is_event(final(state).logs@[old(state).logs@.len() as int], "CONFIG LOCKED"@, config_dir@),
        is_event(final(state).logs@[old(state).logs@.len() + 1int], "BAP ENDPOINT"@, "127.0.0.1:7777"@),
        is_speech(final(state).logs@.last(), "Transponder initialized in ~/.config/thanatonaut with DLC unlocks."@),
{
    let ghost start = state.logs@;
    state.add_event("CONFIG LOCKED", config_dir);
    let ghost one = state.logs@;
    state.add_event("BAP ENDPOINT", "127.0.0.1:7777");
    let ghost two = state.logs@;
    state.add_speech("Transponder initialized in ~/.config/thanatonaut with DLC unlocks.");
    proof {
        assert(state.logs@[start.len() as int] == two[start.len() as int]);
        assert(two[start.len() as int] == one[start.len() as int]);
        assert(state.logs@[start.len() + 1int] == two[start.len() + 1int]);
        assert(state.logs@.subrange(0, start.len() as int) =~= start);
    }
    state.phase = InstallPhase::WritingConfig;
    *step_tick = 0;
}

/// Records the desktop integration: the desktop entries when they were to
/// be installed and the program's path was known (`desktop_done`), the
/// service likewise (`service_done`); then moves on to the last phase.
pub fn finish_integration(state: &mut TuiAppState, step_tick: &mut u64, desktop_done: bool, service_done: bool)
    ensures
        *final(step_tick) == 0,
        same_except(*old(state), *final(state), InstallPhase::DesktopSetup, old(state).progress),
        ({
            let base = old(state).logs@.len() as int;
            let d: nat = if desktop_done { 2 } else { 0 };
            let s: nat = if service_done { 1 } else { 0 };
            &&& logs_grew(*old(state), *final(state), d + s)
            &&& desktop_done ==> is_event(
                final(state).logs@[base],
                "DESKTOP ICON"@,
                "~/Desktop/thanatonaut-server.desktop"@,
            ) && is_event(
                final(state).logs@[base + 1],
                "START MENU"@,
                "~/.local/share/applications/thanatonaut-server.desktop"@,
            )
            &&& service_done ==> is_event(final(state).logs@[base + d], "SYSTEMD SERVICE"@, "thanatonaut.service"@)
        }),
{
    let ghost start = state.logs@;
    if desktop_done {
        state.add_event("DESKTOP ICON", "~/Desktop/thanatonaut-server.desktop");
        state.add_event("START MENU", "~/.local/share/applications/thanatonaut-server.desktop");
    }
    let ghost mid = state.logs@;
    if service_done {
        state.add_event("SYSTEMD SERVICE", "thanatonaut.service");
    }
    proof {
        if desktop_done {
            assert(mid.subrange(0, start.len() as int) == start);
        }
        if service_done {
            assert(state.logs@.subrange(0, mid.len() as int) == mid);
        }
        assert(state.logs@.subrange(0, start.len() as int) =~= start);
    }
    state.phase = InstallPhase::DesktopSetup;
    *step_tick = 0;
}

} // verus!
