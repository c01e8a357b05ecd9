//! The installer screen's state: component choices, progress and the Ghost's
//! transcript.
use vstd::prelude::*;
use crate::text::{string_push, string_push_str};

verus! {

#[derive(Debug, Clone, Copy, PartialEq, Eq, Structural)]
pub enum InstallPhase {
    SelectOptions,
    InitialScan,
    FoundVault,
    SecuringCore,
    WritingConfig,
    DesktopSetup,
    Finished,
}

/// One line of the transcript: something the Ghost says, or an event with a
/// title.
#[derive(Debug, Clone)]
pub struct GhostLogEntry {
    pub is_ghost_speech: bool,
    pub title: String,
    pub detail: String,
}

#[derive(Debug, Clone)]
pub struct TuiAppState {
    pub tick: usize,
    pub progress: u16,
    pub phase: InstallPhase,
    pub logs: Vec<GhostLogEntry>,
    pub game_path: String,
    pub package_count: usize,
    pub install_server: bool,
    pub install_desktop_shortcut: bool,
    pub selected_option: usize,
    pub should_exit: bool,
}

/// `text` in double quotes.
pub open spec fn quoted(text: Seq<char>) -> Seq<char> {
    seq!['"'] + text + seq!['"']
}

/// The Ghost's opening line.
pub open spec fn greeting() -> Seq<char> {
    "Eyes up, Guardian! Select which components you wish to materialize into your sandbox."@
}

/// `e` is the Ghost saying `text`.
pub open spec fn is_speech(e: GhostLogEntry, text: Seq<char>) -> bool {
    e.is_ghost_speech && e.title@ == "Ghost"@ && e.detail@ == quoted(text)
}

/// `e` is the event `title`: `detail`.
pub open spec fn is_event(e: GhostLogEntry, title: Seq<char>, detail: Seq<char>) -> bool {
    !e.is_ghost_speech && e.title@ == title && e.detail@ == detail
}

/// Everything but the transcript is as before.
pub open spec fn same_but_logs(a: TuiAppState, b: TuiAppState) -> bool {
    &&& a.tick == b.tick
    &&& a.progress == b.progress
    &&& a.phase == b.phase
    &&& a.game_path == b.game_path
    &&& a.package_count == b.package_count
    &&& a.install_server == b.install_server
    &&& a.install_desktop_shortcut == b.install_desktop_shortcut
    &&& a.selected_option == b.selected_option
    &&& a.should_exit == b.should_exit
}

fn speech_entry(text: &str) -> (e: GhostLogEntry)
    ensures
        is_speech(e, text@),
{
    let mut detail = String::new();
    string_push(&mut detail, '"');
    string_push_str(&mut detail, text);
    string_push(&mut detail, '"');
    proof {
        assert(detail@ =~= quoted(text@));
    }
    GhostLogEntry { is_ghost_speech: true, title: "Ghost".to_owned(), detail }
}

impl TuiAppState {
    /// The first screen: both components chosen, the first option selected,
    /// and the Ghost's greeting in the transcript.
    pub fn new() -> (s: Self)
        ensures
            s.tick == 0,
            s.progress == 0,
            s.phase == InstallPhase::SelectOptions,
            s.logs@.len() == 1,
            is_speech(s.logs@[0], greeting()),
            s.game_path@.len() == 0,
            s.package_count == 0,
            s.install_server,
            s.install_desktop_shortcut,
            s.selected_option == 0,
            !s.should_exit,
    {
        let mut logs: Vec<GhostLogEntry> = Vec::new();
        logs.push(
            speech_entry(
                "Eyes up, Guardian! Select which components you wish to materialize into your sandbox.",
            ),
        );
        TuiAppState {
            tick: 0,
            progress: 0,
            phase: InstallPhase::SelectOptions,
            logs,
            game_path: String::new(),
            package_count: 0,
            install_server: true,
            install_desktop_shortcut: true,
            selected_option: 0,
            should_exit: false,
        }
    }

    /// Flips the selected component; the proceed button has nothing to flip.
    pub fn toggle_selected(&mut self)
        ensures
            final(self).install_server == (if old(self).selected_option == 0 {
                !old(self).install_server
            } else {
                old(self).install_server
            }),
            final(self).install_desktop_shortcut == (if old(self).selected_option == 1 {
                !old(self).install_desktop_shortcut
            } else {
                old(self).install_desktop_shortcut
            }),
            final(self).logs == old(self).logs,
            final(self).tick == old(self).tick,
            final(self).progress == old(self).progress,
            final(self).phase == old(self).phase,
            final(self).game_path == old(self).game_path,
            final(self).package_count == old(self).package_count,
            final(self).selected_option == old(self).selected_option,
            final(self).should_exit == old(self).should_exit,
    {
        if self.selected_option == 0 {
            self.install_server = !self.install_server;
        } else if self.selected_option == 1 {
            self.install_desktop_shortcut = !self.install_desktop_shortcut;
        }
    }

    /// Selects the next of the three options, wrapping around.
    pub fn next_option(&mut self)
        requires
            old(self).selected_option < usize::MAX,
        ensures
            final(self).selected_option == (old(self).selected_option + 1) % 3,
            final(self).logs == old(self).logs,
            same_but_logs(*final(self), TuiAppState { selected_option: final(self).selected_option, ..*old(self) }),
    {
        self.selected_option = (self.selected_option + 1) % 3;
    }

    /// Selects the previous option; from the first, the last.
    pub fn prev_option(&mut self)
        ensures
            final(self).selected_option == (if old(self).selected_option == 0 {
                2
            } else {
                old(self).selected_option - 1
            }),
            final(self).logs == old(self).logs,
            same_but_logs(*final(self), TuiAppState { selected_option: final(self).selected_option, ..*old(self) }),
    {
        if self.selected_option == 0 {
            self.selected_option = 2;
        } else {
            self.selected_option -= 1;
        }
    }

    /// The Ghost says `text`; it is shown in double quotes.
    pub fn add_speech(&mut self, text: &str)
        ensures
            final(self).logs@.len() == old(self).logs@.len() + 1,
            final(self).logs@.subrange(0, old(self).logs@.len() as int) == old(self).logs@,
            is_speech(final(self).logs@.last(), text@),
            same_but_logs(*final(self), *old(self)),
    {
        self.logs.push(speech_entry(text));
        proof {
            assert(self.logs@.subrange(0, old(self).logs@.len() as int) =~= old(self).logs@);
        }
    }

    /// Records the event `title`: `detail`.
    pub fn add_event(&mut self, title: &str, detail: &str)
        ensures
            final(self).logs@.len() == old(self).logs@.len() + 1,
            final(self).logs@.subrange(0, old(self).logs@.len() as int) == old(self).logs@,
            is_event(final(self).logs@.last(), title@, detail@),
            same_but_logs(*final(self), *old(self)),
    {
        self.logs.push(GhostLogEntry { is_ghost_speech: false, title: title.to_owned(), detail: detail.to_owned() });
        proof {
            assert(self.logs@.subrange(0, old(self).logs@.len() as int) =~= old(self).logs@);
        }
    }

    /// One animation frame later (wrapping).
    pub fn advance_tick(&mut self)
        ensures
            final(self).tick == vstd::wrapping::usize_specs::wrapping_add(old(self).tick, 1),
            final(self).logs == old(self).logs,
            same_but_logs(*final(self), TuiAppState { tick: final(self).tick, ..*old(self) }),
    {
        self.tick = self.tick.wrapping_add(1);
    }
}

impl Default for TuiAppState {
    fn default() -> (s: Self)
        ensures
            s.tick == 0,
            s.progress == 0,
            s.phase == InstallPhase::SelectOptions,
            s.logs@.len() == 1,
            is_speech(s.logs@[0], greeting()),
            s.install_server,
            s.install_desktop_shortcut,
            s.selected_option == 0,
            !s.should_exit,
    {
        TuiAppState::new()
    }
}

} // verus!
