//! What the installer screen shows, apart from how it is drawn: the lines of
//! the component selector, the progress label, the footer and the part of
//! the transcript in view.
use vstd::prelude::*;
use crate::text::{dec_digits, push_decimal, string_push_str};
use crate::tui::app_state::{InstallPhase, TuiAppState};

verus! {

/// How a selector line is drawn.
#[derive(Debug, Clone, Copy, PartialEq, Eq, Structural)]
pub enum LineTone {
    Blank,
    Heading,
    Highlighted,
    Plain,
    Hint,
    ProceedSelected,
    Proceed,
}

pub struct OptionLine {
    pub text: String,
    pub tone: LineTone,
}

/// `[X]` when chosen, `[ ]` when not.
pub open spec fn check_mark(on: bool) -> Seq<char> {
    if on {
        "[X]"@
    } else {
        "[ ]"@
    }
}

pub open spec fn option_tone(selected: bool) -> LineTone {
    if selected {
        LineTone::Highlighted
    } else {
        LineTone::Plain
    }
}

/// The selector, line by line: a heading, each component with its check
/// mark and a hint below it, and the proceed button; the selected entry is
/// highlighted.
pub open spec fn selector_lines(s: TuiAppState) -> Seq<(Seq<char>, LineTone)> {
    seq![
        (""@, LineTone::Blank),
        ("Choose which components to install for Project Sunrise:"@, LineTone::Heading),
        (""@, LineTone::Blank),
        (
            "  "@ + check_mark(s.install_server) + " 1. Install Sunrise Linux Emulation Server"@,
            option_tone(s.selected_option == 0),
        ),
        ("        (Native BAP TCP daemon, ~/.config/thanatonaut, systemd service)"@, LineTone::Hint),
        (""@, LineTone::Blank),
        (
            "  "@ + check_mark(s.install_desktop_shortcut) + " 2. Install Destiny 2 Desktop & Steam Integration"@,
            option_tone(s.selected_option == 1),
        ),
        ("        (Desktop launcher icon, Start Menu entry, Steam API backup & hook)"@, LineTone::Hint),
        (""@, LineTone::Blank),
        (
            "   >>> [ CONFIRM & PROCEED WITH INSTALLATION ] <<< "@,
            if s.selected_option == 2 {
                LineTone::ProceedSelected
            } else {
                LineTone::Proceed
            },
        ),
    ]
}

/// The text and tone of each line.
pub open spec fn line_view(v: Seq<OptionLine>) -> Seq<(Seq<char>, LineTone)> {
    v.map_values(|l: OptionLine| (l.text@, l.tone))
}

fn line(text: &str, tone: LineTone) -> (l: OptionLine)
    ensures
        l.text@ == text@,
        l.tone == tone,
{
    OptionLine { text: text.to_owned(), tone }
}

fn option_line(on: bool, label: &str, selected: bool) -> (l: OptionLine)
    ensures
        l.text@ == "  "@ + check_mark(on) + label@,
        l.tone == option_tone(selected),
{
    let mut text = "  ".to_owned();
    if on {
        string_push_str(&mut text, "[X]");
    } else {
        string_push_str(&mut text, "[ ]");
    }
    string_push_str(&mut text, label);
    OptionLine { text, tone: if selected { LineTone::Highlighted } else { LineTone::Plain } }
}

/// The lines of the component selector.
pub fn options_selector_lines(state: &TuiAppState) -> (v: Vec<OptionLine>)
    ensures
        line_view(v@) == selector_lines(*state),
{
    let mut v: Vec<OptionLine> = Vec::new();
    v.push(line("", LineTone::Blank));
    v.push(line("Choose which components to install for Project Sunrise:", LineTone::Heading));
    v.push(line("", LineTone::Blank));
    v.push(option_line(state.install_server, " 1. Install Sunrise Linux Emulation Server", state.selected_option == 0));
    v.push(line("        (Native BAP TCP daemon, ~/.config/thanatonaut, systemd service)", LineTone::Hint));
    v.push(line("", LineTone::Blank));
    v.push(
        option_line(
            state.install_desktop_shortcut,
            " 2. Install Destiny 2 Desktop & Steam Integration",
            state.selected_option == 1,
        ),
    );
    v.push(line("        (Desktop launcher icon, Start Menu entry, Steam API backup & hook)", LineTone::Hint));
    v.push(line("", LineTone::Blank));
    v.push(
        line(
            "   >>> [ CONFIRM & PROCEED WITH INSTALLATION ] <<< ",
            if state.selected_option == 2 {
                LineTone::ProceedSelected
            } else {
                LineTone::Proceed
            },
        ),
    );
    proof {
        assert(line_view(v@) =~= selector_lines(*state));
    }
    v
}

/// What the progress gauge says a phase is doing.
pub open spec fn phase_caption(p: InstallPhase) -> Seq<char> {
    match p {
        InstallPhase::InitialScan => "Scanning Drive Sectors"@,
        InstallPhase::FoundVault => "Verifying Destiny 2 Game Vault"@,
        InstallPhase::SecuringCore => "Safeguarding Steam API Core"@,
        InstallPhase::WritingConfig => "Initializing ~/.config/thanatonaut Sandbox"@,
        InstallPhase::DesktopSetup => "Registering Desktop Icon & Service"@,
        InstallPhase::Finished => "Installation Complete - Ready for Transmat"@,
        InstallPhase::SelectOptions => ""@,
    }
}

fn caption(p: InstallPhase) -> (s: &'static str)
    ensures
        s@ == phase_caption(p),
{
    match p {
        InstallPhase::InitialScan => "Scanning Drive Sectors",
        InstallPhase::FoundVault => "Verifying Destiny 2 Game Vault",
        InstallPhase::SecuringCore => "Safeguarding Steam API Core",
        InstallPhase::WritingConfig => "Initializing ~/.config/thanatonaut Sandbox",
        InstallPhase::DesktopSetup => "Registering Desktop Icon & Service",
        InstallPhase::Finished => "Installation Complete - Ready for Transmat",
        InstallPhase::SelectOptions => "",
    }
}

/// The label of the progress gauge: the percentage and what the phase does.
pub fn gauge_label(state: &TuiAppState) -> (s: String)
    ensures
        s@ == dec_digits(state.progress as nat) + "% - "@ + phase_caption(state.phase),
{
    let mut s = String::new();
    push_decimal(&mut s, state.progress as u64);
    string_push_str(&mut s, "% - ");
    string_push_str(&mut s, caption(state.phase));
    s
}

/// Which footer the screen shows.
#[derive(Debug, Clone, Copy, PartialEq, Eq, Structural)]
pub enum FooterKind {
    /// The launch parameter and the keys to launch or exit.
    Finished,
    /// The hint to customize before installing.
    Customizing,
    /// The note that installation is under way.
    Installing,
}

pub fn footer_kind(phase: InstallPhase) -> (k: FooterKind)
    ensures
        k == (if phase == InstallPhase::Finished {
            FooterKind::Finished
        } else if phase == InstallPhase::SelectOptions {
            FooterKind::Customizing
        } else {
            FooterKind::Installing
        }),
{
    match phase {
        InstallPhase::Finished => FooterKind::Finished,
        InstallPhase::SelectOptions => FooterKind::Customizing,
        _ => FooterKind::Installing,
    }
}

/// The index of the first transcript entry in view: the last ten are shown.
pub fn transcript_start(len: usize) -> (start: usize)
    ensures
        start == (if len >= 10 {
            len - 10
        } else {
            0
        }),
{
    len.saturating_sub(10)
}

} // verus!
