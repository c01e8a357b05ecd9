//! The Ghost shell animation and the radar sweep captions.
use vstd::prelude::*;

verus! {

/// The eye of the Ghost in frame `k` of its four-frame pulse.
pub open spec fn ghost_eye_line(k: int) -> Seq<char> {
    if k == 0 {
        " <    V | (o) | V   > "@
    } else if k == 1 {
        " <    V | (•) | V   > "@
    } else if k == 2 {
        " <    V | (O) | V   > "@
    } else {
        " <    V | (-) | V   > "@
    }
}

/// Frame `k` of the Ghost shell: nine lines, all the same in every frame but
/// the fifth, which holds the eye.
pub open spec fn ghost_frame(k: int) -> Seq<Seq<char>> {
    seq![
        "          /\\          "@,
        "         /  \\         "@,
        "   /\\   / /\\ \\   /\\   "@,
        "  /  \\ / /  \\ \\ /  \\  "@,
        ghost_eye_line(k),
        "  \\  / \\ \\  / / \\  /  "@,
        "   \\/   \\ \\/ /   \\/   "@,
        "         \\  /         "@,
        "          \\/          "@,
    ]
}

/// The eight radar captions, in order.
pub open spec fn radar_sweeps() -> Seq<Seq<char>> {
    seq![
        "⠋ SCANNING SECTOR ALPHA..."@,
        "⠙ VERIFYING STEAM VAULT..."@,
        "⠹ DECRYPTING PKG MANIFEST..."@,
        "⠸ LOCKING LOCAL TRANSPONDER..."@,
        "⠼ SAFEGUARDING TELEMETRY..."@,
        "⠴ SYNCHRONIZING BAP CHANNEL..."@,
        "⠦ FINALIZING FOUNDRY BUILD..."@,
        "⠇ READY FOR TRANSMAT..."@,
    ]
}

/// The texts of a list of lines.
pub open spec fn texts(lines: Seq<&str>) -> Seq<Seq<char>> {
    lines.map_values(|l: &str| l@)
}

/// The Ghost shell for animation tick `tick`: the frames repeat every four ticks.
pub fn get_animated_ghost_frame(tick: usize) -> (lines: &'static [&'static str])
    ensures
        texts(lines@) == ghost_frame((tick % 4) as int),
{
    let k = tick % 4;
    let lines: &'static [&'static str] = if k == 0 {
        &[
            "          /\\          ",
            "         /  \\         ",
            "   /\\   / /\\ \\   /\\   ",
            "  /  \\ / /  \\ \\ /  \\  ",
            " <    V | (o) | V   > ",
            "  \\  / \\ \\  / / \\  /  ",
            "   \\/   \\ \\/ /   \\/   ",
            "         \\  /         ",
            "          \\/          ",
        ]
    } else if k == 1 {
        &[
            "          /\\          ",
            "         /  \\         ",
            "   /\\   / /\\ \\   /\\   ",
            "  /  \\ / /  \\ \\ /  \\  ",
            " <    V | (•) | V   > ",
            "  \\  / \\ \\  / / \\  /  ",
            "   \\/   \\ \\/ /   \\/   ",
            "         \\  /         ",
            "          \\/          ",
        ]
    } else if k == 2 {
        &[
            "          /\\          ",
            "         /  \\         ",
            "   /\\   / /\\ \\   /\\   ",
            "  /  \\ / /  \\ \\ /  \\  ",
            " <    V | (O) | V   > ",
            "  \\  / \\ \\  / / \\  /  ",
            "   \\/   \\ \\/ /   \\/   ",
            "         \\  /         ",
            "          \\/          ",
        ]
    } else {
        &[
            "          /\\          ",
            "         /  \\         ",
            "   /\\   / /\\ \\   /\\   ",
            "  /  \\ / /  \\ \\ /  \\  ",
            " <    V | (-) | V   > ",
            "  \\  / \\ \\  / / \\  /  ",
            "   \\/   \\ \\/ /   \\/   ",
            "         \\  /         ",
            "          \\/          ",
        ]
    };
    proof {
        assert(texts(lines@) =~= ghost_frame(k as int));
    }
    lines
}

/// The radar caption for animation tick `tick`: the captions repeat every
/// eight ticks.
pub fn get_radar_sweep(tick: usize) -> (s: &'static str)
    ensures
        s@ == radar_sweeps()[(tick % 8) as int],
{
    let k = tick % 8;
    if k == 0 {
        "⠋ SCANNING SECTOR ALPHA..."
    } else if k == 1 {
        "⠙ VERIFYING STEAM VAULT..."
    } else if k == 2 {
        "⠹ DECRYPTING PKG MANIFEST..."
    } else if k == 3 {
        "⠸ LOCKING LOCAL TRANSPONDER..."
    } else if k == 4 {
        "⠼ SAFEGUARDING TELEMETRY..."
    } else if k == 5 {
        "⠴ SYNCHRONIZING BAP CHANNEL..."
    } else if k == 6 {
        "⠦ FINALIZING FOUNDRY BUILD..."
    } else {
        "⠇ READY FOR TRANSMAT..."
    }
}

} // verus!
