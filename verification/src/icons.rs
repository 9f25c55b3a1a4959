//! The glyphs of the bar, from the Nerd Font private use areas.

use vstd::prelude::*;

verus! {

pub const ICON_CPU: &'static str = "\u{F4BC}";

pub const ICON_MEM: &'static str = "\u{F035B}";

pub const ICON_BAT_FULL: &'static str = "\u{F0079}";

pub const ICON_BAT_CHG: &'static str = "\u{F0084}";

pub const ICON_VOL_HIGH: &'static str = "\u{F057E}";

pub const ICON_VOL_MID: &'static str = "\u{F0580}";

pub const ICON_VOL_LOW: &'static str = "\u{F057F}";

pub const ICON_VOL_MUTE: &'static str = "\u{F075F}";

pub const ICON_BRIGHT: &'static str = "\u{F00DE}";

pub const ICON_SHOT: &'static str = "\u{F0104}";

pub const ICON_TIME: &'static str = "\u{F0954}";

pub const ICON_MON: &'static str = "\u{F0379}";

/// The number of tags that the bar has a button for.
pub const TAG_COUNT: usize = 9;

/// The glyph of each tag's button.
pub open spec fn tag_glyph(tag: int) -> Seq<char> {
    if tag == 0 {
        "\u{F0A1E}"@
    } else if tag == 1 {
        "\u{F0239}"@
    } else if tag == 2 {
        "\u{F0A1B}"@
    } else if tag == 3 {
        "\u{F0B79}"@
    } else if tag == 4 {
        "\u{F024B}"@
    } else if tag == 5 {
        "\u{F0388}"@
    } else if tag == 6 {
        "\u{F0567}"@
    } else if tag == 7 {
        "\u{F01F0}"@
    } else {
        "\u{F0297}"@
    }
}

/// The glyph of a tag's button: terminal, browser, code, chat, folder, music, video,
/// mail, gamepad.
pub fn tag_icon(tag: usize) -> (glyph: &'static str)
    requires
        tag < TAG_COUNT,
    ensures
        glyph@ == tag_glyph(tag as int),
{
    match tag {
        0 => "\u{F0A1E}",
        1 => "\u{F0239}",
        2 => "\u{F0A1B}",
        3 => "\u{F0B79}",
        4 => "\u{F024B}",
        5 => "\u{F0388}",
        6 => "\u{F0567}",
        7 => "\u{F01F0}",
        _ => "\u{F0297}",
    }
}

/// The glyph of a monitor; only the first two have one of their own.
pub open spec fn monitor_glyph(num: int) -> Seq<char> {
    if num == 0 {
        "\u{F02DA}"@
    } else if num == 1 {
        "\u{F02DB}"@
    } else {
        "?"@
    }
}

/// The glyph of a monitor.
pub fn monitor_icon_glyph(num: i32) -> (glyph: &'static str)
    ensures
        glyph@ == monitor_glyph(num as int),
{
    match num {
        0 => "\u{F02DA}",
        1 => "\u{F02DB}",
        _ => "?",
    }
}

} // verus!
