use vstd::prelude::*;

use crate::command::word_is;

verus! {

/// The DECSCUSR parameter for a cursor style name and a blink setting:
/// `block` 1, `underline` 3, anything else (`bar`, `beam`) 5, plus one when
/// steady. An unset style is `bar`; the cursor blinks unless the setting is
/// exactly `0`.
pub open spec fn cursor_code(style: Option<Seq<char>>, blink: Option<Seq<char>>) -> u8 {
    let steady: u8 = if blink == Some("0"@) { 1 } else { 0 };
    let base: u8 = match style {
        Some(s) => if s == "block"@ {
            1
        } else if s == "underline"@ {
            3
        } else {
            5
        },
        None => 5,
    };
    (base + steady) as u8
}

pub open spec fn opt_chars(o: Option<Vec<char>>) -> Option<Seq<char>> {
    match o {
        Some(v) => Some(v@),
        None => None,
    }
}

/// The code to put in `ESC [ n SP q` for the cursor style settings.
pub fn cursor_style_code(style: &Option<Vec<char>>, blink: &Option<Vec<char>>) -> (r: u8)
    ensures
        r == cursor_code(opt_chars(*style), opt_chars(*blink)),
        1 <= r <= 6,
{
    let steady: u8 = match blink {
        Some(b) => if word_is(b, "0") { 1 } else { 0 },
        None => 0,
    };
    let base: u8 = match style {
        Some(s) => if word_is(s, "block") {
            1
        } else if word_is(s, "underline") {
            3
        } else {
            5
        },
        None => 5,
    };
    base + steady
}

/// A cell colour as the terminal emulator reports it.
#[derive(Clone, Copy, Debug, PartialEq, Eq, Structural)]
pub enum VtColor {
    Default,
    Idx(u8),
    Rgb(u8, u8, u8),
}

/// A colour of the host renderer.
#[derive(Clone, Copy, Debug, PartialEq, Eq, Structural)]
pub enum HostColor {
    Reset,
    Black,
    Red,
    Green,
    Yellow,
    Blue,
    Magenta,
    Cyan,
    Gray,
    DarkGray,
    LightRed,
    LightGreen,
    LightYellow,
    LightBlue,
    LightMagenta,
    LightCyan,
    White,
    Rgb(u8, u8, u8),
}

/// The sixteen named colours, by palette index; the rest of the palette
/// has no name on the host.
pub open spec fn palette(i: u8) -> HostColor {
    if i == 0 { HostColor::Black }
    else if i == 1 { HostColor::Red }
    else if i == 2 { HostColor::Green }
    else if i == 3 { HostColor::Yellow }
    else if i == 4 { HostColor::Blue }
    else if i == 5 { HostColor::Magenta }
    else if i == 6 { HostColor::Cyan }
    else if i == 7 { HostColor::Gray }
    else if i == 8 { HostColor::DarkGray }
    else if i == 9 { HostColor::LightRed }
    else if i == 10 { HostColor::LightGreen }
    else if i == 11 { HostColor::LightYellow }
    else if i == 12 { HostColor::LightBlue }
    else if i == 13 { HostColor::LightMagenta }
    else if i == 14 { HostColor::LightCyan }
    else if i == 15 { HostColor::White }
    else { HostColor::Reset }
}

/// Translates an emulator colour for the host: the default colour resets,
/// palette entries map by `palette`, true colour passes through.
pub fn vt_to_color(c: VtColor) -> (r: HostColor)
    ensures
        r == vt_color(c),
{
    match c {
        VtColor::Default => HostColor::Reset,
        VtColor::Idx(i) => {
            if i == 0 { HostColor::Black }
            else if i == 1 { HostColor::Red }
            else if i == 2 { HostColor::Green }
            else if i == 3 { HostColor::Yellow }
            else if i == 4 { HostColor::Blue }
            else if i == 5 { HostColor::Magenta }
            else if i == 6 { HostColor::Cyan }
            else if i == 7 { HostColor::Gray }
            else if i == 8 { HostColor::DarkGray }
            else if i == 9 { HostColor::LightRed }
            else if i == 10 { HostColor::LightGreen }
            else if i == 11 { HostColor::LightYellow }
            else if i == 12 { HostColor::LightBlue }
            else if i == 13 { HostColor::LightMagenta }
            else if i == 14 { HostColor::LightCyan }
            else if i == 15 { HostColor::White }
            else { HostColor::Reset }
        },
        VtColor::Rgb(red, green, blue) => HostColor::Rgb(red, green, blue),
    }
}

/// The foreground and background a cell is drawn with: the inverse flag
/// swaps them.
pub fn cell_colors(fg: VtColor, bg: VtColor, inverse: bool) -> (r: (HostColor, HostColor))
    ensures
        !inverse ==> r == (vt_color(fg), vt_color(bg)),
        inverse ==> r == (vt_color(bg), vt_color(fg)),
{
    let f = vt_to_color(fg);
    let b = vt_to_color(bg);
    if inverse {
        (b, f)
    } else {
        (f, b)
    }
}

pub open spec fn vt_color(c: VtColor) -> HostColor {
    match c {
        VtColor::Default => HostColor::Reset,
        VtColor::Idx(i) => palette(i),
        VtColor::Rgb(red, green, blue) => HostColor::Rgb(red, green, blue),
    }
}

} // verus!
