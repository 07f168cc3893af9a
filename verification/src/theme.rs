//! The shell's colours and text styles, as plain values that the drawing
//! code turns into terminal styles. Where the terminal's background is
//! known, the accent adapts to it.
use vstd::prelude::*;

use crate::palette::is_light;
use crate::palette::light;
use crate::text::to_chars;

verus! {

/// A terminal colour.
#[derive(Clone, Copy, Debug, PartialEq, Eq)]
pub enum Tone {
    Black,
    Red,
    Green,
    Yellow,
    Blue,
    Magenta,
    Cyan,
    Gray,
    DarkGray,
    White,
    Reset,
    Rgb(u8, u8, u8),
}

/// A text style: foreground, background and the bold, dim and italic
/// modifiers.
#[derive(Clone, Copy, Debug, PartialEq, Eq)]
pub struct StyleSpec {
    pub fg: Option<Tone>,
    pub bg: Option<Tone>,
    pub bold: bool,
    pub dim: bool,
    pub italic: bool,
}

pub open spec fn style_of(fg: Option<Tone>, bg: Option<Tone>, bold: bool, dim: bool) -> StyleSpec {
    StyleSpec { fg, bg, bold, dim, italic: false }
}

fn style(fg: Option<Tone>, bg: Option<Tone>, bold: bool, dim: bool) -> (s: StyleSpec)
    ensures
        s == style_of(fg, bg, bold, dim),
{
    StyleSpec { fg, bg, bold, dim, italic: false }
}

/// The accent colour: a deep teal on a light background, cyan otherwise
/// (also when the background is unknown).
pub open spec fn accent_of(bg: Option<(u8, u8, u8)>) -> Tone {
    match bg {
        Some(rgb) if light(rgb) => Tone::Rgb(0, 95, 135),
        _ => Tone::Cyan,
    }
}

pub fn accent_style_for(terminal_bg: Option<(u8, u8, u8)>) -> (t: Tone)
    ensures
        t == accent_of(terminal_bg),
{
    match terminal_bg {
        Some(rgb) => if is_light(rgb) {
            Tone::Rgb(0, 95, 135)
        } else {
            Tone::Cyan
        },
        None => Tone::Cyan,
    }
}

/// The top bar: bold black on the accent.
pub fn top_bar(terminal_bg: Option<(u8, u8, u8)>) -> (s: StyleSpec)
    ensures
        s == style_of(Some(Tone::Black), Some(accent_of(terminal_bg)), true, false),
{
    style(Some(Tone::Black), Some(accent_style_for(terminal_bg)), true, false)
}

/// Pane borders: dark gray, dimmed when the background is known.
pub fn block_border(terminal_bg: Option<(u8, u8, u8)>) -> (s: StyleSpec)
    ensures
        s == style_of(Some(Tone::DarkGray), None, false, terminal_bg is Some),
{
    style(Some(Tone::DarkGray), None, false, terminal_bg.is_some())
}

/// Pane titles: bold accent.
pub fn section_title(terminal_bg: Option<(u8, u8, u8)>) -> (s: StyleSpec)
    ensures
        s == style_of(Some(accent_of(terminal_bg)), None, true, false),
{
    style(Some(accent_style_for(terminal_bg)), None, true, false)
}

/// Status labels: bold accent.
pub fn status_label(terminal_bg: Option<(u8, u8, u8)>) -> (s: StyleSpec)
    ensures
        s == style_of(Some(accent_of(terminal_bg)), None, true, false),
{
    style(Some(accent_style_for(terminal_bg)), None, true, false)
}

/// The footer line: accent on the terminal's own background.
pub fn footer_style(terminal_bg: Option<(u8, u8, u8)>) -> (s: StyleSpec)
    ensures
        s == style_of(Some(accent_of(terminal_bg)), Some(Tone::Reset), false, false),
{
    style(Some(accent_style_for(terminal_bg)), Some(Tone::Reset), false, false)
}

/// How a transcript role marker is coloured.
pub open spec fn role_style(role: Seq<char>) -> StyleSpec {
    if role == "SYSTEM"@ || role == "APPROVAL"@ {
        style_of(Some(Tone::Magenta), None, true, false)
    } else if role == "USER"@ {
        style_of(Some(Tone::Green), None, true, false)
    } else if role == "ASSISTANT"@ {
        style_of(Some(Tone::Cyan), None, true, false)
    } else if role == "TOOL"@ {
        style_of(Some(Tone::Yellow), None, false, true)
    } else {
        style_of(Some(Tone::White), None, false, false)
    }
}

fn same_text(a: &str, b: &str) -> (r: bool)
    ensures
        r == (a@ == b@),
{
    let x = to_chars(a);
    let y = to_chars(b);
    crate::text::chars_eq(x.as_slice(), y.as_slice())
}

pub fn transcript_role(role: &str) -> (s: StyleSpec)
    ensures
        s == role_style(role@),
{
    if same_text(role, "SYSTEM") || same_text(role, "APPROVAL") {
        style(Some(Tone::Magenta), None, true, false)
    } else if same_text(role, "USER") {
        style(Some(Tone::Green), None, true, false)
    } else if same_text(role, "ASSISTANT") {
        style(Some(Tone::Cyan), None, true, false)
    } else if same_text(role, "TOOL") {
        style(Some(Tone::Yellow), None, false, true)
    } else {
        style(Some(Tone::White), None, false, false)
    }
}

/// The selected slash hint: bold white on dark gray over a known dark
/// background, bold black on yellow otherwise.
pub open spec fn selected_hint_style(bg: Option<(u8, u8, u8)>) -> StyleSpec {
    match bg {
        Some(rgb) if !light(rgb) => style_of(Some(Tone::White), Some(Tone::DarkGray), true, false),
        _ => style_of(Some(Tone::Black), Some(Tone::Yellow), true, false),
    }
}

pub fn hint_selected(terminal_bg: Option<(u8, u8, u8)>) -> (s: StyleSpec)
    ensures
        s == selected_hint_style(terminal_bg),
{
    let dark = match terminal_bg {
        Some(rgb) => !is_light(rgb),
        None => false,
    };
    if dark {
        style(Some(Tone::White), Some(Tone::DarkGray), true, false)
    } else {
        style(Some(Tone::Black), Some(Tone::Yellow), true, false)
    }
}

/// The footer badge's colour for a status: cyan while busy, yellow while
/// thinking or waiting for approval, green when idle.
pub open spec fn badge_style(badge: Seq<char>) -> StyleSpec {
    if badge == "busy"@ {
        style_of(Some(Tone::Cyan), None, true, false)
    } else if badge == "thinking"@ || badge == "approval"@ {
        style_of(Some(Tone::Yellow), None, true, false)
    } else {
        style_of(Some(Tone::Green), None, true, false)
    }
}

pub fn footer_badge_style(badge: &str) -> (s: StyleSpec)
    ensures
        s == badge_style(badge@),
{
    if same_text(badge, "busy") {
        style(Some(Tone::Cyan), None, true, false)
    } else if same_text(badge, "thinking") || same_text(badge, "approval") {
        style(Some(Tone::Yellow), None, true, false)
    } else {
        style(Some(Tone::Green), None, true, false)
    }
}

/// A notification in the footer: bold black on cyan.
pub fn notification_style() -> (s: StyleSpec)
    ensures
        s == style_of(Some(Tone::Black), Some(Tone::Cyan), true, false),
{
    style(Some(Tone::Black), Some(Tone::Cyan), true, false)
}

/// The composer title's mode marker: bold magenta for Vim's normal mode,
/// bold green for insert mode.
pub fn composer_mode_style(normal: bool) -> (s: StyleSpec)
    ensures
        s == style_of(Some(if normal { Tone::Magenta } else { Tone::Green }), None, true, false),
{
    if normal {
        style(Some(Tone::Magenta), None, true, false)
    } else {
        style(Some(Tone::Green), None, true, false)
    }
}

/// The overlay's frame: bold magenta for an approval request, cyan for a
/// pager; its hint line is dimmed in the same hue for an approval, dim dark
/// gray for a pager.
pub fn overlay_frame_style(approval: bool) -> (s: (StyleSpec, StyleSpec))
    ensures
        s.0 == (if approval {
            style_of(Some(Tone::Magenta), None, true, false)
        } else {
            style_of(Some(Tone::Cyan), None, false, false)
        }),
        s.1 == (if approval {
            style_of(Some(Tone::Magenta), None, false, true)
        } else {
            style_of(Some(Tone::DarkGray), None, false, true)
        }),
{
    if approval {
        (
            style(Some(Tone::Magenta), None, true, false),
            style(Some(Tone::Magenta), None, false, true),
        )
    } else {
        (style(Some(Tone::Cyan), None, false, false), style(Some(Tone::DarkGray), None, false, true))
    }
}

/// How panes are framed.
#[derive(Clone, Copy, Debug, PartialEq, Eq)]
pub enum FrameStyle {
    Codex,
    Default,
    Minimal,
}

/// A pane's frame: whether it runs round all four sides (else only along
/// the top), and whether its corners are rounded.
#[derive(Clone, Copy, Debug, PartialEq, Eq)]
pub struct FrameBorders {
    pub all_sides: bool,
    pub rounded: bool,
}

/// The codex frame is rounded on all sides, the default one plain on all
/// sides, the minimal one a plain top line.
pub fn frame_borders(style: FrameStyle) -> (b: FrameBorders)
    ensures
        b.all_sides == (style != FrameStyle::Minimal),
        b.rounded == (style == FrameStyle::Codex),
{
    match style {
        FrameStyle::Codex => FrameBorders { all_sides: true, rounded: true },
        FrameStyle::Default => FrameBorders { all_sides: true, rounded: false },
        FrameStyle::Minimal => FrameBorders { all_sides: false, rounded: false },
    }
}

} // verus!
