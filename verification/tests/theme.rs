use muldex::theme::{
    accent_style_for, block_border, footer_badge_style, hint_selected, notification_style,
    overlay_frame_style, top_bar, transcript_role, StyleSpec, Tone,
};

fn spec(fg: Option<Tone>, bg: Option<Tone>, bold: bool, dim: bool) -> StyleSpec {
    StyleSpec { fg, bg, bold, dim, italic: false }
}

#[test]
fn accent_style_defaults_to_cyan() {
    let color = accent_style_for(None);
    assert_eq!(color, Tone::Cyan);
}

#[test]
fn notification_style_is_bold_cyan() {
    assert_eq!(notification_style(), spec(Some(Tone::Black), Some(Tone::Cyan), true, false));
}

#[test]
fn accent_follows_a_light_background() {
    assert_eq!(accent_style_for(Some((250, 250, 250))), Tone::Rgb(0, 95, 135));
    assert_eq!(accent_style_for(Some((20, 20, 20))), Tone::Cyan);
    assert_eq!(top_bar(Some((250, 250, 250))).bg, Some(Tone::Rgb(0, 95, 135)));
}

#[test]
fn borders_dim_only_on_a_known_background() {
    assert!(block_border(Some((0, 0, 0))).dim);
    assert!(!block_border(None).dim);
}

#[test]
fn role_markers_have_their_colours() {
    assert_eq!(transcript_role("USER").fg, Some(Tone::Green));
    assert_eq!(transcript_role("ASSISTANT").fg, Some(Tone::Cyan));
    assert_eq!(transcript_role("APPROVAL").fg, Some(Tone::Magenta));
    assert_eq!(transcript_role("TOOL"), spec(Some(Tone::Yellow), None, false, true));
    assert_eq!(transcript_role("other"), spec(Some(Tone::White), None, false, false));
}

#[test]
fn selected_hint_depends_on_the_background() {
    assert_eq!(hint_selected(Some((10, 10, 10))).bg, Some(Tone::DarkGray));
    assert_eq!(hint_selected(Some((240, 240, 240))).bg, Some(Tone::Yellow));
    assert_eq!(hint_selected(None).bg, Some(Tone::Yellow));
}

#[test]
fn badges_and_overlay_frames() {
    assert_eq!(footer_badge_style("approval").fg, Some(Tone::Yellow));
    assert_eq!(footer_badge_style("busy").fg, Some(Tone::Cyan));
    assert_eq!(footer_badge_style("idle").fg, Some(Tone::Green));
    assert_eq!(overlay_frame_style(true).0.fg, Some(Tone::Magenta));
    assert_eq!(overlay_frame_style(false).1, spec(Some(Tone::DarkGray), None, false, true));
}

#[test]
fn frames_by_style() {
    use_frames();
}

fn use_frames() {
    let codex = muldex::theme::frame_borders(muldex::theme::FrameStyle::Codex);
    assert!(codex.all_sides && codex.rounded);
    let plain = muldex::theme::frame_borders(muldex::theme::FrameStyle::Default);
    assert!(plain.all_sides && !plain.rounded);
    let minimal = muldex::theme::frame_borders(muldex::theme::FrameStyle::Minimal);
    assert!(!minimal.all_sides && !minimal.rounded);
}
