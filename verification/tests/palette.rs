use muldex::palette::{is_dark_bg, is_light, parse_color_channel, parse_osc11, parse_osc11_text};

#[test]
fn light_background_detection() {
    assert!(is_light((200, 200, 200)));
    assert!(!is_light((50, 50, 50)));
}

#[test]
fn dark_is_default_when_no_bg_detected() {
    assert!(is_dark_bg(None));
}

#[test]
fn parses_osc11_rgb_response() {
    let bytes = b"\x1b]11;rgb:1e/1e/1b\x1b\\";
    assert_eq!(parse_osc11(bytes), Some((30, 30, 27)));
    let bytes2 = b"garbage\x1b]11;rgb:2a2a/2a2a/2a2a\x1b\\more";
    assert_eq!(parse_osc11(bytes2), Some((42, 42, 42)));
}

#[test]
fn luminance_threshold_is_strict() {
    assert!(!is_light((128, 128, 128)));
    assert!(is_light((129, 128, 128)));
    assert!(is_light((255, 255, 255)));
    assert!(!is_light((0, 0, 255)));
}

#[test]
fn detected_light_background_is_not_dark() {
    assert!(!is_dark_bg(Some((250, 250, 250))));
    assert!(is_dark_bg(Some((10, 20, 30))));
}

#[test]
fn color_channel_widths() {
    assert_eq!(parse_color_channel("f"), Some(255));
    assert_eq!(parse_color_channel("8"), Some(136));
    assert_eq!(parse_color_channel("7f"), Some(127));
    assert_eq!(parse_color_channel("ffff"), Some(255));
    assert_eq!(parse_color_channel("8080"), Some(128));
    assert_eq!(parse_color_channel("ffffff"), Some(255));
    assert_eq!(parse_color_channel("800000"), Some(127));
    assert_eq!(parse_color_channel("abc"), Some(171));
    assert_eq!(parse_color_channel("fffff"), Some(255));
    assert_eq!(parse_color_channel(" #1e m"), None);
    assert_eq!(parse_color_channel(" #1emm "), Some(30));
    assert_eq!(parse_color_channel(""), None);
    assert_eq!(parse_color_channel("zz"), None);
    assert_eq!(parse_color_channel("+ab"), None);
    assert_eq!(parse_color_channel("+a"), Some(10));
}

#[test]
fn osc11_needs_intro_terminator_and_three_channels() {
    assert_eq!(parse_osc11_text("\u{1b}]11;rgb:10/20/30\u{1b}"), Some((16, 32, 48)));
    assert_eq!(parse_osc11_text("\u{1b}]11;rgb:10/20\u{1b}\\"), None);
    assert_eq!(parse_osc11_text("\u{1b}]11;rgb:10/20/30"), None);
    assert_eq!(parse_osc11_text("]11;rgb:10/20/30\u{1b}\\"), None);
    assert_eq!(parse_osc11_text("\u{1b}]11;rgba:10/20/30\u{1b}\\"), None);
    assert_eq!(parse_osc11_text("\u{1b}]11;rgb:10/20/30/40\u{1b}\\"), Some((16, 32, 48)));
    assert_eq!(parse_osc11(b"\xff\x1b]11;rgb:ff/00/ff\x1b\\"), Some((255, 0, 255)));
}
