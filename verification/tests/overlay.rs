use muldex::overlay::{OverlayKind, OverlayState};

fn pager(n: usize) -> OverlayState {
    OverlayState::show_pager("Transcript".to_string(), (0..n).map(|i| format!("line {i}")).collect())
}

#[test]
fn pager_opens_visible_at_the_top() {
    let o = pager(3);
    assert!(o.visible);
    assert_eq!(o.scroll, 0);
    assert_eq!(o.kind, OverlayKind::Pager);
    assert_eq!(o.title, "Transcript");
}

#[test]
fn approval_overlay_lists_summary_and_keys() {
    let o = OverlayState::show_approval("Approve?".to_string(), "run cargo test".to_string());
    assert!(o.visible);
    assert_eq!(o.kind, OverlayKind::Approval);
    assert_eq!(
        o.lines,
        vec![
            "run cargo test".to_string(),
            String::new(),
            "Approve: a / Enter   Deny: d / Esc   Cancel: Ctrl+C".to_string(),
        ]
    );
}

#[test]
fn dismiss_hides_and_clears_lines() {
    let mut o = pager(4);
    o.scroll_down(2);
    o.dismiss();
    assert!(!o.visible);
    assert!(o.lines.is_empty());
    assert_eq!(o.scroll, 0);
    assert_eq!(o.title, "Transcript");
}

#[test]
fn scrolling_moves_at_least_one_row_and_saturates() {
    let mut o = pager(10);
    o.scroll_down(0);
    assert_eq!(o.scroll, 1);
    o.scroll_down(3);
    assert_eq!(o.scroll, 4);
    o.scroll_up(10);
    assert_eq!(o.scroll, 0);
    o.page_down(5);
    assert_eq!(o.scroll, 5);
    o.page_up(2);
    assert_eq!(o.scroll, 3);
    o.scroll = usize::MAX - 1;
    o.scroll_down(5);
    assert_eq!(o.scroll, usize::MAX);
}

#[test]
fn scroll_up_undoes_scroll_down() {
    let mut o = pager(10);
    o.scroll = 7;
    o.scroll_down(4);
    o.scroll_up(4);
    assert_eq!(o.scroll, 7);
}

#[test]
fn jumps_go_to_the_ends() {
    let mut o = pager(10);
    o.jump_bottom();
    assert_eq!(o.scroll, usize::MAX / 2);
    assert_eq!(o.visible_range(5), 10..10);
    o.jump_top();
    assert_eq!(o.scroll, 0);
}

#[test]
fn visible_range_is_clamped_to_the_lines() {
    let mut o = pager(10);
    assert_eq!(o.visible_range(4), 0..4);
    assert_eq!(o.visible_range(0), 0..1);
    o.scroll = 8;
    assert_eq!(o.visible_range(4), 8..10);
    o.scroll = 20;
    assert_eq!(o.visible_range(4), 10..10);
    o.scroll = 3;
    assert_eq!(o.visible_range(usize::MAX), 3..10);
}
