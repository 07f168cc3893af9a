use muldex::panes::{
    centered_rect, composer_lines, composer_title, footer_line, overlay_content_rows,
    overlay_visible_lines, plan_overlay, plan_transcript_item, status_panel_lines, top_bar_pieces,
    transcript_placeholder,
    LabeledLine, Rect,
};
use muldex::theme::{StyleSpec, Tone};
use muldex::view_model::{
    ComposerMode, FooterViewModel, OverlayViewModel, RateLimitViewModel, StatusPanelViewModel,
    TopBarViewModel, TranscriptItemViewModel, UsageViewModel,
};

fn sample_status() -> StatusPanelViewModel {
    StatusPanelViewModel {
        phase: "Running".to_string(),
        objective: "ship demo".to_string(),
        last_outcome: "interactive prompt: hello".to_string(),
        pending_approval: true,
        busy: false,
        compact_count: 1,
        resume_count: 2,
        provider_summary: "llm-router / gpt-5.4".to_string(),
        model_summary: "gpt-5.4".to_string(),
        usage: UsageViewModel::default(),
        rate_limit: RateLimitViewModel::default(),
    }
}

fn joined(lines: &[LabeledLine]) -> Vec<String> {
    lines.iter().map(|l| format!("{}{}", l.label, l.value)).collect()
}

#[test]
fn renderer_status_pane_renders_approval_and_model_labels() {
    let lines = joined(&status_panel_lines(&sample_status()));
    assert!(lines.contains(&"Pending approval: yes".to_string()));
    assert!(lines.contains(&"Model: gpt-5.4".to_string()));
}

#[test]
fn renderer_missing_provider_renders_explicit_not_configured_state() {
    let mut status = sample_status();
    status.provider_summary.clear();
    let lines = joined(&status_panel_lines(&status));
    assert!(lines.contains(&"Provider: provider not configured".to_string()));
}

#[test]
fn status_panel_lists_every_field_in_order() {
    let mut status = sample_status();
    status.provider_summary = "   ".to_string();
    status.usage = UsageViewModel { input_tokens: 10, cached_input_tokens: 2, output_tokens: 5, total_tokens: 15 };
    status.rate_limit = RateLimitViewModel {
        limit_requests: Some(100),
        remaining_requests: Some(99),
        limit_tokens: None,
        remaining_tokens: None,
        reset_after_seconds: None,
    };
    let lines = joined(&status_panel_lines(&status));
    assert_eq!(
        lines,
        vec![
            "Phase: Running",
            "Objective: ship demo",
            "Last: interactive prompt: hello",
            "Pending approval: yes",
            "Compact count: 1",
            "Resume count: 2",
            "Provider: provider not configured",
            "Model: gpt-5.4",
            "Tokens: in=10 out=5 cached=2 total=15",
            "Rate limit: req 99/100 · tok 0/0",
        ]
    );
    let empty = joined(&status_panel_lines(&sample_status()));
    assert_eq!(empty[8], "Tokens: —");
    assert_eq!(empty[9], "Rate limit: —");
}

#[test]
fn renderer_composer_renders_prompt_content_and_cursor_line_prefix() {
    let lines = composer_lines("/model");
    assert_eq!(format!("{}{}", lines[0].prefix, lines[0].text), "> /model");
}

#[test]
fn composer_continuation_lines_are_indented() {
    let lines = composer_lines("a\nb\n");
    assert_eq!(lines.len(), 3);
    assert_eq!((lines[1].prefix.as_str(), lines[1].text.as_str()), ("  ", "b"));
    assert_eq!(lines[2].text, "");
    assert_eq!(composer_lines("").len(), 1);
}

#[test]
fn renderer_composer_shows_normal_mode_indicator_when_vim_normal() {
    assert_eq!(composer_title(ComposerMode::Normal), ("Composer  ".to_string(), true));
    assert_eq!(composer_title(ComposerMode::Insert), ("Composer".to_string(), false));
}

#[test]
fn renderer_transcript_pane_renders_role_markers() {
    let system = plan_transcript_item(&TranscriptItemViewModel {
        role_label: "SYSTEM".to_string(),
        content: "shell created".to_string(),
    });
    let user = plan_transcript_item(&TranscriptItemViewModel {
        role_label: "USER".to_string(),
        content: "hello\nworld".to_string(),
    });
    assert_eq!(system.marker, "[SYSTEM]");
    assert_eq!(user.marker, "[USER]");
    assert_eq!(user.lines, vec!["hello".to_string(), "world".to_string()]);
    assert!(!user.markdown);
    let reply = plan_transcript_item(&TranscriptItemViewModel {
        role_label: "ASSISTANT".to_string(),
        content: "**hi**".to_string(),
    });
    assert!(reply.markdown);
    assert!(reply.lines.is_empty());
}

#[test]
fn renderer_frame_contains_top_titles_and_section_labels() {
    let pieces = top_bar_pieces(&TopBarViewModel {
        product_name: "muldex".to_string(),
        session_summary: "session: demo-session".to_string(),
        phase: "phase: Running".to_string(),
        model: "model: gpt-5.4".to_string(),
        approval_mode: "approval: on-request".to_string(),
        cycle_summary: "cycle: 3".to_string(),
    });
    assert_eq!(pieces[0], " muldex ");
    assert_eq!(pieces.len(), 11);
    assert_eq!(pieces.concat(), " muldex   session: demo-session  •  phase: Running  •  model: gpt-5.4  •  approval: on-request  •  cycle: 3");
}

#[test]
fn centered_rect_sits_in_the_middle() {
    let area = Rect { x: 2, y: 1, width: 100, height: 30 };
    assert_eq!(centered_rect(20, 10, area), Rect { x: 42, y: 11, width: 20, height: 10 });
    assert_eq!(centered_rect(200, 50, area), Rect { x: 2, y: 1, width: 100, height: 30 });
}

fn overlay(kind: &str, lines: usize, scroll: usize) -> OverlayViewModel {
    OverlayViewModel {
        visible: true,
        title: "Transcript".to_string(),
        lines: (0..lines).map(|i| format!("line-{i}")).collect(),
        scroll,
        kind: kind.to_string(),
    }
}

#[test]
fn pager_overlay_plan() {
    let area = Rect { x: 0, y: 0, width: 100, height: 30 };
    let plan = plan_overlay(area, &overlay("pager", 40, 4));
    assert!(!plan.approval);
    assert_eq!(plan.popup, Rect { x: 4, y: 2, width: 92, height: 26 });
    assert_eq!(plan.title, " Transcript ");
    assert_eq!(plan.hint, " j/k scroll  g/G top/bottom  q close ");
    assert_eq!(plan.position.as_deref(), Some(" 5/40 "));
    assert_eq!(plan_overlay(area, &overlay("pager", 0, 0)).position.as_deref(), Some(" 1/1 "));
    let small = plan_overlay(Rect { x: 0, y: 0, width: 10, height: 2 }, &overlay("pager", 1, 0));
    assert_eq!(small.popup, Rect { x: 0, y: 0, width: 10, height: 2 });
}

#[test]
fn approval_overlay_plan() {
    let plan = plan_overlay(Rect { x: 0, y: 0, width: 80, height: 24 }, &overlay("approval", 3, 0));
    assert!(plan.approval);
    assert_eq!(plan.title, " Approval Request ");
    assert_eq!(plan.hint, "a/Enter approve  d/Esc deny  Ctrl+C cancel");
    assert_eq!(plan.position, None);
    assert_eq!(overlay_content_rows(10, true), 10);
    assert_eq!(overlay_content_rows(10, false), 9);
    assert_eq!(overlay_content_rows(0, false), 0);
}

#[test]
fn overlay_shows_a_window_of_lines() {
    let o = overlay("pager", 10, 0);
    assert_eq!(overlay_visible_lines(&o.lines, 3, 2), vec!["line-3".to_string(), "line-4".to_string()]);
    assert_eq!(overlay_visible_lines(&o.lines, 8, 5).len(), 2);
    assert!(overlay_visible_lines(&o.lines, 10, 5).is_empty());
    assert!(overlay_visible_lines(&o.lines, 0, 0).is_empty());
}

fn footer(badge: &str, hint: &str, tokens: &str) -> FooterViewModel {
    FooterViewModel { status_badge: badge.to_string(), hint: hint.to_string(), token_summary: tokens.to_string() }
}

#[test]
fn footer_badge_spins_while_working() {
    let l = footer_line(&footer("thinking", "", ""), None, 450, 100);
    assert_eq!(l.badge, " - thinking");
    assert_eq!(l.badge_style, StyleSpec { fg: Some(Tone::Yellow), bg: None, bold: true, dim: false, italic: false });
    assert_eq!(footer_line(&footer("busy", "", ""), None, 0, 100).badge, " | busy");
    assert_eq!(footer_line(&footer("approval", "", ""), None, 799, 100).badge, " \\ approval");
    assert_eq!(footer_line(&footer("idle", "", ""), None, 450, 100).badge, " ● idle");
}

#[test]
fn footer_right_text_is_cut_from_the_left() {
    let l = footer_line(&footer("idle", "", "12 tokens"), None, 0, 100);
    assert_eq!(l.right, "enter: send · esc: cancel · ctrl-c: exit · ?: commands");
    assert_eq!(l.token_summary.as_deref(), Some("12 tokens"));
    assert!(!l.notification);
    let narrow = footer_line(&footer("idle", "abcdefghij", ""), None, 0, 16);
    assert_eq!(narrow.right, "ghij");
    assert_eq!(narrow.token_summary, None);
    let noted = footer_line(&footer("idle", "hint", ""), Some("saved".to_string()), 0, 40);
    assert_eq!(noted.right, "saved");
    assert!(noted.notification);
    assert_eq!(footer_line(&footer("idle", "hint", ""), None, 0, 5).right, "");
}

#[test]
fn renderer_empty_transcript_renders_placeholder() {
    let placeholder = transcript_placeholder(&[]).expect("placeholder");
    assert!(placeholder.contains("No messages yet"));
    let item = TranscriptItemViewModel { role_label: "USER".to_string(), content: "hi".to_string() };
    assert_eq!(transcript_placeholder(&[item]), None);
}

#[test]
fn renderer_keeps_newest_transcript_items_visible() {
    let items: Vec<TranscriptItemViewModel> = (0..12)
        .map(|index| TranscriptItemViewModel { role_label: "USER".to_string(), content: format!("message-{index}") })
        .collect();
    // The transcript pane's inside in an 80 by 16 terminal: the status pane
    // takes 38 columns, the top bar, composer and footer 6 rows, the border 2.
    let kept = muldex::render::transcript_tail_for_area(&items, 40, 8);
    let shown: Vec<&str> = kept.iter().map(|i| i.content.as_str()).collect();
    assert!(shown.contains(&"message-11"));
    assert!(!shown.contains(&"message-0"));
}
