use muldex::render::{
    composer_cursor_offset, composer_visual_rows, prefixed_visual_rows, transcript_item_rows,
    shell_pane_heights, transcript_tail_for_area, wrapped_line_count,
};
use muldex::view_model::TranscriptItemViewModel;

#[test]
fn composer_cursor_offset_accounts_for_soft_wrap() {
    let (row, col) = composer_cursor_offset("abcdefghij", 0, 10, 6);
    assert_eq!((row, col), (2, 0));

    let (row, col) = composer_cursor_offset("hello\nworld", 1, 5, 8);
    assert_eq!((row, col), (1, 7));
}

#[test]
fn composer_visual_rows_grows_for_multiline_and_wrapped_input() {
    assert_eq!(composer_visual_rows("", 20), 1);
    assert_eq!(composer_visual_rows("hello", 20), 1);
    assert!(composer_visual_rows("hello\nworld\nagain", 20) >= 3);
    assert!(composer_visual_rows("abcdefghij", 6) >= 3);
}

#[test]
fn exact_rows_for_wrapped_composer_text() {
    assert_eq!(composer_visual_rows("abcdefghij", 6), 3);
    assert_eq!(composer_visual_rows("hello\nworld\nagain", 20), 3);
    assert_eq!(composer_visual_rows("a\n", 0), 5);
    assert_eq!(prefixed_visual_rows(0, 0), 2);
    assert_eq!(prefixed_visual_rows(6, 4), 2);
}

#[test]
fn wrapped_line_count_rounds_up_and_counts_empty_as_one() {
    assert_eq!(wrapped_line_count("", 10), 1);
    assert_eq!(wrapped_line_count("abcdefghijk", 5), 3);
    assert_eq!(wrapped_line_count("héllo", 0), 5);
}

#[test]
fn cursor_column_stays_inside_the_width() {
    for width in 1u16..12 {
        let (_, col) = composer_cursor_offset("abc def", 0, 7, width);
        assert!(col < width);
    }
    let (row, col) = composer_cursor_offset("ab\ncd", 9, 1, 0);
    assert_eq!((row, col), (11, 0));
}

fn item(role: &str, content: &str) -> TranscriptItemViewModel {
    TranscriptItemViewModel {
        role_label: role.to_string(),
        content: content.to_string(),
    }
}

#[test]
fn transcript_item_rows_counts_label_content_and_gap() {
    assert_eq!(transcript_item_rows(&item("USER", "hello"), 80), 3);
    assert_eq!(transcript_item_rows(&item("USER", "a\nbb\n"), 1), 6 + 4 + 1);
}

#[test]
fn transcript_tail_keeps_newest_items_that_fit() {
    let items: Vec<TranscriptItemViewModel> = (0..12)
        .map(|i| item("USER", &format!("message-{i}")))
        .collect();
    let kept = transcript_tail_for_area(&items, 80, 10);
    assert_eq!(kept.len(), 3);
    assert_eq!(kept[2].content, "message-11");
    assert_eq!(kept[0].content, "message-9");

    let kept = transcript_tail_for_area(&items, 80, 0);
    assert_eq!(kept.len(), 12);

    let big = vec![item("USER", "short"), item("USER", "x\nx\nx\nx\nx")];
    let kept = transcript_tail_for_area(&big, 80, 2);
    assert_eq!(kept.len(), 1);
    assert_eq!(kept[0].content, "x\nx\nx\nx\nx");
}

#[test]
fn search_pane_uses_dedicated_row_even_when_hint_row_hidden() {
    let (hints, search, _composer) = muldex::render::shell_pane_heights(0, 2, 1);
    assert!(search > 0);
    assert_eq!(hints, 0);
}

#[test]
fn pane_heights_are_bounded() {
    assert_eq!(shell_pane_heights(1, 0, 0), (3, 0, 4));
    assert_eq!(shell_pane_heights(9, 4, 5), (6, 6, 7));
    assert_eq!(shell_pane_heights(0, 0, 40), (0, 0, 10));
}
