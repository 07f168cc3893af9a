use muldex::history::{InteractiveHistorySearchState, InteractiveHistoryState};
use muldex::prompt::InteractivePromptBuffer;

#[test]
fn interactive_history_state_replays_and_restores_draft() {
    let mut history =
        InteractiveHistoryState::from_entries(vec!["first".to_string(), "second".to_string()]);
    let mut buffer = InteractivePromptBuffer {
        text: "draft".to_string(),
        cursor: 5,
    };

    assert!(history.previous(&mut buffer));
    assert_eq!(buffer.text, "second");
    assert!(history.previous(&mut buffer));
    assert_eq!(buffer.text, "first");
    assert!(history.next(&mut buffer));
    assert_eq!(buffer.text, "second");
    assert!(history.next(&mut buffer));
    assert_eq!(buffer.text, "draft");
}

#[test]
fn interactive_history_state_dedupes_consecutive_submissions() {
    let mut history = InteractiveHistoryState::default();
    history.record_submission("same");
    history.record_submission("same");
    history.record_submission("  ");
    history.record_submission("next");
    history.record_submission("next");

    assert_eq!(
        history.entries,
        vec!["same".to_string(), "next".to_string()]
    );
}

#[test]
fn interactive_history_search_finds_and_cycles_matches() {
    let history = InteractiveHistoryState::from_entries(vec![
        "alpha task".to_string(),
        "beta fix".to_string(),
        "alpha review".to_string(),
    ]);
    let mut search = InteractiveHistorySearchState::default();
    let mut buffer = InteractivePromptBuffer {
        text: "alpha".to_string(),
        cursor: 5,
    };

    assert!(search.reverse_search(&history, &mut buffer));
    assert_eq!(buffer.text, "alpha review");
    assert!(search.reverse_search(&history, &mut buffer));
    assert_eq!(buffer.text, "alpha task");
}

#[test]
fn interactive_history_search_extends_and_restores_draft() {
    let history = InteractiveHistoryState::from_entries(vec![
        "first fix".to_string(),
        "second fix".to_string(),
    ]);
    let mut search = InteractiveHistorySearchState::default();
    let mut buffer = InteractivePromptBuffer {
        text: "fi".to_string(),
        cursor: 2,
    };

    assert!(search.reverse_search(&history, &mut buffer));
    assert_eq!(buffer.text, "second fix");
    assert!(search.extend_query(&history, &mut buffer, 'x'));
    assert_eq!(buffer.text, "second fix");
    assert_eq!(search.query, "fix");
    assert!(search.restore_draft(&mut buffer));
    assert_eq!(buffer.text, "fi");
    assert!(!search.is_active());
}

#[test]
fn previous_and_next_without_entries_or_browsing_do_nothing() {
    let mut history = InteractiveHistoryState::default();
    let mut buffer = InteractivePromptBuffer {
        text: "draft".to_string(),
        cursor: 5,
    };
    assert!(!history.previous(&mut buffer));
    assert!(!history.next(&mut buffer));
    assert_eq!(buffer.text, "draft");
    assert_eq!(history.index_from_end, None);
}

#[test]
fn previous_stops_at_the_oldest_entry() {
    let mut history = InteractiveHistoryState::from_entries(vec!["only".to_string()]);
    let mut buffer = InteractivePromptBuffer::default();
    assert!(history.previous(&mut buffer));
    assert!(history.previous(&mut buffer));
    assert_eq!(history.index_from_end, Some(1));
    assert_eq!(buffer.text, "only");
    assert_eq!(buffer.cursor, 4);
    assert!(history.next(&mut buffer));
    assert_eq!(buffer.text, "");
    assert_eq!(history.draft, None);
}

#[test]
fn record_submission_trims_and_clears_browsing() {
    let mut history = InteractiveHistoryState::from_entries(vec!["a".to_string()]);
    let mut buffer = InteractivePromptBuffer::default();
    history.previous(&mut buffer);
    history.record_submission("  b \n");
    assert_eq!(history.entries, vec!["a".to_string(), "b".to_string()]);
    assert_eq!(history.index_from_end, None);
    assert_eq!(history.draft, None);
}

#[test]
fn reverse_search_without_match_keeps_buffer_and_wraps() {
    let history = InteractiveHistoryState::from_entries(vec![
        "one".to_string(),
        "two one".to_string(),
    ]);
    let mut search = InteractiveHistorySearchState::default();
    let mut buffer = InteractivePromptBuffer {
        text: "zzz".to_string(),
        cursor: 3,
    };
    assert!(!search.reverse_search(&history, &mut buffer));
    assert_eq!(buffer.text, "zzz");
    assert!(search.is_active());

    let mut search = InteractiveHistorySearchState::default();
    let mut buffer = InteractivePromptBuffer {
        text: "one".to_string(),
        cursor: 3,
    };
    assert!(search.reverse_search(&history, &mut buffer));
    assert_eq!(buffer.text, "two one");
    assert!(search.reverse_search(&history, &mut buffer));
    assert_eq!(buffer.text, "one");
    assert!(search.reverse_search(&history, &mut buffer));
    assert_eq!(buffer.text, "two one");
    assert_eq!(search.current_match(&history), Some("two one".to_string()));
}

#[test]
fn backspace_query_searches_again_and_empties_to_draft() {
    let history = InteractiveHistoryState::from_entries(vec!["ab".to_string(), "ac".to_string()]);
    let mut search = InteractiveHistorySearchState::default();
    let mut buffer = InteractivePromptBuffer {
        text: "ab".to_string(),
        cursor: 2,
    };
    assert!(search.reverse_search(&history, &mut buffer));
    assert_eq!(buffer.text, "ab");
    assert!(search.backspace_query(&history, &mut buffer));
    assert_eq!(search.query, "a");
    assert_eq!(buffer.text, "ac");
    assert!(search.backspace_query(&history, &mut buffer));
    assert_eq!(buffer.text, "ab");
    assert!(!search.is_active());
    assert!(!search.backspace_query(&history, &mut buffer));
}

#[test]
fn browsing_all_the_way_back_and_forth_restores_the_draft() {
    let mut history = InteractiveHistoryState::from_entries(vec![
        "one".to_string(),
        "two".to_string(),
        "three".to_string(),
    ]);
    let mut buffer = InteractivePromptBuffer { text: "draft é".to_string(), cursor: 2 };
    for _ in 0..3 {
        assert!(history.previous(&mut buffer));
    }
    assert_eq!(buffer.text, "one");
    for _ in 0..3 {
        assert!(history.next(&mut buffer));
    }
    assert_eq!(buffer.text, "draft é");
    assert_eq!(buffer.cursor, "draft é".len());
    assert_eq!(history.index_from_end, None);
    assert_eq!(history.draft, None);
}

#[test]
fn restore_draft_after_several_query_extensions() {
    let history = InteractiveHistoryState::from_entries(vec![
        "cargo build".to_string(),
        "cargo test".to_string(),
    ]);
    let mut buffer = InteractivePromptBuffer { text: "car".to_string(), cursor: 3 };
    let mut search = InteractiveHistorySearchState::default();
    assert!(search.reverse_search(&history, &mut buffer));
    assert_eq!(buffer.text, "cargo test");
    assert!(search.extend_query(&history, &mut buffer, 'g'));
    assert!(!search.extend_query(&history, &mut buffer, 'x'));
    assert!(!search.extend_query(&history, &mut buffer, 'y'));
    assert!(search.restore_draft(&mut buffer));
    assert_eq!(buffer.text, "car");
    assert_eq!(buffer.cursor, 3);
    assert!(!search.is_active());
    assert_eq!(search, InteractiveHistorySearchState::default());
}
