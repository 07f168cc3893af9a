use muldex::prompt::InteractivePromptBuffer;
use muldex::slash::{
    apply_interactive_slash_completion, filtered_interactive_slash_hints,
    interactive_slash_catalog, move_interactive_slash_selection,
    InteractiveSlashCompletionState,
};

#[test]
fn interactive_slash_hints_filter_from_first_line() {
    let mut buffer = InteractivePromptBuffer::default();
    buffer.text = "/re".to_string();
    buffer.cursor = buffer.text.len();
    let hints = filtered_interactive_slash_hints(&buffer);
    assert_eq!(hints.len(), 1);
    assert_eq!(hints[0].command, "/resume");

    buffer.text = "/mo\nsecond line".to_string();
    buffer.cursor = 3;
    let hints = filtered_interactive_slash_hints(&buffer);
    assert_eq!(hints.len(), 1);
    assert_eq!(hints[0].command, "/model");
}

#[test]
fn interactive_slash_completion_no_match_is_ignored() {
    let mut buffer = InteractivePromptBuffer {
        text: "/zzz".to_string(),
        cursor: 4,
    };
    let mut completion = InteractiveSlashCompletionState::default();

    assert!(!apply_interactive_slash_completion(
        &mut buffer,
        &mut completion
    ));
    assert_eq!(buffer.text, "/zzz");
    assert!(completion.matches.is_empty());
}

#[test]
fn interactive_slash_completion_single_match_completes_command() {
    let mut buffer = InteractivePromptBuffer {
        text: "/re".to_string(),
        cursor: 3,
    };
    let mut completion = InteractiveSlashCompletionState::default();

    assert!(apply_interactive_slash_completion(
        &mut buffer,
        &mut completion
    ));
    assert_eq!(buffer.text, "/resume");
    assert_eq!(buffer.cursor, "/resume".len());
    assert_eq!(completion.matches, vec!["/resume"]);
}

#[test]
fn interactive_slash_completion_cycles_multiple_matches() {
    let mut buffer = InteractivePromptBuffer {
        text: "/".to_string(),
        cursor: 1,
    };
    let mut completion = InteractiveSlashCompletionState::default();

    assert!(apply_interactive_slash_completion(
        &mut buffer,
        &mut completion
    ));
    assert_eq!(buffer.text, "/help");

    assert!(apply_interactive_slash_completion(
        &mut buffer,
        &mut completion
    ));
    assert_eq!(buffer.text, "/status");

    assert!(apply_interactive_slash_completion(
        &mut buffer,
        &mut completion
    ));
    assert_eq!(buffer.text, "/model");
}

#[test]
fn interactive_slash_completion_only_replaces_first_line() {
    let mut buffer = InteractivePromptBuffer {
        text: "/mo\nsecond line".to_string(),
        cursor: "/mo\nsecond line".len(),
    };
    let mut completion = InteractiveSlashCompletionState::default();

    assert!(apply_interactive_slash_completion(
        &mut buffer,
        &mut completion
    ));
    assert_eq!(buffer.text, "/model\nsecond line");
    assert_eq!(buffer.cursor, "/model\nsecond line".len());
}

#[test]
fn interactive_slash_completion_ignores_non_slash_content() {
    let mut buffer = InteractivePromptBuffer {
        text: "plain input".to_string(),
        cursor: "plain input".len(),
    };
    let mut completion = InteractiveSlashCompletionState::default();

    assert!(!apply_interactive_slash_completion(
        &mut buffer,
        &mut completion
    ));
    assert_eq!(buffer.text, "plain input");
    assert_eq!(buffer.cursor, "plain input".len());
}

#[test]
fn catalog_lists_commands_in_order() {
    let catalog = interactive_slash_catalog();
    let commands: Vec<&str> = catalog.iter().map(|h| h.command).collect();
    assert_eq!(
        commands,
        vec![
            "/help", "/status", "/model", "/provider", "/approval", "/compact", "/sessions",
            "/resume", "/new", "/exit"
        ]
    );
    assert_eq!(catalog[3].summary, "show, list, or switch provider");
}

#[test]
fn hints_are_empty_without_a_leading_slash() {
    let buffer = InteractivePromptBuffer {
        text: "re".to_string(),
        cursor: 2,
    };
    assert!(filtered_interactive_slash_hints(&buffer).is_empty());
    let buffer = InteractivePromptBuffer {
        text: "/s".to_string(),
        cursor: 2,
    };
    let hints = filtered_interactive_slash_hints(&buffer);
    let commands: Vec<&str> = hints.iter().map(|h| h.command).collect();
    assert_eq!(commands, vec!["/status", "/sessions"]);
}

#[test]
fn completion_with_one_match_stays_on_it() {
    let mut buffer = InteractivePromptBuffer {
        text: "/ex".to_string(),
        cursor: 3,
    };
    let mut completion = InteractiveSlashCompletionState::default();
    assert!(apply_interactive_slash_completion(&mut buffer, &mut completion));
    assert_eq!(buffer.text, "/exit");
    assert!(apply_interactive_slash_completion(&mut buffer, &mut completion));
    assert_eq!(buffer.text, "/exit");
    assert_eq!(completion.index, 0);
}

#[test]
fn selection_moves_and_wraps() {
    let buffer = InteractivePromptBuffer {
        text: "/s".to_string(),
        cursor: 2,
    };
    let mut completion = InteractiveSlashCompletionState::default();
    assert!(move_interactive_slash_selection(&buffer, &mut completion, -1));
    assert_eq!(completion.index, 1);
    assert_eq!(completion.current_command(), Some("/sessions"));
    assert!(move_interactive_slash_selection(&buffer, &mut completion, 1));
    assert_eq!(completion.index, 0);
    assert!(completion.visible);

    let plain = InteractivePromptBuffer {
        text: "x".to_string(),
        cursor: 1,
    };
    assert!(!move_interactive_slash_selection(&plain, &mut completion, 1));
    assert!(completion.matches.is_empty());
    assert!(!completion.visible);

    let none = InteractivePromptBuffer {
        text: "/zz".to_string(),
        cursor: 3,
    };
    assert!(!move_interactive_slash_selection(&none, &mut completion, 1));
    assert_eq!(completion.seed, "/zz");
}

#[test]
fn select_next_then_previous_returns() {
    let mut completion = InteractiveSlashCompletionState::default();
    assert!(!completion.select_next());
    assert!(!completion.select_previous());
    let buffer = InteractivePromptBuffer {
        text: "/".to_string(),
        cursor: 1,
    };
    completion.update_from_buffer(&buffer);
    completion.index = 9;
    assert!(completion.select_next());
    assert_eq!(completion.index, 0);
    assert!(completion.select_previous());
    assert_eq!(completion.index, 9);
}

#[test]
fn failed_completion_after_earlier_calls_resets_and_keeps_buffer() {
    let mut buffer = InteractivePromptBuffer::default();
    buffer.text = "/s".to_string();
    buffer.cursor = buffer.text.len();
    let mut completion = InteractiveSlashCompletionState::default();
    assert!(apply_interactive_slash_completion(&mut buffer, &mut completion));
    assert_eq!(buffer.text, "/status");
    buffer.text = "/zz\nmore".to_string();
    buffer.cursor = 2;
    let before = buffer.clone();
    assert!(!apply_interactive_slash_completion(&mut buffer, &mut completion));
    assert_eq!(buffer, before);
    assert_eq!(completion, InteractiveSlashCompletionState::default());
}
