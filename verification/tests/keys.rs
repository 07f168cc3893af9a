use muldex::commands::InteractiveShellInput;
use muldex::history::{InteractiveHistorySearchState, InteractiveHistoryState};
use muldex::keys::{
    handle_interactive_key_event, ApprovalAction, AppAction, ChatAction, ComposerAction,
    EditorAction, InteractiveKeyAction, KeyEventView, KeyPress, PagerAction,
};
use muldex::overlay::{OverlayKind, OverlayState};
use muldex::prompt::InteractivePromptBuffer;
use muldex::slash::InteractiveSlashCompletionState;
use muldex::vim::{VimKey, VimState};

fn blank() -> KeyEventView {
    KeyEventView {
        pressed: true,
        pager: None,
        approval: None,
        app: None,
        chat: None,
        composer: None,
        editor: None,
        key: KeyPress::Other,
        vim: VimKey::Other,
    }
}

// The default bindings of the keys these tests press.
fn enter() -> KeyEventView {
    KeyEventView { approval: Some(ApprovalAction::Approve), composer: Some(ComposerAction::Submit), ..blank() }
}
fn tab() -> KeyEventView {
    KeyEventView { composer: Some(ComposerAction::Queue), ..blank() }
}
fn up() -> KeyEventView {
    KeyEventView { pager: Some(PagerAction::ScrollUp), editor: Some(EditorAction::MoveUp), ..blank() }
}
fn down() -> KeyEventView {
    KeyEventView { pager: Some(PagerAction::ScrollDown), editor: Some(EditorAction::MoveDown), ..blank() }
}
fn esc() -> KeyEventView {
    KeyEventView {
        pager: Some(PagerAction::Close),
        approval: Some(ApprovalAction::Deny),
        key: KeyPress::Esc,
        vim: VimKey::Esc,
        ..blank()
    }
}
fn ctrl_r() -> KeyEventView {
    KeyEventView { composer: Some(ComposerAction::HistorySearchPrevious), ..blank() }
}
fn alt_left() -> KeyEventView {
    KeyEventView { editor: Some(EditorAction::MoveWordLeft), ..blank() }
}
fn ctrl_w() -> KeyEventView {
    KeyEventView { editor: Some(EditorAction::DeleteBackwardWord), ..blank() }
}
fn ctrl_t() -> KeyEventView {
    KeyEventView { app: Some(AppAction::OpenTranscript), ..blank() }
}
fn ctrl_c() -> KeyEventView {
    KeyEventView {
        pager: Some(PagerAction::Close),
        approval: Some(ApprovalAction::Cancel),
        chat: Some(ChatAction::InterruptTurn),
        key: KeyPress::ControlCOrD,
        vim: VimKey::Char('c'),
        ..blank()
    }
}
fn typed(ch: char) -> KeyEventView {
    KeyEventView { key: KeyPress::Char(ch), vim: VimKey::Char(ch), ..blank() }
}

struct Shell {
    buffer: InteractivePromptBuffer,
    completion: InteractiveSlashCompletionState,
    history: InteractiveHistoryState,
    search: InteractiveHistorySearchState,
    overlay: OverlayState,
    vim: VimState,
}

impl Shell {
    fn new(text: &str, entries: Vec<&str>) -> Self {
        Shell {
            buffer: InteractivePromptBuffer {
                text: text.to_string(),
                cursor: text.len(),
            },
            completion: InteractiveSlashCompletionState::default(),
            history: InteractiveHistoryState::from_entries(
                entries.into_iter().map(|e| e.to_string()).collect(),
            ),
            search: InteractiveHistorySearchState::default(),
            overlay: OverlayState::default(),
            vim: VimState::new(false),
        }
    }

    fn press(&mut self, key: KeyEventView) -> InteractiveKeyAction {
        handle_interactive_key_event(
            key,
            &mut self.buffer,
            &mut self.completion,
            &mut self.history,
            &mut self.search,
            &mut self.overlay,
            &mut self.vim,
            vec!["session: test-session".to_string()],
        )
    }
}

#[test]
fn interactive_key_handler_submits_multiline_slash_buffer_as_prompt() {
    let mut shell = Shell::new("/model\nsecond line", vec![]);
    let action = shell.press(enter());
    assert_eq!(
        action,
        InteractiveKeyAction::Submit(InteractiveShellInput::Prompt(
            "/model\nsecond line".to_string()
        ))
    );
    assert_eq!(shell.buffer.text, "");
}

#[test]
fn interactive_key_handler_ignores_key_release_events() {
    let mut shell = Shell::new("", vec![]);
    let action = shell.press(KeyEventView { pressed: false, ..typed('e') });
    assert_eq!(action, InteractiveKeyAction::Noop);
    assert!(shell.buffer.text.is_empty());
}

#[test]
fn interactive_key_handler_preserves_tab_for_non_slash_content() {
    let mut shell = Shell::new("hello", vec![]);
    let action = shell.press(tab());
    assert_eq!(action, InteractiveKeyAction::Noop);
    assert_eq!(shell.buffer.text, "hello");
}

#[test]
fn interactive_slash_picker_navigation_moves_selection() {
    let mut shell = Shell::new("/", vec![]);
    let action = shell.press(down());
    assert_eq!(action, InteractiveKeyAction::RedrawFrame);
    assert_eq!(shell.completion.current_command(), Some("/status"));

    let action = shell.press(up());
    assert_eq!(action, InteractiveKeyAction::RedrawFrame);
    assert_eq!(shell.completion.current_command(), Some("/help"));
}

#[test]
fn interactive_slash_picker_first_escape_hides_picker_without_clearing_input() {
    let mut shell = Shell::new("/", vec![]);
    shell.completion.update_from_buffer(&shell.buffer);
    let action = shell.press(esc());
    assert_eq!(action, InteractiveKeyAction::RedrawFrame);
    assert_eq!(shell.buffer.text, "/");
    assert!(!shell.completion.visible);
}

#[test]
fn interactive_slash_picker_second_escape_clears_input() {
    let mut shell = Shell::new("/", vec![]);
    shell.completion.update_from_buffer(&shell.buffer);
    shell.completion.visible = false;
    let action = shell.press(esc());
    assert_eq!(action, InteractiveKeyAction::RedrawFrame);
    assert_eq!(shell.buffer.text, "");
    assert!(!shell.completion.visible);
}

#[test]
fn interactive_slash_picker_tab_applies_selected_item() {
    let mut shell = Shell::new("/", vec![]);
    let _ = shell.press(down());
    let action = shell.press(tab());
    assert_eq!(action, InteractiveKeyAction::RedrawFrame);
    assert_eq!(shell.buffer.first_line(), "/status");
}

#[test]
fn interactive_slash_picker_enter_applies_selected_item_before_submit() {
    let mut shell = Shell::new("/", vec![]);
    let _ = shell.press(down());
    let action = shell.press(enter());
    assert_eq!(action, InteractiveKeyAction::RedrawFrame);
    assert_eq!(shell.buffer.first_line(), "/status");
}

#[test]
fn interactive_key_handler_uses_history_when_not_in_slash_mode() {
    let mut shell = Shell::new("draft", vec!["past"]);
    let action = shell.press(up());
    assert_eq!(action, InteractiveKeyAction::RedrawPrompt);
    assert_eq!(shell.buffer.text, "past");
}

#[test]
fn interactive_key_handler_supports_reverse_history_search() {
    let mut shell = Shell::new("fix", vec!["first fix", "second fix"]);
    let action = shell.press(ctrl_r());
    assert_eq!(action, InteractiveKeyAction::RedrawFrame);
    assert_eq!(shell.buffer.text, "second fix");
}

#[test]
fn interactive_key_handler_escape_restores_reverse_search_draft() {
    let mut shell = Shell::new("fix", vec!["second fix"]);
    let _ = shell.press(ctrl_r());
    let action = shell.press(esc());
    assert_eq!(action, InteractiveKeyAction::RedrawFrame);
    assert_eq!(shell.buffer.text, "fix");
    assert!(!shell.search.is_active());
}

#[test]
fn interactive_key_handler_supports_word_shortcuts() {
    let mut shell = Shell::new("alpha beta", vec![]);
    let action = shell.press(alt_left());
    assert_eq!(action, InteractiveKeyAction::RedrawPrompt);
    assert_eq!(shell.buffer.cursor, "alpha ".len());

    let action = shell.press(ctrl_w());
    assert_eq!(action, InteractiveKeyAction::RedrawPrompt);
    assert_eq!(shell.buffer.text, "beta");
}

#[test]
fn typing_a_slash_opens_the_picker_and_ctrl_c_exits() {
    let mut shell = Shell::new("", vec![]);
    assert_eq!(shell.press(typed('/')), InteractiveKeyAction::RedrawFrame);
    assert!(shell.completion.visible);
    assert_eq!(shell.completion.matches.len(), 10);
    assert_eq!(shell.press(typed('x')), InteractiveKeyAction::RedrawFrame);
    assert!(!shell.completion.visible);
    assert_eq!(shell.buffer.text, "/x");
    assert_eq!(shell.press(ctrl_c()), InteractiveKeyAction::Exit);
}

#[test]
fn transcript_pager_opens_scrolls_and_closes() {
    let mut shell = Shell::new("draft", vec![]);
    assert_eq!(shell.press(ctrl_t()), InteractiveKeyAction::RedrawFrame);
    assert!(shell.overlay.visible);
    assert_eq!(shell.overlay.title, "Transcript History");
    assert_eq!(shell.overlay.kind, OverlayKind::Pager);
    assert_eq!(shell.press(down()), InteractiveKeyAction::RedrawFrame);
    assert_eq!(shell.overlay.scroll, 1);
    assert_eq!(shell.press(typed('x')), InteractiveKeyAction::Noop);
    assert_eq!(shell.buffer.text, "draft");
    assert_eq!(shell.press(esc()), InteractiveKeyAction::RedrawFrame);
    assert!(!shell.overlay.visible);
}

#[test]
fn approval_overlay_approves_with_enter() {
    let mut shell = Shell::new("", vec![]);
    shell.overlay = OverlayState::show_approval("Approve?".to_string(), "run ls".to_string());
    assert_eq!(shell.press(enter()), InteractiveKeyAction::Status);
    assert!(!shell.overlay.visible);
}

#[test]
fn vim_normal_mode_takes_keys_before_the_composer() {
    let mut shell = Shell::new("abc", vec![]);
    shell.vim = VimState::new(true);
    assert_eq!(shell.press(typed('h')), InteractiveKeyAction::RedrawFrame);
    assert_eq!(shell.buffer.cursor, 2);
    assert_eq!(shell.buffer.text, "abc");
    assert_eq!(shell.press(typed('i')), InteractiveKeyAction::RedrawFrame);
    assert_eq!(shell.press(typed('z')), InteractiveKeyAction::RedrawPrompt);
    assert_eq!(shell.buffer.text, "abzc");
    assert_eq!(shell.press(esc()), InteractiveKeyAction::RedrawFrame);
    assert!(shell.vim.normal);
}
