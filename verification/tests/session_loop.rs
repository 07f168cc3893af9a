use muldex::commands::{InteractiveShellInput, InteractiveSlashCommand};
use muldex::history::{InteractiveHistorySearchState, InteractiveHistoryState};
use muldex::prompt::InteractivePromptBuffer;
use muldex::slash::InteractiveSlashCompletionState;
use muldex::session_loop::{
    loop_action, provider_notice, refresh_session_locals, shell_io, theme_background, InputMode,
    LoopAction, SessionLocals, ShellIo, ThemeBackground,
};

#[test]
fn io_mode_follows_the_terminal() {
    assert_eq!(shell_io(false, None, true, true), ShellIo { mode: InputMode::Terminal, plain_output: false });
    assert_eq!(shell_io(false, Some("1"), true, true), ShellIo { mode: InputMode::Line, plain_output: true });
    assert_eq!(shell_io(false, Some("0"), true, true).mode, InputMode::Terminal);
    assert_eq!(shell_io(false, None, false, true), ShellIo { mode: InputMode::Line, plain_output: true });
    assert_eq!(shell_io(true, None, false, false), ShellIo { mode: InputMode::Scripted, plain_output: true });
}

#[test]
fn theme_setting_fixes_or_probes_the_background() {
    assert_eq!(theme_background(Some("Light"), false), ThemeBackground::Fixed(245, 245, 245));
    assert_eq!(theme_background(Some("DARK"), true), ThemeBackground::Fixed(24, 24, 27));
    assert_eq!(theme_background(None, true), ThemeBackground::Probe);
    assert_eq!(theme_background(Some("auto"), false), ThemeBackground::Unknown);
}

#[test]
fn missing_provider_is_announced() {
    assert_eq!(provider_notice(true), None);
    assert_eq!(
        provider_notice(false).as_deref(),
        Some("llm-router not configured; use /config llm host <ip>, /config llm port <port>, /config llm api-key <key>")
    );
}

#[test]
fn prompts_are_recorded_before_they_are_sent() {
    let mut history = InteractiveHistoryState::from_entries(vec!["first".to_string()]);
    let a = loop_action(InteractiveShellInput::Prompt("  second ".to_string()), false, &mut history);
    assert_eq!(a, LoopAction::Prompt("  second ".to_string()));
    assert_eq!(history.entries, vec!["first".to_string(), "second".to_string()]);
    assert_eq!(loop_action(InteractiveShellInput::Help, true, &mut history), LoopAction::Help { record: false });
    assert_eq!(loop_action(InteractiveShellInput::Status, false, &mut history), LoopAction::Status { record: true });
    assert_eq!(loop_action(InteractiveShellInput::Exit, false, &mut history), LoopAction::Exit);
    assert_eq!(loop_action(InteractiveShellInput::Empty, false, &mut history), LoopAction::Nothing);
    assert_eq!(
        loop_action(InteractiveShellInput::SlashCommand(InteractiveSlashCommand::Compact), false, &mut history),
        LoopAction::Slash(InteractiveSlashCommand::Compact)
    );
    assert_eq!(history.entries.len(), 2);
}

#[test]
fn locals_follow_a_new_active_session() {
    let shell = muldex::shell::interactive_shell_state();
    let mut locals = SessionLocals {
        session_id: "s-1".to_string(),
        shell: shell.clone(),
        prompt_buffer: InteractivePromptBuffer { text: "draft".to_string(), cursor: 5 },
        completion: InteractiveSlashCompletionState::default(),
        history: InteractiveHistoryState::from_entries(vec!["a".to_string()]),
        search: InteractiveHistorySearchState::default(),
    };
    let before = locals.clone();
    refresh_session_locals(&mut locals, "s-1".to_string(), shell.clone(), vec![]);
    assert_eq!(locals, before);
    let mut other = shell.clone();
    other.model = "other".to_string();
    refresh_session_locals(&mut locals, "s-2".to_string(), other.clone(), vec!["x".to_string()]);
    assert_eq!(locals.session_id, "s-2");
    assert_eq!(locals.shell, other);
    assert_eq!(locals.history.entries, vec!["x".to_string()]);
    assert_eq!(locals.prompt_buffer.text, "");
    assert_eq!(locals.prompt_buffer.cursor, 0);
}
