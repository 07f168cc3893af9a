use muldex::history::{InteractiveHistorySearchState, InteractiveHistoryState};
use muldex::overlay::OverlayState;
use muldex::prompt::InteractivePromptBuffer;
use muldex::protocol::ApprovalPolicyDescriptor;
use muldex::shell::{
    InteractiveMessage, InteractiveMessageRole, InteractiveShellState, ShellRateLimit, ShellUsage,
};
use muldex::slash::{InteractiveSlashCompletionState, InteractiveSlashHint};
use muldex::provider::{LegacyLlmRouterConfig, MuldexConfig, ProviderMap};
use muldex::vim::VimState;
use muldex::view_model::{
    active_provider_summary, build_shell_view_model, composer_mode, cursor_shape,
    runtime_model_label, transcript_role_label, ComposerMode, CursorShape, RuntimeSummary,
    ShellViewModelInput,
};

// What the view reads of a running runtime whose request waits for approval
// and whose last run report reads "last outcome summary".
fn sample_runtime_state() -> RuntimeSummary {
    RuntimeSummary {
        phase_label: "Running".to_string(),
        running: true,
        cycle_index: 7,
        objective: "ship tui demo".to_string(),
        approval_policy: ApprovalPolicyDescriptor::OnRequest,
        latest_report_rationale: None,
        last_run_report_rationale: Some("last outcome summary".to_string()),
        approval_request_active: true,
        blocked_on_approval: true,
        continuation_model: None,
    }
}

fn sample_shell() -> InteractiveShellState {
    InteractiveShellState {
        model: "gpt-5.4".to_string(),
        approval_mode: "on-request".to_string(),
        compact_count: 2,
        resume_count: 3,
        usage: ShellUsage::default(),
        rate_limit: ShellRateLimit::default(),
    }
}

fn sample_messages() -> Vec<InteractiveMessage> {
    vec![
        InteractiveMessage {
            role: InteractiveMessageRole::System,
            content: "system note".to_string(),
        },
        InteractiveMessage {
            role: InteractiveMessageRole::User,
            content: "user prompt".to_string(),
        },
        InteractiveMessage {
            role: InteractiveMessageRole::Assistant,
            content: "assistant reply".to_string(),
        },
    ]
}

fn sample_prompt_buffer() -> InteractivePromptBuffer {
    InteractivePromptBuffer {
        text: "/mo".to_string(),
        cursor: 3,
    }
}

fn sample_completion() -> InteractiveSlashCompletionState {
    InteractiveSlashCompletionState {
        seed: "/mo".to_string(),
        matches: vec!["/model"],
        index: 0,
        visible: true,
    }
}

fn sample_hints() -> Vec<InteractiveSlashHint> {
    vec![InteractiveSlashHint {
        command: "/model",
        summary: "show or set active model",
    }]
}

#[allow(clippy::too_many_arguments)]
fn sample_input<'a>(
    runtime: &'a RuntimeSummary,
    shell: &'a InteractiveShellState,
    messages: &'a [InteractiveMessage],
    prompt_buffer: &'a InteractivePromptBuffer,
    completion: &'a InteractiveSlashCompletionState,
    history: &'a InteractiveHistoryState,
    search: &'a InteractiveHistorySearchState,
    slash_hints: &'a [InteractiveSlashHint],
    overlay: &'a OverlayState,
) -> ShellViewModelInput<'a> {
    ShellViewModelInput {
        session_id: "interactive-session-1234567890",
        runtime,
        shell,
        messages,
        provider_summary: "llm-router / gpt-5.4",
        prompt_buffer,
        completion,
        history,
        search,
        slash_hints,
        overlay,
        mode: ComposerMode::Insert,
    }
}

#[test]
fn view_model_top_bar_includes_phase_model_approval_cycle_and_session_summary() {
    let runtime = sample_runtime_state();
    let shell = sample_shell();
    let messages = sample_messages();
    let prompt_buffer = sample_prompt_buffer();
    let completion = sample_completion();
    let history = InteractiveHistoryState::default();
    let search = InteractiveHistorySearchState::default();
    let slash_hints = sample_hints();
    let overlay = OverlayState::default();

    let view_model = build_shell_view_model(sample_input(
        &runtime,
        &shell,
        &messages,
        &prompt_buffer,
        &completion,
        &history,
        &search,
        &slash_hints,
        &overlay,
    ));

    assert_eq!(view_model.top_bar.product_name, "muldex");
    assert!(view_model
        .top_bar
        .session_summary
        .contains("interactive-session-1234567890"));
    assert!(view_model.top_bar.phase.contains("Running"));
    assert!(view_model.top_bar.model.contains("gpt-5.4"));
    assert!(view_model.top_bar.approval_mode.contains("on-request"));
    assert!(view_model.top_bar.cycle_summary.contains("7"));
}

#[test]
fn view_model_transcript_maps_message_roles_to_stable_labels() {
    let runtime = sample_runtime_state();
    let shell = sample_shell();
    let messages = sample_messages();
    let prompt_buffer = sample_prompt_buffer();
    let completion = sample_completion();
    let history = InteractiveHistoryState::default();
    let search = InteractiveHistorySearchState::default();
    let slash_hints = sample_hints();
    let overlay = OverlayState::default();

    let view_model = build_shell_view_model(sample_input(
        &runtime,
        &shell,
        &messages,
        &prompt_buffer,
        &completion,
        &history,
        &search,
        &slash_hints,
        &overlay,
    ));

    let labels = view_model
        .transcript_items
        .iter()
        .map(|item| item.role_label.as_str())
        .collect::<Vec<_>>();
    assert_eq!(labels, vec!["SYSTEM", "USER", "ASSISTANT"]);
}

#[test]
fn view_model_status_panel_exposes_objective_outcome_and_provider_fields() {
    let runtime = sample_runtime_state();
    let shell = sample_shell();
    let messages = sample_messages();
    let prompt_buffer = sample_prompt_buffer();
    let completion = sample_completion();
    let history = InteractiveHistoryState::default();
    let search = InteractiveHistorySearchState::default();
    let slash_hints = sample_hints();
    let overlay = OverlayState::default();

    let view_model = build_shell_view_model(sample_input(
        &runtime,
        &shell,
        &messages,
        &prompt_buffer,
        &completion,
        &history,
        &search,
        &slash_hints,
        &overlay,
    ));

    assert_eq!(view_model.status_panel.objective, "ship tui demo");
    assert_eq!(view_model.status_panel.last_outcome, "last outcome summary");
    assert_eq!(view_model.status_panel.provider_summary, "llm-router / gpt-5.4");
    assert!(view_model.status_panel.pending_approval);
    assert_eq!(view_model.status_panel.compact_count, 2);
    assert_eq!(view_model.status_panel.resume_count, 3);
}

#[test]
fn view_model_status_panel_prefers_latest_report_over_request_report() {
    let mut runtime = sample_runtime_state();
    runtime.latest_report_rationale = Some("newer runtime rationale".to_string());
    let shell = sample_shell();
    let messages = sample_messages();
    let prompt_buffer = sample_prompt_buffer();
    let completion = sample_completion();
    let history = InteractiveHistoryState::default();
    let search = InteractiveHistorySearchState::default();
    let slash_hints = sample_hints();
    let overlay = OverlayState::default();

    let view_model = build_shell_view_model(sample_input(
        &runtime,
        &shell,
        &messages,
        &prompt_buffer,
        &completion,
        &history,
        &search,
        &slash_hints,
        &overlay,
    ));

    assert_eq!(view_model.status_panel.last_outcome, "newer runtime rationale");
}

#[test]
fn view_model_status_panel_exposes_token_usage_and_rate_limit() {
    let runtime = sample_runtime_state();
    let mut shell = sample_shell();
    shell.usage = ShellUsage {
        input_tokens: 120,
        cached_input_tokens: 40,
        output_tokens: 5,
        total_tokens: 125,
    };
    shell.rate_limit = ShellRateLimit {
        limit_requests: Some(100),
        remaining_requests: Some(42),
        limit_tokens: None,
        remaining_tokens: None,
        reset_after_seconds: None,
    };
    let messages = sample_messages();
    let prompt_buffer = sample_prompt_buffer();
    let completion = sample_completion();
    let history = InteractiveHistoryState::default();
    let search = InteractiveHistorySearchState::default();
    let slash_hints = sample_hints();
    let overlay = OverlayState::default();

    let view_model = build_shell_view_model(sample_input(
        &runtime,
        &shell,
        &messages,
        &prompt_buffer,
        &completion,
        &history,
        &search,
        &slash_hints,
        &overlay,
    ));

    assert_eq!(view_model.status_panel.usage.total_tokens, 125);
    assert_eq!(view_model.status_panel.usage.input_tokens, 120);
    assert_eq!(view_model.status_panel.rate_limit.remaining_requests, Some(42));
    assert_eq!(view_model.footer.token_summary, "tok 5▲/120▼");
}

#[test]
fn view_model_slash_hints_visible_only_when_completion_visible_and_hints_present() {
    let runtime = sample_runtime_state();
    let shell = sample_shell();
    let messages = sample_messages();
    let prompt_buffer = sample_prompt_buffer();
    let completion = sample_completion();
    let history = InteractiveHistoryState::default();
    let search = InteractiveHistorySearchState::default();
    let slash_hints = sample_hints();
    let overlay = OverlayState::default();

    let visible = build_shell_view_model(sample_input(
        &runtime,
        &shell,
        &messages,
        &prompt_buffer,
        &completion,
        &history,
        &search,
        &slash_hints,
        &overlay,
    ));
    assert_eq!(visible.slash_hints.len(), 1);

    let hidden_completion_state = InteractiveSlashCompletionState {
        seed: "/mo".to_string(),
        matches: vec!["/model"],
        index: 0,
        visible: false,
    };
    let hidden = build_shell_view_model(sample_input(
        &runtime,
        &shell,
        &messages,
        &prompt_buffer,
        &hidden_completion_state,
        &history,
        &search,
        &slash_hints,
        &overlay,
    ));
    assert!(hidden.slash_hints.is_empty());

    let empty_hints: [InteractiveSlashHint; 0] = [];
    let overlay_state = OverlayState::default();
    let empty_hints = sample_input(
        &runtime,
        &shell,
        &messages,
        &prompt_buffer,
        &completion,
        &history,
        &search,
        &empty_hints,
        &overlay_state,
    );
    let no_hints = build_shell_view_model(empty_hints);
    assert!(no_hints.slash_hints.is_empty());
}

#[test]
fn view_model_search_lines_present_only_when_history_search_active() {
    let runtime = sample_runtime_state();
    let shell = sample_shell();
    let messages = sample_messages();
    let prompt_buffer = sample_prompt_buffer();
    let completion = sample_completion();
    let history = InteractiveHistoryState::from_entries(vec!["search target".to_string()]);
    let mut search = InteractiveHistorySearchState::default();
    let mut search_buffer = InteractivePromptBuffer {
        text: "se".to_string(),
        cursor: 2,
    };
    assert!(search.reverse_search(&history, &mut search_buffer));
    let slash_hints = sample_hints();
    let overlay = OverlayState::default();

    let visible = build_shell_view_model(sample_input(
        &runtime,
        &shell,
        &messages,
        &prompt_buffer,
        &completion,
        &history,
        &search,
        &slash_hints,
        &overlay,
    ));
    assert!(visible.search.is_some());
    assert!(visible
        .search
        .expect("search")
        .lines
        .iter()
        .any(|line| line.contains("reverse search active: se")));

    let empty_history = InteractiveHistoryState::default();
    let empty_search = InteractiveHistorySearchState::default();
    let hidden = build_shell_view_model(sample_input(
        &runtime,
        &shell,
        &messages,
        &prompt_buffer,
        &completion,
        &empty_history,
        &empty_search,
        &slash_hints,
        &overlay,
    ));
    assert!(hidden.search.is_none());
}

#[test]
fn view_model_composer_reports_cursor_line_column_and_mode() {
    let runtime = sample_runtime_state();
    let shell = sample_shell();
    let messages = sample_messages();
    let prompt_buffer = InteractivePromptBuffer {
        text: "first\nsé".to_string(),
        cursor: "first\nsé".len(),
    };
    let completion = InteractiveSlashCompletionState::default();
    let history = InteractiveHistoryState::default();
    let search = InteractiveHistorySearchState::default();
    let overlay = OverlayState::default();
    let mut input = sample_input(
        &runtime,
        &shell,
        &messages,
        &prompt_buffer,
        &completion,
        &history,
        &search,
        &[],
        &overlay,
    );
    input.mode = ComposerMode::Normal;
    let view_model = build_shell_view_model(input);
    assert_eq!(view_model.composer.cursor_line, 1);
    assert_eq!(view_model.composer.cursor_column, 2);
    assert_eq!(view_model.composer.mode, ComposerMode::Normal);
    assert_eq!(view_model.composer.text, "first\nsé");
}

#[test]
fn view_model_overlay_mirrors_overlay_state() {
    let runtime = sample_runtime_state();
    let shell = sample_shell();
    let messages = sample_messages();
    let prompt_buffer = sample_prompt_buffer();
    let completion = sample_completion();
    let history = InteractiveHistoryState::default();
    let search = InteractiveHistorySearchState::default();
    let overlay = OverlayState::show_pager("Transcript".to_string(), vec!["a".to_string(), "b".to_string()]);
    let view_model = build_shell_view_model(sample_input(
        &runtime,
        &shell,
        &messages,
        &prompt_buffer,
        &completion,
        &history,
        &search,
        &[],
        &overlay,
    ));
    assert!(view_model.overlay.visible);
    assert_eq!(view_model.overlay.title, "Transcript");
    assert_eq!(view_model.overlay.lines, vec!["a".to_string(), "b".to_string()]);
    assert_eq!(view_model.overlay.kind, "pager");
}

#[test]
fn runtime_model_label_prefers_the_continued_session_model() {
    let mut runtime = sample_runtime_state();
    let shell = sample_shell();
    assert_eq!(runtime_model_label(&runtime, &shell), "gpt-5.4");
    runtime.continuation_model = Some("gpt-5.3-codex".to_string());
    assert_eq!(runtime_model_label(&runtime, &shell), "gpt-5.3-codex");
    assert_eq!(transcript_role_label(&InteractiveMessageRole::User), "USER");
}

#[test]
fn provider_summary_names_the_provider_and_model() {
    let mut config = MuldexConfig {
        schema_version: "muldex-config-v1".to_string(),
        default_provider: None,
        providers: ProviderMap::new(),
        llm_router: Some(LegacyLlmRouterConfig {
            host: "127.0.0.1".to_string(),
            port: 3000,
            api_key: "k".to_string(),
            default_model: None,
        }),
    };
    let runtime = sample_runtime_state();
    let shell = sample_shell();
    assert_eq!(active_provider_summary(&config, &[], &runtime, &shell), "llm-router / gpt-5.4");
    config.llm_router.as_mut().unwrap().default_model = Some("gpt-router".to_string());
    assert_eq!(active_provider_summary(&config, &[], &runtime, &shell), "llm-router / gpt-router");
    assert_eq!(active_provider_summary(&MuldexConfig::default(), &[], &runtime, &shell), "");
}

#[test]
fn composer_mode_and_cursor_follow_vim() {
    let mut vim = VimState::new(true);
    assert_eq!(composer_mode(&vim), ComposerMode::Normal);
    assert_eq!(cursor_shape(false, &vim), CursorShape::Block);
    assert_eq!(cursor_shape(true, &vim), CursorShape::Hidden);
    vim.normal = false;
    assert_eq!(composer_mode(&vim), ComposerMode::Insert);
    assert_eq!(cursor_shape(false, &vim), CursorShape::Bar);
    let off = VimState::new(false);
    assert_eq!(composer_mode(&off), ComposerMode::Insert);
    assert_eq!(cursor_shape(false, &off), CursorShape::Bar);
}

#[test]
fn active_provider_summary_returns_empty_when_default_provider_entry_missing() {
    let config = MuldexConfig {
        schema_version: "muldex-config-v1".to_string(),
        default_provider: Some("router-a".to_string()),
        providers: ProviderMap::new(),
        llm_router: None,
    };
    let shell = muldex::shell::interactive_shell_state();
    assert!(active_provider_summary(&config, &[], &sample_runtime_state(), &shell).is_empty());
}
