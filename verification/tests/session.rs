use muldex::protocol::{
    ApprovalPolicyDescriptor, PermissionContextSnapshot, PostCompactionState, RunOutcome, RunReport,
    ExecutionMode, SandboxModeDescriptor,
};
use muldex::provider::{MuldexConfig, ProviderConfig, ProviderMap};
use muldex::session::{
    approval_command, compact_command, ensure_runtime_model_state, interactive_shell_status_lines,
    message_log_lines, model_command, new_session_reply, resume_failed_reply, resume_into,
    session_entry_lines, session_header_lines, session_listing_message, unknown_command_reply,
    SessionRuntime,
};
use muldex::shell::{InteractiveMessage, InteractiveMessageRole};
use muldex::shell::interactive_shell_state;

fn runtime() -> SessionRuntime {
    SessionRuntime {
        phase_label: "Running".to_string(),
        cycle_index: 4,
        objective: "interactive muldex shell".to_string(),
        thread_id: "thread-1".to_string(),
        turn_id: "turn-9".to_string(),
        active_agent_mode: Some("build".to_string()),
        safety: PermissionContextSnapshot {
            sandbox_mode: SandboxModeDescriptor::WorkspaceWrite,
            approval_policy: ApprovalPolicyDescriptor::OnRequest,
            permission_profile_summary: "managed".to_string(),
            network_access_enabled: false,
            requires_explicit_approval_for_next_step: false,
        },
        post_compaction: PostCompactionState::default(),
        codex_continuation: None,
        latest_report: None,
    }
}

#[test]
fn model_command_shows_and_switches_the_model() {
    let mut shell = interactive_shell_state();
    let mut rt = runtime();
    let r = model_command(None, &mut shell, &mut rt);
    assert_eq!(r.lines, vec!["session.model: gpt-5.4".to_string()]);
    assert_eq!(r.system_messages, vec!["/model -> gpt-5.4".to_string()]);

    let r = model_command(Some("gpt-5.3-codex".to_string()), &mut shell, &mut rt);
    assert_eq!(r.lines, vec!["session.model_set: gpt-5.3-codex".to_string()]);
    assert_eq!(shell.model, "gpt-5.3-codex");
    let c = rt.codex_continuation.as_ref().unwrap();
    assert_eq!(c.source_model, "gpt-5.3-codex");
    assert_eq!(c.source_provider, "interactive-shell");
    assert_eq!(c.source_thread_id, "thread-1");
    assert_eq!(c.source_turn_id, "turn-9");
}

#[test]
fn ensure_runtime_model_state_keeps_an_existing_continuation() {
    let mut shell = interactive_shell_state();
    let mut rt = runtime();
    ensure_runtime_model_state(&mut rt, &shell);
    shell.model = "other".to_string();
    let before = rt.clone();
    ensure_runtime_model_state(&mut rt, &shell);
    assert_eq!(rt, before);
    assert_eq!(rt.codex_continuation.unwrap().source_model, "gpt-5.4");
}

#[test]
fn approval_command_sets_known_modes_only() {
    let mut shell = interactive_shell_state();
    let mut rt = runtime();
    let r = approval_command(None, &mut shell, &mut rt);
    assert_eq!(r.lines, vec!["session.approval_mode: on-request".to_string()]);

    let r = approval_command(Some("manual".to_string()), &mut shell, &mut rt);
    assert_eq!(r.system_messages, vec!["/approval set to ask".to_string()]);
    assert_eq!(shell.approval_mode, "ask");
    assert_eq!(rt.safety.approval_policy, ApprovalPolicyDescriptor::Ask);
    assert!(rt.safety.requires_explicit_approval_for_next_step);

    let r = approval_command(Some("auto".to_string()), &mut shell, &mut rt);
    assert_eq!(r.lines, vec!["session.approval_mode_set: never".to_string()]);
    assert!(!rt.safety.requires_explicit_approval_for_next_step);

    let r = approval_command(Some("sometimes".to_string()), &mut shell, &mut rt);
    assert_eq!(
        r.lines,
        vec![
            "session.approval_mode_set: invalid".to_string(),
            "session.approval_mode_error: unsupported_mode".to_string()
        ]
    );
    assert_eq!(r.system_messages, vec!["/approval invalid mode: sometimes".to_string()]);
    assert_eq!(shell.approval_mode, "never");
}

#[test]
fn compact_command_opens_a_numbered_window() {
    let mut shell = interactive_shell_state();
    let mut rt = runtime();
    compact_command(&mut shell, &mut rt);
    let r = compact_command(&mut shell, &mut rt);
    assert_eq!(shell.compact_count, 2);
    assert!(rt.post_compaction.pending_post_compaction);
    assert!(rt.post_compaction.first_post_compaction_turn);
    assert_eq!(rt.post_compaction.compaction_window_id.as_deref(), Some("shell-window-2"));
    assert_eq!(
        r.lines,
        vec![
            "session.compaction_requested: true".to_string(),
            "session.compact_count: 2".to_string(),
            "session.compaction_window_id: Some(\"shell-window-2\")".to_string(),
        ]
    );
    assert_eq!(r.system_messages, vec!["/compact requested Some(\"shell-window-2\")".to_string()]);
    shell.compact_count = u32::MAX;
    compact_command(&mut shell, &mut rt);
    assert_eq!(shell.compact_count, u32::MAX);
}

#[test]
fn resume_and_other_replies() {
    let mut shell = interactive_shell_state();
    let mut restored = interactive_shell_state();
    restored.resume_count = 2;
    restored.model = "gpt-5".to_string();
    let r = resume_into(&mut shell, restored, "interactive-session-7");
    assert_eq!(shell.resume_count, 3);
    assert_eq!(shell.model, "gpt-5");
    assert_eq!(r.lines[3], "session.resume_count: 3");
    assert_eq!(r.system_messages, vec!["/resume -> interactive-session-7".to_string()]);

    let r = resume_failed_reply("missing");
    assert_eq!(r.lines[2], "session.resume_reason: session_not_found");
    assert_eq!(r.system_messages, vec!["/resume failed for missing".to_string()]);

    let r = new_session_reply("interactive-session-8");
    assert_eq!(r.lines, vec!["session.new: true".to_string(), "session.id: interactive-session-8".to_string()]);
    assert!(r.system_messages.is_empty());

    let r = unknown_command_reply("/frobnicate");
    assert_eq!(r.lines, vec!["slash command not implemented yet: /frobnicate".to_string()]);
    assert!(r.system_messages.is_empty());

    assert_eq!(
        session_listing_message("s-1", "Running", "gpt-5.4", true),
        "/sessions s-1 phase=Running model=gpt-5.4 active=true"
    );
}

#[test]
fn status_lines_list_session_router_and_active_provider() {
    let shell = interactive_shell_state();
    let mut rt = runtime();
    rt.latest_report = Some(RunReport {
        run_id: "run-1".to_string(),
        thread_id: "thread-1".to_string(),
        objective: "o".to_string(),
        execution_mode: ExecutionMode::Interactive,
        outcome: RunOutcome::InProgress,
        rationale: "keep going".to_string(),
        cycle_summary: None,
        generated_at_ms: None,
    });
    let config = MuldexConfig {
        schema_version: "muldex-config-v1".to_string(),
        default_provider: Some("llm-router".to_string()),
        providers: ProviderMap::from_pairs(vec![(
            "llm-router".to_string(),
            ProviderConfig {
                kind: "openai-compatible".to_string(),
                host: Some("127.0.0.1".to_string()),
                port: Some(3000),
                base_url: None,
                api_key: Some("secret-key".to_string()),
                api_key_env: None,
                default_model: None,
            },
        )]),
        llm_router: None,
    };
    let lines = interactive_shell_status_lines(&rt, &shell, &config);
    assert_eq!(
        lines,
        vec![
            "session.phase: Running",
            "session.cycle_index: 4",
            "session.objective: interactive muldex shell",
            "session.model: gpt-5.4",
            "session.approval_mode: on-request",
            "session.requires_explicit_approval_for_next_step: false",
            "session.compact_count: 0",
            "session.resume_count: 0",
            "session.pending_post_compaction: false",
            "session.first_post_compaction_turn: false",
            "session.compaction_window_id: None",
            "llm_router.host: Some(\"127.0.0.1\")",
            "llm_router.port: Some(3000)",
            "llm_router.api_key: ***-key",
            "llm_router.default_model: None",
            "default_provider: Some(\"llm-router\")",
            "active_provider.kind: openai-compatible",
            "active_provider.base_url: None",
            "active_provider.host: Some(\"127.0.0.1\")",
            "active_provider.port: Some(3000)",
            "active_provider.default_model: None",
            "session.last_outcome: InProgress",
            "session.last_rationale: keep going",
        ]
        .into_iter()
        .map(String::from)
        .collect::<Vec<_>>()
    );
    let bare = interactive_shell_status_lines(&runtime(), &shell, &MuldexConfig::default());
    assert_eq!(bare[11], "llm_router.configured: false");
    assert_eq!(bare[12], "default_provider: None");
    assert_eq!(bare.len(), 13);
}

#[test]
fn plain_output_lists_and_heads_sessions() {
    let lines = session_entry_lines("s-1", "Running", 4, "gpt-5.4", true, 12);
    assert_eq!(
        lines,
        vec![
            "session.id: s-1",
            "session.phase: Running",
            "session.cycle_index: 4",
            "session.model: gpt-5.4",
            "session.active: true",
            "session.message_count: 12",
        ]
    );
    let header = session_header_lines("s-1", "Idle", "gpt-5.4", &ApprovalPolicyDescriptor::OnRequest);
    assert_eq!(header[0], "== muldex session ==");
    assert_eq!(header[1], "session.id: s-1");
    assert_eq!(header[4], "session.approval_mode: on-request");
    assert_eq!(header[5], "---------------------");
}

#[test]
fn message_log_shows_the_six_latest() {
    let messages: Vec<InteractiveMessage> = (0..8)
        .map(|i| InteractiveMessage {
            role: if i % 2 == 0 { InteractiveMessageRole::User } else { InteractiveMessageRole::Assistant },
            content: format!("m{i}"),
        })
        .collect();
    let log = message_log_lines(&messages);
    assert_eq!(log.len(), 6);
    assert_eq!(log[0], "[user] m2");
    assert_eq!(log[5], "[assistant] m7");
    let short = message_log_lines(&messages[..1]);
    assert_eq!(short, vec!["[user] m0".to_string()]);
}
