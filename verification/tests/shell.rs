use muldex::provider::{ProviderConfig, ProviderMessageRole};
use muldex::shell::{
    active_session_index, append_prompt_history, append_system_messages,
    interactive_shell_exit_notice_lines, interactive_shell_help_lines, interactive_shell_state,
    masked_api_key, messages_as_provider_messages, next_turn_decision, provider_socket_address,
    remove_last_messages, replace_last_assistant_message, transcript_lines,
    InteractiveMessage, InteractiveMessageRole, LiveTurnState,
};
use muldex::protocol::ContinueMode;

#[test]
fn interactive_shell_exit_notice_lines_include_resume_hint() {
    let lines = interactive_shell_exit_notice_lines("interactive-session-123");
    assert_eq!(lines[0], "leaving muldex interactive shell");
    assert!(lines[1].contains("muldex resume interactive-session-123"));
}

#[test]
fn masked_api_key_keeps_last_four_chars() {
    assert_eq!(masked_api_key(""), "not-set");
    assert_eq!(masked_api_key("abc"), "***abc");
    assert_eq!(masked_api_key("sk-123456"), "***3456");
    assert_eq!(masked_api_key("ключ-ключ"), "***ключ");
}

#[test]
fn fresh_shell_state_and_help() {
    let s = interactive_shell_state();
    assert_eq!(s.model, "gpt-5.4");
    assert_eq!(s.approval_mode, "on-request");
    assert_eq!(s.compact_count, 0);
    let help = interactive_shell_help_lines();
    assert_eq!(help.len(), 11);
    assert_eq!(help[0], "/help     show available commands");
    assert_eq!(help[10], "/exit     leave interactive shell");
}

#[test]
fn next_turn_decision_continues_on_next_turn() {
    let d = next_turn_decision("go".to_string());
    assert!(d.allow_continue);
    assert_eq!(d.mode, ContinueMode::NextTurn);
    assert_eq!(d.rationale, "go");
    assert_eq!(d.next_action, Some("continue interactive session".to_string()));
    assert!(d.may_continue_other_work);
    assert!(!d.pause_for_approval);
}

fn provider(host: Option<&str>, port: Option<u16>, base_url: Option<&str>) -> ProviderConfig {
    ProviderConfig {
        kind: "openai-compatible".to_string(),
        host: host.map(|h| h.to_string()),
        port,
        base_url: base_url.map(|b| b.to_string()),
        api_key: None,
        api_key_env: None,
        default_model: None,
    }
}

#[test]
fn provider_socket_address_prefers_host_and_port() {
    assert_eq!(
        provider_socket_address(&provider(Some("127.0.0.1"), Some(3000), Some("https://x"))),
        Ok("127.0.0.1:3000".to_string())
    );
    assert_eq!(
        provider_socket_address(&provider(None, None, Some("https://api.openai.com/v1"))),
        Ok("api.openai.com:443".to_string())
    );
    assert_eq!(
        provider_socket_address(&provider(None, None, Some("http://localhost/v1"))),
        Ok("localhost:80".to_string())
    );
    assert_eq!(
        provider_socket_address(&provider(Some("h"), None, Some("http://localhost:8080/v1"))),
        Ok("localhost:8080".to_string())
    );
    assert_eq!(
        provider_socket_address(&provider(None, None, Some("https://https://host"))),
        Ok("host:443".to_string())
    );
    assert_eq!(
        provider_socket_address(&provider(None, None, Some("https:///v1"))),
        Err("provider base_url missing authority".to_string())
    );
    assert_eq!(
        provider_socket_address(&provider(None, Some(1), None)),
        Err("provider has no host/port or base_url".to_string())
    );
}

fn msg(role: InteractiveMessageRole, content: &str) -> InteractiveMessage {
    InteractiveMessage {
        role,
        content: content.to_string(),
    }
}

#[test]
fn session_messages_are_appended_trimmed_and_replaced() {
    let mut messages = vec![msg(InteractiveMessageRole::User, "hi")];
    append_system_messages(&mut messages, vec!["a".to_string(), "b".to_string()]);
    assert_eq!(messages.len(), 3);
    assert_eq!(messages[2], msg(InteractiveMessageRole::System, "b"));

    replace_last_assistant_message(&mut messages, "part");
    assert_eq!(messages.len(), 4);
    replace_last_assistant_message(&mut messages, "partial reply");
    assert_eq!(messages.len(), 4);
    assert_eq!(messages[3], msg(InteractiveMessageRole::Assistant, "partial reply"));

    remove_last_messages(&mut messages, 2);
    assert_eq!(messages.len(), 2);
    remove_last_messages(&mut messages, 9);
    assert!(messages.is_empty());
}

#[test]
fn prompt_history_skips_blank_and_repeated_entries() {
    let mut history = vec!["one".to_string()];
    append_prompt_history(&mut history, " one ");
    append_prompt_history(&mut history, "   ");
    append_prompt_history(&mut history, " two\n");
    assert_eq!(history, vec!["one".to_string(), "two".to_string()]);
}

#[test]
fn messages_go_to_the_provider_with_their_roles() {
    let messages = vec![
        msg(InteractiveMessageRole::System, "s"),
        msg(InteractiveMessageRole::User, "u"),
        msg(InteractiveMessageRole::Assistant, "a"),
    ];
    let sent = messages_as_provider_messages(&messages);
    assert_eq!(sent.len(), 3);
    assert_eq!(sent[0].role, ProviderMessageRole::System);
    assert_eq!(sent[1].role, ProviderMessageRole::User);
    assert_eq!(sent[2].role, ProviderMessageRole::Assistant);
    assert_eq!(sent[2].content, Some("a".to_string()));
    assert!(sent[2].tool_calls.is_empty());
}

#[test]
fn pager_transcript_lists_roles_and_lines() {
    let messages = vec![
        msg(InteractiveMessageRole::User, "line one\nline two"),
        msg(InteractiveMessageRole::Assistant, ""),
    ];
    let lines = transcript_lines("s-1", &messages);
    assert_eq!(
        lines,
        vec![
            "session: s-1", "", "[USER]", "line one", "line two", "", "[ASSISTANT]", "", ""
        ]
    );
}

#[test]
fn active_session_is_found_by_id() {
    let ids = vec!["a".to_string(), "b".to_string(), "b".to_string()];
    assert_eq!(active_session_index(&ids, "b"), Some(1));
    assert_eq!(active_session_index(&ids, "c"), None);
}

#[test]
fn live_turn_collects_deltas() {
    let mut live = LiveTurnState::default();
    live.push_delta("hel");
    live.push_delta("lo");
    assert_eq!(live.content, "hello");
    assert!(live.busy);
    live.mark_done();
    assert!(live.done);
    assert!(!live.busy);
}
