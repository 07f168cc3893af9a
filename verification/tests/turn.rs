use muldex::keymap::{KeyCodeView, KeyInput, KeyMods};
use muldex::provider::ProviderToolCall;
use muldex::tools::{InteractiveToolError, ToolStep};
use muldex::shell::{interactive_shell_state, LiveTurnState, ShellRateLimit, ShellUsage};
use muldex::turn::{
    absorb_turn_events, apply_live_event, approval_answer, approval_summary, approval_tool_call,
    answered_call, event_log_lines, event_record, on_turn_event, tool_result_message, EventRecord, turn_failure_notice, turn_rationale, ApprovalAnswer,
    TurnEvent,
};

fn usage(total: u64) -> TurnEvent {
    TurnEvent::Usage { input_tokens: 1, cached_input_tokens: 0, output_tokens: 2, total_tokens: total }
}

#[test]
fn live_events_grow_the_reply_and_update_usage() {
    let mut shell = interactive_shell_state();
    let mut reply = String::new();
    assert!(apply_live_event(&mut shell, &mut reply, &TurnEvent::AssistantDelta("Hel".to_string())));
    assert!(apply_live_event(&mut shell, &mut reply, &TurnEvent::AssistantDelta("lo".to_string())));
    assert_eq!(reply, "Hello");
    assert!(apply_live_event(&mut shell, &mut reply, &usage(3)));
    assert_eq!(shell.usage.total_tokens, 3);
    assert!(!apply_live_event(&mut shell, &mut reply, &TurnEvent::TurnCompleted));
    assert!(!apply_live_event(&mut shell, &mut reply, &TurnEvent::ApprovalRequested("x".to_string())));
    assert_eq!(reply, "Hello");
}

#[test]
fn finished_turn_keeps_the_last_reports() {
    let mut shell = interactive_shell_state();
    let limit = TurnEvent::RateLimit {
        limit_requests: Some(100),
        remaining_requests: Some(42),
        limit_tokens: None,
        remaining_tokens: None,
        reset_after_seconds: Some(9),
    };
    absorb_turn_events(&mut shell, &[usage(3), TurnEvent::AssistantDelta("x".to_string()), limit, usage(7)]);
    assert_eq!(
        shell.usage,
        ShellUsage { input_tokens: 1, cached_input_tokens: 0, output_tokens: 2, total_tokens: 7 }
    );
    assert_eq!(
        shell.rate_limit,
        ShellRateLimit {
            limit_requests: Some(100),
            remaining_requests: Some(42),
            limit_tokens: None,
            remaining_tokens: None,
            reset_after_seconds: Some(9),
        }
    );
    let before = shell.clone();
    absorb_turn_events(&mut shell, &[]);
    assert_eq!(shell, before);
}

#[test]
fn rationale_falls_back_to_the_prompt() {
    assert_eq!(turn_rationale("  \n", "fix it"), "interactive prompt completed: fix it");
    assert_eq!(turn_rationale("done", "fix it"), "done");
}

#[test]
fn approval_summary_and_tool_call() {
    let events = vec![
        TurnEvent::TurnCompleted,
        TurnEvent::ApprovalRequested("write src/main.rs".to_string()),
        TurnEvent::ApprovalRequested("later".to_string()),
    ];
    assert_eq!(approval_summary(&events), "write src/main.rs");
    assert_eq!(approval_summary(&[]), "A tool call requires your approval");
    let call = |name: &str| ProviderToolCall {
        id: "c".to_string(),
        name: name.to_string(),
        arguments_json: "{}".to_string(),
    };
    assert_eq!(approval_tool_call(&[call("file.read"), call("shell.exec"), call("file.write")]), Some(1));
    assert_eq!(approval_tool_call(&[call("file.read")]), None);
    assert_eq!(tool_result_message(Ok("ok".to_string())), "ok");
    assert_eq!(tool_result_message(Err("denied".to_string())), "error: denied");
}

#[test]
fn approval_modal_keys() {
    let none = KeyMods { shift: false, control: false, alt: false, super_key: false, hyper: false, meta: false };
    let key = |code: KeyCodeView, modifiers: KeyMods| KeyInput { code, modifiers, pressed: true };
    assert_eq!(approval_answer(&key(KeyCodeView::Char('a'), none)), ApprovalAnswer::Approve);
    assert_eq!(approval_answer(&key(KeyCodeView::Enter, none)), ApprovalAnswer::Approve);
    assert_eq!(approval_answer(&key(KeyCodeView::Esc, none)), ApprovalAnswer::Deny);
    assert_eq!(approval_answer(&key(KeyCodeView::Char('d'), none)), ApprovalAnswer::Deny);
    let ctrl = KeyMods { control: true, ..none };
    assert_eq!(approval_answer(&key(KeyCodeView::Char('c'), ctrl)), ApprovalAnswer::Cancel);
    assert_eq!(approval_answer(&key(KeyCodeView::Char('c'), none)), ApprovalAnswer::Wait);
    assert_eq!(approval_answer(&key(KeyCodeView::Tab, none)), ApprovalAnswer::Wait);
}

#[test]
fn answered_call_runs_or_fails() {
    let json = r#"{"command":"ls","args":["-la"]}"#;
    assert_eq!(
        answered_call("shell.exec", json, Some(true)),
        ToolStep::RunCommand { command: "ls".to_string(), args: vec!["-la".to_string()] }
    );
    assert_eq!(
        answered_call("shell.exec", json, Some(false)),
        ToolStep::Answer(Err(InteractiveToolError::Failed("User denied approval".to_string())))
    );
    assert_eq!(
        answered_call("shell.exec", json, None),
        ToolStep::Answer(Err(InteractiveToolError::Failed("approval cancelled".to_string())))
    );
}

#[test]
fn failed_turn_notice() {
    let (message, note) = turn_failure_notice("timeout");
    assert_eq!(message, "assistant error: timeout");
    assert_eq!(note, "✗ timeout");
}

#[test]
fn live_reply_follows_the_events() {

    let mut live = Some(LiveTurnState::default());
    on_turn_event(&mut live, &TurnEvent::AssistantDelta("Hi".to_string()));
    on_turn_event(&mut live, &TurnEvent::AssistantDelta(" there".to_string()));
    assert_eq!(live.as_ref().unwrap().content, "Hi there");
    assert!(live.as_ref().unwrap().busy);
    on_turn_event(&mut live, &TurnEvent::TurnFailed("boom".to_string()));
    assert!(live.as_ref().unwrap().done && !live.as_ref().unwrap().busy);
    let mut none: Option<LiveTurnState> = None;
    on_turn_event(&mut none, &TurnEvent::AssistantDelta("x".to_string()));
    assert!(none.is_none());
}

#[test]
fn plain_output_logs_each_event() {
    assert_eq!(
        event_log_lines(&TurnEvent::TurnStarted { model: "gpt-5.4".to_string() }),
        vec!["assistant.model: gpt-5.4".to_string(), "assistant.turn_started: true".to_string()]
    );
    assert_eq!(event_log_lines(&usage(9)), vec!["assistant.usage: in=1 cached=0 out=2 total=9".to_string()]);
    let limit = TurnEvent::RateLimit {
        limit_requests: Some(10),
        remaining_requests: Some(4),
        limit_tokens: None,
        remaining_tokens: None,
        reset_after_seconds: None,
    };
    assert_eq!(
        event_log_lines(&limit),
        vec!["assistant.rate_limit: remaining_requests=Some(4) remaining_tokens=None".to_string()]
    );
    assert_eq!(
        event_log_lines(&TurnEvent::ToolCallProposed { name: "file.write".to_string(), arguments_json: "{}".to_string() }),
        vec!["tool.proposed: file.write {}".to_string()]
    );
}

#[test]
fn transcript_keeps_tool_activity_and_failures() {
    assert_eq!(
        event_record(&TurnEvent::AssistantMessageFinalized("done".to_string())),
        EventRecord::ReplaceAssistant("done".to_string())
    );
    assert_eq!(
        event_record(&TurnEvent::ToolExecutionFinished { tool_name: "shell.exec".to_string(), result: "ok".to_string() }),
        EventRecord::System("tool finished: shell.exec ok".to_string())
    );
    assert_eq!(
        event_record(&TurnEvent::TurnFailed("boom".to_string())),
        EventRecord::System("assistant error: boom".to_string())
    );
    assert_eq!(event_record(&TurnEvent::AssistantDelta("x".to_string())), EventRecord::Nothing);
    assert_eq!(event_record(&usage(1)), EventRecord::Nothing);
}
