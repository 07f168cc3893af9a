use muldex::tools::{
    call_tool, call_tool_json, run_captured, run_captured_json, InteractiveToolError, PendingApproval,
    ToolArgs, ToolStep,
};

fn failed(m: &str) -> ToolStep {
    ToolStep::Answer(Err(InteractiveToolError::Failed(m.to_string())))
}

#[test]
fn file_write_waits_for_approval_then_blocks_other_tools() {
    let mut gate: Option<PendingApproval> = None;
    let step = call_tool_json(
        "file.write",
        "call-1",
        r#"{"path":"notes.md","content":"héllo"}"#,
        &mut gate,
    );
    assert_eq!(
        step,
        ToolStep::Answer(Err(InteractiveToolError::ApprovalRequired("Write 6 bytes to notes.md".to_string())))
    );
    let pending = gate.as_ref().unwrap();
    assert_eq!(pending.tool_name, "file.write");
    assert_eq!(pending.call_id, "call-1");
    assert!(!pending.approved);
    assert_eq!(
        call_tool_json("session.status", "call-2", "{}", &mut gate),
        failed("Must respond to pending approval first")
    );
    assert_eq!(
        call_tool_json("approval.respond", "call-3", "{}", &mut gate),
        ToolStep::Answer(Err(InteractiveToolError::Unsupported("approval.respond".to_string())))
    );
    assert!(gate.is_some());
}

#[test]
fn answered_gate_runs_or_refuses() {
    let args = ToolArgs {
        path: None,
        content: None,
        command: Some("ls".to_string()),
        args: vec![Some("-la".to_string()), None, Some("src".to_string())],
    };
    let pending = PendingApproval {
        tool_name: "shell.exec".to_string(),
        call_id: "c".to_string(),
        args: args.clone(),
        summary: "ls -la src".to_string(),
        approved: true,
    };
    let mut gate = Some(pending.clone());
    assert_eq!(call_tool("shell.exec", "c", &args, &mut gate), failed("Must respond to pending approval first"));
    assert_eq!(gate, Some(pending));
    assert_eq!(
        run_captured("shell.exec", &args, true),
        ToolStep::RunCommand { command: "ls".to_string(), args: vec!["-la".to_string(), "src".to_string()] }
    );
    assert_eq!(run_captured("shell.exec", &args, false), failed("User denied approval"));
    let mut gate = None;
    assert_eq!(
        call_tool("shell.exec", "c", &args, &mut gate),
        ToolStep::Answer(Err(InteractiveToolError::ApprovalRequired("Execute: ls -la src".to_string())))
    );
    assert_eq!(gate.as_ref().unwrap().summary, "ls -la src");
    assert!(!gate.as_ref().unwrap().approved);
}

#[test]
fn read_only_and_unknown_tools() {
    let mut gate = None;
    assert_eq!(call_tool_json("runtime.inspect", "c", "not json", &mut gate), ToolStep::ReadOnly);
    assert_eq!(
        call_tool_json("web.search", "c", "{}", &mut gate),
        ToolStep::Answer(Err(InteractiveToolError::Unsupported("web.search".to_string())))
    );
    assert_eq!(call_tool_json("file.write", "c", r#"{"content":"x"}"#, &mut gate), failed("path is required"));
    assert_eq!(call_tool_json("shell.exec", "c", r#"{"command":5}"#, &mut gate), failed("command is required"));
    assert!(gate.is_none());
}

#[test]
fn captured_calls_after_the_modal() {
    assert_eq!(
        run_captured_json("file.write", r#"{"path":"a.txt","content":"hi"}"#, true),
        ToolStep::WriteFile { path: "a.txt".to_string(), content: "hi".to_string() }
    );
    assert_eq!(run_captured_json("file.write", r#"{"path":"a.txt"}"#, false), failed("User denied approval"));
    assert_eq!(
        run_captured_json("shell.exec", r#"{"command":"echo","args":["a",1,"b"]}"#, true),
        ToolStep::RunCommand { command: "echo".to_string(), args: vec!["a".to_string(), "b".to_string()] }
    );
    let empty = ToolArgs { path: None, content: None, command: None, args: vec![] };
    assert_eq!(run_captured("shell.exec", &empty, true), failed("command is required"));
    assert_eq!(
        run_captured("session.list", &empty, true),
        ToolStep::Answer(Err(InteractiveToolError::Unsupported("session.list".to_string())))
    );
}
