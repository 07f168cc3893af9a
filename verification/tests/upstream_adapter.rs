use muldex::protocol::{
    ApprovalPolicyDescriptor, CapabilityRegistrySnapshot, ContinueReason, RecoveryReason,
    StateChangeKind,
};
use muldex::upstream_adapter::{
    bootstrap_summary_lines, codex_bootstrap_snapshot_to_harness_request, codex_snapshot_to_harness_request,
    CodexBootstrapSnapshot, CodexSignalSnapshot,
};

fn signal_snapshot() -> CodexSignalSnapshot {
    CodexSignalSnapshot {
        thread_id: "thread-1".to_string(),
        turn_id: "turn-9".to_string(),
        objective: "finish the task".to_string(),
        constraints: vec!["do not spin".to_string()],
        working_hypothesis: Some("pending input is rearming the loop".to_string()),
        last_agent_message: Some("checking runtime state".to_string()),
        continue_reason: ContinueReason::PendingInput,
        recent_state_changes: vec![StateChangeKind::NoMeaningfulChange],
        pending_input_count: 2,
        trigger_turn_pending: true,
        tool_call_count_this_turn: 4,
        duplicate_injection_detected: true,
        repeated_follow_up_count: 3,
        model_context_window: Some(256_000),
        active_context_tokens: Some(150_000),
        auto_compact_scope_tokens: Some(30_000),
        auto_compact_limit: Some(192_000),
        tokens_until_compaction: Some(42_000),
        recent_compaction_count: 2,
        last_compaction_had_state_change: false,
        pending_post_compaction: true,
        first_post_compaction_turn: false,
        compaction_window_id: Some("window-3".to_string()),
        last_compaction_checkpoint_id: Some("cp-7".to_string()),
        completed_steps: 5,
        total_steps_hint: Some(9),
        no_progress_iteration_count: 2,
        recovery_attempt_count: 1,
        last_recovery_reason: Some(RecoveryReason::PartialResult),
        last_recovery_had_progress: false,
        self_correction_active: true,
        self_correction_attempt_count: 1,
        last_correction_target: Some("retry failed step".to_string()),
        last_correction_had_progress: false,
        active_agent_mode: Some("build".to_string()),
        previous_agent_mode: Some("plan".to_string()),
        mode_transition_pending_guidance: false,
        invoked_skills: vec!["context-budget-gate".to_string()],
        capability_registry: CapabilityRegistrySnapshot::default(),
    }
}

fn bootstrap_snapshot() -> CodexBootstrapSnapshot {
    CodexBootstrapSnapshot {
        thread_id: "thread-1".to_string(),
        turn_id: "turn-1".to_string(),
        cwd: "/workspace".to_string(),
        model: "gpt-5.4".to_string(),
        model_provider: "llm-router".to_string(),
        collaboration_mode: "build".to_string(),
        personality: Some("pragmatic".to_string()),
        approval_policy: "OnRequest".to_string(),
        permission_profile: "managed".to_string(),
        service_tier: None,
        show_raw_agent_reasoning: false,
        model_context_window: Some(258_400),
        auto_compact_token_limit: Some(193_800),
        auto_compact_token_limit_scope: "body_after_prefix".to_string(),
        reference_context_present: true,
        prompt_input_count: 3,
        input_modalities: vec!["Text".to_string(), "Image".to_string()],
        tools_visible_count: 11,
        prompt_preview_text_items: 3,
    }
}

#[test]
fn codex_snapshot_maps_into_harness_request() {
    let request = codex_snapshot_to_harness_request(signal_snapshot());
    assert_eq!(request.progress.completed_steps, 5);
    assert!(request.post_compaction.pending_post_compaction);
    assert_eq!(request.runtime_mode.invoked_skills.len(), 1);
    assert_eq!(request.context_pressure.recent_compaction_count, 2);
}

#[test]
fn codex_snapshot_derives_checkpoint_from_compaction_checkpoint() {
    let request = codex_snapshot_to_harness_request(signal_snapshot());
    let checkpoint = request.last_checkpoint.expect("checkpoint");
    assert_eq!(checkpoint.checkpoint_id, "cp-7");
    assert_eq!(checkpoint.thread_id, "thread-1");
    assert_eq!(checkpoint.turn_id, "turn-9");
    assert_eq!(checkpoint.summary, "derived from codex runtime snapshot");
    assert_eq!(request.runtime_mode.invoked_skills[0].skill_id, "context-budget-gate");
    assert_eq!(request.escalation_policy.no_progress_limit, 3);

    let mut without = signal_snapshot();
    without.last_compaction_checkpoint_id = None;
    assert!(codex_snapshot_to_harness_request(without).last_checkpoint.is_none());
}

#[test]
fn bootstrap_snapshot_maps_into_harness_request() {
    let request = codex_bootstrap_snapshot_to_harness_request(bootstrap_snapshot());
    assert_eq!(request.runtime_mode.active_agent_mode.as_deref(), Some("build"));
    assert!(request
        .constraints
        .iter()
        .any(|line| line.contains("image-capable model path")));
    assert!(request
        .evidence_scope
        .iter()
        .any(|line| line.contains("reference_context_present: true")));
}

#[test]
fn bootstrap_snapshot_without_images_keeps_two_constraints() {
    let mut snapshot = bootstrap_snapshot();
    snapshot.input_modalities = vec!["Text".to_string(), "Audio".to_string()];
    let request = codex_bootstrap_snapshot_to_harness_request(snapshot);
    assert_eq!(
        request.constraints,
        vec![
            "do not spin".to_string(),
            "respect codex-compatible sandbox and approval semantics".to_string()
        ]
    );
    assert_eq!(
        request.objective,
        "continue useful work in workspace /workspace from codex bootstrap state"
    );
    assert_eq!(request.evidence_scope[0], "cwd: /workspace");
    assert_eq!(request.evidence_scope[6], "show_raw_agent_reasoning: false");
    assert_eq!(request.safety.approval_policy, ApprovalPolicyDescriptor::Unknown);
    assert_eq!(request.safety.permission_profile_summary, "managed");

    let mut mixed_case = bootstrap_snapshot();
    mixed_case.input_modalities = vec!["IMAGE/png".to_string()];
    let request = codex_bootstrap_snapshot_to_harness_request(mixed_case);
    assert_eq!(request.constraints.len(), 3);
}

#[test]
fn bootstrap_summary_prints_each_field() {
    let lines = bootstrap_summary_lines(&bootstrap_snapshot());
    assert_eq!(
        lines,
        vec![
            "snapshot.kind: codex-bootstrap",
            "snapshot.model: gpt-5.4",
            "snapshot.provider: llm-router",
            "snapshot.mode: build",
            "snapshot.personality: Some(\"pragmatic\")",
            "snapshot.approval_policy: OnRequest",
            "snapshot.service_tier: None",
            "snapshot.show_raw_agent_reasoning: false",
            "snapshot.reference_context: true",
            "snapshot.input_modalities: [\"Text\", \"Image\"]",
            "snapshot.tools_visible: 11",
        ]
    );
}
