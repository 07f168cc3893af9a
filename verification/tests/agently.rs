use muldex::agently::{
    continue_decision_from_reply, planner_response_from_reply, sidecar_reply, AgentlySidecarRequest,
};
use muldex::orchestrator::OrchestratorError;
use muldex::policy::DeterministicOrchestrator;
use muldex::protocol::{
    ApprovalPolicyDescriptor, CapabilityRegistrySnapshot, ContextPressure, ContinueDecision,
    ContinueMode, ContinueReason, ContinueRequest, PermissionContextSnapshot, PlannerRequest,
    PostCompactionState, ProgressSnapshot, RecoverySnapshot, RuntimeModeState,
    SandboxModeDescriptor, SelfCorrectionState, StateChangeKind,
};

fn managed() -> PermissionContextSnapshot {
    PermissionContextSnapshot {
        sandbox_mode: SandboxModeDescriptor::WorkspaceWrite,
        approval_policy: ApprovalPolicyDescriptor::OnRequest,
        permission_profile_summary: "managed".to_string(),
        network_access_enabled: false,
        requires_explicit_approval_for_next_step: false,
    }
}

fn progress() -> ProgressSnapshot {
    ProgressSnapshot {
        completed_steps: 1,
        total_steps_hint: Some(3),
        last_meaningful_progress_at_ms: None,
        no_progress_iteration_count: 0,
    }
}

fn recovery() -> RecoverySnapshot {
    RecoverySnapshot { last_recovery_reason: None, recovery_attempt_count: 0, last_recovery_had_progress: true }
}

fn self_correction() -> SelfCorrectionState {
    SelfCorrectionState {
        active: false,
        correction_attempt_count: 0,
        last_correction_target: None,
        last_correction_had_progress: false,
    }
}

fn sample_continue_request() -> ContinueRequest {
    ContinueRequest {
        thread_id: "thread-1".to_string(),
        turn_id: "turn-1".to_string(),
        objective: "continue task".to_string(),
        constraints: vec!["do not spin".to_string()],
        continue_reason: ContinueReason::PendingInput,
        recent_state_changes: vec![StateChangeKind::NewConfirmedFinding],
        working_hypothesis: Some("retry with better context".to_string()),
        last_agent_message: None,
        pending_input_count: 1,
        trigger_turn_pending: false,
        tool_call_count_this_turn: 0,
        context_pressure: ContextPressure::default(),
        duplicate_injection_detected: false,
        repeated_follow_up_count: 0,
        progress: progress(),
        recovery: recovery(),
        last_checkpoint: None,
        self_correction: self_correction(),
        post_compaction: PostCompactionState::default(),
        runtime_mode: RuntimeModeState::default(),
        safety: managed(),
        codex_continuation: None,
    }
}

fn sample_planner_request() -> PlannerRequest {
    PlannerRequest {
        objective: "plan next step".to_string(),
        constraints: vec!["stay bounded".to_string()],
        confirmed_facts: vec!["one fact".to_string()],
        open_questions: vec!["what should run next?".to_string()],
        continue_reason: ContinueReason::PendingInput,
        context_pressure: ContextPressure::default(),
        media_context: Vec::new(),
        capability_registry: CapabilityRegistrySnapshot::default(),
        progress: progress(),
        recovery: recovery(),
        self_correction: self_correction(),
        post_compaction: PostCompactionState::default(),
        runtime_mode: RuntimeModeState::default(),
        safety: managed(),
        codex_continuation: None,
    }
}

// What the echoing sidecar of these tests answers to a continue request.
fn echo_decision(request: &AgentlySidecarRequest) -> Option<ContinueDecision> {
    if request.operation != "decide_continue" {
        return None;
    }
    Some(ContinueDecision {
        allow_continue: true,
        mode: ContinueMode::NextTurn,
        rationale: "echo transport decision".to_string(),
        next_action: request.continue_request.as_ref().and_then(|r| r.working_hypothesis.clone()),
        pause_for_approval: false,
        consume_interrupts_now: false,
        may_continue_other_work: true,
        suppress_duplicate_injection: false,
        downgrade_trigger_turn: false,
        request_compaction: false,
        request_handoff_summary: false,
        request_checkpoint: false,
        enter_self_correction: false,
    })
}

#[test]
fn agently_orchestrator_routes_continue_requests() {
    let request = AgentlySidecarRequest::decide_continue(sample_continue_request());
    assert_eq!(request.operation, "decide_continue");
    assert!(request.planner_request.is_none());
    let decision = continue_decision_from_reply(echo_decision(&request), None).expect("continue decision");
    assert_eq!(decision.mode, ContinueMode::NextTurn);
    assert_eq!(decision.next_action.as_deref(), Some("retry with better context"));
}

#[test]
fn agently_orchestrator_routes_planner_requests() {
    let request = AgentlySidecarRequest::plan_next_action(sample_planner_request());
    assert_eq!(request.operation, "plan_next_action");
    assert!(request.continue_request.is_none());
    let next_action = request.planner_request.as_ref().and_then(|r| r.open_questions.first().cloned());
    let response = planner_response_from_reply(Some(next_action), None).expect("planner response");
    assert_eq!(response.as_deref(), Some("what should run next?"));
}

#[test]
fn sidecar_error_wins_over_payload() {
    let r = sidecar_reply(Some(1u8), Some("sidecar down".to_string()), "missing");
    assert_eq!(r, Err(OrchestratorError::Other("sidecar down".to_string())));
}

#[test]
fn empty_reply_names_what_is_missing() {
    let r = continue_decision_from_reply(None, None);
    assert_eq!(
        r,
        Err(OrchestratorError::Other("agently transport did not return a continue decision".to_string()))
    );
    let r = planner_response_from_reply::<u8>(None, None);
    assert_eq!(
        r,
        Err(OrchestratorError::Other("agently transport did not return a planner response".to_string()))
    );
}

#[test]
fn deterministic_planner_recommends_first_open_question() {
    let mut request = sample_planner_request();
    request.open_questions.push("and then?".to_string());
    let planned = DeterministicOrchestrator.plan_next_action(&request).unwrap();
    assert_eq!(planned.recommended_mode, ContinueMode::NextTurn);
    assert_eq!(planned.recommended_next_action, Some("what should run next?".to_string()));
    assert_eq!(planned.rationale, "default deterministic planner response");
    assert_eq!(planned.suggested_model, None);
}

#[test]
fn deterministic_planner_without_open_questions_recommends_nothing() {
    let mut request = sample_planner_request();
    request.open_questions.clear();
    let planned = DeterministicOrchestrator.plan_next_action(&request).unwrap();
    assert_eq!(planned.recommended_mode, ContinueMode::NextTurn);
    assert_eq!(planned.recommended_next_action, None);
}
