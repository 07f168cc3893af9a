use muldex::protocol::{
    ApprovalPolicyDescriptor, CapabilityRegistrySnapshot, ContextPressure, ContinueMode,
    InterruptInjectionMode, InterruptKind, InterruptQueueState, PendingApprovalState,
    PendingInterrupt, PermissionActionKind, PermissionContextSnapshot, PermissionRequest,
    PermissionUrgency, PostCompactionState, ProgressSnapshot, RecoveryReason, RecoverySnapshot,
    RuntimeModeState, SandboxModeDescriptor, SelfCorrectionState,
};
use muldex::reasoning_harness::{
    decide_reasoning_harness, EscalationPolicy, ProhibitionRule, ReasoningHarnessRequest,
};

fn base_request() -> ReasoningHarnessRequest {
    ReasoningHarnessRequest {
        objective: "finish the task".to_string(),
        constraints: vec!["do not spin".to_string()],
        evidence_scope: vec!["current repo only".to_string()],
        allowed_capability_classes: vec!["tool".to_string()],
        prohibited_behaviors: vec![
            ProhibitionRule::NoFakeProgress,
            ProhibitionRule::NoRepeatedNoProgressContinuation,
        ],
        progress: ProgressSnapshot {
            completed_steps: 1,
            total_steps_hint: Some(4),
            last_meaningful_progress_at_ms: Some(1),
            no_progress_iteration_count: 0,
        },
        recovery: RecoverySnapshot {
            last_recovery_reason: None,
            recovery_attempt_count: 0,
            last_recovery_had_progress: true,
        },
        last_checkpoint: None,
        self_correction: SelfCorrectionState {
            active: false,
            correction_attempt_count: 0,
            last_correction_target: None,
            last_correction_had_progress: false,
        },
        post_compaction: PostCompactionState::default(),
        runtime_mode: RuntimeModeState::default(),
        pending_approval: PendingApprovalState::default(),
        interrupts: InterruptQueueState::default(),
        last_run_report: None,
        safety: PermissionContextSnapshot {
            sandbox_mode: SandboxModeDescriptor::WorkspaceWrite,
            approval_policy: ApprovalPolicyDescriptor::OnRequest,
            permission_profile_summary: "managed".to_string(),
            network_access_enabled: false,
            requires_explicit_approval_for_next_step: false,
        },
        codex_continuation: None,
        context_pressure: ContextPressure::default(),
        media_context: Vec::new(),
        capability_registry: CapabilityRegistrySnapshot::default(),
        escalation_policy: EscalationPolicy {
            no_progress_limit: 3,
            repeated_compaction_limit: 2,
            self_correction_limit: 2,
            request_checkpoint_before_handoff: true,
        },
    }
}

#[test]
fn harness_enters_handoff_after_repeated_no_progress() {
    let mut request = base_request();
    request.progress.no_progress_iteration_count = 3;

    let decision = decide_reasoning_harness(&request);
    assert_eq!(decision.mode, ContinueMode::Handoff);
    assert!(decision.should_checkpoint);
    assert!(decision
        .violated_rules
        .contains(&ProhibitionRule::NoRepeatedNoProgressContinuation));
}

#[test]
fn harness_enters_self_correction_after_recoverable_failure() {
    let mut request = base_request();
    request.recovery.last_recovery_reason = Some(RecoveryReason::ToolFailure);
    request.recovery.last_recovery_had_progress = false;

    let decision = decide_reasoning_harness(&request);
    assert_eq!(decision.mode, ContinueMode::SameTurn);
    assert!(decision.should_enter_self_correction);
}

#[test]
fn harness_queues_when_waiting_on_approval_but_other_work_is_allowed() {
    let mut request = base_request();
    request.pending_approval.active_request = Some(PermissionRequest {
        request_id: "approval-1".to_string(),
        action_kind: PermissionActionKind::RemoteMutation,
        summary: "open a pull request".to_string(),
        rationale: "publish the validated fix for review".to_string(),
        urgency: PermissionUrgency::Normal,
        wait_for_decision: false,
        requested_at_ms: Some(1),
        expires_at_ms: None,
    });
    request.pending_approval.blocked_on_approval = true;
    request.pending_approval.may_continue_other_work = true;

    let decision = decide_reasoning_harness(&request);
    assert_eq!(decision.mode, ContinueMode::QueueOnly);
    assert!(!decision.should_enter_self_correction);
    assert!(decision.pause_for_approval);
    assert!(decision.may_continue_other_work);
}

#[test]
fn harness_handoffs_when_waiting_on_approval_and_no_other_work_is_allowed() {
    let mut request = base_request();
    request.pending_approval.active_request = Some(PermissionRequest {
        request_id: "approval-2".to_string(),
        action_kind: PermissionActionKind::ExternalCommunication,
        summary: "message the operator".to_string(),
        rationale: "cannot continue until the operator responds".to_string(),
        urgency: PermissionUrgency::High,
        wait_for_decision: true,
        requested_at_ms: Some(1),
        expires_at_ms: None,
    });
    request.pending_approval.blocked_on_approval = true;
    request.pending_approval.may_continue_other_work = false;

    let decision = decide_reasoning_harness(&request);
    assert_eq!(decision.mode, ContinueMode::Handoff);
    assert!(decision.should_checkpoint);
    assert!(decision.pause_for_approval);
    assert!(!decision.may_continue_other_work);
}

#[test]
fn harness_prefers_same_turn_for_immediate_safe_point_interrupts() {
    let mut request = base_request();
    request.interrupts.pending_interrupts.push(PendingInterrupt {
        interrupt_id: "interrupt-1".to_string(),
        kind: InterruptKind::ApprovalDecision,
        summary: "approval decision arrived".to_string(),
        injection_mode: InterruptInjectionMode::ImmediateSafePoint,
        created_at_ms: Some(1),
    });

    let decision = decide_reasoning_harness(&request);
    assert_eq!(decision.mode, ContinueMode::SameTurn);
    assert!(decision.consume_interrupts_now);
    assert!(decision.rationale.contains("safe point"));
}

#[test]
fn harness_stalled_compaction_hands_off_with_checkpoint() {
    let mut request = base_request();
    request.context_pressure.recent_compaction_count = 2;
    request.context_pressure.last_compaction_had_state_change = false;
    let decision = decide_reasoning_harness(&request);
    assert_eq!(decision.mode, ContinueMode::Handoff);
    assert!(!decision.may_continue_other_work);
    assert_eq!(
        decision.rationale,
        "reasoning harness blocked further low-value continuation"
    );
    assert!(decision.violated_rules.is_empty());
}

#[test]
fn harness_reports_fake_progress_and_checkpoints_every_fifth_step() {
    let mut request = base_request();
    request.self_correction.active = true;
    request.recovery.last_recovery_had_progress = false;
    request.progress.completed_steps = 10;
    let decision = decide_reasoning_harness(&request);
    assert_eq!(decision.mode, ContinueMode::NextTurn);
    assert_eq!(decision.violated_rules, vec![ProhibitionRule::NoFakeProgress]);
    assert!(decision.should_checkpoint);
    assert_eq!(decision.rationale, "continue under harness policy");
}

#[test]
fn harness_no_progress_while_blocked_queues_and_reports_both_rules() {
    let mut request = base_request();
    request.progress.no_progress_iteration_count = 5;
    request.self_correction.active = true;
    request.recovery.last_recovery_had_progress = false;
    request.pending_approval.blocked_on_approval = true;
    request.pending_approval.may_continue_other_work = true;
    let decision = decide_reasoning_harness(&request);
    assert_eq!(decision.mode, ContinueMode::QueueOnly);
    assert_eq!(
        decision.violated_rules,
        vec![
            ProhibitionRule::NoRepeatedNoProgressContinuation,
            ProhibitionRule::NoFakeProgress
        ]
    );
    assert!(!decision.consume_interrupts_now);
}
