//! The sample harness requests the command line's demonstrations run: a
//! healthy long-running coding task and four variations of it that stall,
//! fail recoverably, stall after compaction, or carry media.
use vstd::prelude::*;

use crate::protocol::ApprovalPolicyDescriptor;
use crate::protocol::CapabilityRegistrySnapshot;
use crate::protocol::CheckpointRef;
use crate::protocol::CodexSessionContinuationSnapshot;
use crate::protocol::ContextPressure;
use crate::protocol::ContinueDecision;
use crate::protocol::ContinueMode;
use crate::protocol::ContinueReason;
use crate::protocol::ContinueRequest;
use crate::protocol::CycleSummary;
use crate::protocol::ExecutionMode;
use crate::protocol::InterruptInjectionMode;
use crate::protocol::InterruptKind;
use crate::protocol::InterruptQueueState;
use crate::protocol::MediaAssetRef;
use crate::protocol::MediaContextEnvelope;
use crate::protocol::MediaKind;
use crate::protocol::MediaSource;
use crate::protocol::PendingApprovalState;
use crate::protocol::PendingInterrupt;
use crate::protocol::PermissionActionKind;
use crate::protocol::PermissionContextSnapshot;
use crate::protocol::PermissionDecision;
use crate::protocol::PermissionDecisionStatus;
use crate::protocol::PermissionRequest;
use crate::protocol::PermissionUrgency;
use crate::protocol::PostCompactionState;
use crate::protocol::ProgressSnapshot;
use crate::protocol::RecoveryReason;
use crate::protocol::RecoverySnapshot;
use crate::protocol::RunOutcome;
use crate::protocol::RunReport;
use crate::protocol::RuntimeModeState;
use crate::protocol::SandboxModeDescriptor;
use crate::protocol::SelfCorrectionState;
use crate::protocol::SkillInvocationState;
use crate::protocol::StateChangeKind;
use crate::reasoning_harness::EscalationPolicy;
use crate::reasoning_harness::ProhibitionRule;
use crate::reasoning_harness::ReasoningHarnessDecision;
use crate::reasoning_harness::ReasoningHarnessRequest;
use crate::text::from_chars;
use crate::text::join2;
use crate::text::bool_text;
use crate::text::bool_to_string;
use crate::text::join3;
use crate::text::string_views;
use crate::text::to_chars;
use crate::text::trim;
use crate::text::trim_chars;

verus! {

/// The situations the demonstrations put the harness in.
#[derive(Clone, Copy, Debug, PartialEq, Eq, Structural)]
pub enum Scenario {
    Healthy,
    NoProgress,
    RecoverableFailure,
    PostCompactionStall,
    MediaHeavy,
}

/// A video asset read from a local path, shown under its id.
pub open spec fn local_video(a: MediaAssetRef, asset_id: Seq<char>, path: Seq<char>) -> bool {
    &&& a.asset_id@ == asset_id
    &&& a.kind == MediaKind::Video
    &&& a.source matches MediaSource::LocalPath { path: p } && p@ == path
    &&& a.display_name matches Some(d) && d@ == asset_id
}

/// A reference to a local video file.
pub fn crate_media_asset(asset_id: &str, path: &str) -> (a: MediaAssetRef)
    ensures
        local_video(a, asset_id@, path@),
{
    MediaAssetRef {
        asset_id: asset_id.to_string(),
        kind: MediaKind::Video,
        source: MediaSource::LocalPath { path: path.to_string() },
        display_name: Some(asset_id.to_string()),
    }
}

/// Workspace writes, approval on request, the managed profile, no network,
/// no explicit approval owed.
pub open spec fn managed_safety(s: PermissionContextSnapshot) -> bool {
    &&& s.sandbox_mode == SandboxModeDescriptor::WorkspaceWrite
    &&& s.approval_policy == ApprovalPolicyDescriptor::OnRequest
    &&& s.permission_profile_summary@ == "managed"@
    &&& !s.network_access_enabled
    &&& !s.requires_explicit_approval_for_next_step
}

fn managed() -> (s: PermissionContextSnapshot)
    ensures
        managed_safety(s),
{
    PermissionContextSnapshot {
        sandbox_mode: SandboxModeDescriptor::WorkspaceWrite,
        approval_policy: ApprovalPolicyDescriptor::OnRequest,
        permission_profile_summary: "managed".to_string(),
        network_access_enabled: false,
        requires_explicit_approval_for_next_step: false,
    }
}

pub open spec fn base_objective() -> Seq<char> {
    "continue a long-running coding task"@
}

/// The last run report of the healthy task: in progress, one confirmed
/// finding, one interrupt queued.
pub open spec fn healthy_report(r: RunReport) -> bool {
    &&& r.run_id@ == "run-healthy-1"@
    &&& r.thread_id@ == "thread-1"@
    &&& r.objective@ == base_objective()
    &&& r.execution_mode == ExecutionMode::Interactive
    &&& r.outcome == RunOutcome::InProgress
    &&& r.rationale@ == "carry validated state into the next cycle"@
    &&& r.cycle_summary matches Some(c) && {
        &&& c.cycle_id@ == "cycle-1"@
        &&& c.summary@ == "validated recent progress and left a safe-point interrupt queued"@
        &&& c.completed_steps_delta == 1
        &&& c.state_changes@ == seq![StateChangeKind::NewConfirmedFinding]
        &&& !c.checkpoint_created
        &&& c.approval_request_id is None
        &&& c.pending_interrupt_count == 1
    }
    &&& r.generated_at_ms == Some(1_700_000_000_175u64)
}

/// The last run report of the stalled task: no meaningful change.
pub open spec fn stalled_report(r: RunReport, objective: Seq<char>) -> bool {
    &&& r.run_id@ == "run-no-progress-1"@
    &&& r.thread_id@ == "thread-1"@
    &&& r.objective@ == objective
    &&& r.execution_mode == ExecutionMode::Interactive
    &&& r.outcome == RunOutcome::InProgress
    &&& r.rationale@ == "progress stalled across repeated iterations"@
    &&& r.cycle_summary matches Some(c) && {
        &&& c.cycle_id@ == "cycle-stall-1"@
        &&& c.summary@ == "no meaningful state change across the last cycle"@
        &&& c.completed_steps_delta == 0
        &&& c.state_changes@ == seq![StateChangeKind::NoMeaningfulChange]
        &&& !c.checkpoint_created
        &&& c.approval_request_id is None
        &&& c.pending_interrupt_count == 1
    }
    &&& r.generated_at_ms == Some(1_700_000_001_000u64)
}

/// The approval the recoverable failure asks for: a broader shell run.
pub open spec fn retry_approval(p: PermissionRequest) -> bool {
    &&& p.request_id@ == "approval-tool-retry"@
    &&& p.action_kind == PermissionActionKind::ShellExecution
    &&& p.summary@ == "rerun a failing tool step with expanded permissions"@
    &&& p.rationale@ == "recovery path may need a broader shell invocation"@
    &&& p.urgency == PermissionUrgency::Normal
    &&& !p.wait_for_decision
    &&& p.requested_at_ms == Some(1_700_000_001_100u64)
    &&& p.expires_at_ms is None
}

/// The media the media-heavy task carries: a local demo video.
pub open spec fn demo_media(m: MediaContextEnvelope) -> bool {
    &&& local_video(m.asset, "video-1"@, "clips/demo.mp4"@)
    &&& m.derived_artifacts@.len() == 0
    &&& m.hyperframes@.len() == 0
    &&& m.operator_summary@ == "video and transcript are available"@
    &&& m.model_summary@ == "use hyperframe-aligned evidence"@
    &&& m.token_budget_hint == Some(4096u32)
}

/// The request a scenario runs: the healthy task, with what the scenario
/// changes.
pub open spec fn sample_shape(s: Scenario, r: ReasoningHarnessRequest) -> bool {
    &&& r.objective@ == if s is MediaHeavy {
        "analyze multimodal evidence and continue safely"@
    } else {
        base_objective()
    }
    &&& string_views(r.constraints@) == seq!["do not spin"@, "checkpoint before handoff"@]
    &&& string_views(r.evidence_scope@) == seq!["current repository"@]
    &&& string_views(r.allowed_capability_classes@) == seq!["tool"@, "skill"@]
    &&& r.prohibited_behaviors@ == seq![
        ProhibitionRule::NoFakeProgress,
        ProhibitionRule::NoRepeatedNoProgressContinuation,
        ProhibitionRule::NoDuplicateInjection,
    ]
    &&& r.progress.completed_steps == 3
    &&& r.progress.total_steps_hint == Some(8u32)
    &&& r.progress.last_meaningful_progress_at_ms == Some(1_700_000_000_000u64)
    &&& r.progress.no_progress_iteration_count == match s {
        Scenario::NoProgress => 3u32,
        Scenario::PostCompactionStall => 2u32,
        _ => 1u32,
    }
    &&& r.recovery.last_recovery_reason == if s is RecoverableFailure {
        Some(RecoveryReason::ToolFailure)
    } else {
        Some(RecoveryReason::PartialResult)
    }
    &&& r.recovery.recovery_attempt_count == 1
    &&& r.recovery.last_recovery_had_progress == (s is Healthy || s is MediaHeavy)
    &&& r.last_checkpoint matches Some(c) && {
        &&& c.checkpoint_id@ == "cp-1"@
        &&& c.thread_id@ == "thread-1"@
        &&& c.turn_id@ == "turn-5"@
        &&& c.created_at_ms == 1_700_000_000_000u64
        &&& c.summary@ == "checkpoint after media analysis"@
    }
    &&& if s is RecoverableFailure {
        &&& r.self_correction.active
        &&& r.self_correction.correction_attempt_count == 1
        &&& r.self_correction.last_correction_target matches Some(t) && t@
            == "retry failed tool step"@
    } else {
        &&& !r.self_correction.active
        &&& r.self_correction.correction_attempt_count == 0
        &&& r.self_correction.last_correction_target is None
    }
    &&& !r.self_correction.last_correction_had_progress
    &&& r.post_compaction.pending_post_compaction == (s is PostCompactionStall)
    &&& r.post_compaction.first_post_compaction_turn == (s is PostCompactionStall)
    &&& r.post_compaction.compaction_window_id matches Some(w) && w@ == "window-1"@
    &&& r.post_compaction.last_compaction_checkpoint_id matches Some(c) && c@ == "cp-1"@
    &&& r.runtime_mode.active_agent_mode matches Some(m) && m@ == "build"@
    &&& r.runtime_mode.previous_agent_mode matches Some(m) && m@ == "plan"@
    &&& !r.runtime_mode.mode_transition_pending_guidance
    &&& r.runtime_mode.invoked_skills@.len() == 1
    &&& r.runtime_mode.invoked_skills@[0].skill_id@ == "context-budget-gate"@
    &&& r.runtime_mode.invoked_skills@[0].invocation_ref matches Some(i) && i@ == "skill://gate/1"@
    &&& r.runtime_mode.invoked_skills@[0].invoked_at_ms == Some(1_700_000_000_123u64)
    &&& if s is RecoverableFailure {
        r.pending_approval.active_request matches Some(p) && retry_approval(p)
    } else {
        r.pending_approval.active_request is None
    }
    &&& r.pending_approval.recent_decision matches Some(d) && {
        &&& d.request_id@ == "approval-0"@
        &&& d.status == PermissionDecisionStatus::Approved
        &&& d.decided_at_ms == Some(1_699_999_999_500u64)
        &&& d.decided_by matches Some(b) && b@ == "operator"@
        &&& d.note matches Some(n) && n@ == "continue with local verification only"@
    }
    &&& !r.pending_approval.blocked_on_approval
    &&& r.pending_approval.may_continue_other_work
    &&& r.interrupts.pending_interrupts@.len() == 1
    &&& r.interrupts.pending_interrupts@[0].interrupt_id@ == "interrupt-1"@
    &&& r.interrupts.pending_interrupts@[0].kind == InterruptKind::SystemNotification
    &&& r.interrupts.pending_interrupts@[0].summary@
        == "new runtime guidance is ready at the next safe point"@
    &&& r.interrupts.pending_interrupts@[0].injection_mode
        == InterruptInjectionMode::ImmediateSafePoint
    &&& r.interrupts.pending_interrupts@[0].created_at_ms == Some(1_700_000_000_150u64)
    &&& r.interrupts.safe_point_requested
    &&& r.interrupts.last_interrupt_at_ms == Some(1_700_000_000_150u64)
    &&& r.last_run_report matches Some(rep) && if s is NoProgress {
        stalled_report(rep, base_objective())
    } else {
        healthy_report(rep)
    }
    &&& managed_safety(r.safety)
    &&& r.codex_continuation matches Some(c) && {
        &&& c.source_thread_id@ == "thread-1"@
        &&& c.source_turn_id@ == "turn-5"@
        &&& c.source_model@ == "gpt-5.4"@
        &&& c.source_provider@ == "llm-router"@
        &&& c.active_agent_mode matches Some(m) && m@ == "build"@
        &&& managed_safety(c.safety)
        &&& c.reference_context_present
    }
    &&& r.context_pressure == (ContextPressure {
        model_context_window: Some(256_000u32),
        active_context_tokens: Some(140_000u32),
        auto_compact_scope_tokens: Some(24_000u32),
        auto_compact_limit: Some(192_000u32),
        tokens_until_compaction: Some(52_000u32),
        recent_compaction_count: 1,
        last_compaction_had_state_change: true,
    })
    &&& if s is MediaHeavy {
        r.media_context@.len() == 1 && demo_media(r.media_context@[0])
    } else {
        r.media_context@.len() == 0
    }
    &&& r.capability_registry.mcp@.len() == 0
    &&& r.capability_registry.skills@.len() == 0
    &&& r.capability_registry.agent_data_protocols@.len() == 0
    &&& r.capability_registry.asr_backends@.len() == 0
    &&& r.capability_registry.alignment_backends@.len() == 0
    &&& r.capability_registry.generative_backends@.len() == 0
    &&& r.capability_registry.agent_modes@.len() == 0
    &&& r.capability_registry.subagents@.len() == 0
    &&& r.capability_registry.surfaces@.len() == 0
    &&& r.escalation_policy == (EscalationPolicy {
        no_progress_limit: 3,
        repeated_compaction_limit: 2,
        self_correction_limit: 2,
        request_checkpoint_before_handoff: true,
    })
}

fn healthy_last_report() -> (r: RunReport)
    ensures
        healthy_report(r),
{
    let changes = vec![StateChangeKind::NewConfirmedFinding];
    assert(changes@ =~= seq![StateChangeKind::NewConfirmedFinding]);
    RunReport {
        run_id: "run-healthy-1".to_string(),
        thread_id: "thread-1".to_string(),
        objective: "continue a long-running coding task".to_string(),
        execution_mode: ExecutionMode::Interactive,
        outcome: RunOutcome::InProgress,
        rationale: "carry validated state into the next cycle".to_string(),
        cycle_summary: Some(
            CycleSummary {
                cycle_id: "cycle-1".to_string(),
                summary: "validated recent progress and left a safe-point interrupt queued".to_string(),
                completed_steps_delta: 1,
                state_changes: changes,
                checkpoint_created: false,
                approval_request_id: None,
                pending_interrupt_count: 1,
            },
        ),
        generated_at_ms: Some(1_700_000_000_175),
    }
}

fn stalled_last_report(objective: String) -> (r: RunReport)
    ensures
        stalled_report(r, objective@),
{
    let changes = vec![StateChangeKind::NoMeaningfulChange];
    assert(changes@ =~= seq![StateChangeKind::NoMeaningfulChange]);
    RunReport {
        run_id: "run-no-progress-1".to_string(),
        thread_id: "thread-1".to_string(),
        objective,
        execution_mode: ExecutionMode::Interactive,
        outcome: RunOutcome::InProgress,
        rationale: "progress stalled across repeated iterations".to_string(),
        cycle_summary: Some(
            CycleSummary {
                cycle_id: "cycle-stall-1".to_string(),
                summary: "no meaningful state change across the last cycle".to_string(),
                completed_steps_delta: 0,
                state_changes: changes,
                checkpoint_created: false,
                approval_request_id: None,
                pending_interrupt_count: 1,
            },
        ),
        generated_at_ms: Some(1_700_000_001_000),
    }
}

fn healthy_request() -> (r: ReasoningHarnessRequest)
    ensures
        sample_shape(Scenario::Healthy, r),
{
    let constraints = vec!["do not spin".to_string(), "checkpoint before handoff".to_string()];
    assert(string_views(constraints@) =~= seq!["do not spin"@, "checkpoint before handoff"@]);
    let evidence_scope = vec!["current repository".to_string()];
    assert(string_views(evidence_scope@) =~= seq!["current repository"@]);
    let allowed = vec!["tool".to_string(), "skill".to_string()];
    assert(string_views(allowed@) =~= seq!["tool"@, "skill"@]);
    let prohibited = vec![
        ProhibitionRule::NoFakeProgress,
        ProhibitionRule::NoRepeatedNoProgressContinuation,
        ProhibitionRule::NoDuplicateInjection,
    ];
    assert(prohibited@ =~= seq![
        ProhibitionRule::NoFakeProgress,
        ProhibitionRule::NoRepeatedNoProgressContinuation,
        ProhibitionRule::NoDuplicateInjection,
    ]);
    let mut skills: Vec<SkillInvocationState> = Vec::new();
    skills.push(
        SkillInvocationState {
            skill_id: "context-budget-gate".to_string(),
            invocation_ref: Some("skill://gate/1".to_string()),
            invoked_at_ms: Some(1_700_000_000_123),
        },
    );
    let mut interrupts: Vec<PendingInterrupt> = Vec::new();
    interrupts.push(
        PendingInterrupt {
            interrupt_id: "interrupt-1".to_string(),
            kind: InterruptKind::SystemNotification,
            summary: "new runtime guidance is ready at the next safe point".to_string(),
            injection_mode: InterruptInjectionMode::ImmediateSafePoint,
            created_at_ms: Some(1_700_000_000_150),
        },
    );
    ReasoningHarnessRequest {
        objective: "continue a long-running coding task".to_string(),
        constraints,
        evidence_scope,
        allowed_capability_classes: allowed,
        prohibited_behaviors: prohibited,
        progress: ProgressSnapshot {
            completed_steps: 3,
            total_steps_hint: Some(8),
            last_meaningful_progress_at_ms: Some(1_700_000_000_000),
            no_progress_iteration_count: 1,
        },
        recovery: RecoverySnapshot {
            last_recovery_reason: Some(RecoveryReason::PartialResult),
            recovery_attempt_count: 1,
            last_recovery_had_progress: true,
        },
        last_checkpoint: Some(
            CheckpointRef {
                checkpoint_id: "cp-1".to_string(),
                thread_id: "thread-1".to_string(),
                turn_id: "turn-5".to_string(),
                created_at_ms: 1_700_000_000_000,
                summary: "checkpoint after media analysis".to_string(),
            },
        ),
        self_correction: SelfCorrectionState {
            active: false,
            correction_attempt_count: 0,
            last_correction_target: None,
            last_correction_had_progress: false,
        },
        post_compaction: PostCompactionState {
            pending_post_compaction: false,
            first_post_compaction_turn: false,
            compaction_window_id: Some("window-1".to_string()),
            last_compaction_checkpoint_id: Some("cp-1".to_string()),
        },
        runtime_mode: RuntimeModeState {
            active_agent_mode: Some("build".to_string()),
            previous_agent_mode: Some("plan".to_string()),
            mode_transition_pending_guidance: false,
            invoked_skills: skills,
        },
        pending_approval: PendingApprovalState {
            active_request: None,
            recent_decision: Some(
                PermissionDecision {
                    request_id: "approval-0".to_string(),
                    status: PermissionDecisionStatus::Approved,
                    decided_at_ms: Some(1_699_999_999_500),
                    decided_by: Some("operator".to_string()),
                    note: Some("continue with local verification only".to_string()),
                },
            ),
            blocked_on_approval: false,
            may_continue_other_work: true,
        },
        interrupts: InterruptQueueState {
            pending_interrupts: interrupts,
            safe_point_requested: true,
            last_interrupt_at_ms: Some(1_700_000_000_150),
        },
        last_run_report: Some(healthy_last_report()),
        safety: managed(),
        codex_continuation: Some(
            CodexSessionContinuationSnapshot {
                source_thread_id: "thread-1".to_string(),
                source_turn_id: "turn-5".to_string(),
                source_model: "gpt-5.4".to_string(),
                source_provider: "llm-router".to_string(),
                active_agent_mode: Some("build".to_string()),
                safety: managed(),
                reference_context_present: true,
            },
        ),
        context_pressure: ContextPressure {
            model_context_window: Some(256_000),
            active_context_tokens: Some(140_000),
            auto_compact_scope_tokens: Some(24_000),
            auto_compact_limit: Some(192_000),
            tokens_until_compaction: Some(52_000),
            recent_compaction_count: 1,
            last_compaction_had_state_change: true,
        },
        media_context: Vec::new(),
        capability_registry: CapabilityRegistrySnapshot {
            mcp: Vec::new(),
            skills: Vec::new(),
            agent_data_protocols: Vec::new(),
            asr_backends: Vec::new(),
            alignment_backends: Vec::new(),
            generative_backends: Vec::new(),
            agent_modes: Vec::new(),
            subagents: Vec::new(),
            surfaces: Vec::new(),
        },
        escalation_policy: EscalationPolicy {
            no_progress_limit: 3,
            repeated_compaction_limit: 2,
            self_correction_limit: 2,
            request_checkpoint_before_handoff: true,
        },
    }
}

/// The sample request a scenario runs.
pub fn sample_request(scenario: Scenario) -> (r: ReasoningHarnessRequest)
    ensures
        sample_shape(scenario, r),
{
    let mut request = healthy_request();
    match scenario {
        Scenario::Healthy => {},
        Scenario::NoProgress => {
            request.progress.no_progress_iteration_count = 3;
            request.recovery.last_recovery_had_progress = false;
            let objective = request.objective.clone();
            request.last_run_report = Some(stalled_last_report(objective));
        },
        Scenario::RecoverableFailure => {
            request.recovery.last_recovery_reason = Some(RecoveryReason::ToolFailure);
            request.recovery.last_recovery_had_progress = false;
            request.self_correction.active = true;
            request.self_correction.correction_attempt_count = 1;
            request.self_correction.last_correction_target = Some(
                "retry failed tool step".to_string(),
            );
            request.pending_approval.active_request = Some(
                PermissionRequest {
                    request_id: "approval-tool-retry".to_string(),
                    action_kind: PermissionActionKind::ShellExecution,
                    summary: "rerun a failing tool step with expanded permissions".to_string(),
                    rationale: "recovery path may need a broader shell invocation".to_string(),
                    urgency: PermissionUrgency::Normal,
                    wait_for_decision: false,
                    requested_at_ms: Some(1_700_000_001_100),
                    expires_at_ms: None,
                },
            );
        },
        Scenario::PostCompactionStall => {
            request.post_compaction.pending_post_compaction = true;
            request.post_compaction.first_post_compaction_turn = true;
            request.progress.no_progress_iteration_count = 2;
            request.recovery.last_recovery_had_progress = false;
        },
        Scenario::MediaHeavy => {
            request.objective = "analyze multimodal evidence and continue safely".to_string();
            request.media_context.push(
                MediaContextEnvelope {
                    asset: crate_media_asset("video-1", "clips/demo.mp4"),
                    derived_artifacts: Vec::new(),
                    hyperframes: Vec::new(),
                    operator_summary: "video and transcript are available".to_string(),
                    model_summary: "use hyperframe-aligned evidence".to_string(),
                    token_budget_hint: Some(4096),
                },
            );
        },
    }
    request
}

/// Why the objective of a workspace run cannot be read from the options:
/// both or neither of the text and the file were given.
pub fn objective_option_error(has_text: bool, has_file: bool) -> (e: Option<String>)
    ensures
        match e {
            Some(m) => if has_text {
                has_file && m@ == "provide either --objective or --objective-file, not both"@
            } else {
                !has_file && m@ == "provide --objective or --objective-file"@
            },
            None => has_text != has_file,
        },
{
    if has_text && has_file {
        Some("provide either --objective or --objective-file, not both".to_string())
    } else if !has_text && !has_file {
        Some("provide --objective or --objective-file".to_string())
    } else {
        None
    }
}

/// The request for a run in a real workspace: the healthy sample with the
/// workspace's objective (trimmed), the workspace as evidence, the agent
/// mode and no-progress count given, and optionally a pending compaction
/// and a recoverable failure being corrected.
pub open spec fn workspace_shape(
    workspace: Seq<char>,
    objective: Seq<char>,
    git: bool,
    mode: Seq<char>,
    no_progress_iterations: u32,
    post_compaction: bool,
    recoverable_failure: bool,
    r: ReasoningHarnessRequest,
) -> bool {
    &&& r.objective@ == trim(objective)
    &&& string_views(r.evidence_scope@) == seq![
        "workspace: "@ + workspace,
        "workspace_kind: "@ + if git {
            "git repository"@
        } else {
            "non-git workspace"@
        },
    ]
    &&& r.runtime_mode.active_agent_mode matches Some(m) && m@ == mode
    &&& r.progress.no_progress_iteration_count == no_progress_iterations
    &&& r.post_compaction.pending_post_compaction == post_compaction
    &&& r.post_compaction.first_post_compaction_turn == post_compaction
    &&& if recoverable_failure {
        &&& r.recovery.last_recovery_reason == Some(RecoveryReason::ToolFailure)
        &&& !r.recovery.last_recovery_had_progress
        &&& r.self_correction.active
        &&& r.self_correction.correction_attempt_count == 1
        &&& r.self_correction.last_correction_target matches Some(t) && t@
            == "retry failed step in real workspace"@
    } else {
        &&& r.recovery.last_recovery_reason == Some(RecoveryReason::PartialResult)
        &&& r.recovery.last_recovery_had_progress
        &&& !r.self_correction.active
        &&& r.self_correction.correction_attempt_count == 0
        &&& r.self_correction.last_correction_target is None
    }
    &&& string_views(r.constraints@) == seq!["do not spin"@, "checkpoint before handoff"@]
    &&& r.pending_approval.active_request is None
    &&& r.media_context@.len() == 0
    &&& r.last_run_report matches Some(rep) && healthy_report(rep)
    &&& managed_safety(r.safety)
}

/// Builds the request for a run in `workspace` (as displayed); `git` tells
/// whether it is a git repository.
pub fn workspace_request(
    workspace: &str,
    objective: &str,
    git: bool,
    mode: String,
    no_progress_iterations: u32,
    post_compaction: bool,
    recoverable_failure: bool,
) -> (r: ReasoningHarnessRequest)
    ensures
        workspace_shape(
            workspace@,
            objective@,
            git,
            mode@,
            no_progress_iterations,
            post_compaction,
            recoverable_failure,
            r,
        ),
{
    let mut request = sample_request(Scenario::Healthy);
    let trimmed = trim_chars(to_chars(objective).as_slice());
    request.objective = from_chars(trimmed.as_slice());
    let kind = if git {
        "git repository"
    } else {
        "non-git workspace"
    };
    let scope = vec![join2("workspace: ", workspace), join2("workspace_kind: ", kind)];
    assert(string_views(scope@) =~= seq![
        "workspace: "@ + workspace@,
        "workspace_kind: "@ + kind@,
    ]);
    request.evidence_scope = scope;
    request.runtime_mode.active_agent_mode = Some(mode);
    request.progress.no_progress_iteration_count = no_progress_iterations;
    if post_compaction {
        request.post_compaction.pending_post_compaction = true;
        request.post_compaction.first_post_compaction_turn = true;
    }
    if recoverable_failure {
        request.recovery.last_recovery_reason = Some(RecoveryReason::ToolFailure);
        request.recovery.last_recovery_had_progress = false;
        request.self_correction.active = true;
        request.self_correction.correction_attempt_count = 1;
        request.self_correction.last_correction_target = Some(
            "retry failed step in real workspace".to_string(),
        );
    }
    request
}

/// The continue request a runtime starts from for a harness request: the
/// continued session's thread and turn (`thread-1` and `turn-1` without
/// one), a manual request after a user decision, and the request's
/// objective, constraints and state.
pub open spec fn continue_request_for(h: ReasoningHarnessRequest, c: ContinueRequest) -> bool {
    &&& c.thread_id@ == match h.codex_continuation {
        Some(s) => s.source_thread_id@,
        None => "thread-1"@,
    }
    &&& c.turn_id@ == match h.codex_continuation {
        Some(s) => s.source_turn_id@,
        None => "turn-1"@,
    }
    &&& c.objective == h.objective
    &&& c.constraints == h.constraints
    &&& c.continue_reason == ContinueReason::ManualUserRequest
    &&& c.recent_state_changes@ == seq![StateChangeKind::UserDecision]
    &&& c.working_hypothesis is None
    &&& c.last_agent_message is None
    &&& c.pending_input_count == 0
    &&& !c.trigger_turn_pending
    &&& c.tool_call_count_this_turn == 0
    &&& c.context_pressure == h.context_pressure
    &&& !c.duplicate_injection_detected
    &&& c.repeated_follow_up_count == 0
    &&& c.progress == h.progress
    &&& c.recovery == h.recovery
    &&& c.last_checkpoint == h.last_checkpoint
    &&& c.self_correction == h.self_correction
    &&& c.post_compaction == h.post_compaction
    &&& c.runtime_mode == h.runtime_mode
    &&& c.safety == h.safety
    &&& c.codex_continuation == h.codex_continuation
}

/// The continue request a runtime starts from for `request`.
pub fn continue_request_from_harness(request: ReasoningHarnessRequest) -> (c: ContinueRequest)
    ensures
        continue_request_for(request, c),
{
    let (thread_id, turn_id) = match &request.codex_continuation {
        Some(s) => (s.source_thread_id.clone(), s.source_turn_id.clone()),
        None => ("thread-1".to_string(), "turn-1".to_string()),
    };
    let changes = vec![StateChangeKind::UserDecision];
    assert(changes@ =~= seq![StateChangeKind::UserDecision]);
    ContinueRequest {
        thread_id,
        turn_id,
        objective: request.objective,
        constraints: request.constraints,
        continue_reason: ContinueReason::ManualUserRequest,
        recent_state_changes: changes,
        working_hypothesis: None,
        last_agent_message: None,
        pending_input_count: 0,
        trigger_turn_pending: false,
        tool_call_count_this_turn: 0,
        context_pressure: request.context_pressure,
        duplicate_injection_detected: false,
        repeated_follow_up_count: 0,
        progress: request.progress,
        recovery: request.recovery,
        last_checkpoint: request.last_checkpoint,
        self_correction: request.self_correction,
        post_compaction: request.post_compaction,
        runtime_mode: request.runtime_mode,
        safety: request.safety,
        codex_continuation: request.codex_continuation,
    }
}

/// The runtime decision a harness decision comes to: it continues unless
/// it hands off or stops, asks for a handoff summary when it hands off, and
/// carries the harness's mode, rationale, approval pause, interrupt use,
/// other work, checkpoint and self-correction.
pub open spec fn decision_for(d: ReasoningHarnessDecision, c: ContinueDecision) -> bool {
    &&& c.allow_continue == !(d.mode == ContinueMode::Handoff || d.mode == ContinueMode::Stop)
    &&& c.mode == d.mode
    &&& c.rationale == d.rationale
    &&& c.next_action is None
    &&& c.pause_for_approval == d.pause_for_approval
    &&& c.consume_interrupts_now == d.consume_interrupts_now
    &&& c.may_continue_other_work == d.may_continue_other_work
    &&& !c.suppress_duplicate_injection
    &&& !c.downgrade_trigger_turn
    &&& !c.request_compaction
    &&& c.request_handoff_summary == (d.mode == ContinueMode::Handoff)
    &&& c.request_checkpoint == d.should_checkpoint
    &&& c.enter_self_correction == d.should_enter_self_correction
}

pub fn decision_from_harness(d: &ReasoningHarnessDecision) -> (c: ContinueDecision)
    ensures
        decision_for(*d, c),
{
    let stops = match d.mode {
        ContinueMode::Handoff | ContinueMode::Stop => true,
        _ => false,
    };
    let handoff = match d.mode {
        ContinueMode::Handoff => true,
        _ => false,
    };
    ContinueDecision {
        allow_continue: !stops,
        mode: d.mode,
        rationale: d.rationale.clone(),
        next_action: None,
        pause_for_approval: d.pause_for_approval,
        consume_interrupts_now: d.consume_interrupts_now,
        may_continue_other_work: d.may_continue_other_work,
        suppress_duplicate_injection: false,
        downgrade_trigger_turn: false,
        request_compaction: false,
        request_handoff_summary: handoff,
        request_checkpoint: d.should_checkpoint,
        enter_self_correction: d.should_enter_self_correction,
    }
}

/// How a continue mode is printed.
pub open spec fn mode_text(m: ContinueMode) -> Seq<char> {
    match m {
        ContinueMode::SameTurn => "same_turn"@,
        ContinueMode::NextTurn => "next_turn"@,
        ContinueMode::QueueOnly => "queue_only"@,
        ContinueMode::Handoff => "handoff"@,
        ContinueMode::Stop => "stop"@,
    }
}

/// How a prohibition rule is printed (its name).
pub open spec fn rule_text(r: ProhibitionRule) -> Seq<char> {
    match r {
        ProhibitionRule::NoFakeProgress => "NoFakeProgress"@,
        ProhibitionRule::NoDuplicateInjection => "NoDuplicateInjection"@,
        ProhibitionRule::NoSilentScopeExpansion => "NoSilentScopeExpansion"@,
        ProhibitionRule::NoUnverifiedCompletion => "NoUnverifiedCompletion"@,
        ProhibitionRule::NoRepeatedNoProgressContinuation => "NoRepeatedNoProgressContinuation"@,
        ProhibitionRule::NoSilentModelSwitch => "NoSilentModelSwitch"@,
        ProhibitionRule::NoSilentExecutionModeSwitch => "NoSilentExecutionModeSwitch"@,
    }
}

/// A list of rules as `{:?}` prints it: `[A, B]`.
pub open spec fn rules_text(rs: Seq<ProhibitionRule>) -> Seq<char> {
    "["@ + crate::config_commands::joined(rs.map_values(|r: ProhibitionRule| rule_text(r)), ", "@)
        + "]"@
}

/// The lines the harness demonstration prints for a decision.
pub open spec fn decision_text(d: ReasoningHarnessDecision) -> Seq<Seq<char>> {
    seq![
        "mode: "@ + mode_text(d.mode),
        "checkpoint: "@ + bool_text(d.should_checkpoint),
        "self_correction: "@ + bool_text(d.should_enter_self_correction),
        "pause_for_approval: "@ + bool_text(d.pause_for_approval),
        "consume_interrupts_now: "@ + bool_text(d.consume_interrupts_now),
        "may_continue_other_work: "@ + bool_text(d.may_continue_other_work),
        "rationale: "@ + d.rationale@,
    ] + if d.violated_rules@.len() == 0 {
        Seq::empty()
    } else {
        seq!["violated_rules: "@ + rules_text(d.violated_rules@)]
    }
}

fn rule_name(r: ProhibitionRule) -> (s: &'static str)
    ensures
        s@ == rule_text(r),
{
    match r {
        ProhibitionRule::NoFakeProgress => "NoFakeProgress",
        ProhibitionRule::NoDuplicateInjection => "NoDuplicateInjection",
        ProhibitionRule::NoSilentScopeExpansion => "NoSilentScopeExpansion",
        ProhibitionRule::NoUnverifiedCompletion => "NoUnverifiedCompletion",
        ProhibitionRule::NoRepeatedNoProgressContinuation => "NoRepeatedNoProgressContinuation",
        ProhibitionRule::NoSilentModelSwitch => "NoSilentModelSwitch",
        ProhibitionRule::NoSilentExecutionModeSwitch => "NoSilentExecutionModeSwitch",
    }
}

fn push_text(lines: &mut Vec<String>, line: String)
    ensures
        string_views(final(lines)@) == string_views(old(lines)@).push(line@),
{
    lines.push(line);
    assert(string_views(lines@) =~= string_views(old(lines)@).push(line@));
}

/// The lines printed for a harness decision.
pub fn decision_lines(d: &ReasoningHarnessDecision) -> (lines: Vec<String>)
    ensures
        string_views(lines@) == decision_text(*d),
{
    let mode = match d.mode {
        ContinueMode::SameTurn => "same_turn",
        ContinueMode::NextTurn => "next_turn",
        ContinueMode::QueueOnly => "queue_only",
        ContinueMode::Handoff => "handoff",
        ContinueMode::Stop => "stop",
    };
    let mut lines: Vec<String> = Vec::new();
    assert(string_views(lines@) =~= Seq::<Seq<char>>::empty());
    push_text(&mut lines, join2("mode: ", mode));
    push_text(&mut lines, join2("checkpoint: ", bool_to_string(d.should_checkpoint).as_str()));
    push_text(
        &mut lines,
        join2("self_correction: ", bool_to_string(d.should_enter_self_correction).as_str()),
    );
    push_text(&mut lines, join2("pause_for_approval: ", bool_to_string(d.pause_for_approval).as_str()));
    push_text(
        &mut lines,
        join2("consume_interrupts_now: ", bool_to_string(d.consume_interrupts_now).as_str()),
    );
    push_text(
        &mut lines,
        join2("may_continue_other_work: ", bool_to_string(d.may_continue_other_work).as_str()),
    );
    push_text(&mut lines, join2("rationale: ", d.rationale.as_str()));
    assert(string_views(lines@) =~= decision_text(*d).take(7));
    if d.violated_rules.len() > 0 {
        let mut names: Vec<String> = Vec::new();
        let mut i: usize = 0;
        while i < d.violated_rules.len()
            invariant
                i <= d.violated_rules@.len(),
                string_views(names@) == d.violated_rules@.take(i as int).map_values(
                    |r: ProhibitionRule| rule_text(r),
                ),
            decreases d.violated_rules.len() - i,
        {
            let ghost before = names@;
            names.push(rule_name(d.violated_rules[i]).to_string());
            assert(string_views(names@) =~= string_views(before).push(
                rule_text(d.violated_rules@[i as int]),
            ));
            assert(d.violated_rules@.take(i + 1).map_values(|r: ProhibitionRule| rule_text(r))
                =~= d.violated_rules@.take(i as int).map_values(
                |r: ProhibitionRule| rule_text(r),
            ).push(rule_text(d.violated_rules@[i as int])));
            i = i + 1;
        }
        assert(d.violated_rules@.take(d.violated_rules@.len() as int) =~= d.violated_rules@);
        let list = join3("[", crate::config_commands::join_with(&names, ", ").as_str(), "]");
        push_text(&mut lines, join2("violated_rules: ", list.as_str()));
        assert(string_views(lines@) =~= decision_text(*d));
    } else {
        assert(string_views(lines@) =~= decision_text(*d));
    }
    lines
}

// ---------------------------------------------------------------------
// the approval demonstration

/// The approval the demonstration waits for: opening a pull request.
pub open spec fn pull_request_approval(p: PermissionRequest) -> bool {
    &&& p.request_id@ == "approval-demo-1"@
    &&& p.action_kind == PermissionActionKind::RemoteMutation
    &&& p.summary@ == "open a pull request for review"@
    &&& p.rationale@ == "the next step would publish code outside the local runtime"@
    &&& p.urgency == PermissionUrgency::Normal
    &&& !p.wait_for_decision
    &&& p.requested_at_ms == Some(1_700_000_010_000u64)
    &&& p.expires_at_ms is None
}

/// `request` blocked on the pull-request approval; other work may go on,
/// and nothing else changes.
pub fn with_pull_request_approval(request: ReasoningHarnessRequest) -> (r: ReasoningHarnessRequest)
    ensures
        r.pending_approval.active_request matches Some(p) && pull_request_approval(p),
        r.pending_approval.blocked_on_approval,
        r.pending_approval.may_continue_other_work,
        r.pending_approval.recent_decision == request.pending_approval.recent_decision,
        r == (ReasoningHarnessRequest { pending_approval: r.pending_approval, ..request }),
{
    let mut request = request;
    request.pending_approval.active_request = Some(
        PermissionRequest {
            request_id: "approval-demo-1".to_string(),
            action_kind: PermissionActionKind::RemoteMutation,
            summary: "open a pull request for review".to_string(),
            rationale: "the next step would publish code outside the local runtime".to_string(),
            urgency: PermissionUrgency::Normal,
            wait_for_decision: false,
            requested_at_ms: Some(1_700_000_010_000),
            expires_at_ms: None,
        },
    );
    request.pending_approval.blocked_on_approval = true;
    request.pending_approval.may_continue_other_work = true;
    request
}

/// The decision that holds risky work until the approval arrives: queue
/// only, pausing for approval, other work allowed.
pub fn approval_pause_decision() -> (d: ContinueDecision)
    ensures
        !d.allow_continue,
        d.mode == ContinueMode::QueueOnly,
        d.rationale@ == "pause risky work until approval arrives"@,
        d.next_action is None,
        d.pause_for_approval,
        !d.consume_interrupts_now,
        d.may_continue_other_work,
        !d.suppress_duplicate_injection,
        !d.downgrade_trigger_turn,
        !d.request_compaction,
        !d.request_handoff_summary,
        !d.request_checkpoint,
        !d.enter_self_correction,
{
    ContinueDecision {
        allow_continue: false,
        mode: ContinueMode::QueueOnly,
        rationale: "pause risky work until approval arrives".to_string(),
        next_action: None,
        pause_for_approval: true,
        consume_interrupts_now: false,
        may_continue_other_work: true,
        suppress_duplicate_injection: false,
        downgrade_trigger_turn: false,
        request_compaction: false,
        request_handoff_summary: false,
        request_checkpoint: false,
        enter_self_correction: false,
    }
}

/// The operator's approval of the pull request.
pub fn pull_request_approved() -> (d: PermissionDecision)
    ensures
        d.request_id@ == "approval-demo-1"@,
        d.status == PermissionDecisionStatus::Approved,
        d.decided_at_ms == Some(1_700_000_010_500u64),
        d.decided_by matches Some(b) && b@ == "operator"@,
        d.note matches Some(n) && n@ == "continue with bounded progress"@,
{
    PermissionDecision {
        request_id: "approval-demo-1".to_string(),
        status: PermissionDecisionStatus::Approved,
        decided_at_ms: Some(1_700_000_010_500),
        decided_by: Some("operator".to_string()),
        note: Some("continue with bounded progress".to_string()),
    }
}

/// The decision once the approval cleared: continue on the next turn with
/// bounded progress.
pub fn approval_resume_decision() -> (d: ContinueDecision)
    ensures
        d.allow_continue,
        d.mode == ContinueMode::NextTurn,
        d.rationale@ == "approval cleared, resume bounded progress"@,
        d.next_action matches Some(a) && a@ == "continue verification"@,
        !d.pause_for_approval,
        !d.consume_interrupts_now,
        d.may_continue_other_work,
        !d.suppress_duplicate_injection,
        !d.downgrade_trigger_turn,
        !d.request_compaction,
        !d.request_handoff_summary,
        !d.request_checkpoint,
        !d.enter_self_correction,
{
    ContinueDecision {
        allow_continue: true,
        mode: ContinueMode::NextTurn,
        rationale: "approval cleared, resume bounded progress".to_string(),
        next_action: Some("continue verification".to_string()),
        pause_for_approval: false,
        consume_interrupts_now: false,
        may_continue_other_work: true,
        suppress_duplicate_injection: false,
        downgrade_trigger_turn: false,
        request_compaction: false,
        request_handoff_summary: false,
        request_checkpoint: false,
        enter_self_correction: false,
    }
}

/// The request the runtime's step decides on: the runtime keeps a
/// request's objective, constraints and state, but not its evidence scope,
/// capability classes, prohibitions, media or registry, and it escalates by
/// the standard policy.
pub fn runtime_harness_request(request: ReasoningHarnessRequest) -> (r: ReasoningHarnessRequest)
    ensures
        r.evidence_scope@.len() == 0,
        r.allowed_capability_classes@.len() == 0,
        r.prohibited_behaviors@.len() == 0,
        r.media_context@.len() == 0,
        r.capability_registry.mcp@.len() == 0,
        r.capability_registry.skills@.len() == 0,
        r.capability_registry.agent_data_protocols@.len() == 0,
        r.capability_registry.asr_backends@.len() == 0,
        r.capability_registry.alignment_backends@.len() == 0,
        r.capability_registry.generative_backends@.len() == 0,
        r.capability_registry.agent_modes@.len() == 0,
        r.capability_registry.subagents@.len() == 0,
        r.capability_registry.surfaces@.len() == 0,
        r.escalation_policy == (EscalationPolicy {
            no_progress_limit: 3,
            repeated_compaction_limit: 2,
            self_correction_limit: 2,
            request_checkpoint_before_handoff: true,
        }),
        r == (ReasoningHarnessRequest {
            evidence_scope: r.evidence_scope,
            allowed_capability_classes: r.allowed_capability_classes,
            prohibited_behaviors: r.prohibited_behaviors,
            media_context: r.media_context,
            capability_registry: r.capability_registry,
            escalation_policy: r.escalation_policy,
            ..request
        }),
{
    let mut r = request;
    r.evidence_scope = Vec::new();
    r.allowed_capability_classes = Vec::new();
    r.prohibited_behaviors = Vec::new();
    r.media_context = Vec::new();
    r.capability_registry = CapabilityRegistrySnapshot {
        mcp: Vec::new(),
        skills: Vec::new(),
        agent_data_protocols: Vec::new(),
        asr_backends: Vec::new(),
        alignment_backends: Vec::new(),
        generative_backends: Vec::new(),
        agent_modes: Vec::new(),
        subagents: Vec::new(),
        surfaces: Vec::new(),
    };
    r.escalation_policy = EscalationPolicy {
        no_progress_limit: 3,
        repeated_compaction_limit: 2,
        self_correction_limit: 2,
        request_checkpoint_before_handoff: true,
    };
    r
}

/// A decision that continues and lets other work go on, with nothing else
/// asked for.
pub open spec fn plain_continue(d: ContinueDecision, mode: ContinueMode) -> bool {
    &&& d.allow_continue
    &&& d.mode == mode
    &&& !d.pause_for_approval
    &&& !d.consume_interrupts_now
    &&& d.may_continue_other_work
    &&& !d.suppress_duplicate_injection
    &&& !d.downgrade_trigger_turn
    &&& !d.request_compaction
    &&& !d.request_handoff_summary
    &&& !d.request_checkpoint
    &&& !d.enter_self_correction
}

fn continue_with(mode: ContinueMode, rationale: &str, next_action: Option<String>) -> (d: ContinueDecision)
    ensures
        plain_continue(d, mode),
        d.rationale@ == rationale@,
        d.next_action == next_action,
{
    ContinueDecision {
        allow_continue: true,
        mode,
        rationale: rationale.to_string(),
        next_action,
        pause_for_approval: false,
        consume_interrupts_now: false,
        may_continue_other_work: true,
        suppress_duplicate_injection: false,
        downgrade_trigger_turn: false,
        request_compaction: false,
        request_handoff_summary: false,
        request_checkpoint: false,
        enter_self_correction: false,
    }
}

/// The decision sent through the daemon's transport: a status probe only
/// queues; advancing the sample continues on the next turn.
pub fn daemon_decision(advance: bool) -> (d: ContinueDecision)
    ensures
        if advance {
            &&& plain_continue(d, ContinueMode::NextTurn)
            &&& d.rationale@ == "advance sample through daemon transport"@
            &&& d.next_action matches Some(a) && a@ == "continue sample work"@
        } else {
            &&& plain_continue(d, ContinueMode::QueueOnly)
            &&& d.rationale@ == "status probe through daemon transport"@
            &&& d.next_action is None
        },
{
    if advance {
        continue_with(
            ContinueMode::NextTurn,
            "advance sample through daemon transport",
            Some("continue sample work".to_string()),
        )
    } else {
        continue_with(ContinueMode::QueueOnly, "status probe through daemon transport", None)
    }
}

/// The decision the host demonstration applies after restoring its host.
pub fn restored_host_decision() -> (d: ContinueDecision)
    ensures
        plain_continue(d, ContinueMode::NextTurn),
        d.rationale@ == "resume from restored host state"@,
        d.next_action matches Some(a) && a@ == "continue verification"@,
{
    continue_with(
        ContinueMode::NextTurn,
        "resume from restored host state",
        Some("continue verification".to_string()),
    )
}

} // verus!
