//! Maps snapshots taken from an upstream Codex runtime into reasoning-harness
//! requests.
use vstd::prelude::*;

use crate::protocol::CapabilityRegistrySnapshot;
use crate::protocol::CheckpointRef;
use crate::protocol::ContextPressure;
use crate::protocol::ContinueReason;
use crate::protocol::InterruptQueueState;
use crate::protocol::PendingApprovalState;
use crate::protocol::PermissionContextSnapshot;
use crate::protocol::PostCompactionState;
use crate::protocol::ProgressSnapshot;
use crate::protocol::RecoveryReason;
use crate::protocol::RecoverySnapshot;
use crate::protocol::RuntimeModeState;
use crate::protocol::SelfCorrectionState;
use crate::protocol::SkillInvocationState;
use crate::protocol::StateChangeKind;
use crate::reasoning_harness::EscalationPolicy;
use crate::reasoning_harness::ProhibitionRule;
use crate::reasoning_harness::ReasoningHarnessRequest;
use crate::text::ascii_lower;
use crate::text::bool_text;
use crate::text::bool_to_string;
use crate::text::chars_contain;
use crate::text::contains;
use crate::text::join2;
use crate::text::join3;
use crate::text::to_ascii_lowercase;
use crate::text::to_chars;
use crate::text::debug_list_text;
use crate::text::debug_option_string;
use crate::text::debug_option_text;
use crate::text::debug_string_list;
use crate::text::decimal;
use crate::text::opt_chars;
use crate::text::string_views;
use crate::text::u64_to_decimal;

verus! {

#[derive(Clone, Debug, PartialEq, Eq)]
pub struct CodexSignalSnapshot {
    pub thread_id: String,
    pub turn_id: String,
    pub objective: String,
    pub constraints: Vec<String>,
    pub working_hypothesis: Option<String>,
    pub last_agent_message: Option<String>,
    pub continue_reason: ContinueReason,
    pub recent_state_changes: Vec<StateChangeKind>,
    pub pending_input_count: usize,
    pub trigger_turn_pending: bool,
    pub tool_call_count_this_turn: usize,
    pub duplicate_injection_detected: bool,
    pub repeated_follow_up_count: u32,
    pub model_context_window: Option<u32>,
    pub active_context_tokens: Option<u32>,
    pub auto_compact_scope_tokens: Option<u32>,
    pub auto_compact_limit: Option<u32>,
    pub tokens_until_compaction: Option<u32>,
    pub recent_compaction_count: u32,
    pub last_compaction_had_state_change: bool,
    pub pending_post_compaction: bool,
    pub first_post_compaction_turn: bool,
    pub compaction_window_id: Option<String>,
    pub last_compaction_checkpoint_id: Option<String>,
    pub completed_steps: u32,
    pub total_steps_hint: Option<u32>,
    pub no_progress_iteration_count: u32,
    pub recovery_attempt_count: u32,
    pub last_recovery_reason: Option<RecoveryReason>,
    pub last_recovery_had_progress: bool,
    pub self_correction_active: bool,
    pub self_correction_attempt_count: u32,
    pub last_correction_target: Option<String>,
    pub last_correction_had_progress: bool,
    pub active_agent_mode: Option<String>,
    pub previous_agent_mode: Option<String>,
    pub mode_transition_pending_guidance: bool,
    pub invoked_skills: Vec<String>,
    pub capability_registry: CapabilityRegistrySnapshot,
}

#[derive(Clone, Debug, PartialEq, Eq)]
pub struct CodexBootstrapSnapshot {
    pub thread_id: String,
    pub turn_id: String,
    pub cwd: String,
    pub model: String,
    pub model_provider: String,
    pub collaboration_mode: String,
    pub personality: Option<String>,
    pub approval_policy: String,
    pub permission_profile: String,
    pub service_tier: Option<String>,
    pub show_raw_agent_reasoning: bool,
    pub model_context_window: Option<u32>,
    pub auto_compact_token_limit: Option<u32>,
    pub auto_compact_token_limit_scope: String,
    pub reference_context_present: bool,
    pub prompt_input_count: usize,
    pub input_modalities: Vec<String>,
    pub tools_visible_count: usize,
    pub prompt_preview_text_items: usize,
}

/// The escalation policy both adapters install.
pub open spec fn default_escalation(p: EscalationPolicy) -> bool {
    p.no_progress_limit == 3 && p.repeated_compaction_limit == 2 && p.self_correction_limit == 2
        && p.request_checkpoint_before_handoff
}

/// The permission context of a snapshot that carries no sandbox or approval
/// descriptor of its own: both are unknown, with the given profile summary.
fn unknown_safety(profile: String) -> (s: PermissionContextSnapshot)
    ensures
        s.sandbox_mode == crate::protocol::SandboxModeDescriptor::Unknown,
        s.approval_policy == crate::protocol::ApprovalPolicyDescriptor::Unknown,
        s.permission_profile_summary == profile,
        !s.network_access_enabled,
        !s.requires_explicit_approval_for_next_step,
{
    PermissionContextSnapshot {
        sandbox_mode: crate::protocol::SandboxModeDescriptor::Unknown,
        approval_policy: crate::protocol::ApprovalPolicyDescriptor::Unknown,
        permission_profile_summary: profile,
        network_access_enabled: false,
        requires_explicit_approval_for_next_step: false,
    }
}

fn skill_invocations(skills: &Vec<String>) -> (r: Vec<SkillInvocationState>)
    ensures
        r@.len() == skills@.len(),
        forall|i: int|
            0 <= i < skills@.len() ==> (#[trigger] r@[i]).skill_id == skills@[i]
                && r@[i].invocation_ref is None && r@[i].invoked_at_ms is None,
{
    let mut r: Vec<SkillInvocationState> = Vec::new();
    let mut i: usize = 0;
    while i < skills.len()
        invariant
            i <= skills@.len(),
            r@.len() == i,
            forall|k: int|
                0 <= k < i ==> (#[trigger] r@[k]).skill_id == skills@[k] && r@[k].invocation_ref is None
                    && r@[k].invoked_at_ms is None,
        decreases skills.len() - i,
    {
        r.push(SkillInvocationState { skill_id: skills[i].clone(), invocation_ref: None, invoked_at_ms: None });
        i = i + 1;
    }
    r
}

/// Maps a live Codex signal snapshot into a harness request: progress,
/// recovery, self-correction, compaction and mode state are carried over field
/// by field, a checkpoint reference is derived from the last compaction
/// checkpoint, and the default escalation policy is installed.
pub fn codex_snapshot_to_harness_request(snapshot: CodexSignalSnapshot) -> (r: ReasoningHarnessRequest)
    ensures
        r.objective == snapshot.objective,
        r.constraints == snapshot.constraints,
        string_views(r.evidence_scope@) == seq!["upstream codex signal snapshot"@],
        string_views(r.allowed_capability_classes@) == seq!["tool"@, "skill"@, "mcp"@],
        r.prohibited_behaviors@ == seq![
            ProhibitionRule::NoFakeProgress,
            ProhibitionRule::NoRepeatedNoProgressContinuation,
            ProhibitionRule::NoDuplicateInjection,
            ProhibitionRule::NoUnverifiedCompletion,
        ],
        r.progress == (ProgressSnapshot {
            completed_steps: snapshot.completed_steps,
            total_steps_hint: snapshot.total_steps_hint,
            last_meaningful_progress_at_ms: None,
            no_progress_iteration_count: snapshot.no_progress_iteration_count,
        }),
        r.recovery == (RecoverySnapshot {
            last_recovery_reason: snapshot.last_recovery_reason,
            recovery_attempt_count: snapshot.recovery_attempt_count,
            last_recovery_had_progress: snapshot.last_recovery_had_progress,
        }),
        r.last_checkpoint is Some <==> snapshot.last_compaction_checkpoint_id is Some,
        r.last_checkpoint matches Some(cp) ==> {
            &&& cp.checkpoint_id == snapshot.last_compaction_checkpoint_id->0
            &&& cp.thread_id == snapshot.thread_id
            &&& cp.turn_id == snapshot.turn_id
            &&& cp.created_at_ms == 0
            &&& cp.summary@ == "derived from codex runtime snapshot"@
        },
        r.self_correction == (SelfCorrectionState {
            active: snapshot.self_correction_active,
            correction_attempt_count: snapshot.self_correction_attempt_count,
            last_correction_target: snapshot.last_correction_target,
            last_correction_had_progress: snapshot.last_correction_had_progress,
        }),
        r.post_compaction == (PostCompactionState {
            pending_post_compaction: snapshot.pending_post_compaction,
            first_post_compaction_turn: snapshot.first_post_compaction_turn,
            compaction_window_id: snapshot.compaction_window_id,
            last_compaction_checkpoint_id: snapshot.last_compaction_checkpoint_id,
        }),
        r.runtime_mode.active_agent_mode == snapshot.active_agent_mode,
        r.runtime_mode.previous_agent_mode == snapshot.previous_agent_mode,
        r.runtime_mode.mode_transition_pending_guidance == snapshot.mode_transition_pending_guidance,
        r.runtime_mode.invoked_skills@.len() == snapshot.invoked_skills@.len(),
        forall|i: int|
            0 <= i < snapshot.invoked_skills@.len() ==> (#[trigger] r.runtime_mode.invoked_skills@[i]).skill_id
                == snapshot.invoked_skills@[i] && r.runtime_mode.invoked_skills@[i].invocation_ref is None
                && r.runtime_mode.invoked_skills@[i].invoked_at_ms is None,
        r.pending_approval.active_request is None,
        r.pending_approval.recent_decision is None,
        !r.pending_approval.blocked_on_approval,
        !r.pending_approval.may_continue_other_work,
        r.interrupts.pending_interrupts@.len() == 0,
        !r.interrupts.safe_point_requested,
        r.interrupts.last_interrupt_at_ms is None,
        r.last_run_report is None,
        r.safety.sandbox_mode == crate::protocol::SandboxModeDescriptor::Unknown,
        r.safety.approval_policy == crate::protocol::ApprovalPolicyDescriptor::Unknown,
        r.safety.permission_profile_summary@ == Seq::<char>::empty(),
        !r.safety.network_access_enabled,
        !r.safety.requires_explicit_approval_for_next_step,
        r.codex_continuation is None,
        r.context_pressure == (ContextPressure {
            model_context_window: snapshot.model_context_window,
            active_context_tokens: snapshot.active_context_tokens,
            auto_compact_scope_tokens: snapshot.auto_compact_scope_tokens,
            auto_compact_limit: snapshot.auto_compact_limit,
            tokens_until_compaction: snapshot.tokens_until_compaction,
            recent_compaction_count: snapshot.recent_compaction_count,
            last_compaction_had_state_change: snapshot.last_compaction_had_state_change,
        }),
        r.media_context@.len() == 0,
        r.capability_registry == snapshot.capability_registry,
        default_escalation(r.escalation_policy),
{
    let checkpoint_id_for_ref = snapshot.last_compaction_checkpoint_id.clone();
    let last_checkpoint = match checkpoint_id_for_ref {
        Some(checkpoint_id) => Some(
            CheckpointRef {
                checkpoint_id,
                thread_id: snapshot.thread_id.clone(),
                turn_id: snapshot.turn_id.clone(),
                created_at_ms: 0,
                summary: "derived from codex runtime snapshot".to_string(),
            },
        ),
        None => None,
    };
    let invoked_skills = skill_invocations(&snapshot.invoked_skills);
    let evidence_scope = vec!["upstream codex signal snapshot".to_string()];
    let allowed = vec!["tool".to_string(), "skill".to_string(), "mcp".to_string()];
    assert(string_views(evidence_scope@) =~= seq!["upstream codex signal snapshot"@]);
    assert(string_views(allowed@) =~= seq!["tool"@, "skill"@, "mcp"@]);
    let prohibited = vec![
        ProhibitionRule::NoFakeProgress,
        ProhibitionRule::NoRepeatedNoProgressContinuation,
        ProhibitionRule::NoDuplicateInjection,
        ProhibitionRule::NoUnverifiedCompletion,
    ];
    ReasoningHarnessRequest {
        objective: snapshot.objective,
        constraints: snapshot.constraints,
        evidence_scope,
        allowed_capability_classes: allowed,
        prohibited_behaviors: prohibited,
        progress: ProgressSnapshot {
            completed_steps: snapshot.completed_steps,
            total_steps_hint: snapshot.total_steps_hint,
            last_meaningful_progress_at_ms: None,
            no_progress_iteration_count: snapshot.no_progress_iteration_count,
        },
        recovery: RecoverySnapshot {
            last_recovery_reason: snapshot.last_recovery_reason,
            recovery_attempt_count: snapshot.recovery_attempt_count,
            last_recovery_had_progress: snapshot.last_recovery_had_progress,
        },
        last_checkpoint,
        self_correction: SelfCorrectionState {
            active: snapshot.self_correction_active,
            correction_attempt_count: snapshot.self_correction_attempt_count,
            last_correction_target: snapshot.last_correction_target,
            last_correction_had_progress: snapshot.last_correction_had_progress,
        },
        post_compaction: PostCompactionState {
            pending_post_compaction: snapshot.pending_post_compaction,
            first_post_compaction_turn: snapshot.first_post_compaction_turn,
            compaction_window_id: snapshot.compaction_window_id,
            last_compaction_checkpoint_id: snapshot.last_compaction_checkpoint_id,
        },
        runtime_mode: RuntimeModeState {
            active_agent_mode: snapshot.active_agent_mode,
            previous_agent_mode: snapshot.previous_agent_mode,
            mode_transition_pending_guidance: snapshot.mode_transition_pending_guidance,
            invoked_skills,
        },
        pending_approval: PendingApprovalState {
            active_request: None,
            recent_decision: None,
            blocked_on_approval: false,
            may_continue_other_work: false,
        },
        interrupts: InterruptQueueState {
            pending_interrupts: Vec::new(),
            safe_point_requested: false,
            last_interrupt_at_ms: None,
        },
        last_run_report: None,
        safety: unknown_safety(String::new()),
        codex_continuation: None,
        context_pressure: ContextPressure {
            model_context_window: snapshot.model_context_window,
            active_context_tokens: snapshot.active_context_tokens,
            auto_compact_scope_tokens: snapshot.auto_compact_scope_tokens,
            auto_compact_limit: snapshot.auto_compact_limit,
            tokens_until_compaction: snapshot.tokens_until_compaction,
            recent_compaction_count: snapshot.recent_compaction_count,
            last_compaction_had_state_change: snapshot.last_compaction_had_state_change,
        },
        media_context: Vec::new(),
        capability_registry: snapshot.capability_registry,
        escalation_policy: EscalationPolicy {
            no_progress_limit: 3,
            repeated_compaction_limit: 2,
            self_correction_limit: 2,
            request_checkpoint_before_handoff: true,
        },
    }
}


/// One of the input modalities names an image, ignoring ASCII case.
pub open spec fn mentions_image(snapshot: CodexBootstrapSnapshot) -> bool {
    exists|i: int|
        0 <= i < snapshot.input_modalities@.len() && contains(
            ascii_lower((#[trigger] snapshot.input_modalities@[i])@),
            "image"@,
        )
}

/// The constraints a bootstrap request starts with.
pub open spec fn bootstrap_constraints(snapshot: CodexBootstrapSnapshot) -> Seq<Seq<char>> {
    seq!["do not spin"@, "respect codex-compatible sandbox and approval semantics"@] + if mentions_image(
        snapshot,
    ) {
        seq!["image-capable model path may be required"@]
    } else {
        Seq::empty()
    }
}

/// The evidence lines a bootstrap request records about its snapshot.
pub open spec fn bootstrap_evidence(snapshot: CodexBootstrapSnapshot) -> Seq<Seq<char>> {
    seq![
        "cwd: "@ + snapshot.cwd@,
        "model: "@ + snapshot.model@,
        "provider: "@ + snapshot.model_provider@,
        "collaboration_mode: "@ + snapshot.collaboration_mode@,
        "reference_context_present: "@ + bool_text(snapshot.reference_context_present),
        "approval_policy: "@ + snapshot.approval_policy@,
        "show_raw_agent_reasoning: "@ + bool_text(snapshot.show_raw_agent_reasoning),
    ]
}

fn any_image_modality(snapshot: &CodexBootstrapSnapshot) -> (r: bool)
    ensures
        r == mentions_image(*snapshot),
{
    let image = to_chars("image");
    let mods = &snapshot.input_modalities;
    let mut i: usize = 0;
    while i < mods.len()
        invariant
            i <= mods@.len(),
            mods == &snapshot.input_modalities,
            image@ == "image"@,
            forall|k: int| 0 <= k < i ==> !contains(ascii_lower((#[trigger] mods@[k])@), "image"@),
        decreases mods.len() - i,
    {
        let lower = to_ascii_lowercase(mods[i].as_str());
        if chars_contain(&lower, &image) {
            return true;
        }
        i = i + 1;
    }
    false
}

/// Maps the bootstrap state of a fresh Codex session into a harness request
/// that starts from zero progress, records the session's settings as evidence,
/// adopts the collaboration mode as the active agent mode, and asks for an
/// image-capable model path when an input modality names images.
pub fn codex_bootstrap_snapshot_to_harness_request(snapshot: CodexBootstrapSnapshot) -> (r: ReasoningHarnessRequest)
    ensures
        r.objective@ == "continue useful work in workspace "@ + snapshot.cwd@
            + " from codex bootstrap state"@,
        string_views(r.constraints@) == bootstrap_constraints(snapshot),
        string_views(r.evidence_scope@) == bootstrap_evidence(snapshot),
        string_views(r.allowed_capability_classes@) == seq!["tool"@, "skill"@, "mcp"@],
        r.prohibited_behaviors@ == seq![
            ProhibitionRule::NoFakeProgress,
            ProhibitionRule::NoRepeatedNoProgressContinuation,
            ProhibitionRule::NoSilentScopeExpansion,
        ],
        r.progress == (ProgressSnapshot {
            completed_steps: 0,
            total_steps_hint: None,
            last_meaningful_progress_at_ms: None,
            no_progress_iteration_count: 0,
        }),
        r.recovery == (RecoverySnapshot {
            last_recovery_reason: None,
            recovery_attempt_count: 0,
            last_recovery_had_progress: true,
        }),
        r.last_checkpoint is None,
        !r.self_correction.active,
        r.self_correction.correction_attempt_count == 0,
        r.self_correction.last_correction_target is None,
        !r.self_correction.last_correction_had_progress,
        r.post_compaction == (PostCompactionState {
            pending_post_compaction: false,
            first_post_compaction_turn: false,
            compaction_window_id: None,
            last_compaction_checkpoint_id: None,
        }),
        r.runtime_mode.active_agent_mode == Some(snapshot.collaboration_mode),
        r.runtime_mode.previous_agent_mode is None,
        !r.runtime_mode.mode_transition_pending_guidance,
        r.runtime_mode.invoked_skills@.len() == 0,
        r.pending_approval.active_request is None,
        r.pending_approval.recent_decision is None,
        !r.pending_approval.blocked_on_approval,
        !r.pending_approval.may_continue_other_work,
        r.interrupts.pending_interrupts@.len() == 0,
        !r.interrupts.safe_point_requested,
        r.interrupts.last_interrupt_at_ms is None,
        r.last_run_report is None,
        r.safety.sandbox_mode == crate::protocol::SandboxModeDescriptor::Unknown,
        r.safety.approval_policy == crate::protocol::ApprovalPolicyDescriptor::Unknown,
        r.safety.permission_profile_summary == snapshot.permission_profile,
        !r.safety.network_access_enabled,
        !r.safety.requires_explicit_approval_for_next_step,
        r.codex_continuation is None,
        r.context_pressure == (ContextPressure {
            model_context_window: snapshot.model_context_window,
            active_context_tokens: None,
            auto_compact_scope_tokens: None,
            auto_compact_limit: snapshot.auto_compact_token_limit,
            tokens_until_compaction: None,
            recent_compaction_count: 0,
            last_compaction_had_state_change: true,
        }),
        r.media_context@.len() == 0,
        r.capability_registry.mcp@.len() == 0,
        r.capability_registry.skills@.len() == 0,
        r.capability_registry.agent_data_protocols@.len() == 0,
        r.capability_registry.asr_backends@.len() == 0,
        r.capability_registry.alignment_backends@.len() == 0,
        r.capability_registry.generative_backends@.len() == 0,
        r.capability_registry.agent_modes@.len() == 0,
        r.capability_registry.subagents@.len() == 0,
        r.capability_registry.surfaces@.len() == 0,
        default_escalation(r.escalation_policy),
{
    let mentions = any_image_modality(&snapshot);
    let objective = join3(
        "continue useful work in workspace ",
        snapshot.cwd.as_str(),
        " from codex bootstrap state",
    );
    let mut constraints = vec![
        "do not spin".to_string(),
        "respect codex-compatible sandbox and approval semantics".to_string(),
    ];
    if mentions {
        constraints.push("image-capable model path may be required".to_string());
    }
    assert(string_views(constraints@) =~= bootstrap_constraints(snapshot));
    let reference = bool_to_string(snapshot.reference_context_present);
    let raw = bool_to_string(snapshot.show_raw_agent_reasoning);
    let evidence_scope = vec![
        join2("cwd: ", snapshot.cwd.as_str()),
        join2("model: ", snapshot.model.as_str()),
        join2("provider: ", snapshot.model_provider.as_str()),
        join2("collaboration_mode: ", snapshot.collaboration_mode.as_str()),
        join2("reference_context_present: ", reference.as_str()),
        join2("approval_policy: ", snapshot.approval_policy.as_str()),
        join2("show_raw_agent_reasoning: ", raw.as_str()),
    ];
    assert(string_views(evidence_scope@) =~= bootstrap_evidence(snapshot));
    let allowed = vec!["tool".to_string(), "skill".to_string(), "mcp".to_string()];
    assert(string_views(allowed@) =~= seq!["tool"@, "skill"@, "mcp"@]);
    ReasoningHarnessRequest {
        objective,
        constraints,
        evidence_scope,
        allowed_capability_classes: allowed,
        prohibited_behaviors: vec![
            ProhibitionRule::NoFakeProgress,
            ProhibitionRule::NoRepeatedNoProgressContinuation,
            ProhibitionRule::NoSilentScopeExpansion,
        ],
        progress: ProgressSnapshot {
            completed_steps: 0,
            total_steps_hint: None,
            last_meaningful_progress_at_ms: None,
            no_progress_iteration_count: 0,
        },
        recovery: RecoverySnapshot {
            last_recovery_reason: None,
            recovery_attempt_count: 0,
            last_recovery_had_progress: true,
        },
        last_checkpoint: None,
        self_correction: SelfCorrectionState {
            active: false,
            correction_attempt_count: 0,
            last_correction_target: None,
            last_correction_had_progress: false,
        },
        post_compaction: PostCompactionState {
            pending_post_compaction: false,
            first_post_compaction_turn: false,
            compaction_window_id: None,
            last_compaction_checkpoint_id: None,
        },
        runtime_mode: RuntimeModeState {
            active_agent_mode: Some(snapshot.collaboration_mode),
            previous_agent_mode: None,
            mode_transition_pending_guidance: false,
            invoked_skills: Vec::new(),
        },
        pending_approval: PendingApprovalState {
            active_request: None,
            recent_decision: None,
            blocked_on_approval: false,
            may_continue_other_work: false,
        },
        interrupts: InterruptQueueState {
            pending_interrupts: Vec::new(),
            safe_point_requested: false,
            last_interrupt_at_ms: None,
        },
        last_run_report: None,
        safety: unknown_safety(snapshot.permission_profile),
        codex_continuation: None,
        context_pressure: ContextPressure {
            model_context_window: snapshot.model_context_window,
            active_context_tokens: None,
            auto_compact_scope_tokens: None,
            auto_compact_limit: snapshot.auto_compact_token_limit,
            tokens_until_compaction: None,
            recent_compaction_count: 0,
            last_compaction_had_state_change: true,
        },
        media_context: Vec::new(),
        capability_registry: CapabilityRegistrySnapshot {
            mcp: Vec::new(),
            skills: Vec::new(),
            agent_data_protocols: Vec::new(),
            asr_backends: Vec::new(),
            alignment_backends: Vec::new(),
            generative_backends: Vec::new(),
            agent_modes: Vec::new(),
            subagents: Vec::new(),
            surfaces: Vec::new(),
        },
        escalation_policy: EscalationPolicy {
            no_progress_limit: 3,
            repeated_compaction_limit: 2,
            self_correction_limit: 2,
            request_checkpoint_before_handoff: true,
        },
    }
}

/// The summary printed for a bootstrap snapshot before its decision.
pub open spec fn bootstrap_summary_text(s: CodexBootstrapSnapshot) -> Seq<Seq<char>> {
    seq![
        "snapshot.kind: codex-bootstrap"@,
        "snapshot.model: "@ + s.model@,
        "snapshot.provider: "@ + s.model_provider@,
        "snapshot.mode: "@ + s.collaboration_mode@,
        "snapshot.personality: "@ + debug_option_text(opt_chars(s.personality)),
        "snapshot.approval_policy: "@ + s.approval_policy@,
        "snapshot.service_tier: "@ + debug_option_text(opt_chars(s.service_tier)),
        "snapshot.show_raw_agent_reasoning: "@ + bool_text(s.show_raw_agent_reasoning),
        "snapshot.reference_context: "@ + bool_text(s.reference_context_present),
        "snapshot.input_modalities: "@ + debug_list_text(string_views(s.input_modalities@)),
        "snapshot.tools_visible: "@ + decimal(s.tools_visible_count as nat),
    ]
}

fn push_summary(v: &mut Vec<String>, s: String)
    ensures
        string_views(final(v)@) == string_views(old(v)@).push(s@),
{
    v.push(s);
    assert(string_views(v@) =~= string_views(old(v)@).push(s@));
}

pub fn bootstrap_summary_lines(s: &CodexBootstrapSnapshot) -> (v: Vec<String>)
    ensures
        string_views(v@) == bootstrap_summary_text(*s),
{
    let mut v: Vec<String> = Vec::new();
    assert(string_views(v@) =~= Seq::<Seq<char>>::empty());
    push_summary(&mut v, "snapshot.kind: codex-bootstrap".to_string());
    push_summary(&mut v, join2("snapshot.model: ", s.model.as_str()));
    push_summary(&mut v, join2("snapshot.provider: ", s.model_provider.as_str()));
    push_summary(&mut v, join2("snapshot.mode: ", s.collaboration_mode.as_str()));
    push_summary(
        &mut v,
        join2("snapshot.personality: ", debug_option_string(&s.personality).as_str()),
    );
    push_summary(&mut v, join2("snapshot.approval_policy: ", s.approval_policy.as_str()));
    push_summary(
        &mut v,
        join2("snapshot.service_tier: ", debug_option_string(&s.service_tier).as_str()),
    );
    push_summary(
        &mut v,
        join2(
            "snapshot.show_raw_agent_reasoning: ",
            bool_to_string(s.show_raw_agent_reasoning).as_str(),
        ),
    );
    push_summary(
        &mut v,
        join2("snapshot.reference_context: ", bool_to_string(s.reference_context_present).as_str()),
    );
    push_summary(
        &mut v,
        join2("snapshot.input_modalities: ", debug_string_list(&s.input_modalities).as_str()),
    );
    push_summary(
        &mut v,
        join2("snapshot.tools_visible: ", u64_to_decimal(s.tools_visible_count as u64).as_str()),
    );
    assert(string_views(v@) =~= bootstrap_summary_text(*s));
    v
}

} // verus!
