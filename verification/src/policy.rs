//! The deterministic continuation policy: when a run may continue, when it
//! must hand off, and which model a selection request gets.
use vstd::prelude::*;

use crate::orchestrator::ModelRouter;
use crate::orchestrator::OrchestratorError;
use crate::protocol::ContinueDecision;
use crate::protocol::ContinueMode;
use crate::protocol::ContinueReason;
use crate::protocol::ContinueRequest;
use crate::protocol::PlannedAction;
use crate::protocol::PlannerRequest;
use crate::protocol::ExecutionMode;
use crate::protocol::InputModality;
use crate::protocol::ModelCapabilityDescriptor;
use crate::protocol::ModelSelectionDecision;
use crate::protocol::ModelSelectionRequest;
use crate::protocol::OutputModality;
use crate::protocol::ReasoningMode;
use crate::protocol::StateChangeKind;
use crate::protocol::StructuredOutputMode;
use crate::provider::opt_view;

verus! {

/// Decides whether duplicate context injection is suppressed for a request.
pub trait ContextGovernor {
    fn should_suppress_duplicate_injection(&self, request: &ContinueRequest) -> bool;
}

/// Decides whether a trigger-turn wakeup is downgraded for a request.
pub trait WakeupPolicy {
    fn should_downgrade_trigger_turn(&self, request: &ContinueRequest) -> bool;
}

/// Decides whether tool-driven continuation hands off for a request.
pub trait ToolContinuationPolicy {
    fn should_request_handoff(&self, request: &ContinueRequest) -> bool;
}

#[derive(Clone, Copy, Debug, Default)]
pub struct DeterministicOrchestrator;

/// Every recent state change is "no meaningful change" (vacuously so when
/// there is none).
pub open spec fn repeated_without_change(r: ContinueRequest) -> bool {
    forall|i: int|
        0 <= i < r.recent_state_changes@.len() ==> #[trigger] r.recent_state_changes@[i]
            == StateChangeKind::NoMeaningfulChange
}

/// Follow-ups keep coming without changing anything.
pub open spec fn follow_up_loop(r: ContinueRequest) -> bool {
    r.repeated_follow_up_count >= 3 && repeated_without_change(r)
}

/// A long-running task has stalled and recovery made no progress.
pub open spec fn stalled(r: ContinueRequest) -> bool {
    r.progress.no_progress_iteration_count >= 3 && !r.recovery.last_recovery_had_progress
}

/// Turns after a compaction keep failing to make progress.
pub open spec fn post_compaction_stall(r: ContinueRequest) -> bool {
    r.post_compaction.pending_post_compaction && r.progress.no_progress_iteration_count >= 2
}

/// The continuation decision of the deterministic policy, field by field.
pub open spec fn continue_decided(r: ContinueRequest, d: ContinueDecision) -> bool {
    &&& !d.pause_for_approval
    &&& !d.consume_interrupts_now
    &&& !d.request_compaction
    &&& if follow_up_loop(r) {
        &&& !d.allow_continue
        &&& d.mode == ContinueMode::Handoff
        &&& d.rationale@ == "repeated follow-up without a meaningful state change"@
        &&& d.next_action is None
        &&& !d.may_continue_other_work
        &&& d.suppress_duplicate_injection
        &&& d.downgrade_trigger_turn
        &&& d.request_handoff_summary
        &&& d.request_checkpoint
        &&& !d.enter_self_correction
    } else if stalled(r) || post_compaction_stall(r) {
        &&& !d.allow_continue
        &&& d.mode == ContinueMode::Handoff
        &&& d.rationale@ == if stalled(r) {
            "long-running task stalled without measurable progress"@
        } else {
            "post-compaction turns are still failing to make progress"@
        }
        &&& d.next_action is None
        &&& !d.may_continue_other_work
        &&& d.suppress_duplicate_injection == (!stalled(r) || r.duplicate_injection_detected)
        &&& d.downgrade_trigger_turn
        &&& d.request_handoff_summary
        &&& d.request_checkpoint
        &&& !d.enter_self_correction
    } else {
        &&& d.allow_continue
        &&& d.mode == if r.continue_reason == ContinueReason::TriggerTurnWakeup
            && r.duplicate_injection_detected {
            ContinueMode::QueueOnly
        } else {
            ContinueMode::NextTurn
        }
        &&& d.rationale@ == "default deterministic continuation policy"@
        &&& opt_view(d.next_action) == opt_view(r.working_hypothesis)
        &&& d.may_continue_other_work
        &&& d.suppress_duplicate_injection == r.duplicate_injection_detected
        &&& !d.downgrade_trigger_turn
        &&& !d.request_handoff_summary
        &&& d.request_checkpoint == (r.progress.completed_steps > 0 && r.progress.completed_steps % 5 == 0)
        &&& d.enter_self_correction == (r.recovery.last_recovery_reason is Some
            && !r.recovery.last_recovery_had_progress)
    }
}

fn all_without_change(request: &ContinueRequest) -> (b: bool)
    ensures
        b == repeated_without_change(*request),
{
    let changes = &request.recent_state_changes;
    let mut i: usize = 0;
    while i < changes.len()
        invariant
            i <= changes@.len(),
            changes == &request.recent_state_changes,
            forall|k: int| 0 <= k < i ==> #[trigger] changes@[k] == StateChangeKind::NoMeaningfulChange,
        decreases changes.len() - i,
    {
        match changes[i] {
            StateChangeKind::NoMeaningfulChange => {},
            _ => {
                return false;
            },
        }
        i = i + 1;
    }
    true
}

fn clone_option(o: &Option<String>) -> (r: Option<String>)
    ensures
        r == *o,
{
    match o {
        Some(s) => Some(s.clone()),
        None => None,
    }
}

impl DeterministicOrchestrator {
    /// Decides whether a run continues: repeated follow-ups without any
    /// meaningful state change, a stalled task, or stalled post-compaction
    /// turns hand off; otherwise the run continues in the next turn (queued
    /// when a duplicate trigger-turn wakeup arrives). Never fails.
    pub fn decide_continue(&self, request: &ContinueRequest) -> (r: Result<ContinueDecision, OrchestratorError>)
        ensures
            r matches Ok(d) && continue_decided(*request, d),
    {
        let repeated_without_change = all_without_change(request);

        if request.repeated_follow_up_count >= 3 && repeated_without_change {
            return Ok(
                ContinueDecision {
                    allow_continue: false,
                    mode: ContinueMode::Handoff,
                    rationale: "repeated follow-up without a meaningful state change".to_string(),
                    next_action: None,
                    pause_for_approval: false,
                    consume_interrupts_now: false,
                    may_continue_other_work: false,
                    suppress_duplicate_injection: true,
                    downgrade_trigger_turn: true,
                    request_compaction: false,
                    request_handoff_summary: true,
                    request_checkpoint: true,
                    enter_self_correction: false,
                },
            );
        }

        if request.progress.no_progress_iteration_count >= 3
            && !request.recovery.last_recovery_had_progress {
            return Ok(
                ContinueDecision {
                    allow_continue: false,
                    mode: ContinueMode::Handoff,
                    rationale: "long-running task stalled without measurable progress".to_string(),
                    next_action: None,
                    pause_for_approval: false,
                    consume_interrupts_now: false,
                    may_continue_other_work: false,
                    suppress_duplicate_injection: request.duplicate_injection_detected,
                    downgrade_trigger_turn: true,
                    request_compaction: false,
                    request_handoff_summary: true,
                    request_checkpoint: true,
                    enter_self_correction: false,
                },
            );
        }

        if request.post_compaction.pending_post_compaction
            && request.progress.no_progress_iteration_count >= 2 {
            return Ok(
                ContinueDecision {
                    allow_continue: false,
                    mode: ContinueMode::Handoff,
                    rationale: "post-compaction turns are still failing to make progress".to_string(),
                    next_action: None,
                    pause_for_approval: false,
                    consume_interrupts_now: false,
                    may_continue_other_work: false,
                    suppress_duplicate_injection: true,
                    downgrade_trigger_turn: true,
                    request_compaction: false,
                    request_handoff_summary: true,
                    request_checkpoint: true,
                    enter_self_correction: false,
                },
            );
        }

        let queue = match request.continue_reason {
            ContinueReason::TriggerTurnWakeup => request.duplicate_injection_detected,
            _ => false,
        };
        Ok(
            ContinueDecision {
                allow_continue: true,
                mode: if queue {
                    ContinueMode::QueueOnly
                } else {
                    ContinueMode::NextTurn
                },
                rationale: "default deterministic continuation policy".to_string(),
                next_action: clone_option(&request.working_hypothesis),
                pause_for_approval: false,
                consume_interrupts_now: false,
                may_continue_other_work: true,
                suppress_duplicate_injection: request.duplicate_injection_detected,
                downgrade_trigger_turn: false,
                request_compaction: false,
                request_handoff_summary: false,
                request_checkpoint: request.progress.completed_steps > 0
                    && request.progress.completed_steps % 5 == 0,
                enter_self_correction: request.recovery.last_recovery_reason.is_some()
                    && !request.recovery.last_recovery_had_progress,
            },
        )
    }

    /// Recommends going on in the next turn with the request's first open
    /// question, if there is one. Never fails.
    pub fn plan_next_action(&self, request: &PlannerRequest) -> (r: Result<PlannedAction, OrchestratorError>)
        ensures
            r matches Ok(p) && p.recommended_mode == ContinueMode::NextTurn
                && p.recommended_next_action == (if request.open_questions@.len() > 0 {
                    Some(request.open_questions@[0])
                } else {
                    None
                }) && p.rationale@ == "default deterministic planner response"@
                && p.suggested_model.is_none(),
    {
        let first = if request.open_questions.len() > 0 {
            Some(request.open_questions[0].clone())
        } else {
            None
        };
        Ok(
            PlannedAction {
                recommended_mode: ContinueMode::NextTurn,
                recommended_next_action: first,
                rationale: "default deterministic planner response".to_string(),
                suggested_model: None,
            },
        )
    }
}

/// Some required input modality is not text.
pub open spec fn needs_multimodal(r: ModelSelectionRequest) -> bool {
    exists|i: int|
        0 <= i < r.intent.required_input_modalities@.len()
            && #[trigger] r.intent.required_input_modalities@[i] != InputModality::Text
}

fn any_non_text(request: &ModelSelectionRequest) -> (b: bool)
    ensures
        b == needs_multimodal(*request),
{
    let mods = &request.intent.required_input_modalities;
    let mut i: usize = 0;
    while i < mods.len()
        invariant
            i <= mods@.len(),
            mods == &request.intent.required_input_modalities,
            forall|k: int| 0 <= k < i ==> #[trigger] mods@[k] == InputModality::Text,
        decreases mods.len() - i,
    {
        match mods[i] {
            InputModality::Text => {},
            _ => {
                return true;
            },
        }
        i = i + 1;
    }
    false
}

impl ModelRouter for DeterministicOrchestrator {
    /// The single text model the deterministic router offers.
    fn list_capabilities(&self) -> (r: Result<Vec<ModelCapabilityDescriptor>, OrchestratorError>)
        ensures
            r matches Ok(v) && v@.len() == 1 && v@[0].model_id@ == "default-text"@
                && v@[0].provider_id@ == "default"@ && v@[0].input_modalities@ == seq![InputModality::Text]
                && v@[0].output_modalities@ == seq![
                OutputModality::Text,
                OutputModality::StructuredJson,
                OutputModality::ToolCall,
            ] && v@[0].max_context_window == Some(128000u32) && v@[0].supports_tool_use
                && v@[0].supports_parallel_tool_use && v@[0].supports_long_context
                && v@[0].supports_streaming && !v@[0].supports_audio_input
                && !v@[0].supports_image_input && !v@[0].supports_video_context
                && !v@[0].supports_hyperframes && v@[0].reasoning_modes@ == seq![
                ReasoningMode::Low,
                ReasoningMode::Medium,
            ] && v@[0].structured_output_modes@ == seq![
                StructuredOutputMode::Freeform,
                StructuredOutputMode::JsonSchema,
            ] && v@[0].execution_modes@ == seq![ExecutionMode::Interactive, ExecutionMode::Streaming]
                && !v@[0].supports_citations && !v@[0].supports_prompt_caching,
    {
        Ok(
            vec![
                ModelCapabilityDescriptor {
                    model_id: "default-text".to_string(),
                    provider_id: "default".to_string(),
                    input_modalities: vec![InputModality::Text],
                    output_modalities: vec![
                        OutputModality::Text,
                        OutputModality::StructuredJson,
                        OutputModality::ToolCall,
                    ],
                    max_context_window: Some(128_000),
                    supports_tool_use: true,
                    supports_parallel_tool_use: true,
                    supports_long_context: true,
                    supports_streaming: true,
                    supports_audio_input: false,
                    supports_image_input: false,
                    supports_video_context: false,
                    supports_hyperframes: false,
                    reasoning_modes: vec![ReasoningMode::Low, ReasoningMode::Medium],
                    structured_output_modes: vec![
                        StructuredOutputMode::Freeform,
                        StructuredOutputMode::JsonSchema,
                    ],
                    execution_modes: vec![ExecutionMode::Interactive, ExecutionMode::Streaming],
                    supports_citations: false,
                    supports_prompt_caching: false,
                },
            ],
        )
    }

    /// A request that needs any non-text input gets the multimodal model with
    /// the text model as fallback; a text-only request gets the text model.
    fn select_model(&self, request: &ModelSelectionRequest) -> (r: Result<
        ModelSelectionDecision,
        OrchestratorError,
    >)
        ensures
            r matches Ok(d) && d.selected_provider_id@ == "default"@ && if needs_multimodal(*request) {
                &&& d.selected_model_id@ == "multimodal-default"@
                &&& d.rationale@ == "non-text modality requested"@
                &&& opt_view(d.fallback_model_id) == Some("default-text"@)
            } else {
                &&& d.selected_model_id@ == "default-text"@
                &&& d.rationale@ == "text-only request"@
                &&& d.fallback_model_id is None
            },
    {
        let needs = any_non_text(request);
        Ok(
            if needs {
                ModelSelectionDecision {
                    selected_model_id: "multimodal-default".to_string(),
                    selected_provider_id: "default".to_string(),
                    rationale: "non-text modality requested".to_string(),
                    fallback_model_id: Some("default-text".to_string()),
                }
            } else {
                ModelSelectionDecision {
                    selected_model_id: "default-text".to_string(),
                    selected_provider_id: "default".to_string(),
                    rationale: "text-only request".to_string(),
                    fallback_model_id: None,
                }
            },
        )
    }
}

/// Repeated follow-ups that change nothing, or a stalled task, always end in a
/// handoff that downgrades the trigger turn and asks for a handoff summary.
pub proof fn lemma_loops_hand_off(r: ContinueRequest, d: ContinueDecision)
    requires
        continue_decided(r, d),
        follow_up_loop(r) || stalled(r) || post_compaction_stall(r),
    ensures
        !d.allow_continue,
        d.mode == ContinueMode::Handoff,
        d.downgrade_trigger_turn,
        d.request_handoff_summary,
        d.request_checkpoint,
{
}

/// A duplicate injection that was detected is always suppressed, and the
/// policy never pauses for approval, absorbs interrupts or asks for
/// compaction.
pub proof fn lemma_duplicates_suppressed(r: ContinueRequest, d: ContinueDecision)
    requires
        continue_decided(r, d),
    ensures
        r.duplicate_injection_detected ==> d.suppress_duplicate_injection,
        !d.pause_for_approval && !d.consume_interrupts_now && !d.request_compaction,
        d.allow_continue <==> d.may_continue_other_work,
{
}

/// The run continues exactly when it is neither caught in three or more
/// follow-ups that changed nothing, nor stalled for three or more iterations
/// without recovery progress, nor two or more iterations into failing
/// post-compaction turns.
pub proof fn lemma_continues_unless_looping_or_stalled(r: ContinueRequest, d: ContinueDecision)
    requires
        continue_decided(r, d),
    ensures
        d.allow_continue <==> !((r.repeated_follow_up_count >= 3 && forall|i: int|
            0 <= i < r.recent_state_changes@.len() ==> #[trigger] r.recent_state_changes@[i]
                == StateChangeKind::NoMeaningfulChange) || (r.progress.no_progress_iteration_count >= 3
            && !r.recovery.last_recovery_had_progress) || (r.post_compaction.pending_post_compaction
            && r.progress.no_progress_iteration_count >= 2)),
        !d.allow_continue ==> d.mode == ContinueMode::Handoff && d.next_action is None
            && d.request_handoff_summary && d.request_checkpoint && !d.enter_self_correction,
{
}

/// A run that continues does so in the next turn, except that a trigger-turn
/// wakeup arriving with a detected duplicate injection is only queued; it
/// carries the working hypothesis on as the next action, may continue other
/// work, and checkpoints every fifth completed step.
pub proof fn lemma_duplicate_wakeup_is_queued(r: ContinueRequest, d: ContinueDecision)
    requires
        continue_decided(r, d),
        d.allow_continue,
    ensures
        d.mode == ContinueMode::QueueOnly <==> (r.continue_reason == ContinueReason::TriggerTurnWakeup
            && r.duplicate_injection_detected),
        d.mode == ContinueMode::QueueOnly || d.mode == ContinueMode::NextTurn,
        opt_view(d.next_action) == opt_view(r.working_hypothesis),
        d.may_continue_other_work,
        !d.downgrade_trigger_turn,
        d.suppress_duplicate_injection == r.duplicate_injection_detected,
        d.request_checkpoint == (r.progress.completed_steps > 0 && r.progress.completed_steps % 5 == 0),
        d.enter_self_correction == (r.recovery.last_recovery_reason is Some
            && !r.recovery.last_recovery_had_progress),
{
}

/// Under the deterministic policy, when no follow-up loop and no stall is
/// present, a duplicate trigger-turn wakeup is decided as queued.
pub proof fn lemma_duplicate_wakeup_without_stall_queues(r: ContinueRequest, d: ContinueDecision)
    requires
        continue_decided(r, d),
        r.repeated_follow_up_count < 3,
        r.progress.no_progress_iteration_count < 2,
        r.continue_reason == ContinueReason::TriggerTurnWakeup,
        r.duplicate_injection_detected,
    ensures
        d.allow_continue,
        d.mode == ContinueMode::QueueOnly,
{
}

} // verus!
