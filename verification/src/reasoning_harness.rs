//! The reasoning harness: a deterministic gate that decides whether a run may
//! keep going, must queue, hand off, or self-correct, and which of its
//! prohibition rules the current state violates.
use vstd::prelude::*;

use crate::protocol::CapabilityRegistrySnapshot;
use crate::protocol::CheckpointRef;
use crate::protocol::CodexSessionContinuationSnapshot;
use crate::protocol::ContextPressure;
use crate::protocol::ContinueMode;
use crate::protocol::InterruptInjectionMode;
use crate::protocol::InterruptQueueState;
use crate::protocol::MediaContextEnvelope;
use crate::protocol::PendingApprovalState;
use crate::protocol::PermissionContextSnapshot;
use crate::protocol::PostCompactionState;
use crate::protocol::ProgressSnapshot;
use crate::protocol::RecoverySnapshot;
use crate::protocol::RunReport;
use crate::protocol::RuntimeModeState;
use crate::protocol::SelfCorrectionState;

verus! {

#[derive(Clone, Copy, Debug, PartialEq, Eq, Structural)]
pub enum ProhibitionRule {
    NoFakeProgress,
    NoDuplicateInjection,
    NoSilentScopeExpansion,
    NoUnverifiedCompletion,
    NoRepeatedNoProgressContinuation,
    NoSilentModelSwitch,
    NoSilentExecutionModeSwitch,
}

#[derive(Clone, Debug, PartialEq, Eq)]
pub struct EscalationPolicy {
    pub no_progress_limit: u32,
    pub repeated_compaction_limit: u32,
    pub self_correction_limit: u32,
    pub request_checkpoint_before_handoff: bool,
}

#[derive(Clone, Debug, PartialEq, Eq)]
pub struct ReasoningHarnessRequest {
    pub objective: String,
    pub constraints: Vec<String>,
    pub evidence_scope: Vec<String>,
    pub allowed_capability_classes: Vec<String>,
    pub prohibited_behaviors: Vec<ProhibitionRule>,
    pub progress: ProgressSnapshot,
    pub recovery: RecoverySnapshot,
    pub last_checkpoint: Option<CheckpointRef>,
    pub self_correction: SelfCorrectionState,
    pub post_compaction: PostCompactionState,
    pub runtime_mode: RuntimeModeState,
    pub pending_approval: PendingApprovalState,
    pub interrupts: InterruptQueueState,
    pub last_run_report: Option<RunReport>,
    pub safety: PermissionContextSnapshot,
    pub codex_continuation: Option<CodexSessionContinuationSnapshot>,
    pub context_pressure: ContextPressure,
    pub media_context: Vec<MediaContextEnvelope>,
    pub capability_registry: CapabilityRegistrySnapshot,
    pub escalation_policy: EscalationPolicy,
}

#[derive(Clone, Debug, PartialEq, Eq)]
pub struct ReasoningHarnessDecision {
    pub mode: ContinueMode,
    pub rationale: String,
    pub should_checkpoint: bool,
    pub should_enter_self_correction: bool,
    pub pause_for_approval: bool,
    pub consume_interrupts_now: bool,
    pub may_continue_other_work: bool,
    pub violated_rules: Vec<ProhibitionRule>,
}

// ---------------------------------------------------------------------
// the decision, field by field

/// The run has gone `no_progress_limit` iterations without progress.
pub open spec fn no_progress_violation(r: ReasoningHarnessRequest) -> bool {
    r.progress.no_progress_iteration_count >= r.escalation_policy.no_progress_limit
}

/// Self-correction has been attempted `self_correction_limit` times.
pub open spec fn self_correction_violation(r: ReasoningHarnessRequest) -> bool {
    r.self_correction.correction_attempt_count >= r.escalation_policy.self_correction_limit
}

/// Repeated compactions without any state change in between.
pub open spec fn compaction_violation(r: ReasoningHarnessRequest) -> bool {
    r.context_pressure.recent_compaction_count >= r.escalation_policy.repeated_compaction_limit
        && !r.context_pressure.last_compaction_had_state_change
}

/// Any escalation limit is reached.
pub open spec fn escalation_reached(r: ReasoningHarnessRequest) -> bool {
    no_progress_violation(r) || self_correction_violation(r) || compaction_violation(r)
}

/// Self-correction is in progress although recovery made no progress.
pub open spec fn fake_progress(r: ReasoningHarnessRequest) -> bool {
    !r.recovery.last_recovery_had_progress && r.self_correction.active
}

/// The rules the request violates, in the order the harness reports them.
pub open spec fn harness_violations(r: ReasoningHarnessRequest) -> Seq<ProhibitionRule> {
    (if no_progress_violation(r) {
        seq![ProhibitionRule::NoRepeatedNoProgressContinuation]
    } else {
        Seq::empty()
    }) + (if fake_progress(r) {
        seq![ProhibitionRule::NoFakeProgress]
    } else {
        Seq::empty()
    })
}

/// A queued interrupt asks to be absorbed at the next safe point.
pub open spec fn has_immediate_interrupt(r: ReasoningHarnessRequest) -> bool {
    exists|i: int|
        0 <= i < r.interrupts.pending_interrupts@.len()
            && (#[trigger] r.interrupts.pending_interrupts@[i]).injection_mode
            == InterruptInjectionMode::ImmediateSafePoint
}

/// A recoverable failure that self-correction may still address.
pub open spec fn self_correction_due(r: ReasoningHarnessRequest) -> bool {
    r.recovery.last_recovery_reason is Some && !r.recovery.last_recovery_had_progress
        && r.self_correction.correction_attempt_count < r.escalation_policy.self_correction_limit
        && !r.safety.requires_explicit_approval_for_next_step
}

pub open spec fn blocked(r: ReasoningHarnessRequest) -> bool {
    r.pending_approval.blocked_on_approval
}

pub open spec fn harness_mode(r: ReasoningHarnessRequest) -> ContinueMode {
    if blocked(r) {
        if r.pending_approval.may_continue_other_work {
            ContinueMode::QueueOnly
        } else {
            ContinueMode::Handoff
        }
    } else if escalation_reached(r) {
        ContinueMode::Handoff
    } else if self_correction_due(r) || has_immediate_interrupt(r) {
        ContinueMode::SameTurn
    } else {
        ContinueMode::NextTurn
    }
}

pub open spec fn harness_rationale(r: ReasoningHarnessRequest) -> Seq<char> {
    if blocked(r) {
        if r.pending_approval.may_continue_other_work {
            "pause risky continuation and queue follow-up while awaiting approval"@
        } else {
            "handoff because the run is blocked on approval and cannot continue other work"@
        }
    } else if escalation_reached(r) {
        "reasoning harness blocked further low-value continuation"@
    } else if self_correction_due(r) {
        "enter self-correction under harness policy"@
    } else if has_immediate_interrupt(r) {
        "continue at the current safe point to absorb queued interrupt state"@
    } else {
        "continue under harness policy"@
    }
}

pub open spec fn harness_checkpoint(r: ReasoningHarnessRequest) -> bool {
    if blocked(r) || escalation_reached(r) {
        r.escalation_policy.request_checkpoint_before_handoff
    } else {
        r.progress.completed_steps > 0 && r.progress.completed_steps % 5 == 0
    }
}

pub open spec fn harness_self_correction(r: ReasoningHarnessRequest) -> bool {
    !blocked(r) && !escalation_reached(r) && self_correction_due(r)
}

pub open spec fn harness_pause(r: ReasoningHarnessRequest) -> bool {
    blocked(r)
}

pub open spec fn harness_consume_interrupts(r: ReasoningHarnessRequest) -> bool {
    !blocked(r) && !escalation_reached(r) && has_immediate_interrupt(r)
}

pub open spec fn harness_may_continue(r: ReasoningHarnessRequest) -> bool {
    if blocked(r) {
        r.pending_approval.may_continue_other_work
    } else {
        !escalation_reached(r)
    }
}

/// The decision matches the harness policy for the request, field by field.
pub open spec fn harness_decides(r: ReasoningHarnessRequest, d: ReasoningHarnessDecision) -> bool {
    &&& d.mode == harness_mode(r)
    &&& d.rationale@ == harness_rationale(r)
    &&& d.should_checkpoint == harness_checkpoint(r)
    &&& d.should_enter_self_correction == harness_self_correction(r)
    &&& d.pause_for_approval == harness_pause(r)
    &&& d.consume_interrupts_now == harness_consume_interrupts(r)
    &&& d.may_continue_other_work == harness_may_continue(r)
    &&& d.violated_rules@ == harness_violations(r)
}

fn any_immediate_interrupt(request: &ReasoningHarnessRequest) -> (r: bool)
    ensures
        r == has_immediate_interrupt(*request),
{
    let interrupts = &request.interrupts.pending_interrupts;
    let mut i: usize = 0;
    while i < interrupts.len()
        invariant
            i <= interrupts@.len(),
            interrupts == &request.interrupts.pending_interrupts,
            forall|k: int|
                0 <= k < i ==> (#[trigger] interrupts@[k]).injection_mode
                    != InterruptInjectionMode::ImmediateSafePoint,
        decreases interrupts.len() - i,
    {
        match interrupts[i].injection_mode {
            InterruptInjectionMode::ImmediateSafePoint => {
                return true;
            },
            InterruptInjectionMode::NextTurn => {},
        }
        i = i + 1;
    }
    false
}

/// Decides how a run continues under the harness policy: approval blocks
/// first, then any reached escalation limit hands off, then self-correction or
/// an immediate interrupt keeps the current turn, and otherwise the run moves
/// on to the next turn.
pub fn decide_reasoning_harness(request: &ReasoningHarnessRequest) -> (d: ReasoningHarnessDecision)
    ensures
        harness_decides(*request, d),
{
    let no_progress_violation = request.progress.no_progress_iteration_count
        >= request.escalation_policy.no_progress_limit;
    let self_correction_violation = request.self_correction.correction_attempt_count
        >= request.escalation_policy.self_correction_limit;
    let compaction_violation = request.context_pressure.recent_compaction_count
        >= request.escalation_policy.repeated_compaction_limit
        && !request.context_pressure.last_compaction_had_state_change;

    let mut violated_rules: Vec<ProhibitionRule> = Vec::new();
    if no_progress_violation {
        violated_rules.push(ProhibitionRule::NoRepeatedNoProgressContinuation);
    }
    if !request.recovery.last_recovery_had_progress && request.self_correction.active {
        violated_rules.push(ProhibitionRule::NoFakeProgress);
    }
    assert(violated_rules@ =~= harness_violations(*request));

    if request.pending_approval.blocked_on_approval {
        let may_continue = request.pending_approval.may_continue_other_work;
        return ReasoningHarnessDecision {
            mode: if may_continue {
                ContinueMode::QueueOnly
            } else {
                ContinueMode::Handoff
            },
            rationale: if may_continue {
                "pause risky continuation and queue follow-up while awaiting approval".to_string()
            } else {
                "handoff because the run is blocked on approval and cannot continue other work".to_string()
            },
            should_checkpoint: request.escalation_policy.request_checkpoint_before_handoff,
            should_enter_self_correction: false,
            pause_for_approval: true,
            consume_interrupts_now: false,
            may_continue_other_work: may_continue,
            violated_rules,
        };
    }

    if no_progress_violation || self_correction_violation || compaction_violation {
        return ReasoningHarnessDecision {
            mode: ContinueMode::Handoff,
            rationale: "reasoning harness blocked further low-value continuation".to_string(),
            should_checkpoint: request.escalation_policy.request_checkpoint_before_handoff,
            should_enter_self_correction: false,
            pause_for_approval: false,
            consume_interrupts_now: false,
            may_continue_other_work: false,
            violated_rules,
        };
    }

    let should_enter_self_correction = request.recovery.last_recovery_reason.is_some()
        && !request.recovery.last_recovery_had_progress
        && request.self_correction.correction_attempt_count
        < request.escalation_policy.self_correction_limit
        && !request.safety.requires_explicit_approval_for_next_step;

    let has_immediate_safe_point_interrupt = any_immediate_interrupt(request);

    let mode = if should_enter_self_correction || has_immediate_safe_point_interrupt {
        ContinueMode::SameTurn
    } else {
        ContinueMode::NextTurn
    };

    let rationale = if should_enter_self_correction {
        "enter self-correction under harness policy".to_string()
    } else if has_immediate_safe_point_interrupt {
        "continue at the current safe point to absorb queued interrupt state".to_string()
    } else {
        "continue under harness policy".to_string()
    };

    ReasoningHarnessDecision {
        mode,
        rationale,
        should_checkpoint: request.progress.completed_steps > 0 && request.progress.completed_steps
            % 5 == 0,
        should_enter_self_correction,
        pause_for_approval: false,
        consume_interrupts_now: has_immediate_safe_point_interrupt,
        may_continue_other_work: true,
        violated_rules,
    }
}


// ---------------------------------------------------------------------
// laws of the harness

/// A run that keeps failing to make progress is never continued: once the
/// no-progress limit is reached the harness only queues or hands off, and it
/// reports the violated rule.
pub proof fn lemma_no_progress_never_continues(r: ReasoningHarnessRequest, d: ReasoningHarnessDecision)
    requires
        harness_decides(r, d),
        no_progress_violation(r),
    ensures
        d.mode == ContinueMode::QueueOnly || d.mode == ContinueMode::Handoff,
        d.violated_rules@.contains(ProhibitionRule::NoRepeatedNoProgressContinuation),
{
    assert(d.violated_rules@[0] == ProhibitionRule::NoRepeatedNoProgressContinuation);
}

/// Compaction that keeps happening without any state change ends the run in a
/// handoff unless the run is waiting on approval.
pub proof fn lemma_stalled_compaction_hands_off(r: ReasoningHarnessRequest, d: ReasoningHarnessDecision)
    requires
        harness_decides(r, d),
        compaction_violation(r),
        !r.pending_approval.blocked_on_approval,
    ensures
        d.mode == ContinueMode::Handoff,
        !d.may_continue_other_work,
        d.should_checkpoint == r.escalation_policy.request_checkpoint_before_handoff,
{
}

/// While the run waits on approval it pauses, never absorbs interrupts, never
/// enters self-correction, and does not continue in the current or next turn.
pub proof fn lemma_approval_blocks_continuation(r: ReasoningHarnessRequest, d: ReasoningHarnessDecision)
    requires
        harness_decides(r, d),
        r.pending_approval.blocked_on_approval,
    ensures
        d.pause_for_approval,
        !d.consume_interrupts_now,
        !d.should_enter_self_correction,
        d.mode != ContinueMode::SameTurn && d.mode != ContinueMode::NextTurn,
        d.may_continue_other_work == r.pending_approval.may_continue_other_work,
{
}

/// Self-correction and interrupt absorption both happen inside the current
/// turn, and the harness pauses for approval only when the run is blocked.
pub proof fn lemma_same_turn_actions(r: ReasoningHarnessRequest, d: ReasoningHarnessDecision)
    requires
        harness_decides(r, d),
    ensures
        d.should_enter_self_correction ==> d.mode == ContinueMode::SameTurn,
        d.consume_interrupts_now ==> d.mode == ContinueMode::SameTurn,
        d.pause_for_approval <==> r.pending_approval.blocked_on_approval,
        !(d.pause_for_approval && d.consume_interrupts_now),
{
}

/// Other work stops exactly when the harness hands off.
pub proof fn lemma_handoff_stops_other_work(r: ReasoningHarnessRequest, d: ReasoningHarnessDecision)
    requires
        harness_decides(r, d),
    ensures
        d.mode == ContinueMode::Handoff <==> !d.may_continue_other_work,
        d.mode == ContinueMode::Handoff ==> d.should_checkpoint
            == r.escalation_policy.request_checkpoint_before_handoff,
{
}

/// The decision is a function of the request: two decisions for the same
/// request agree on every field.
pub proof fn lemma_decision_deterministic(
    r: ReasoningHarnessRequest,
    d1: ReasoningHarnessDecision,
    d2: ReasoningHarnessDecision,
)
    requires
        harness_decides(r, d1),
        harness_decides(r, d2),
    ensures
        d1.mode == d2.mode,
        d1.rationale@ == d2.rationale@,
        d1.violated_rules@ == d2.violated_rules@,
        d1.should_checkpoint == d2.should_checkpoint,
        d1.should_enter_self_correction == d2.should_enter_self_correction,
        d1.pause_for_approval == d2.pause_for_approval,
        d1.consume_interrupts_now == d2.consume_interrupts_now,
        d1.may_continue_other_work == d2.may_continue_other_work,
{
}

/// A run that is not waiting on approval is handed off exactly when an
/// escalation limit is reached: the no-progress count reached its limit,
/// self-correction was tried as often as allowed, or compaction keeps
/// repeating without a state change. A handoff then stops other work,
/// checkpoints as the policy asks, reports the blocked continuation and
/// neither self-corrects nor absorbs interrupts.
pub proof fn lemma_escalation_limits_hand_off(r: ReasoningHarnessRequest, d: ReasoningHarnessDecision)
    requires
        harness_decides(r, d),
        !r.pending_approval.blocked_on_approval,
    ensures
        d.mode == ContinueMode::Handoff <==> (r.progress.no_progress_iteration_count
            >= r.escalation_policy.no_progress_limit || r.self_correction.correction_attempt_count
            >= r.escalation_policy.self_correction_limit || (r.context_pressure.recent_compaction_count
            >= r.escalation_policy.repeated_compaction_limit
            && !r.context_pressure.last_compaction_had_state_change)),
        d.mode == ContinueMode::Handoff ==> {
            &&& !d.may_continue_other_work
            &&& d.rationale@ == "reasoning harness blocked further low-value continuation"@
            &&& d.should_checkpoint == r.escalation_policy.request_checkpoint_before_handoff
            &&& !d.should_enter_self_correction
            &&& !d.consume_interrupts_now
            &&& !d.pause_for_approval
        },
        d.mode != ContinueMode::QueueOnly,
{
}

/// Once self-correction has been attempted as often as the policy allows, a
/// run that is not waiting on approval is handed off and stops other work,
/// with a checkpoint exactly when the policy asks for one before handoffs.
pub proof fn lemma_exhausted_self_correction_hands_off(
    r: ReasoningHarnessRequest,
    d: ReasoningHarnessDecision,
)
    requires
        harness_decides(r, d),
        !r.pending_approval.blocked_on_approval,
        r.self_correction.correction_attempt_count >= r.escalation_policy.self_correction_limit,
    ensures
        d.mode == ContinueMode::Handoff,
        !d.may_continue_other_work,
        !d.should_enter_self_correction,
        d.rationale@ == "reasoning harness blocked further low-value continuation"@,
        d.should_checkpoint == r.escalation_policy.request_checkpoint_before_handoff,
{
}

/// Below every escalation limit and not waiting on approval, the run goes on
/// and may continue other work: in the current turn when a recoverable
/// failure still leaves room for self-correction (and no approval is needed
/// for the next step) or an interrupt asks for the next safe point, else in
/// the next turn, checkpointing every fifth completed step.
pub proof fn lemma_below_limits_continues(r: ReasoningHarnessRequest, d: ReasoningHarnessDecision)
    requires
        harness_decides(r, d),
        !r.pending_approval.blocked_on_approval,
        r.progress.no_progress_iteration_count < r.escalation_policy.no_progress_limit,
        r.self_correction.correction_attempt_count < r.escalation_policy.self_correction_limit,
        r.context_pressure.recent_compaction_count < r.escalation_policy.repeated_compaction_limit
            || r.context_pressure.last_compaction_had_state_change,
    ensures
        d.may_continue_other_work,
        !d.pause_for_approval,
        d.should_enter_self_correction <==> (r.recovery.last_recovery_reason is Some
            && !r.recovery.last_recovery_had_progress
            && !r.safety.requires_explicit_approval_for_next_step),
        d.consume_interrupts_now <==> (exists|i: int|
            0 <= i < r.interrupts.pending_interrupts@.len()
                && (#[trigger] r.interrupts.pending_interrupts@[i]).injection_mode
                == InterruptInjectionMode::ImmediateSafePoint),
        d.mode == (if d.should_enter_self_correction || d.consume_interrupts_now {
            ContinueMode::SameTurn
        } else {
            ContinueMode::NextTurn
        }),
        d.should_checkpoint == (r.progress.completed_steps > 0 && r.progress.completed_steps % 5 == 0),
{
}

/// The harness reports the no-progress rule exactly when the no-progress
/// limit is reached, and fake progress exactly when self-correction runs
/// although recovery made no progress, each at most once.
pub proof fn lemma_violations_reported(r: ReasoningHarnessRequest, d: ReasoningHarnessDecision)
    requires
        harness_decides(r, d),
    ensures
        d.violated_rules@.contains(ProhibitionRule::NoRepeatedNoProgressContinuation) <==> r.progress.no_progress_iteration_count
            >= r.escalation_policy.no_progress_limit,
        d.violated_rules@.contains(ProhibitionRule::NoFakeProgress) <==> (!r.recovery.last_recovery_had_progress
            && r.self_correction.active),
        d.violated_rules@.len() <= 2,
{
    let v = d.violated_rules@;
    if v.contains(ProhibitionRule::NoRepeatedNoProgressContinuation) {
        let i = choose|i: int| 0 <= i < v.len() && v[i] == ProhibitionRule::NoRepeatedNoProgressContinuation;
        assert(i == 0 || i == 1);
    }
    if r.progress.no_progress_iteration_count >= r.escalation_policy.no_progress_limit {
        assert(v[0] == ProhibitionRule::NoRepeatedNoProgressContinuation);
    }
    if v.contains(ProhibitionRule::NoFakeProgress) {
        let i = choose|i: int| 0 <= i < v.len() && v[i] == ProhibitionRule::NoFakeProgress;
        assert(i == 0 || i == 1);
    }
    if !r.recovery.last_recovery_had_progress && r.self_correction.active {
        assert(v[v.len() - 1] == ProhibitionRule::NoFakeProgress);
    }
}

} // verus!
