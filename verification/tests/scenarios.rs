use muldex::protocol::{ContinueMode, MediaKind, MediaSource, RecoveryReason};
use muldex::reasoning_harness::{decide_reasoning_harness, ProhibitionRule};
use muldex::protocol::{PermissionActionKind, PermissionDecisionStatus};
use muldex::scenarios::{
    approval_pause_decision, approval_resume_decision, pull_request_approved,
    with_pull_request_approval, continue_request_from_harness, runtime_harness_request,
    daemon_decision, restored_host_decision, crate_media_asset, decision_from_harness, decision_lines,
    objective_option_error, sample_request, workspace_request, Scenario,
};

#[test]
fn media_asset_is_a_local_video() {
    let a = crate_media_asset("video-1", "clips/demo.mp4");
    assert_eq!(a.asset_id, "video-1");
    assert_eq!(a.kind, MediaKind::Video);
    assert_eq!(a.source, MediaSource::LocalPath { path: "clips/demo.mp4".to_string() });
    assert_eq!(a.display_name.as_deref(), Some("video-1"));
}

#[test]
fn healthy_sample_continues_at_the_safe_point() {
    let r = sample_request(Scenario::Healthy);
    assert_eq!(r.objective, "continue a long-running coding task");
    assert_eq!(r.progress.no_progress_iteration_count, 1);
    assert!(r.media_context.is_empty());
    let d = decide_reasoning_harness(&r);
    assert_eq!(d.mode, ContinueMode::SameTurn);
    assert_eq!(d.rationale, "continue at the current safe point to absorb queued interrupt state");
    assert!(d.violated_rules.is_empty());
}

#[test]
fn no_progress_sample_hands_off() {
    let r = sample_request(Scenario::NoProgress);
    assert_eq!(r.progress.no_progress_iteration_count, 3);
    let report = r.last_run_report.as_ref().unwrap();
    assert_eq!(report.run_id, "run-no-progress-1");
    assert_eq!(report.objective, r.objective);
    let d = decide_reasoning_harness(&r);
    assert_eq!(d.mode, ContinueMode::Handoff);
    assert!(d.should_checkpoint);
    assert_eq!(d.violated_rules, vec![ProhibitionRule::NoRepeatedNoProgressContinuation]);
}

#[test]
fn recoverable_failure_sample_self_corrects() {
    let r = sample_request(Scenario::RecoverableFailure);
    assert_eq!(r.recovery.last_recovery_reason, Some(RecoveryReason::ToolFailure));
    assert_eq!(
        r.pending_approval.active_request.as_ref().map(|p| p.request_id.as_str()),
        Some("approval-tool-retry")
    );
    let d = decide_reasoning_harness(&r);
    assert_eq!(d.mode, ContinueMode::SameTurn);
    assert!(d.should_enter_self_correction);
    assert_eq!(d.violated_rules, vec![ProhibitionRule::NoFakeProgress]);
}

#[test]
fn post_compaction_sample_marks_the_first_turn() {
    let r = sample_request(Scenario::PostCompactionStall);
    assert!(r.post_compaction.pending_post_compaction);
    assert!(r.post_compaction.first_post_compaction_turn);
    assert_eq!(r.progress.no_progress_iteration_count, 2);
    let d = decide_reasoning_harness(&r);
    assert_eq!(d.mode, ContinueMode::SameTurn);
    assert!(d.should_enter_self_correction);
}

#[test]
fn media_heavy_sample_carries_the_demo_video() {
    let r = sample_request(Scenario::MediaHeavy);
    assert_eq!(r.objective, "analyze multimodal evidence and continue safely");
    assert_eq!(r.media_context.len(), 1);
    assert_eq!(r.media_context[0].asset.asset_id, "video-1");
    assert_eq!(r.media_context[0].token_budget_hint, Some(4096));
}

#[test]
fn workspace_objective_options() {
    assert_eq!(
        objective_option_error(true, true).as_deref(),
        Some("provide either --objective or --objective-file, not both")
    );
    assert_eq!(objective_option_error(false, false).as_deref(), Some("provide --objective or --objective-file"));
    assert_eq!(objective_option_error(true, false), None);
    assert_eq!(objective_option_error(false, true), None);
}

#[test]
fn workspace_request_describes_the_workspace() {
    let r = workspace_request("/tmp/ws", "  fix the build \n", true, "plan".to_string(), 2, true, true);
    assert_eq!(r.objective, "fix the build");
    assert_eq!(r.evidence_scope, vec!["workspace: /tmp/ws".to_string(), "workspace_kind: git repository".to_string()]);
    assert_eq!(r.runtime_mode.active_agent_mode.as_deref(), Some("plan"));
    assert_eq!(r.progress.no_progress_iteration_count, 2);
    assert!(r.post_compaction.pending_post_compaction);
    assert_eq!(r.self_correction.last_correction_target.as_deref(), Some("retry failed step in real workspace"));
    let plain = workspace_request("w", "x", false, "build".to_string(), 0, false, false);
    assert_eq!(plain.evidence_scope[1], "workspace_kind: non-git workspace");
    assert!(!plain.self_correction.active);
    assert_eq!(plain.recovery.last_recovery_reason, Some(RecoveryReason::PartialResult));
}

#[test]
fn handoff_decision_lines_list_the_violated_rules() {
    let d = decide_reasoning_harness(&sample_request(Scenario::NoProgress));
    let lines = decision_lines(&d);
    assert_eq!(lines.len(), 8);
    assert_eq!(lines[0], "mode: handoff");
    assert_eq!(lines[1], "checkpoint: true");
    assert_eq!(lines[6], format!("rationale: {}", d.rationale));
    assert_eq!(lines[7], "violated_rules: [NoRepeatedNoProgressContinuation]");
}

#[test]
fn healthy_decision_lines_have_no_rule_line() {
    let d = decide_reasoning_harness(&sample_request(Scenario::Healthy));
    let lines = decision_lines(&d);
    assert_eq!(lines.len(), 7);
    assert_eq!(lines[0], "mode: same_turn");
    assert!(lines.iter().all(|l| !l.starts_with("violated_rules")));
}

#[test]
fn harness_handoff_stops_the_runtime() {
    let d = decide_reasoning_harness(&sample_request(Scenario::NoProgress));
    let c = decision_from_harness(&d);
    assert!(!c.allow_continue);
    assert!(c.request_handoff_summary);
    assert_eq!(c.mode, ContinueMode::Handoff);
    assert_eq!(c.rationale, d.rationale);
    assert!(c.request_checkpoint);
    let healthy = decision_from_harness(&decide_reasoning_harness(&sample_request(Scenario::Healthy)));
    assert!(healthy.allow_continue);
    assert!(!healthy.request_handoff_summary);
}

#[test]
fn continue_request_defaults_to_the_first_thread() {
    let r = sample_request(Scenario::Healthy);
    let objective = r.objective.clone();
    let c = continue_request_from_harness(r);
    assert_eq!(c.thread_id, "thread-1");
    assert_eq!(c.turn_id, "turn-5");
    assert_eq!(c.objective, objective);
    assert_eq!(c.pending_input_count, 0);
    assert_eq!(c.recent_state_changes.len(), 1);
    let mut w = workspace_request("w", "x", false, "build".to_string(), 0, false, false);
    w.codex_continuation = None;
    let c = continue_request_from_harness(w);
    assert_eq!(c.thread_id, "thread-1");
    assert_eq!(c.turn_id, "turn-1");
}

#[test]
fn approval_demo_blocks_then_resumes() {
    let base = sample_request(Scenario::Healthy);
    let r = with_pull_request_approval(base.clone());
    let p = r.pending_approval.active_request.as_ref().unwrap();
    assert_eq!(p.request_id, "approval-demo-1");
    assert_eq!(p.action_kind, PermissionActionKind::RemoteMutation);
    assert!(r.pending_approval.blocked_on_approval);
    assert_eq!(r.objective, base.objective);
    assert_eq!(r.pending_approval.recent_decision, base.pending_approval.recent_decision);
    let pause = approval_pause_decision();
    assert!(!pause.allow_continue && pause.pause_for_approval);
    assert_eq!(pause.mode, ContinueMode::QueueOnly);
    let d = pull_request_approved();
    assert_eq!(d.status, PermissionDecisionStatus::Approved);
    assert_eq!(d.request_id, p.request_id);
    let resume = approval_resume_decision();
    assert!(resume.allow_continue);
    assert_eq!(resume.next_action.as_deref(), Some("continue verification"));
}

#[test]
fn runtime_step_decides_on_the_kept_state() {
    let r = sample_request(Scenario::MediaHeavy);
    let kept = runtime_harness_request(r.clone());
    assert!(kept.evidence_scope.is_empty());
    assert!(kept.media_context.is_empty());
    assert!(kept.prohibited_behaviors.is_empty());
    assert_eq!(kept.objective, r.objective);
    assert_eq!(kept.progress, r.progress);
    assert_eq!(kept.escalation_policy.no_progress_limit, 3);
    assert_eq!(kept.escalation_policy.repeated_compaction_limit, 2);
}

#[test]
fn daemon_and_host_decisions() {
    let probe = daemon_decision(false);
    assert_eq!(probe.mode, ContinueMode::QueueOnly);
    assert_eq!(probe.rationale, "status probe through daemon transport");
    assert!(probe.next_action.is_none() && probe.allow_continue);
    let advance = daemon_decision(true);
    assert_eq!(advance.mode, ContinueMode::NextTurn);
    assert_eq!(advance.next_action.as_deref(), Some("continue sample work"));
    let restored = restored_host_decision();
    assert_eq!(restored.rationale, "resume from restored host state");
    assert!(restored.may_continue_other_work && !restored.pause_for_approval);
}
