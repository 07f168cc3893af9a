//! Data exchanged between the runtime, the orchestrators and the reasoning
//! harness: continuation requests and decisions, progress and recovery
//! snapshots, media context, capability descriptors, approvals and interrupts.
use vstd::prelude::*;

verus! {

#[derive(Clone, Copy, Debug, PartialEq, Eq, Structural)]
pub enum ContinueReason {
    ModelFollowUp,
    ToolResult,
    PendingInput,
    TriggerTurnWakeup,
    ManualUserRequest,
    CompactionRecovery,
}

#[derive(Clone, Copy, Debug, PartialEq, Eq, Structural)]
pub enum StateChangeKind {
    CodeEdit,
    NewConfirmedFinding,
    NewError,
    UserDecision,
    ToolSideEffect,
    NoMeaningfulChange,
}

#[derive(Clone, Debug, PartialEq, Eq, Default)]
pub struct ContextPressure {
    pub model_context_window: Option<u32>,
    pub active_context_tokens: Option<u32>,
    pub auto_compact_scope_tokens: Option<u32>,
    pub auto_compact_limit: Option<u32>,
    pub tokens_until_compaction: Option<u32>,
    pub recent_compaction_count: u32,
    pub last_compaction_had_state_change: bool,
}

#[derive(Clone, Debug, PartialEq, Eq)]
pub struct ProgressSnapshot {
    pub completed_steps: u32,
    pub total_steps_hint: Option<u32>,
    pub last_meaningful_progress_at_ms: Option<u64>,
    pub no_progress_iteration_count: u32,
}

#[derive(Clone, Copy, Debug, PartialEq, Eq, Structural)]
pub enum RecoveryReason {
    ToolFailure,
    PartialResult,
    ContextPressure,
    TransientModelFailure,
    ExternalDependencyUnavailable,
}

#[derive(Clone, Debug, PartialEq, Eq)]
pub struct RecoverySnapshot {
    pub last_recovery_reason: Option<RecoveryReason>,
    pub recovery_attempt_count: u32,
    pub last_recovery_had_progress: bool,
}

#[derive(Clone, Debug, PartialEq, Eq)]
pub struct CheckpointRef {
    pub checkpoint_id: String,
    pub thread_id: String,
    pub turn_id: String,
    pub created_at_ms: u64,
    pub summary: String,
}

#[derive(Clone, Debug, PartialEq, Eq)]
pub struct SelfCorrectionState {
    pub active: bool,
    pub correction_attempt_count: u32,
    pub last_correction_target: Option<String>,
    pub last_correction_had_progress: bool,
}

#[derive(Clone, Debug, PartialEq, Eq, Default)]
pub struct PostCompactionState {
    pub pending_post_compaction: bool,
    pub first_post_compaction_turn: bool,
    pub compaction_window_id: Option<String>,
    pub last_compaction_checkpoint_id: Option<String>,
}

#[derive(Clone, Debug, PartialEq, Eq)]
pub struct SkillInvocationState {
    pub skill_id: String,
    pub invocation_ref: Option<String>,
    pub invoked_at_ms: Option<u64>,
}

#[derive(Clone, Debug, PartialEq, Eq, Default)]
pub struct RuntimeModeState {
    pub active_agent_mode: Option<String>,
    pub previous_agent_mode: Option<String>,
    pub mode_transition_pending_guidance: bool,
    pub invoked_skills: Vec<SkillInvocationState>,
}

#[derive(Clone, Copy, Debug, PartialEq, Eq, Structural)]
pub enum MediaKind {
    Image,
    Audio,
    Video,
    Hyperframe,
    Document,
}

#[derive(Clone, Debug, PartialEq, Eq)]
pub enum MediaSource {
    LocalPath { path: String },
    RemoteUrl { url: String },
    ManagedArtifact { artifact_id: String },
}

#[derive(Clone, Debug, PartialEq, Eq)]
pub struct MediaAssetRef {
    pub asset_id: String,
    pub kind: MediaKind,
    pub source: MediaSource,
    pub display_name: Option<String>,
}

#[derive(Clone, Debug, PartialEq, Eq)]
pub struct TimeRangeMs {
    pub start_ms: u64,
    pub end_ms: u64,
}

#[derive(Clone, Copy, Debug, PartialEq, Eq, Structural)]
pub enum DerivedMediaArtifactKind {
    Metadata,
    Transcript,
    SubtitleTrack,
    Keyframe,
    ShotSummary,
    SegmentSummary,
    EvidenceSummary,
    Hyperframe,
    AlignmentMap,
    AsrWordTiming,
}

#[derive(Clone, Debug, PartialEq, Eq)]
pub struct DerivedMediaArtifact {
    pub artifact_id: String,
    pub media_asset_id: String,
    pub kind: DerivedMediaArtifactKind,
    pub time_range: Option<TimeRangeMs>,
    pub summary: Option<String>,
    pub reference: Option<String>,
}

#[derive(Clone, Debug, PartialEq, Eq)]
pub struct Hyperframe {
    pub hyperframe_id: String,
    pub source_media_asset_id: String,
    pub time_range: TimeRangeMs,
    pub transcript: Option<String>,
    pub subtitle_text: Option<String>,
    pub visual_summary: Option<String>,
    pub keyframe_artifact_ids: Vec<String>,
    pub operator_annotations: Vec<String>,
    pub evidence_summary: String,
}

#[derive(Clone, Debug, PartialEq, Eq)]
pub struct MediaContextEnvelope {
    pub asset: MediaAssetRef,
    pub derived_artifacts: Vec<DerivedMediaArtifact>,
    pub hyperframes: Vec<Hyperframe>,
    pub operator_summary: String,
    pub model_summary: String,
    pub token_budget_hint: Option<u32>,
}

#[derive(Clone, Copy, Debug, PartialEq, Eq, Structural)]
pub enum InputModality {
    Text,
    Image,
    Audio,
    VideoDerived,
    Hyperframe,
    DocumentDerived,
}

#[derive(Clone, Copy, Debug, PartialEq, Eq, Structural)]
pub enum OutputModality {
    Text,
    StructuredJson,
    ToolCall,
    ReasoningSummary,
    CitationSet,
    Patch,
    Media,
}

#[derive(Clone, Copy, Debug, PartialEq, Eq, Structural)]
pub enum ReasoningMode {
    NoReasoning,
    Low,
    Medium,
    High,
    SummaryOnly,
    RawIfAvailable,
}

#[derive(Clone, Copy, Debug, PartialEq, Eq, Structural)]
pub enum StructuredOutputMode {
    Freeform,
    JsonSchema,
    RequiredKeys,
    ToolArguments,
}

#[derive(Clone, Copy, Debug, PartialEq, Eq, Structural)]
pub enum ExecutionMode {
    Interactive,
    Streaming,
    Background,
    Resumable,
    Batch,
    Scheduled,
}

#[derive(Clone, Copy, Debug, PartialEq, Eq, Structural)]
pub enum SessionSurfaceKind {
    Terminal,
    Desktop,
    Remote,
    Detached,
    Web,
}

#[derive(Clone, Copy, Debug, PartialEq, Eq, Structural)]
pub enum SandboxModeDescriptor {
    ReadOnly,
    WorkspaceWrite,
    FullAccess,
    Unknown,
}

#[derive(Clone, Copy, Debug, PartialEq, Eq, Structural)]
pub enum ApprovalPolicyDescriptor {
    Never,
    Ask,
    OnRequest,
    UnlessTrusted,
    Unknown,
}

#[derive(Clone, Debug, PartialEq, Eq)]
pub struct PermissionContextSnapshot {
    pub sandbox_mode: SandboxModeDescriptor,
    pub approval_policy: ApprovalPolicyDescriptor,
    pub permission_profile_summary: String,
    pub network_access_enabled: bool,
    pub requires_explicit_approval_for_next_step: bool,
}

#[derive(Clone, Debug, PartialEq, Eq)]
pub struct CodexSessionContinuationSnapshot {
    pub source_thread_id: String,
    pub source_turn_id: String,
    pub source_model: String,
    pub source_provider: String,
    pub active_agent_mode: Option<String>,
    pub safety: PermissionContextSnapshot,
    pub reference_context_present: bool,
}

#[derive(Clone, Debug, PartialEq, Eq)]
pub struct SessionSurfaceDescriptor {
    pub surface_id: String,
    pub kind: SessionSurfaceKind,
    pub supports_interactive_input: bool,
    pub supports_background_execution: bool,
    pub supports_resume: bool,
}

#[derive(Clone, Debug, PartialEq, Eq)]
pub struct AgentModeDescriptor {
    pub mode_id: String,
    pub display_name: String,
    pub read_only: bool,
    pub allows_file_edits: bool,
    pub allows_shell_execution: bool,
}

#[derive(Clone, Debug, PartialEq, Eq)]
pub struct SubagentCapabilityDescriptor {
    pub subagent_id: String,
    pub role: String,
    pub capability_tags: Vec<String>,
    pub can_trigger_turn: bool,
}

#[derive(Clone, Debug, PartialEq, Eq)]
pub struct ModelCapabilityDescriptor {
    pub model_id: String,
    pub provider_id: String,
    pub input_modalities: Vec<InputModality>,
    pub output_modalities: Vec<OutputModality>,
    pub max_context_window: Option<u32>,
    pub supports_tool_use: bool,
    pub supports_parallel_tool_use: bool,
    pub supports_long_context: bool,
    pub supports_streaming: bool,
    pub supports_audio_input: bool,
    pub supports_image_input: bool,
    pub supports_video_context: bool,
    pub supports_hyperframes: bool,
    pub reasoning_modes: Vec<ReasoningMode>,
    pub structured_output_modes: Vec<StructuredOutputMode>,
    pub execution_modes: Vec<ExecutionMode>,
    pub supports_citations: bool,
    pub supports_prompt_caching: bool,
}

#[derive(Clone, Debug, PartialEq, Eq)]
pub struct ModelSelectionIntent {
    pub required_input_modalities: Vec<InputModality>,
    pub required_output_modalities: Vec<OutputModality>,
    pub prefer_long_context: bool,
    pub prefer_low_latency: bool,
    pub prefer_low_cost: bool,
    pub requires_tool_use: bool,
    pub task_label: Option<String>,
    pub reasoning_mode: Option<ReasoningMode>,
    pub structured_output_mode: Option<StructuredOutputMode>,
    pub execution_mode: Option<ExecutionMode>,
}

#[derive(Clone, Debug, PartialEq, Eq)]
pub struct ModelSelectionRequest {
    pub thread_id: String,
    pub turn_id: String,
    pub intent: ModelSelectionIntent,
    pub context_pressure: ContextPressure,
    pub media_assets: Vec<MediaAssetRef>,
}

#[derive(Clone, Debug, PartialEq, Eq)]
pub struct ModelSelectionDecision {
    pub selected_model_id: String,
    pub selected_provider_id: String,
    pub rationale: String,
    pub fallback_model_id: Option<String>,
}

#[derive(Clone, Debug, PartialEq, Eq)]
pub struct McpCapabilityDescriptor {
    pub server_id: String,
    pub tool_names: Vec<String>,
    pub resource_names: Vec<String>,
    pub prompt_names: Vec<String>,
}

#[derive(Clone, Debug, PartialEq, Eq)]
pub struct SkillCapabilityDescriptor {
    pub skill_id: String,
    pub display_name: Option<String>,
    pub capability_tags: Vec<String>,
    pub provides_tools: Vec<String>,
    pub provides_prompts: Vec<String>,
    pub declared_input_modalities: Vec<InputModality>,
}

#[derive(Clone, Debug, PartialEq, Eq)]
pub struct AgentDataCapabilityDescriptor {
    pub protocol_id: String,
    pub schema_ids: Vec<String>,
    pub supports_ingest: bool,
    pub supports_emit: bool,
    pub supports_streaming_updates: bool,
}

#[derive(Clone, Copy, Debug, PartialEq, Eq, Structural)]
pub enum AsrBackendKind {
    Native,
    WhisperLike,
    ProviderManaged,
}

#[derive(Clone, Debug, PartialEq, Eq)]
pub struct AsrCapabilityDescriptor {
    pub backend_id: String,
    pub backend_kind: AsrBackendKind,
    pub supports_word_timestamps: bool,
    pub supports_speaker_diarization: bool,
    pub supports_multilingual: bool,
}

#[derive(Clone, Copy, Debug, PartialEq, Eq, Structural)]
pub enum AlignmentBackendKind {
    TranscriptToAudio,
    TranscriptToVideo,
    CrossModalEvidence,
}

#[derive(Clone, Debug, PartialEq, Eq)]
pub struct AlignmentCapabilityDescriptor {
    pub backend_id: String,
    pub backend_kind: AlignmentBackendKind,
    pub supports_frame_alignment: bool,
    pub supports_word_alignment: bool,
    pub supports_segment_alignment: bool,
}

#[derive(Clone, Copy, Debug, PartialEq, Eq, Structural)]
pub enum GenerativeBackendKind {
    DiffusionImage,
    DiffusionVideo,
    AudioGeneration,
}

#[derive(Clone, Debug, PartialEq, Eq)]
pub struct GenerativeBackendCapabilityDescriptor {
    pub backend_id: String,
    pub backend_kind: GenerativeBackendKind,
    pub supports_image_generation: bool,
    pub supports_video_generation: bool,
    pub supports_audio_generation: bool,
    pub supports_seed_control: bool,
    pub supports_workflow_graph: bool,
}

#[derive(Clone, Debug, PartialEq, Eq, Default)]
pub struct CapabilityRegistrySnapshot {
    pub mcp: Vec<McpCapabilityDescriptor>,
    pub skills: Vec<SkillCapabilityDescriptor>,
    pub agent_data_protocols: Vec<AgentDataCapabilityDescriptor>,
    pub asr_backends: Vec<AsrCapabilityDescriptor>,
    pub alignment_backends: Vec<AlignmentCapabilityDescriptor>,
    pub generative_backends: Vec<GenerativeBackendCapabilityDescriptor>,
    pub agent_modes: Vec<AgentModeDescriptor>,
    pub subagents: Vec<SubagentCapabilityDescriptor>,
    pub surfaces: Vec<SessionSurfaceDescriptor>,
}

#[derive(Clone, Debug, PartialEq, Eq)]
pub struct ContinueRequest {
    pub thread_id: String,
    pub turn_id: String,
    pub objective: String,
    pub constraints: Vec<String>,
    pub continue_reason: ContinueReason,
    pub recent_state_changes: Vec<StateChangeKind>,
    pub working_hypothesis: Option<String>,
    pub last_agent_message: Option<String>,
    pub pending_input_count: usize,
    pub trigger_turn_pending: bool,
    pub tool_call_count_this_turn: usize,
    pub context_pressure: ContextPressure,
    pub duplicate_injection_detected: bool,
    pub repeated_follow_up_count: u32,
    pub progress: ProgressSnapshot,
    pub recovery: RecoverySnapshot,
    pub last_checkpoint: Option<CheckpointRef>,
    pub self_correction: SelfCorrectionState,
    pub post_compaction: PostCompactionState,
    pub runtime_mode: RuntimeModeState,
    pub safety: PermissionContextSnapshot,
    pub codex_continuation: Option<CodexSessionContinuationSnapshot>,
}

#[derive(Clone, Copy, Debug, PartialEq, Eq, Structural)]
pub enum ContinueMode {
    SameTurn,
    NextTurn,
    QueueOnly,
    Handoff,
    Stop,
}

#[derive(Clone, Debug, PartialEq)]
pub struct ContinueDecision {
    pub allow_continue: bool,
    pub mode: ContinueMode,
    pub rationale: String,
    pub next_action: Option<String>,
    pub pause_for_approval: bool,
    pub consume_interrupts_now: bool,
    pub may_continue_other_work: bool,
    pub suppress_duplicate_injection: bool,
    pub downgrade_trigger_turn: bool,
    pub request_compaction: bool,
    pub request_handoff_summary: bool,
    pub request_checkpoint: bool,
    pub enter_self_correction: bool,
}

#[derive(Clone, Debug, PartialEq, Eq)]
pub struct PlannerRequest {
    pub objective: String,
    pub constraints: Vec<String>,
    pub confirmed_facts: Vec<String>,
    pub open_questions: Vec<String>,
    pub continue_reason: ContinueReason,
    pub context_pressure: ContextPressure,
    pub media_context: Vec<MediaContextEnvelope>,
    pub capability_registry: CapabilityRegistrySnapshot,
    pub progress: ProgressSnapshot,
    pub recovery: RecoverySnapshot,
    pub self_correction: SelfCorrectionState,
    pub post_compaction: PostCompactionState,
    pub runtime_mode: RuntimeModeState,
    pub safety: PermissionContextSnapshot,
    pub codex_continuation: Option<CodexSessionContinuationSnapshot>,
}

/// A planner's recommendation, apart from the confidence it puts in it.
#[derive(Clone, Debug, PartialEq, Eq)]
pub struct PlannedAction {
    pub recommended_mode: ContinueMode,
    pub recommended_next_action: Option<String>,
    pub rationale: String,
    pub suggested_model: Option<ModelSelectionDecision>,
}


#[derive(Clone, Copy, Debug, PartialEq, Eq, Structural)]
pub enum PermissionActionKind {
    ShellExecution,
    FileWrite,
    RemoteMutation,
    ExternalCommunication,
}

#[derive(Clone, Copy, Debug, PartialEq, Eq, Structural)]
pub enum PermissionUrgency {
    Low,
    Normal,
    High,
}

#[derive(Clone, Debug, PartialEq, Eq)]
pub struct PermissionRequest {
    pub request_id: String,
    pub action_kind: PermissionActionKind,
    pub summary: String,
    pub rationale: String,
    pub urgency: PermissionUrgency,
    pub wait_for_decision: bool,
    pub requested_at_ms: Option<u64>,
    pub expires_at_ms: Option<u64>,
}

#[derive(Clone, Copy, Debug, PartialEq, Eq, Structural)]
pub enum PermissionDecisionStatus {
    Approved,
    Denied,
    Expired,
}

#[derive(Clone, Debug, PartialEq, Eq)]
pub struct PermissionDecision {
    pub request_id: String,
    pub status: PermissionDecisionStatus,
    pub decided_at_ms: Option<u64>,
    pub decided_by: Option<String>,
    pub note: Option<String>,
}

#[derive(Clone, Debug, PartialEq, Eq, Default)]
pub struct PendingApprovalState {
    pub active_request: Option<PermissionRequest>,
    pub recent_decision: Option<PermissionDecision>,
    pub blocked_on_approval: bool,
    pub may_continue_other_work: bool,
}

#[derive(Clone, Copy, Debug, PartialEq, Eq, Structural)]
pub enum InterruptKind {
    UserMessage,
    ApprovalDecision,
    SystemNotification,
}

#[derive(Clone, Copy, Debug, PartialEq, Eq, Structural)]
pub enum InterruptInjectionMode {
    ImmediateSafePoint,
    NextTurn,
}

#[derive(Clone, Debug, PartialEq, Eq)]
pub struct PendingInterrupt {
    pub interrupt_id: String,
    pub kind: InterruptKind,
    pub summary: String,
    pub injection_mode: InterruptInjectionMode,
    pub created_at_ms: Option<u64>,
}

#[derive(Clone, Debug, PartialEq, Eq, Default)]
pub struct InterruptQueueState {
    pub pending_interrupts: Vec<PendingInterrupt>,
    pub safe_point_requested: bool,
    pub last_interrupt_at_ms: Option<u64>,
}

#[derive(Clone, Copy, Debug, PartialEq, Eq, Structural)]
pub enum RunOutcome {
    InProgress,
    Completed,
    HandedOff,
    Failed,
}

#[derive(Clone, Debug, PartialEq, Eq)]
pub struct CycleSummary {
    pub cycle_id: String,
    pub summary: String,
    pub completed_steps_delta: u32,
    pub state_changes: Vec<StateChangeKind>,
    pub checkpoint_created: bool,
    pub approval_request_id: Option<String>,
    pub pending_interrupt_count: usize,
}

#[derive(Clone, Debug, PartialEq, Eq)]
pub struct RunReport {
    pub run_id: String,
    pub thread_id: String,
    pub objective: String,
    pub execution_mode: ExecutionMode,
    pub outcome: RunOutcome,
    pub rationale: String,
    pub cycle_summary: Option<CycleSummary>,
    pub generated_at_ms: Option<u64>,
}

} // verus!
