//! What the shell's session commands do: `/model`, `/approval`, `/compact`
//! and `/resume` change the shell and the runtime's request, and every
//! command answers with the lines the shell prints and the system messages it
//! records in the session; `/status` lists the session and provider state.
use vstd::prelude::*;

use crate::commands::approval_label;
use crate::commands::approval_policy_label;
use crate::commands::approval_policy_of;
use crate::commands::parse_approval_policy;
use crate::config_commands::or_empty;
use crate::provider::active_name;
use crate::provider::active_provider_name;
use crate::provider::offered;
use crate::provider::router_name;
use crate::provider::MuldexConfig;
use crate::protocol::ApprovalPolicyDescriptor;
use crate::protocol::CodexSessionContinuationSnapshot;
use crate::protocol::PermissionContextSnapshot;
use crate::protocol::PostCompactionState;
use crate::protocol::RunOutcome;
use crate::protocol::RunReport;
use crate::shell::masked;
use crate::shell::masked_api_key;
use crate::shell::InteractiveMessage;
use crate::shell::InteractiveMessageRole;
use crate::shell::InteractiveShellState;
use crate::text::bool_text;
use crate::text::bool_to_string;
use crate::text::debug_option_string;
use crate::text::debug_option_text;
use crate::text::decimal;
use crate::text::join2;
use crate::text::join3;
use crate::text::opt_chars;
use crate::text::string_views;
use crate::text::u64_to_decimal;

verus! {

/// What the session commands read and change of the runtime: its phase as
/// printed, cycle and objective, and of its request the thread and turn, the
/// agent mode, the safety settings, the compaction state, the continued
/// session and the latest run report.
#[derive(Clone, Debug, PartialEq, Eq)]
pub struct SessionRuntime {
    pub phase_label: String,
    pub cycle_index: u64,
    pub objective: String,
    pub thread_id: String,
    pub turn_id: String,
    pub active_agent_mode: Option<String>,
    pub safety: PermissionContextSnapshot,
    pub post_compaction: PostCompactionState,
    pub codex_continuation: Option<CodexSessionContinuationSnapshot>,
    pub latest_report: Option<RunReport>,
}

/// What a command answers: the lines printed, and the system messages the
/// session records.
#[derive(Clone, Debug, PartialEq, Eq)]
pub struct SlashReply {
    pub lines: Vec<String>,
    pub system_messages: Vec<String>,
}

pub open spec fn replies(r: SlashReply, lines: Seq<Seq<char>>, messages: Seq<Seq<char>>) -> bool {
    string_views(r.lines@) == lines && string_views(r.system_messages@) == messages
}

fn reply1(line: String, message: String) -> (r: SlashReply)
    ensures
        replies(r, seq![line@], seq![message@]),
{
    let lines = vec![line];
    let system_messages = vec![message];
    let r = SlashReply { lines, system_messages };
    assert(string_views(r.lines@) =~= seq![r.lines@[0]@]);
    assert(string_views(r.system_messages@) =~= seq![r.system_messages@[0]@]);
    r
}

/// The model the session runs: the continued session's, else the shell's.
pub open spec fn session_model(rt: SessionRuntime, shell: InteractiveShellState) -> Seq<char> {
    match rt.codex_continuation {
        Some(c) => c.source_model@,
        None => shell.model@,
    }
}

pub fn session_model_label(rt: &SessionRuntime, shell: &InteractiveShellState) -> (l: String)
    ensures
        l@ == session_model(*rt, *shell),
{
    match &rt.codex_continuation {
        Some(c) => c.source_model.clone(),
        None => shell.model.clone(),
    }
}

fn copy_safety(s: &PermissionContextSnapshot) -> (r: PermissionContextSnapshot)
    ensures
        r == *s,
{
    PermissionContextSnapshot {
        sandbox_mode: s.sandbox_mode,
        approval_policy: s.approval_policy,
        permission_profile_summary: s.permission_profile_summary.clone(),
        network_access_enabled: s.network_access_enabled,
        requires_explicit_approval_for_next_step: s.requires_explicit_approval_for_next_step,
    }
}

fn copy_opt(o: &Option<String>) -> (r: Option<String>)
    ensures
        r == *o,
{
    match o {
        Some(s) => Some(s.clone()),
        None => None,
    }
}

/// `rt2` is `rt` with only the continued session possibly changed.
pub open spec fn same_but_continuation(rt: SessionRuntime, rt2: SessionRuntime) -> bool {
    rt2 == (SessionRuntime { codex_continuation: rt2.codex_continuation, ..rt })
}

/// Makes sure the request continues a session: where it continues none, it
/// now continues its own thread and turn on the shell's model, from the
/// interactive shell, in its agent mode and under its safety settings.
pub fn ensure_runtime_model_state(rt: &mut SessionRuntime, shell: &InteractiveShellState)
    ensures
        same_but_continuation(*old(rt), *final(rt)),
        old(rt).codex_continuation is Some ==> final(rt).codex_continuation
            == old(rt).codex_continuation,
        old(rt).codex_continuation is None ==> (final(rt).codex_continuation matches Some(c) && {
            &&& c.source_thread_id == old(rt).thread_id
            &&& c.source_turn_id == old(rt).turn_id
            &&& c.source_model == shell.model
            &&& c.source_provider@ == "interactive-shell"@
            &&& c.active_agent_mode == old(rt).active_agent_mode
            &&& c.safety == old(rt).safety
            &&& c.reference_context_present
        }),
{
    if rt.codex_continuation.is_none() {
        let c = CodexSessionContinuationSnapshot {
            source_thread_id: rt.thread_id.clone(),
            source_turn_id: rt.turn_id.clone(),
            source_model: shell.model.clone(),
            source_provider: "interactive-shell".to_string(),
            active_agent_mode: copy_opt(&rt.active_agent_mode),
            safety: copy_safety(&rt.safety),
            reference_context_present: true,
        };
        rt.codex_continuation = Some(c);
    }
}

/// `/model` shows the session's model, or switches the shell and the
/// continued session to `model`.
pub fn model_command(
    model: Option<String>,
    shell: &mut InteractiveShellState,
    rt: &mut SessionRuntime,
) -> (r: SlashReply)
    ensures
        match model {
            None => {
                &&& *final(shell) == *old(shell)
                &&& *final(rt) == *old(rt)
                &&& replies(
                    r,
                    seq!["session.model: "@ + session_model(*old(rt), *old(shell))],
                    seq!["/model -> "@ + session_model(*old(rt), *old(shell))],
                )
            },
            Some(m) => {
                &&& *final(shell) == (InteractiveShellState { model: m, ..*old(shell) })
                &&& same_but_continuation(*old(rt), *final(rt))
                &&& final(rt).codex_continuation matches Some(c) && c.source_model == m
                &&& session_model(*final(rt), *final(shell)) == m@
                &&& old(rt).codex_continuation matches Some(c0) ==> final(rt).codex_continuation
                    == Some((CodexSessionContinuationSnapshot { source_model: m, ..c0 }))
                &&& replies(r, seq!["session.model_set: "@ + m@], seq!["/model set to "@ + m@])
            },
        },
{
    match model {
        None => {
            let label = session_model_label(rt, shell);
            reply1(join2("session.model: ", label.as_str()), join2("/model -> ", label.as_str()))
        },
        Some(m) => {
            shell.model = m.clone();
            ensure_runtime_model_state(rt, shell);
            match &mut rt.codex_continuation {
                Some(c) => {
                    c.source_model = m.clone();
                },
                None => {},
            }
            reply1(join2("session.model_set: ", m.as_str()), join2("/model set to ", m.as_str()))
        },
    }
}

/// `/approval` shows the approval mode, or sets it from `mode`; an explicit
/// approval is then owed exactly under `ask`. A mode it does not know
/// changes nothing.
pub fn approval_command(
    mode: Option<String>,
    shell: &mut InteractiveShellState,
    rt: &mut SessionRuntime,
) -> (r: SlashReply)
    ensures
        match mode {
            None => {
                &&& *final(shell) == *old(shell)
                &&& *final(rt) == *old(rt)
                &&& replies(
                    r,
                    seq!["session.approval_mode: "@ + approval_label(old(rt).safety.approval_policy)],
                    seq!["/approval -> "@ + approval_label(old(rt).safety.approval_policy)],
                )
            },
            Some(m) => match approval_policy_of(m@) {
                Some(p) => {
                    &&& final(shell).approval_mode@ == approval_label(p)
                    &&& *final(shell) == (InteractiveShellState {
                        approval_mode: final(shell).approval_mode,
                        ..*old(shell)
                    })
                    &&& *final(rt) == (SessionRuntime {
                        safety: (PermissionContextSnapshot {
                            approval_policy: p,
                            requires_explicit_approval_for_next_step: p
                                == ApprovalPolicyDescriptor::Ask,
                            ..old(rt).safety
                        }),
                        ..*old(rt)
                    })
                    &&& replies(
                        r,
                        seq!["session.approval_mode_set: "@ + approval_label(p)],
                        seq!["/approval set to "@ + approval_label(p)],
                    )
                },
                None => {
                    &&& *final(shell) == *old(shell)
                    &&& *final(rt) == *old(rt)
                    &&& replies(
                        r,
                        seq![
                            "session.approval_mode_set: invalid"@,
                            "session.approval_mode_error: unsupported_mode"@,
                        ],
                        seq!["/approval invalid mode: "@ + m@],
                    )
                },
            },
        },
{
    match mode {
        None => {
            let label = approval_policy_label(&rt.safety.approval_policy);
            reply1(join2("session.approval_mode: ", label), join2("/approval -> ", label))
        },
        Some(m) => match parse_approval_policy(m.as_str()) {
            Some(policy) => {
                let label = approval_policy_label(&policy);
                shell.approval_mode = label.to_string();
                rt.safety.approval_policy = policy;
                rt.safety.requires_explicit_approval_for_next_step = match policy {
                    ApprovalPolicyDescriptor::Ask => true,
                    _ => false,
                };
                reply1(join2("session.approval_mode_set: ", label), join2("/approval set to ", label))
            },
            None => {
                let lines = vec![
                    "session.approval_mode_set: invalid".to_string(),
                    "session.approval_mode_error: unsupported_mode".to_string(),
                ];
                let system_messages = vec![join2("/approval invalid mode: ", m.as_str())];
                let r = SlashReply { lines, system_messages };
                assert(string_views(r.lines@) =~= seq![
                    "session.approval_mode_set: invalid"@,
                    "session.approval_mode_error: unsupported_mode"@,
                ]);
                assert(string_views(r.system_messages@) =~= seq![r.system_messages@[0]@]);
                r
            },
        },
    }
}

/// The window a compaction request opens: `shell-window-` and the count.
pub open spec fn window_name(count: u32) -> Seq<char> {
    "shell-window-"@ + decimal(count as nat)
}

/// How the window's name prints as an optional string.
pub open spec fn shown_window(count: u32) -> Seq<char> {
    "Some(\""@ + window_name(count) + "\")"@
}

/// `/compact` counts a compaction (stopping at the largest count) and marks
/// the next turn as the first after compaction, in a window named by the
/// count.
pub fn compact_command(
    shell: &mut InteractiveShellState,
    rt: &mut SessionRuntime,
) -> (r: SlashReply)
    ensures
        final(shell).compact_count == if old(shell).compact_count < u32::MAX {
            (old(shell).compact_count + 1) as u32
        } else {
            u32::MAX
        },
        *final(shell) == (InteractiveShellState {
            compact_count: final(shell).compact_count,
            ..*old(shell)
        }),
        final(rt).post_compaction.pending_post_compaction,
        final(rt).post_compaction.first_post_compaction_turn,
        final(rt).post_compaction.compaction_window_id matches Some(w) && w@ == window_name(
            final(shell).compact_count,
        ),
        final(rt).post_compaction.last_compaction_checkpoint_id
            == old(rt).post_compaction.last_compaction_checkpoint_id,
        *final(rt) == (SessionRuntime { post_compaction: final(rt).post_compaction, ..*old(rt) }),
        replies(
            r,
            seq![
                "session.compaction_requested: true"@,
                "session.compact_count: "@ + decimal(final(shell).compact_count as nat),
                "session.compaction_window_id: "@ + shown_window(final(shell).compact_count),
            ],
            seq!["/compact requested "@ + shown_window(final(shell).compact_count)],
        ),
{
    shell.compact_count = shell.compact_count.saturating_add(1);
    let count = u64_to_decimal(shell.compact_count as u64);
    let window = join2("shell-window-", count.as_str());
    rt.post_compaction.pending_post_compaction = true;
    rt.post_compaction.first_post_compaction_turn = true;
    rt.post_compaction.compaction_window_id = Some(window.clone());
    let shown = join3("Some(\"", window.as_str(), "\")");
    let lines = vec![
        "session.compaction_requested: true".to_string(),
        join2("session.compact_count: ", count.as_str()),
        join2("session.compaction_window_id: ", shown.as_str()),
    ];
    let system_messages = vec![join2("/compact requested ", shown.as_str())];
    let r = SlashReply { lines, system_messages };
    assert(string_views(r.lines@) =~= seq![
        "session.compaction_requested: true"@,
        "session.compact_count: "@ + decimal(shell.compact_count as nat),
        "session.compaction_window_id: "@ + shown_window(shell.compact_count),
    ]);
    assert(string_views(r.system_messages@) =~= seq![
        "/compact requested "@ + shown_window(shell.compact_count),
    ]);
    r
}

/// A slash command the shell does not know: one line saying so.
pub fn unknown_command_reply(command: &str) -> (r: SlashReply)
    ensures
        replies(r, seq!["slash command not implemented yet: "@ + command@], Seq::empty()),
{
    let lines = vec![join2("slash command not implemented yet: ", command)];
    let r = SlashReply { lines, system_messages: Vec::new() };
    assert(string_views(r.lines@) =~= seq![r.lines@[0]@]);
    assert(string_views(r.system_messages@) =~= Seq::<Seq<char>>::empty());
    r
}

/// `/resume` found the session: its shell state comes back, with one more
/// resumption counted (stopping at the largest count).
pub fn resume_into(
    shell: &mut InteractiveShellState,
    restored: InteractiveShellState,
    session_id: &str,
) -> (r: SlashReply)
    ensures
        *final(shell) == (InteractiveShellState {
            resume_count: if restored.resume_count < u32::MAX {
                (restored.resume_count + 1) as u32
            } else {
                u32::MAX
            },
            ..restored
        }),
        replies(
            r,
            seq![
                "session.resume_requested: true"@,
                "session.resumed: true"@,
                "session.id: "@ + session_id@,
                "session.resume_count: "@ + decimal(final(shell).resume_count as nat),
            ],
            seq!["/resume -> "@ + session_id@],
        ),
{
    *shell = restored;
    shell.resume_count = shell.resume_count.saturating_add(1);
    let count = u64_to_decimal(shell.resume_count as u64);
    let lines = vec![
        "session.resume_requested: true".to_string(),
        "session.resumed: true".to_string(),
        join2("session.id: ", session_id),
        join2("session.resume_count: ", count.as_str()),
    ];
    let system_messages = vec![join2("/resume -> ", session_id)];
    let r = SlashReply { lines, system_messages };
    assert(string_views(r.lines@) =~= seq![
        "session.resume_requested: true"@,
        "session.resumed: true"@,
        "session.id: "@ + session_id@,
        "session.resume_count: "@ + decimal(shell.resume_count as nat),
    ]);
    assert(string_views(r.system_messages@) =~= seq![r.system_messages@[0]@]);
    r
}

/// `/resume` found no session named `target`.
pub fn resume_failed_reply(target: &str) -> (r: SlashReply)
    ensures
        replies(
            r,
            seq![
                "session.resume_requested: true"@,
                "session.resumed: false"@,
                "session.resume_reason: session_not_found"@,
            ],
            seq!["/resume failed for "@ + target@],
        ),
{
    let lines = vec![
        "session.resume_requested: true".to_string(),
        "session.resumed: false".to_string(),
        "session.resume_reason: session_not_found".to_string(),
    ];
    let system_messages = vec![join2("/resume failed for ", target)];
    let r = SlashReply { lines, system_messages };
    assert(string_views(r.lines@) =~= seq![
        "session.resume_requested: true"@,
        "session.resumed: false"@,
        "session.resume_reason: session_not_found"@,
    ]);
    assert(string_views(r.system_messages@) =~= seq![r.system_messages@[0]@]);
    r
}

/// `/new` made the session `session_id`.
pub fn new_session_reply(session_id: &str) -> (r: SlashReply)
    ensures
        replies(r, seq!["session.new: true"@, "session.id: "@ + session_id@], Seq::empty()),
{
    let lines = vec!["session.new: true".to_string(), join2("session.id: ", session_id)];
    let r = SlashReply { lines, system_messages: Vec::new() };
    assert(string_views(r.lines@) =~= seq!["session.new: true"@, "session.id: "@ + session_id@]);
    assert(string_views(r.system_messages@) =~= Seq::<Seq<char>>::empty());
    r
}

/// The message `/sessions` records for one session.
pub fn session_listing_message(
    session_id: &str,
    phase_label: &str,
    model: &str,
    active: bool,
) -> (m: String)
    ensures
        m@ == "/sessions "@ + session_id@ + " phase="@ + phase_label@ + " model="@ + model@
            + " active="@ + bool_text(active),
{
    let a = join3("/sessions ", session_id, " phase=");
    let b = join3(a.as_str(), phase_label, " model=");
    let c = join3(b.as_str(), model, " active=");
    let m = join2(c.as_str(), bool_to_string(active).as_str());
    assert(m@ =~= "/sessions "@ + session_id@ + " phase="@ + phase_label@ + " model="@ + model@
        + " active="@ + bool_text(active));
    m
}

// ---------------------------------------------------------------------
// `/status`

/// How an optional port prints with `{:?}`.
pub open spec fn debug_port(p: Option<u16>) -> Seq<char> {
    match p {
        Some(n) => "Some("@ + decimal(n as nat) + ")"@,
        None => "None"@,
    }
}

fn debug_port_text(p: Option<u16>) -> (s: String)
    ensures
        s@ == debug_port(p),
{
    match p {
        Some(n) => join3("Some(", u64_to_decimal(n as u64).as_str(), ")"),
        None => "None".to_string(),
    }
}

/// How a run outcome prints with `{:?}`: its variant's name.
pub open spec fn outcome_name(o: RunOutcome) -> Seq<char> {
    match o {
        RunOutcome::InProgress => "InProgress"@,
        RunOutcome::Completed => "Completed"@,
        RunOutcome::HandedOff => "HandedOff"@,
        RunOutcome::Failed => "Failed"@,
    }
}

fn outcome_name_text(o: RunOutcome) -> (s: &'static str)
    ensures
        s@ == outcome_name(o),
{
    match o {
        RunOutcome::InProgress => "InProgress",
        RunOutcome::Completed => "Completed",
        RunOutcome::HandedOff => "HandedOff",
        RunOutcome::Failed => "Failed",
    }
}

/// The session's own status lines.
pub open spec fn session_status_lines(rt: SessionRuntime, shell: InteractiveShellState) -> Seq<
    Seq<char>,
> {
    seq![
        "session.phase: "@ + rt.phase_label@,
        "session.cycle_index: "@ + decimal(rt.cycle_index as nat),
        "session.objective: "@ + rt.objective@,
        "session.model: "@ + session_model(rt, shell),
        "session.approval_mode: "@ + approval_label(rt.safety.approval_policy),
        "session.requires_explicit_approval_for_next_step: "@ + bool_text(
            rt.safety.requires_explicit_approval_for_next_step,
        ),
        "session.compact_count: "@ + decimal(shell.compact_count as nat),
        "session.resume_count: "@ + decimal(shell.resume_count as nat),
        "session.pending_post_compaction: "@ + bool_text(rt.post_compaction.pending_post_compaction),
        "session.first_post_compaction_turn: "@ + bool_text(
            rt.post_compaction.first_post_compaction_turn,
        ),
        "session.compaction_window_id: "@ + debug_option_text(
            opt_chars(rt.post_compaction.compaction_window_id),
        ),
    ]
}

/// The llm-router lines: its address, masked key and model, or that it is
/// not configured.
pub open spec fn router_status_lines(c: MuldexConfig) -> Seq<Seq<char>> {
    match offered(c, router_name()) {
        Some(p) => seq![
            "llm_router.host: "@ + debug_option_text(p.host),
            "llm_router.port: "@ + debug_port(p.port),
            "llm_router.api_key: "@ + masked(or_empty(p.api_key)),
            "llm_router.default_model: "@ + debug_option_text(p.default_model),
        ],
        None => seq!["llm_router.configured: false"@],
    }
}

/// The active provider's lines, where it is a configured provider entry.
pub open spec fn active_status_lines(c: MuldexConfig) -> Seq<Seq<char>> {
    match active_name(c) {
        Some(n) => match c.providers.lookup(n) {
            Some(p) => seq![
                "active_provider.kind: "@ + p.kind,
                "active_provider.base_url: "@ + debug_option_text(p.base_url),
                "active_provider.host: "@ + debug_option_text(p.host),
                "active_provider.port: "@ + debug_port(p.port),
                "active_provider.default_model: "@ + debug_option_text(p.default_model),
            ],
            None => Seq::empty(),
        },
        None => Seq::empty(),
    }
}

/// The latest report's outcome and rationale, where there is one.
pub open spec fn report_status_lines(r: Option<RunReport>) -> Seq<Seq<char>> {
    match r {
        Some(rep) => seq![
            "session.last_outcome: "@ + outcome_name(rep.outcome),
            "session.last_rationale: "@ + rep.rationale@,
        ],
        None => Seq::empty(),
    }
}

/// What `/status` lists.
pub open spec fn status_lines(rt: SessionRuntime, shell: InteractiveShellState, c: MuldexConfig) -> Seq<
    Seq<char>,
> {
    session_status_lines(rt, shell) + router_status_lines(c) + seq![
        "default_provider: "@ + debug_option_text(opt_chars(c.default_provider)),
    ] + active_status_lines(c) + report_status_lines(rt.latest_report)
}

fn push_line(lines: &mut Vec<String>, line: String)
    ensures
        string_views(final(lines)@) == string_views(old(lines)@).push(line@),
{
    lines.push(line);
    assert(string_views(lines@) =~= string_views(old(lines)@).push(line@));
}

/// The lines `/status` prints for the session, under `config`.
pub fn interactive_shell_status_lines(
    rt: &SessionRuntime,
    shell: &InteractiveShellState,
    config: &MuldexConfig,
) -> (lines: Vec<String>)
    requires
        config.providers.wf(),
    ensures
        string_views(lines@) == status_lines(*rt, *shell, *config),
{
    let mut lines: Vec<String> = Vec::new();
    assert(string_views(lines@) =~= Seq::<Seq<char>>::empty());
    push_line(&mut lines, join2("session.phase: ", rt.phase_label.as_str()));
    push_line(&mut lines, join2("session.cycle_index: ", u64_to_decimal(rt.cycle_index).as_str()));
    push_line(&mut lines, join2("session.objective: ", rt.objective.as_str()));
    push_line(&mut lines, join2("session.model: ", session_model_label(rt, shell).as_str()));
    push_line(
        &mut lines,
        join2("session.approval_mode: ", approval_policy_label(&rt.safety.approval_policy)),
    );
    push_line(
        &mut lines,
        join2(
            "session.requires_explicit_approval_for_next_step: ",
            bool_to_string(rt.safety.requires_explicit_approval_for_next_step).as_str(),
        ),
    );
    push_line(
        &mut lines,
        join2("session.compact_count: ", u64_to_decimal(shell.compact_count as u64).as_str()),
    );
    push_line(
        &mut lines,
        join2("session.resume_count: ", u64_to_decimal(shell.resume_count as u64).as_str()),
    );
    push_line(
        &mut lines,
        join2(
            "session.pending_post_compaction: ",
            bool_to_string(rt.post_compaction.pending_post_compaction).as_str(),
        ),
    );
    push_line(
        &mut lines,
        join2(
            "session.first_post_compaction_turn: ",
            bool_to_string(rt.post_compaction.first_post_compaction_turn).as_str(),
        ),
    );
    push_line(
        &mut lines,
        join2(
            "session.compaction_window_id: ",
            debug_option_string(&rt.post_compaction.compaction_window_id).as_str(),
        ),
    );
    assert(string_views(lines@) =~= session_status_lines(*rt, *shell));
    let ghost after_session = string_views(lines@);
    match crate::provider::llm_router_provider(config) {
        Some(router) => {
            let key = match &router.api_key {
                Some(k) => k.clone(),
                None => String::new(),
            };
            push_line(&mut lines, join2("llm_router.host: ", debug_option_string(&router.host).as_str()));
            push_line(&mut lines, join2("llm_router.port: ", debug_port_text(router.port).as_str()));
            push_line(&mut lines, join2("llm_router.api_key: ", masked_api_key(key.as_str()).as_str()));
            push_line(
                &mut lines,
                join2("llm_router.default_model: ", debug_option_string(&router.default_model).as_str()),
            );
        },
        None => {
            push_line(&mut lines, "llm_router.configured: false".to_string());
        },
    }
    assert(string_views(lines@) =~= after_session + router_status_lines(*config));
    let ghost after_router = string_views(lines@);
    push_line(
        &mut lines,
        join2("default_provider: ", debug_option_string(&config.default_provider).as_str()),
    );
    let ghost after_default = string_views(lines@);
    match active_provider_name(config) {
        Some(name) => match config.providers.get(name.as_str()) {
            Some(p) => {
                push_line(&mut lines, join2("active_provider.kind: ", p.kind.as_str()));
                push_line(
                    &mut lines,
                    join2("active_provider.base_url: ", debug_option_string(&p.base_url).as_str()),
                );
                push_line(&mut lines, join2("active_provider.host: ", debug_option_string(&p.host).as_str()));
                push_line(&mut lines, join2("active_provider.port: ", debug_port_text(p.port).as_str()));
                push_line(
                    &mut lines,
                    join2(
                        "active_provider.default_model: ",
                        debug_option_string(&p.default_model).as_str(),
                    ),
                );
            },
            None => {},
        },
        None => {},
    }
    assert(string_views(lines@) =~= after_default + active_status_lines(*config));
    let ghost after_active = string_views(lines@);
    match &rt.latest_report {
        Some(report) => {
            push_line(&mut lines, join2("session.last_outcome: ", outcome_name_text(report.outcome)));
            push_line(&mut lines, join2("session.last_rationale: ", report.rationale.as_str()));
        },
        None => {},
    }
    assert(string_views(lines@) =~= after_active + report_status_lines(rt.latest_report));
    lines
}

// ---------------------------------------------------------------------
// plain output

fn push_text_line(v: &mut Vec<String>, s: String)
    ensures
        string_views(final(v)@) == string_views(old(v)@).push(s@),
{
    v.push(s);
    assert(string_views(v@) =~= string_views(old(v)@).push(s@));
}

/// The lines plain output prints for a stored session.
pub open spec fn session_entry_text(
    session_id: Seq<char>,
    phase_label: Seq<char>,
    cycle_index: u64,
    model: Seq<char>,
    active: bool,
    message_count: usize,
) -> Seq<Seq<char>> {
    seq![
        "session.id: "@ + session_id,
        "session.phase: "@ + phase_label,
        "session.cycle_index: "@ + decimal(cycle_index as nat),
        "session.model: "@ + model,
        "session.active: "@ + bool_text(active),
        "session.message_count: "@ + decimal(message_count as nat),
    ]
}

pub fn session_entry_lines(
    session_id: &str,
    phase_label: &str,
    cycle_index: u64,
    model: &str,
    active: bool,
    message_count: usize,
) -> (v: Vec<String>)
    ensures
        string_views(v@) == session_entry_text(
            session_id@,
            phase_label@,
            cycle_index,
            model@,
            active,
            message_count,
        ),
{
    let mut v: Vec<String> = Vec::new();
    assert(string_views(v@) =~= Seq::<Seq<char>>::empty());
    push_text_line(&mut v, join2("session.id: ", session_id));
    push_text_line(&mut v, join2("session.phase: ", phase_label));
    push_text_line(&mut v, join2("session.cycle_index: ", u64_to_decimal(cycle_index).as_str()));
    push_text_line(&mut v, join2("session.model: ", model));
    push_text_line(&mut v, join2("session.active: ", bool_to_string(active).as_str()));
    push_text_line(
        &mut v,
        join2("session.message_count: ", u64_to_decimal(message_count as u64).as_str()),
    );
    assert(string_views(v@) =~= session_entry_text(
        session_id@,
        phase_label@,
        cycle_index,
        model@,
        active,
        message_count,
    ));
    v
}

/// The header plain output prints when the shell starts.
pub open spec fn session_header_text(
    session_id: Seq<char>,
    phase_label: Seq<char>,
    model: Seq<char>,
    policy: ApprovalPolicyDescriptor,
) -> Seq<Seq<char>> {
    seq![
        "== muldex session =="@,
        "session.id: "@ + session_id,
        "session.phase: "@ + phase_label,
        "session.model: "@ + model,
        "session.approval_mode: "@ + approval_label(policy),
        "---------------------"@,
    ]
}

pub fn session_header_lines(
    session_id: &str,
    phase_label: &str,
    model: &str,
    policy: &ApprovalPolicyDescriptor,
) -> (v: Vec<String>)
    ensures
        string_views(v@) == session_header_text(session_id@, phase_label@, model@, *policy),
{
    let mut v: Vec<String> = Vec::new();
    assert(string_views(v@) =~= Seq::<Seq<char>>::empty());
    push_text_line(&mut v, "== muldex session ==".to_string());
    push_text_line(&mut v, join2("session.id: ", session_id));
    push_text_line(&mut v, join2("session.phase: ", phase_label));
    push_text_line(&mut v, join2("session.model: ", model));
    push_text_line(&mut v, join2("session.approval_mode: ", approval_policy_label(policy)));
    push_text_line(&mut v, "---------------------".to_string());
    assert(string_views(v@) =~= session_header_text(session_id@, phase_label@, model@, *policy));
    v
}

/// A logged message's role, in lower case.
pub open spec fn log_role(r: InteractiveMessageRole) -> Seq<char> {
    match r {
        InteractiveMessageRole::System => "system"@,
        InteractiveMessageRole::User => "user"@,
        InteractiveMessageRole::Assistant => "assistant"@,
    }
}

pub open spec fn log_line(m: InteractiveMessage) -> Seq<char> {
    "["@ + log_role(m.role) + "] "@ + m.content@
}

/// The six latest messages (or all, when fewer), oldest first, each behind
/// its role.
pub open spec fn message_log_text(messages: Seq<InteractiveMessage>) -> Seq<Seq<char>> {
    let start = if messages.len() > 6 {
        messages.len() - 6
    } else {
        0
    };
    messages.skip(start).map_values(|m: InteractiveMessage| log_line(m))
}

pub fn message_log_lines(messages: &[InteractiveMessage]) -> (v: Vec<String>)
    ensures
        string_views(v@) == message_log_text(messages@),
{
    let start: usize = if messages.len() > 6 {
        messages.len() - 6
    } else {
        0
    };
    let ghost shown = messages@.skip(start as int);
    let mut v: Vec<String> = Vec::new();
    let mut i = start;
    while i < messages.len()
        invariant
            start <= i <= messages@.len(),
            shown == messages@.skip(start as int),
            string_views(v@) == shown.take(i - start).map_values(
                |m: InteractiveMessage| log_line(m),
            ),
        decreases messages.len() - i,
    {
        let m = &messages[i];
        let role = match m.role {
            InteractiveMessageRole::System => "system",
            InteractiveMessageRole::User => "user",
            InteractiveMessageRole::Assistant => "assistant",
        };
        let a = join3("[", role, "] ");
        let line = join2(a.as_str(), m.content.as_str());
        let ghost before = v@;
        v.push(line);
        assert(shown[i - start] == messages@[i as int]);
        assert(string_views(v@) =~= string_views(before).push(line@));
        assert(shown.take(i + 1 - start).map_values(|m: InteractiveMessage| log_line(m))
            =~= shown.take(i - start).map_values(|m: InteractiveMessage| log_line(m)).push(
            log_line(messages@[i as int]),
        ));
        i = i + 1;
    }
    assert(shown.take(i - start) =~= shown);
    v
}

} // verus!
