//! What the shell does with an interactive turn's events: the streamed
//! reply grows as deltas arrive, token usage and rate limits are taken from
//! the latest reports, an approval request is described, and the turn's
//! rationale is its reply (or the prompt, where the reply is blank). The
//! approval modal's keys are read here too.
use vstd::prelude::*;

use crate::keymap::KeyCodeView;
use crate::keymap::KeyInput;
use crate::provider::ProviderToolCall;
use crate::shell::InteractiveShellState;
use crate::shell::LiveTurnState;
use crate::shell::ShellRateLimit;
use crate::shell::ShellUsage;
use crate::text::decimal;
use crate::text::join2;
use crate::text::join3;
use crate::text::string_views;
use crate::text::u64_to_decimal;
use crate::text::to_chars;
use crate::text::trim;
use crate::text::trim_chars;
use crate::tools::captured;
use crate::tools::failed_with;
use crate::tools::run_captured_json;
use crate::tools::tool_args_of;
use crate::tools::InteractiveToolError;
use crate::tools::ToolStep;

verus! {

/// The events a turn reports as it runs.
#[derive(Clone, Debug, PartialEq, Eq)]
pub enum TurnEvent {
    TurnStarted { model: String },
    AssistantDelta(String),
    AssistantMessageFinalized(String),
    ToolCallProposed { name: String, arguments_json: String },
    ToolExecutionStarted(String),
    ToolExecutionFinished { tool_name: String, result: String },
    TurnFailed(String),
    TurnCompleted,
    Usage { input_tokens: u64, cached_input_tokens: u64, output_tokens: u64, total_tokens: u64 },
    RateLimit {
        limit_requests: Option<u64>,
        remaining_requests: Option<u64>,
        limit_tokens: Option<u64>,
        remaining_tokens: Option<u64>,
        reset_after_seconds: Option<u64>,
    },
    ApprovalRequested(String),
}

/// The usage a usage report sets.
pub open spec fn reported_usage(e: TurnEvent) -> Option<ShellUsage> {
    match e {
        TurnEvent::Usage { input_tokens, cached_input_tokens, output_tokens, total_tokens } => Some(
            ShellUsage { input_tokens, cached_input_tokens, output_tokens, total_tokens },
        ),
        _ => None,
    }
}

/// The rate limit a rate-limit report sets.
pub open spec fn reported_rate_limit(e: TurnEvent) -> Option<ShellRateLimit> {
    match e {
        TurnEvent::RateLimit {
            limit_requests,
            remaining_requests,
            limit_tokens,
            remaining_tokens,
            reset_after_seconds,
        } => Some(
            ShellRateLimit {
                limit_requests,
                remaining_requests,
                limit_tokens,
                remaining_tokens,
                reset_after_seconds,
            },
        ),
        _ => None,
    }
}

/// Takes one streamed event: a delta extends the reply; a usage or rate
/// limit report replaces the shell's. Answers whether the screen shows
/// something new.
pub fn apply_live_event(
    shell: &mut InteractiveShellState,
    reply: &mut String,
    event: &TurnEvent,
) -> (changed: bool)
    ensures
        changed == (event is AssistantDelta || event is Usage || event is RateLimit),
        final(reply)@ == match event {
            TurnEvent::AssistantDelta(d) => old(reply)@ + d@,
            _ => old(reply)@,
        },
        final(shell).usage == match reported_usage(*event) {
            Some(u) => u,
            None => old(shell).usage,
        },
        final(shell).rate_limit == match reported_rate_limit(*event) {
            Some(l) => l,
            None => old(shell).rate_limit,
        },
        final(shell).model == old(shell).model,
        final(shell).approval_mode == old(shell).approval_mode,
        final(shell).compact_count == old(shell).compact_count,
        final(shell).resume_count == old(shell).resume_count,
{
    match event {
        TurnEvent::AssistantDelta(delta) => {
            *reply = join2(reply.as_str(), delta.as_str());
            true
        },
        TurnEvent::Usage { input_tokens, cached_input_tokens, output_tokens, total_tokens } => {
            shell.usage =
                ShellUsage {
                    input_tokens: *input_tokens,
                    cached_input_tokens: *cached_input_tokens,
                    output_tokens: *output_tokens,
                    total_tokens: *total_tokens,
                };
            true
        },
        TurnEvent::RateLimit {
            limit_requests,
            remaining_requests,
            limit_tokens,
            remaining_tokens,
            reset_after_seconds,
        } => {
            shell.rate_limit =
                ShellRateLimit {
                    limit_requests: *limit_requests,
                    remaining_requests: *remaining_requests,
                    limit_tokens: *limit_tokens,
                    remaining_tokens: *remaining_tokens,
                    reset_after_seconds: *reset_after_seconds,
                };
            true
        },
        _ => false,
    }
}

/// The usage after a run of events: that of the last usage report, if any.
pub open spec fn last_usage(events: Seq<TurnEvent>, usage: ShellUsage) -> ShellUsage
    decreases events.len(),
{
    if events.len() == 0 {
        usage
    } else {
        match reported_usage(events.last()) {
            Some(u) => u,
            None => last_usage(events.drop_last(), usage),
        }
    }
}

/// The rate limit after a run of events: that of the last report, if any.
pub open spec fn last_rate_limit(events: Seq<TurnEvent>, limit: ShellRateLimit) -> ShellRateLimit
    decreases events.len(),
{
    if events.len() == 0 {
        limit
    } else {
        match reported_rate_limit(events.last()) {
            Some(l) => l,
            None => last_rate_limit(events.drop_last(), limit),
        }
    }
}

/// Takes a finished turn's events: the last usage and rate-limit reports
/// are the shell's; nothing else of the shell changes.
pub fn absorb_turn_events(shell: &mut InteractiveShellState, events: &[TurnEvent])
    ensures
        final(shell).usage == last_usage(events@, old(shell).usage),
        final(shell).rate_limit == last_rate_limit(events@, old(shell).rate_limit),
        final(shell).model == old(shell).model,
        final(shell).approval_mode == old(shell).approval_mode,
        final(shell).compact_count == old(shell).compact_count,
        final(shell).resume_count == old(shell).resume_count,
{
    let mut i: usize = 0;
    let mut scratch = String::new();
    while i < events.len()
        invariant
            i <= events@.len(),
            shell.usage == last_usage(events@.take(i as int), old(shell).usage),
            shell.rate_limit == last_rate_limit(events@.take(i as int), old(shell).rate_limit),
            shell.model == old(shell).model,
            shell.approval_mode == old(shell).approval_mode,
            shell.compact_count == old(shell).compact_count,
            shell.resume_count == old(shell).resume_count,
        decreases events.len() - i,
    {
        proof {
            assert(events@.take(i + 1).drop_last() =~= events@.take(i as int));
        }
        match &events[i] {
            TurnEvent::AssistantDelta(_) => {},
            e => {
                apply_live_event(shell, &mut scratch, e);
            },
        }
        i = i + 1;
    }
    assert(events@.take(events@.len() as int) =~= events@);
}

/// What the turn's run report says: the reply, or where it is blank that
/// the prompt completed.
pub open spec fn turn_rationale_text(content: Seq<char>, prompt: Seq<char>) -> Seq<char> {
    if trim(content).len() == 0 {
        "interactive prompt completed: "@ + prompt
    } else {
        content
    }
}

pub fn turn_rationale(content: &str, prompt: &str) -> (r: String)
    ensures
        r@ == turn_rationale_text(content@, prompt@),
{
    let chars = to_chars(content);
    if trim_chars(chars.as_slice()).len() == 0 {
        join2("interactive prompt completed: ", prompt)
    } else {
        content.to_string()
    }
}

/// The first approval request's summary, else a generic one.
pub open spec fn approval_summary_text(events: Seq<TurnEvent>) -> Seq<char>
    decreases events.len(),
{
    if events.len() == 0 {
        "A tool call requires your approval"@
    } else {
        match events[0] {
            TurnEvent::ApprovalRequested(s) => s@,
            _ => approval_summary_text(events.drop_first()),
        }
    }
}

/// What the approval modal shows as the request.
pub fn approval_summary(events: &[TurnEvent]) -> (s: String)
    ensures
        s@ == approval_summary_text(events@),
{
    let mut i: usize = 0;
    assert(events@.skip(0) =~= events@);
    while i < events.len()
        invariant
            i <= events@.len(),
            approval_summary_text(events@) == approval_summary_text(events@.skip(i as int)),
        decreases events.len() - i,
    {
        assert(events@.skip(i as int).drop_first() =~= events@.skip(i + 1));
        match &events[i] {
            TurnEvent::ApprovalRequested(s) => {
                return s.clone();
            },
            _ => {},
        }
        i = i + 1;
    }
    "A tool call requires your approval".to_string()
}

/// The tools whose calls wait for approval.
pub open spec fn needs_approval(name: Seq<char>) -> bool {
    name == "file.write"@ || name == "shell.exec"@
}

/// The first of a turn's tool calls that waits for approval, by index.
pub fn approval_tool_call(calls: &[ProviderToolCall]) -> (r: Option<usize>)
    ensures
        match r {
            Some(i) => i < calls@.len() && needs_approval(calls@[i as int].name@) && forall|j: int|
                0 <= j < i ==> !needs_approval(#[trigger] calls@[j].name@),
            None => forall|j: int| 0 <= j < calls@.len() ==> !needs_approval(#[trigger] calls@[j].name@),
        },
{
    let write = to_chars("file.write");
    let exec = to_chars("shell.exec");
    let mut i: usize = 0;
    while i < calls.len()
        invariant
            i <= calls@.len(),
            write@ == "file.write"@,
            exec@ == "shell.exec"@,
            forall|j: int| 0 <= j < i ==> !needs_approval(#[trigger] calls@[j].name@),
        decreases calls.len() - i,
    {
        let name = to_chars(calls[i].name.as_str());
        if crate::text::chars_eq(name.as_slice(), write.as_slice()) || crate::text::chars_eq(
            name.as_slice(),
            exec.as_slice(),
        ) {
            return Some(i);
        }
        i = i + 1;
    }
    None
}

/// How a key answers the approval modal.
#[derive(Clone, Copy, Debug, PartialEq, Eq, Structural)]
pub enum ApprovalAnswer {
    Approve,
    Deny,
    Cancel,
    /// The key does not answer; the modal keeps waiting.
    Wait,
}

/// `a` or Enter approves, `d` or Escape denies, Control-`c` cancels.
pub open spec fn approval_answer_of(k: KeyInput) -> ApprovalAnswer {
    match k.code {
        KeyCodeView::Char(c) => if c == 'a' {
            ApprovalAnswer::Approve
        } else if c == 'd' {
            ApprovalAnswer::Deny
        } else if c == 'c' && k.modifiers.control {
            ApprovalAnswer::Cancel
        } else {
            ApprovalAnswer::Wait
        },
        KeyCodeView::Enter => ApprovalAnswer::Approve,
        KeyCodeView::Esc => ApprovalAnswer::Deny,
        _ => ApprovalAnswer::Wait,
    }
}

pub fn approval_answer(key: &KeyInput) -> (a: ApprovalAnswer)
    ensures
        a == approval_answer_of(*key),
{
    match key.code {
        KeyCodeView::Char(c) => if c == 'a' {
            ApprovalAnswer::Approve
        } else if c == 'd' {
            ApprovalAnswer::Deny
        } else if c == 'c' && key.modifiers.control {
            ApprovalAnswer::Cancel
        } else {
            ApprovalAnswer::Wait
        },
        KeyCodeView::Enter => ApprovalAnswer::Approve,
        KeyCodeView::Esc => ApprovalAnswer::Deny,
        _ => ApprovalAnswer::Wait,
    }
}

/// The tool result recorded after the approval: the tool's output, or its
/// error behind `error: `.
pub fn tool_result_message(result: Result<String, String>) -> (m: String)
    ensures
        m@ == match result {
            Ok(out) => out@,
            Err(e) => "error: "@ + e@,
        },
{
    match result {
        Ok(out) => out,
        Err(e) => join2("error: ", e.as_str()),
    }
}

/// What a gated call comes to once the approval modal is answered
/// (`Some(true)` approves, `Some(false)` denies, `None` cancels): an answer
/// runs the call's captured form; a cancel fails it.
pub fn answered_call(name: &str, arguments_json: &str, decision: Option<bool>) -> (s: ToolStep)
    ensures
        match decision {
            Some(approve) => captured(name@, tool_args_of(arguments_json@), approve, s),
            None => failed_with(s, "approval cancelled"@),
        },
{
    match decision {
        Some(approve) => run_captured_json(name, arguments_json, approve),
        None => ToolStep::Answer(Err(InteractiveToolError::Failed("approval cancelled".to_string()))),
    }
}

/// What the shell records and shows when a turn fails with `error`: the
/// transcript's message and the footer's notification.
pub fn turn_failure_notice(error: &str) -> (r: (String, String))
    ensures
        r.0@ == "assistant error: "@ + error@,
        r.1@ == "✗ "@ + error@,
{
    (join2("assistant error: ", error), join2("✗ ", error))
}

/// Passes an event to the live reply, if one is shown: a delta extends
/// it; the turn's completion or failure marks it done.
pub fn on_turn_event(live: &mut Option<LiveTurnState>, event: &TurnEvent)
    ensures
        match *old(live) {
            None => (*final(live)) is None,
            Some(l) => (*final(live)) matches Some(n) && match *event {
                TurnEvent::AssistantDelta(d) => n.content@ == l.content@ + d@ && n.busy && n.done
                    == l.done,
                TurnEvent::TurnCompleted | TurnEvent::TurnFailed(_) => n.content == l.content
                    && n.done && !n.busy,
                _ => n == l,
            },
        },
{
    match live {
        Some(l) => match event {
            TurnEvent::AssistantDelta(d) => l.push_delta(d.as_str()),
            TurnEvent::TurnCompleted => l.mark_done(),
            TurnEvent::TurnFailed(_) => l.mark_done(),
            _ => {},
        },
        None => {},
    }
}

/// `{:?}` of an optional count: `None`, or `Some(` the number `)`.
pub open spec fn debug_count_text(o: Option<u64>) -> Seq<char> {
    match o {
        Some(n) => "Some("@ + decimal(n as nat) + ")"@,
        None => "None"@,
    }
}

fn debug_count(o: Option<u64>) -> (s: String)
    ensures
        s@ == debug_count_text(o),
{
    match o {
        Some(n) => join3("Some(", u64_to_decimal(n).as_str(), ")"),
        None => "None".to_string(),
    }
}

/// The lines plain output prints for an event.
pub open spec fn event_log_text(e: TurnEvent) -> Seq<Seq<char>> {
    match e {
        TurnEvent::TurnStarted { model } => seq![
            "assistant.model: "@ + model@,
            "assistant.turn_started: true"@,
        ],
        TurnEvent::AssistantDelta(d) => seq!["assistant.delta: "@ + d@],
        TurnEvent::AssistantMessageFinalized(c) => seq!["assistant.final: "@ + c@],
        TurnEvent::ToolCallProposed { name, arguments_json } => seq![
            "tool.proposed: "@ + name@ + " "@ + arguments_json@,
        ],
        TurnEvent::ApprovalRequested(s) => seq!["approval.requested: "@ + s@],
        TurnEvent::ToolExecutionStarted(t) => seq!["tool.started: "@ + t@],
        TurnEvent::ToolExecutionFinished { tool_name, result } => seq![
            "tool.finished: "@ + tool_name@ + " "@ + result@,
        ],
        TurnEvent::TurnFailed(e) => seq!["assistant.error: "@ + e@],
        TurnEvent::TurnCompleted => seq!["assistant.turn_completed: true"@],
        TurnEvent::Usage { input_tokens, cached_input_tokens, output_tokens, total_tokens } => seq![
            "assistant.usage: in="@ + decimal(input_tokens as nat) + " cached="@ + decimal(
                cached_input_tokens as nat,
            ) + " out="@ + decimal(output_tokens as nat) + " total="@ + decimal(
                total_tokens as nat,
            ),
        ],
        TurnEvent::RateLimit { remaining_requests, remaining_tokens, .. } => seq![
            "assistant.rate_limit: remaining_requests="@ + debug_count_text(remaining_requests)
                + " remaining_tokens="@ + debug_count_text(remaining_tokens),
        ],
    }
}

fn one_line(s: String) -> (v: Vec<String>)
    ensures
        string_views(v@) == seq![s@],
{
    let mut v: Vec<String> = Vec::new();
    v.push(s);
    assert(string_views(v@) =~= seq![s@]);
    v
}

pub fn event_log_lines(event: &TurnEvent) -> (v: Vec<String>)
    ensures
        string_views(v@) == event_log_text(*event),
{
    match event {
        TurnEvent::TurnStarted { model } => {
            let mut v = one_line(join2("assistant.model: ", model.as_str()));
            let ghost before = v@;
            v.push("assistant.turn_started: true".to_string());
            assert(string_views(v@) =~= string_views(before).push("assistant.turn_started: true"@));
            v
        },
        TurnEvent::AssistantDelta(d) => one_line(join2("assistant.delta: ", d.as_str())),
        TurnEvent::AssistantMessageFinalized(c) => one_line(join2("assistant.final: ", c.as_str())),
        TurnEvent::ToolCallProposed { name, arguments_json } => {
            let a = join3("tool.proposed: ", name.as_str(), " ");
            one_line(join2(a.as_str(), arguments_json.as_str()))
        },
        TurnEvent::ApprovalRequested(s) => one_line(join2("approval.requested: ", s.as_str())),
        TurnEvent::ToolExecutionStarted(t) => one_line(join2("tool.started: ", t.as_str())),
        TurnEvent::ToolExecutionFinished { tool_name, result } => {
            let a = join3("tool.finished: ", tool_name.as_str(), " ");
            one_line(join2(a.as_str(), result.as_str()))
        },
        TurnEvent::TurnFailed(e) => one_line(join2("assistant.error: ", e.as_str())),
        TurnEvent::TurnCompleted => one_line("assistant.turn_completed: true".to_string()),
        TurnEvent::Usage { input_tokens, cached_input_tokens, output_tokens, total_tokens } => {
            let a = join2("assistant.usage: in=", u64_to_decimal(*input_tokens).as_str());
            let b = join3(a.as_str(), " cached=", u64_to_decimal(*cached_input_tokens).as_str());
            let c = join3(b.as_str(), " out=", u64_to_decimal(*output_tokens).as_str());
            one_line(join3(c.as_str(), " total=", u64_to_decimal(*total_tokens).as_str()))
        },
        TurnEvent::RateLimit { remaining_requests, remaining_tokens, .. } => {
            let a = join2(
                "assistant.rate_limit: remaining_requests=",
                debug_count(*remaining_requests).as_str(),
            );
            one_line(join3(a.as_str(), " remaining_tokens=", debug_count(*remaining_tokens).as_str()))
        },
    }
}

/// What an event leaves in the session's transcript.
#[derive(Clone, Debug, PartialEq, Eq)]
pub enum EventRecord {
    Nothing,
    /// The final reply replaces the streamed one.
    ReplaceAssistant(String),
    /// A system message.
    System(String),
}

pub open spec fn system_record(r: EventRecord, text: Seq<char>) -> bool {
    r matches EventRecord::System(t) && t@ == text
}

/// The transcript keeps the final reply, the proposed and run tools, the
/// approval request and the failure; nothing else.
pub open spec fn event_record_ok(e: TurnEvent, r: EventRecord) -> bool {
    match e {
        TurnEvent::AssistantMessageFinalized(c) => r == EventRecord::ReplaceAssistant(c),
        TurnEvent::ToolCallProposed { name, arguments_json } => system_record(
            r,
            "tool proposed: "@ + name@ + " "@ + arguments_json@,
        ),
        TurnEvent::ApprovalRequested(s) => system_record(r, "approval requested: "@ + s@),
        TurnEvent::ToolExecutionStarted(t) => system_record(r, "tool started: "@ + t@),
        TurnEvent::ToolExecutionFinished { tool_name, result } => system_record(
            r,
            "tool finished: "@ + tool_name@ + " "@ + result@,
        ),
        TurnEvent::TurnFailed(e) => system_record(r, "assistant error: "@ + e@),
        _ => r == EventRecord::Nothing,
    }
}

pub fn event_record(event: &TurnEvent) -> (r: EventRecord)
    ensures
        event_record_ok(*event, r),
{
    match event {
        TurnEvent::AssistantMessageFinalized(c) => EventRecord::ReplaceAssistant(c.clone()),
        TurnEvent::ToolCallProposed { name, arguments_json } => {
            let a = join3("tool proposed: ", name.as_str(), " ");
            EventRecord::System(join2(a.as_str(), arguments_json.as_str()))
        },
        TurnEvent::ApprovalRequested(s) => EventRecord::System(join2("approval requested: ", s.as_str())),
        TurnEvent::ToolExecutionStarted(t) => EventRecord::System(join2("tool started: ", t.as_str())),
        TurnEvent::ToolExecutionFinished { tool_name, result } => {
            let a = join3("tool finished: ", tool_name.as_str(), " ");
            EventRecord::System(join2(a.as_str(), result.as_str()))
        },
        TurnEvent::TurnFailed(e) => EventRecord::System(join2("assistant error: ", e.as_str())),
        _ => EventRecord::Nothing,
    }
}

} // verus!
