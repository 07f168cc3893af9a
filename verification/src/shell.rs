//! The interactive shell's own state and texts: the shell settings, the
//! session's messages and prompt history, the notices it prints, and the
//! address it probes for a provider.
use vstd::prelude::*;

use crate::history::recorded;
use crate::protocol::ContinueDecision;
use crate::protocol::ContinueMode;
use crate::provider::ProviderConfig;
use crate::provider::ProviderMessageRole;
use crate::provider::ProviderTurnMessage;
use crate::text::chars_contain;
use crate::text::chars_start_with;
use crate::text::contains;
use crate::text::decimal;
use crate::text::first_index_of;
use crate::text::from_chars;
use crate::text::join2;
use crate::text::join3;
use crate::text::split_chars_on;
use crate::text::split_on;
use crate::text::starts_with;
use crate::text::string_views;
use crate::text::sub_chars;
use crate::text::to_chars;
use crate::text::trim_chars;
use crate::text::u64_to_decimal;
use crate::text::views;

verus! {

#[derive(Clone, Debug, Default, PartialEq, Eq)]
pub struct ShellUsage {
    pub input_tokens: u64,
    pub cached_input_tokens: u64,
    pub output_tokens: u64,
    pub total_tokens: u64,
}

#[derive(Clone, Debug, Default, PartialEq, Eq)]
pub struct ShellRateLimit {
    pub limit_requests: Option<u64>,
    pub remaining_requests: Option<u64>,
    pub limit_tokens: Option<u64>,
    pub remaining_tokens: Option<u64>,
    pub reset_after_seconds: Option<u64>,
}

#[derive(Clone, Debug, PartialEq, Eq)]
pub struct InteractiveShellState {
    pub model: String,
    pub approval_mode: String,
    pub compact_count: u32,
    pub resume_count: u32,
    pub usage: ShellUsage,
    pub rate_limit: ShellRateLimit,
}

/// A fresh shell: the default model and approval mode, nothing counted.
pub fn interactive_shell_state() -> (s: InteractiveShellState)
    ensures
        s.model@ == "gpt-5.4"@,
        s.approval_mode@ == "on-request"@,
        s.compact_count == 0,
        s.resume_count == 0,
        s.usage == (ShellUsage {
            input_tokens: 0,
            cached_input_tokens: 0,
            output_tokens: 0,
            total_tokens: 0,
        }),
        s.rate_limit == (ShellRateLimit {
            limit_requests: None,
            remaining_requests: None,
            limit_tokens: None,
            remaining_tokens: None,
            reset_after_seconds: None,
        }),
{
    InteractiveShellState {
        model: "gpt-5.4".to_owned(),
        approval_mode: "on-request".to_owned(),
        compact_count: 0,
        resume_count: 0,
        usage: ShellUsage { input_tokens: 0, cached_input_tokens: 0, output_tokens: 0, total_tokens: 0 },
        rate_limit: ShellRateLimit {
            limit_requests: None,
            remaining_requests: None,
            limit_tokens: None,
            remaining_tokens: None,
            reset_after_seconds: None,
        },
    }
}

/// How an API key is shown: its last four chars behind `***`, or `not-set`.
pub open spec fn masked(key: Seq<char>) -> Seq<char> {
    if key.len() == 0 {
        "not-set"@
    } else {
        "***"@ + key.skip(
            if key.len() >= 4 {
                key.len() - 4
            } else {
                0
            },
        )
    }
}

pub fn masked_api_key(api_key: &str) -> (m: String)
    ensures
        m@ == masked(api_key@),
{
    let chars = to_chars(api_key);
    if chars.len() == 0 {
        return "not-set".to_owned();
    }
    let start = if chars.len() >= 4 {
        chars.len() - 4
    } else {
        0
    };
    let suffix = sub_chars(&chars, start, chars.len());
    assert(suffix@ =~= api_key@.skip(start as int));
    join2("***", from_chars(suffix.as_slice()).as_str())
}

/// The two lines printed when the shell is left, the second telling how to
/// come back to the session.
pub fn interactive_shell_exit_notice_lines(session_id: &str) -> (lines: [String; 2])
    ensures
        lines[0]@ == "leaving muldex interactive shell"@,
        lines[1]@ == "To continue this session, run muldex resume "@ + session_id@,
{
    ["leaving muldex interactive shell".to_owned(), join2(
        "To continue this session, run muldex resume ",
        session_id,
    )]
}

/// The help the shell prints for its commands.
pub open spec fn help_lines() -> Seq<Seq<char>> {
    seq![
        "/help     show available commands"@,
        "/status   show runtime phase and cycle"@,
        "/config llm show current llm-router config"@,
        "/provider show current provider or switch with /provider use <name>"@,
        "/model    show or set active model"@,
        "/approval show or set approval mode"@,
        "/compact  record a compaction request"@,
        "/sessions list resumable interactive shells"@,
        "/resume   restore active shell or a named session"@,
        "/new      create a fresh interactive shell session"@,
        "/exit     leave interactive shell"@,
    ]
}

pub fn interactive_shell_help_lines() -> (lines: Vec<String>)
    ensures
        string_views(lines@) == help_lines(),
{
    let lines = vec![
        "/help     show available commands".to_owned(),
        "/status   show runtime phase and cycle".to_owned(),
        "/config llm show current llm-router config".to_owned(),
        "/provider show current provider or switch with /provider use <name>".to_owned(),
        "/model    show or set active model".to_owned(),
        "/approval show or set approval mode".to_owned(),
        "/compact  record a compaction request".to_owned(),
        "/sessions list resumable interactive shells".to_owned(),
        "/resume   restore active shell or a named session".to_owned(),
        "/new      create a fresh interactive shell session".to_owned(),
        "/exit     leave interactive shell".to_owned(),
    ];
    assert(string_views(lines@) =~= help_lines());
    lines
}

/// The decision that lets the interactive session go on to its next turn.
pub fn next_turn_decision(rationale: String) -> (d: ContinueDecision)
    ensures
        d.allow_continue,
        d.mode == ContinueMode::NextTurn,
        d.rationale == rationale,
        d.next_action matches Some(a) && a@ == "continue interactive session"@,
        !d.pause_for_approval,
        !d.consume_interrupts_now,
        d.may_continue_other_work,
        !d.suppress_duplicate_injection,
        !d.downgrade_trigger_turn,
        !d.request_compaction,
        !d.request_handoff_summary,
        !d.request_checkpoint,
        !d.enter_self_correction,
{
    ContinueDecision {
        allow_continue: true,
        mode: ContinueMode::NextTurn,
        rationale,
        next_action: Some("continue interactive session".to_owned()),
        pause_for_approval: false,
        consume_interrupts_now: false,
        may_continue_other_work: true,
        suppress_duplicate_injection: false,
        downgrade_trigger_turn: false,
        request_compaction: false,
        request_handoff_summary: false,
        request_checkpoint: false,
        enter_self_correction: false,
    }
}

// ---------------------------------------------------------------------
// the address a provider is probed at

/// `s` without every leading copy of `p` (`str::trim_start_matches`).
pub open spec fn trim_prefix_all(s: Seq<char>, p: Seq<char>) -> Seq<char>
    decreases s.len(),
{
    if p.len() > 0 && starts_with(s, p) {
        trim_prefix_all(s.skip(p.len() as int), p)
    } else {
        s
    }
}

fn trim_prefix_all_chars(s: &[char], p: &[char]) -> (r: Vec<char>)
    ensures
        r@ == trim_prefix_all(s@, p@),
{
    let mut start: usize = 0;
    assert(s@.skip(0) =~= s@);
    while p.len() > 0 && start <= s.len()
        invariant
            start <= s@.len(),
            trim_prefix_all(s@.skip(start as int), p@) == trim_prefix_all(s@, p@),
        decreases s.len() - start,
    {
        let rest = sub_chars(s, start, s.len());
        assert(rest@ =~= s@.skip(start as int));
        if !chars_start_with(&rest, p) {
            return rest;
        }
        assert(s@.skip(start as int).skip(p@.len() as int) =~= s@.skip(start + p@.len()));
        start = start + p.len();
    }
    let rest = sub_chars(s, start, s.len());
    assert(rest@ =~= s@.skip(start as int));
    rest
}

/// Where a provider is reached, as `host:port`: its host and port when both
/// are set, else the authority of its base URL (with the scheme's default
/// port when it names none). The errors say what is missing.
pub open spec fn socket_address(p: crate::provider::ProviderConfigView) -> Result<Seq<char>, Seq<char>> {
    match (p.host, p.port) {
        (Some(h), Some(port)) => Ok(h + ":"@ + decimal(port as nat)),
        _ => match p.base_url {
            Some(b) => {
                let trimmed = trim_prefix_all(trim_prefix_all(b, "https://"@), "http://"@);
                let authority = trimmed.take(first_index_of(trimmed, '/') as int);
                if authority.len() == 0 {
                    Err("provider base_url missing authority"@)
                } else if contains(authority, ":"@) {
                    Ok(authority)
                } else if starts_with(b, "https://"@) {
                    Ok(authority + ":443"@)
                } else {
                    Ok(authority + ":80"@)
                }
            },
            None => Err("provider has no host/port or base_url"@),
        },
    }
}

pub fn provider_socket_address(provider: &ProviderConfig) -> (r: Result<String, String>)
    ensures
        match (r, socket_address(provider@)) {
            (Ok(a), Ok(b)) => a@ == b,
            (Err(a), Err(b)) => a@ == b,
            _ => false,
        },
{
    match (&provider.host, provider.port) {
        (Some(host), Some(port)) => {
            let digits = u64_to_decimal(port as u64);
            return Ok(join3(host.as_str(), ":", digits.as_str()));
        },
        _ => {},
    }
    match &provider.base_url {
        Some(base_url) => {
            let b = to_chars(base_url.as_str());
            let https = to_chars("https://");
            let http = to_chars("http://");
            let once = trim_prefix_all_chars(&b, &https);
            let trimmed = trim_prefix_all_chars(&once, &http);
            let slash = crate::text::next_index_of(&trimmed, '/', 0);
            assert(trimmed@.skip(0) =~= trimmed@);
            let authority = sub_chars(&trimmed, 0, slash);
            assert(authority@ =~= trimmed@.take(slash as int));
            if authority.len() == 0 {
                return Err("provider base_url missing authority".to_owned());
            }
            let colon = to_chars(":");
            let text = from_chars(authority.as_slice());
            if chars_contain(&authority, &colon) {
                Ok(text)
            } else if chars_start_with(&b, &https) {
                Ok(join2(text.as_str(), ":443"))
            } else {
                Ok(join2(text.as_str(), ":80"))
            }
        },
        None => Err("provider has no host/port or base_url".to_owned()),
    }
}

// ---------------------------------------------------------------------
// the session's messages

#[derive(Clone, Copy, Debug, PartialEq, Eq, Structural)]
pub enum InteractiveMessageRole {
    System,
    User,
    Assistant,
}

#[derive(Clone, Debug, PartialEq, Eq)]
pub struct InteractiveMessage {
    pub role: InteractiveMessageRole,
    pub content: String,
}

impl InteractiveMessage {
    /// A copy of the message.
    pub fn duplicate(&self) -> (m: Self)
        ensures
            m == *self,
    {
        InteractiveMessage { role: self.role, content: self.content.clone() }
    }
}

/// Appends each text as a system message.
pub fn append_system_messages(messages: &mut Vec<InteractiveMessage>, contents: Vec<String>)
    ensures
        final(messages)@.len() == old(messages)@.len() + contents@.len(),
        final(messages)@.take(old(messages)@.len() as int) == old(messages)@,
        forall|i: int|
            0 <= i < contents@.len() ==> (#[trigger] final(messages)@[old(messages)@.len() + i])
                == (InteractiveMessage { role: InteractiveMessageRole::System, content: contents@[i] }),
{
    let ghost before = messages@;
    let mut k: usize = 0;
    while k < contents.len()
        invariant
            k <= contents@.len(),
            messages@.len() == before.len() + k,
            messages@.take(before.len() as int) == before,
            forall|i: int|
                0 <= i < k ==> (#[trigger] messages@[before.len() + i]) == (InteractiveMessage {
                    role: InteractiveMessageRole::System,
                    content: contents@[i],
                }),
        decreases contents.len() - k,
    {
        let ghost old_messages = messages@;
        messages.push(InteractiveMessage { role: InteractiveMessageRole::System, content: contents[k].clone() });
        assert(messages@.take(before.len() as int) =~= old_messages.take(before.len() as int));
        assert forall|i: int| 0 <= i < k + 1 implies (#[trigger] messages@[before.len() + i]) == (
        InteractiveMessage { role: InteractiveMessageRole::System, content: contents@[i] }) by {
            if i < k {
                assert(messages@[before.len() + i] == old_messages[before.len() + i]);
            }
        }
        k = k + 1;
    }
}

/// Drops the last `count` messages (all of them when there are fewer).
pub fn remove_last_messages(messages: &mut Vec<InteractiveMessage>, count: usize)
    ensures
        final(messages)@ == old(messages)@.take(
            if count <= old(messages)@.len() {
                old(messages)@.len() - count
            } else {
                0
            },
        ),
{
    let keep = if count <= messages.len() {
        messages.len() - count
    } else {
        0
    };
    messages.truncate(keep);
}

/// Shows `content` as the reply in progress: it replaces a trailing
/// assistant message, or is appended as a new one.
pub fn replace_last_assistant_message(messages: &mut Vec<InteractiveMessage>, content: &str)
    ensures
        ({
            let m0 = old(messages)@;
            let reply = InteractiveMessage {
                role: InteractiveMessageRole::Assistant,
                content: final(messages)@.last().content,
            };
            &&& final(messages)@.last().content@ == content@
            &&& final(messages)@.last().role == InteractiveMessageRole::Assistant
            &&& if m0.len() > 0 && m0.last().role == InteractiveMessageRole::Assistant {
                final(messages)@ == m0.update(m0.len() - 1, reply)
            } else {
                final(messages)@ == m0.push(reply)
            }
        }),
{
    let reply = InteractiveMessage { role: InteractiveMessageRole::Assistant, content: content.to_owned() };
    let n = messages.len();
    if n > 0 && messages[n - 1].role == InteractiveMessageRole::Assistant {
        messages.set(n - 1, reply);
    } else {
        messages.push(reply);
    }
}

/// Records a submitted prompt in the session's history as the composer's
/// history does: trimmed, unless blank or equal to the last entry.
pub fn append_prompt_history(history: &mut Vec<String>, entry: &str)
    ensures
        recorded(old(history)@, entry@, final(history)@),
{
    let chars = to_chars(entry);
    let normalized = trim_chars(&chars);
    if normalized.len() == 0 {
        return;
    }
    let duplicate = if history.len() == 0 {
        false
    } else {
        let last = to_chars(history[history.len() - 1].as_str());
        crate::text::chars_eq(&last, &normalized)
    };
    if !duplicate {
        let ghost before = history@;
        history.push(from_chars(normalized.as_slice()));
        assert(history@.drop_last() =~= before);
    }
}

/// The provider role a session message is sent with.
pub open spec fn provider_role(r: InteractiveMessageRole) -> ProviderMessageRole {
    match r {
        InteractiveMessageRole::System => ProviderMessageRole::System,
        InteractiveMessageRole::User => ProviderMessageRole::User,
        InteractiveMessageRole::Assistant => ProviderMessageRole::Assistant,
    }
}

/// `p` is session message `m` as sent to a provider: same role and text, no
/// tool fields.
pub open spec fn sent_as(m: InteractiveMessage, p: ProviderTurnMessage) -> bool {
    &&& p.role == provider_role(m.role)
    &&& p.content == Some(m.content)
    &&& p.tool_call_id is None
    &&& p.name is None
    &&& p.tool_calls@.len() == 0
}

/// The session's messages as the provider receives them, in order.
pub fn messages_as_provider_messages(messages: &[InteractiveMessage]) -> (r: Vec<ProviderTurnMessage>)
    ensures
        r@.len() == messages@.len(),
        forall|i: int| 0 <= i < messages@.len() ==> sent_as(messages@[i], #[trigger] r@[i]),
{
    let mut r: Vec<ProviderTurnMessage> = Vec::new();
    let mut i: usize = 0;
    while i < messages.len()
        invariant
            i <= messages@.len(),
            r@.len() == i,
            forall|k: int| 0 <= k < i ==> sent_as(messages@[k], #[trigger] r@[k]),
        decreases messages.len() - i,
    {
        let m = &messages[i];
        let role = match m.role {
            InteractiveMessageRole::System => ProviderMessageRole::System,
            InteractiveMessageRole::User => ProviderMessageRole::User,
            InteractiveMessageRole::Assistant => ProviderMessageRole::Assistant,
        };
        r.push(
            ProviderTurnMessage {
                role,
                content: Some(m.content.clone()),
                tool_call_id: None,
                name: None,
                tool_calls: Vec::new(),
            },
        );
        i = i + 1;
    }
    r
}

/// The label a message's role is shown with in the pager.
pub open spec fn pager_role(r: InteractiveMessageRole) -> Seq<char> {
    match r {
        InteractiveMessageRole::System => "SYSTEM"@,
        InteractiveMessageRole::User => "USER"@,
        InteractiveMessageRole::Assistant => "ASSISTANT"@,
    }
}

/// The pager lines of one message: its `[ROLE]` line, the lines of its text
/// and a blank line.
pub open spec fn message_lines(m: InteractiveMessage) -> Seq<Seq<char>> {
    seq!["["@ + pager_role(m.role) + "]"@] + split_on(m.content@, '\n') + seq![Seq::empty()]
}

pub open spec fn messages_lines(ms: Seq<InteractiveMessage>) -> Seq<Seq<char>>
    decreases ms.len(),
{
    if ms.len() == 0 {
        Seq::empty()
    } else {
        messages_lines(ms.drop_last()) + message_lines(ms.last())
    }
}

/// The transcript as the pager shows it: a `session:` line, a blank line,
/// then each message.
pub open spec fn transcript(session_id: Seq<char>, ms: Seq<InteractiveMessage>) -> Seq<Seq<char>> {
    seq!["session: "@ + session_id, Seq::empty()] + messages_lines(ms)
}

pub fn transcript_lines(session_id: &str, messages: &[InteractiveMessage]) -> (lines: Vec<String>)
    ensures
        string_views(lines@) == transcript(session_id@, messages@),
{
    let mut lines: Vec<String> = vec![join2("session: ", session_id), String::new()];
    let mut i: usize = 0;
    assert(messages@.take(0) =~= Seq::<InteractiveMessage>::empty());
    assert(string_views(lines@) =~= transcript(session_id@, messages@.take(0)));
    while i < messages.len()
        invariant
            i <= messages@.len(),
            string_views(lines@) == transcript(session_id@, messages@.take(i as int)),
        decreases messages.len() - i,
    {
        let m = &messages[i];
        let role: &str = match m.role {
            InteractiveMessageRole::System => "SYSTEM",
            InteractiveMessageRole::User => "USER",
            InteractiveMessageRole::Assistant => "ASSISTANT",
        };
        let ghost before = string_views(lines@);
        lines.push(join3("[", role, "]"));
        let content = to_chars(m.content.as_str());
        let pieces = split_chars_on(&content, '\n');
        let mut k: usize = 0;
        while k < pieces.len()
            invariant
                k <= pieces@.len(),
                views(pieces@) == split_on(m.content@, '\n'),
                string_views(lines@) == before + seq!["["@ + pager_role(m.role) + "]"@] + views(
                    pieces@,
                ).take(k as int),
            decreases pieces.len() - k,
        {
            let ghost prev = lines@;
            lines.push(from_chars(pieces[k].as_slice()));
            assert(views(pieces@)[k as int] == pieces@[k as int]@);
            assert(string_views(lines@) =~= string_views(prev).push(pieces@[k as int]@));
            assert(views(pieces@).take(k + 1) =~= views(pieces@).take(k as int).push(
                pieces@[k as int]@,
            ));
            k = k + 1;
        }
        assert(views(pieces@).take(k as int) =~= views(pieces@));
        let ghost mid = string_views(lines@);
        lines.push(String::new());
        assert(string_views(lines@) =~= mid.push(Seq::<char>::empty()));
        assert(messages@.take(i + 1).drop_last() =~= messages@.take(i as int));
        assert(messages@.take(i + 1).last() == messages@[i as int]);
        assert(messages_lines(messages@.take(i + 1)) == messages_lines(messages@.take(i as int))
            + message_lines(messages@[i as int]));
        assert(string_views(lines@) =~= before + message_lines(messages@[i as int]));
        assert(transcript(session_id@, messages@.take(i + 1)) =~= transcript(
            session_id@,
            messages@.take(i as int),
        ) + message_lines(messages@[i as int]));
        i = i + 1;
    }
    assert(messages@.take(i as int) =~= messages@);
    lines
}

/// Index of the session whose id is `active`, if any.
pub fn active_session_index(session_ids: &[String], active: &str) -> (r: Option<usize>)
    ensures
        match r {
            Some(i) => i < session_ids@.len() && session_ids@[i as int]@ == active@ && forall|k: int|
                0 <= k < i ==> (#[trigger] session_ids@[k])@ != active@,
            None => forall|k: int| 0 <= k < session_ids@.len() ==> (#[trigger] session_ids@[k])@ != active@,
        },
{
    let target = active.to_owned();
    let mut i: usize = 0;
    while i < session_ids.len()
        invariant
            i <= session_ids@.len(),
            target@ == active@,
            forall|k: int| 0 <= k < i ==> (#[trigger] session_ids@[k])@ != active@,
        decreases session_ids.len() - i,
    {
        if session_ids[i] == target {
            return Some(i);
        }
        i = i + 1;
    }
    None
}

/// The reply streamed in by a running turn: its text so far, whether the
/// turn is busy, and whether it is done.
#[derive(Clone, Debug, Default, PartialEq, Eq)]
pub struct LiveTurnState {
    pub content: String,
    pub busy: bool,
    pub done: bool,
}

impl LiveTurnState {
    /// Appends a piece of the reply and marks the turn busy.
    pub fn push_delta(&mut self, delta: &str)
        ensures
            final(self).content@ == old(self).content@ + delta@,
            final(self).busy,
            final(self).done == old(self).done,
    {
        self.content = join2(self.content.as_str(), delta);
        self.busy = true;
    }

    /// Marks the turn done and no longer busy.
    pub fn mark_done(&mut self)
        ensures
            final(self).content == old(self).content,
            final(self).done,
            !final(self).busy,
    {
        self.done = true;
        self.busy = false;
    }
}

} // verus!
