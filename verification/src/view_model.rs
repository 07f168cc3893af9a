//! The view model the shell's renderer draws: plain texts and numbers built
//! from the session state.
use vstd::prelude::*;

use crate::history::InteractiveHistorySearchState;
use crate::history::InteractiveHistoryState;
use crate::overlay::OverlayKind;
use crate::overlay::OverlayState;
use crate::prompt::on_boundary;
use crate::prompt::InteractivePromptBuffer;
use crate::protocol::ApprovalPolicyDescriptor;
use crate::provider::resolution;
use crate::provider::resolve_provider_config;
use crate::provider::MuldexConfig;
use crate::shell::InteractiveMessage;
use crate::shell::InteractiveMessageRole;
use crate::shell::InteractiveShellState;
use crate::slash::InteractiveSlashCompletionState;
use crate::slash::InteractiveSlashHint;
use crate::text::char_index;
use crate::text::decimal;
use crate::text::join2;
use crate::text::join3;
use crate::text::string_views;
use crate::text::to_chars;
use crate::text::u64_to_decimal;
use crate::vim::VimState;

verus! {

#[derive(Clone, Debug, PartialEq, Eq)]
pub struct TranscriptItemViewModel {
    pub role_label: String,
    pub content: String,
}

impl TranscriptItemViewModel {
    /// A copy of the item.
    pub fn duplicate(&self) -> (d: Self)
        ensures
            d == *self,
    {
        TranscriptItemViewModel { role_label: self.role_label.clone(), content: self.content.clone() }
    }
}

/// A copy of a list of transcript items.
pub fn duplicate_items(items: &[TranscriptItemViewModel]) -> (d: Vec<TranscriptItemViewModel>)
    ensures
        d@ == items@,
{
    let mut d: Vec<TranscriptItemViewModel> = Vec::new();
    let mut i: usize = 0;
    while i < items.len()
        invariant
            i <= items@.len(),
            d@ == items@.take(i as int),
        decreases items.len() - i,
    {
        d.push(items[i].duplicate());
        assert(d@ =~= items@.take(i + 1));
        i = i + 1;
    }
    assert(items@.take(i as int) =~= items@);
    d
}


#[derive(Clone, Debug, PartialEq, Eq)]
pub struct OverlayViewModel {
    pub visible: bool,
    pub title: String,
    pub lines: Vec<String>,
    pub scroll: usize,
    pub kind: String,
}

#[derive(Clone, Debug, PartialEq, Eq)]
pub struct TopBarViewModel {
    pub product_name: String,
    pub session_summary: String,
    pub phase: String,
    pub model: String,
    pub approval_mode: String,
    pub cycle_summary: String,
}

#[derive(Clone, Debug, Default, PartialEq, Eq)]
pub struct UsageViewModel {
    pub input_tokens: u64,
    pub cached_input_tokens: u64,
    pub output_tokens: u64,
    pub total_tokens: u64,
}

#[derive(Clone, Debug, Default, PartialEq, Eq)]
pub struct RateLimitViewModel {
    pub limit_requests: Option<u64>,
    pub remaining_requests: Option<u64>,
    pub limit_tokens: Option<u64>,
    pub remaining_tokens: Option<u64>,
    pub reset_after_seconds: Option<u64>,
}

#[derive(Clone, Debug, PartialEq, Eq)]
pub struct StatusPanelViewModel {
    pub phase: String,
    pub objective: String,
    pub last_outcome: String,
    pub pending_approval: bool,
    pub busy: bool,
    pub compact_count: u32,
    pub resume_count: u32,
    pub provider_summary: String,
    pub model_summary: String,
    pub usage: UsageViewModel,
    pub rate_limit: RateLimitViewModel,
}

#[derive(Clone, Debug, PartialEq, Eq)]
pub struct FooterViewModel {
    pub status_badge: String,
    pub hint: String,
    pub token_summary: String,
}

#[derive(Clone, Copy, Debug, PartialEq, Eq, Structural)]
pub enum ComposerMode {
    Insert,
    Normal,
}

#[derive(Clone, Debug, PartialEq, Eq)]
pub struct ComposerViewModel {
    pub text: String,
    pub cursor_line: usize,
    pub cursor_column: usize,
    pub mode: ComposerMode,
}

#[derive(Clone, Debug, PartialEq, Eq)]
pub struct SlashHintViewModel {
    pub command: String,
    pub summary: String,
    pub selected: bool,
}

#[derive(Clone, Debug, PartialEq, Eq)]
pub struct HistorySearchViewModel {
    pub lines: Vec<String>,
}

#[derive(Clone, Debug, PartialEq, Eq)]
pub struct ShellViewModel {
    pub top_bar: TopBarViewModel,
    pub transcript_items: Vec<TranscriptItemViewModel>,
    pub status_panel: StatusPanelViewModel,
    pub composer: ComposerViewModel,
    pub slash_hints: Vec<SlashHintViewModel>,
    pub search: Option<HistorySearchViewModel>,
    pub footer: FooterViewModel,
    pub overlay: OverlayViewModel,
}

/// What the view reads of the runtime's state, as plain values: the phase
/// as it is printed and whether it is the running phase, the cycle, the
/// objective, the approval mode, the rationales of the latest and of the
/// last run's report, the approval state and the model of the session the
/// runtime continues.
#[derive(Clone, Debug, PartialEq, Eq)]
pub struct RuntimeSummary {
    pub phase_label: String,
    pub running: bool,
    pub cycle_index: u64,
    pub objective: String,
    pub approval_policy: ApprovalPolicyDescriptor,
    pub latest_report_rationale: Option<String>,
    pub last_run_report_rationale: Option<String>,
    pub approval_request_active: bool,
    pub blocked_on_approval: bool,
    pub continuation_model: Option<String>,
}

pub struct ShellViewModelInput<'a> {
    pub session_id: &'a str,
    pub runtime: &'a RuntimeSummary,
    pub shell: &'a InteractiveShellState,
    pub messages: &'a [InteractiveMessage],
    pub provider_summary: &'a str,
    pub prompt_buffer: &'a InteractivePromptBuffer,
    pub completion: &'a InteractiveSlashCompletionState,
    pub history: &'a InteractiveHistoryState,
    pub search: &'a InteractiveHistorySearchState,
    pub slash_hints: &'a [InteractiveSlashHint],
    pub overlay: &'a OverlayState,
    pub mode: ComposerMode,
}

/// The model the session runs: the continued session's, else the shell's.
pub open spec fn model_label(runtime: RuntimeSummary, shell: InteractiveShellState) -> Seq<char> {
    match runtime.continuation_model {
        Some(m) => m@,
        None => shell.model@,
    }
}

pub fn runtime_model_label(runtime: &RuntimeSummary, shell: &InteractiveShellState) -> (l: String)
    ensures
        l@ == model_label(*runtime, *shell),
{
    match &runtime.continuation_model {
        Some(m) => m.clone(),
        None => shell.model.clone(),
    }
}

/// The label a message's role is shown with in the transcript.
pub open spec fn role_label(r: InteractiveMessageRole) -> Seq<char> {
    match r {
        InteractiveMessageRole::System => "SYSTEM"@,
        InteractiveMessageRole::User => "USER"@,
        InteractiveMessageRole::Assistant => "ASSISTANT"@,
    }
}

pub fn transcript_role_label(role: &InteractiveMessageRole) -> (l: &'static str)
    ensures
        l@ == role_label(*role),
{
    match role {
        InteractiveMessageRole::System => "SYSTEM",
        InteractiveMessageRole::User => "USER",
        InteractiveMessageRole::Assistant => "ASSISTANT",
    }
}

/// Number of `c` in `s`.
pub open spec fn count_char(s: Seq<char>, c: char) -> nat
    decreases s.len(),
{
    if s.len() == 0 {
        0
    } else {
        count_char(s.drop_last(), c) + if s.last() == c {
            1nat
        } else {
            0nat
        }
    }
}

/// Length of the part of `s` after its last `c` (all of `s` without one).
pub open spec fn tail_after_last(s: Seq<char>, c: char) -> nat
    decreases s.len(),
{
    if s.len() == 0 || s.last() == c {
        0
    } else {
        tail_after_last(s.drop_last(), c) + 1
    }
}

fn cursor_line_and_column(buffer: &InteractivePromptBuffer) -> (lc: (usize, usize))
    requires
        on_boundary(buffer.text@, buffer.cursor),
    ensures
        ({
            let before = buffer.text@.take(char_index(buffer.text@, buffer.cursor as int));
            lc.0 == count_char(before, '\n') && lc.1 == tail_after_last(before, '\n')
        }),
{
    let v = to_chars(buffer.text.as_str());
    let k = crate::text::index_at_byte(&v, buffer.cursor).unwrap();
    proof {
        crate::text::lemma_char_index(buffer.text@, k as int);
    }
    let ghost before = buffer.text@.take(k as int);
    let mut line: usize = 0;
    let mut column: usize = 0;
    let mut i: usize = 0;
    while i < k
        invariant
            i <= k <= v@.len(),
            v@ == buffer.text@,
            before == buffer.text@.take(k as int),
            line == count_char(before.take(i as int), '\n'),
            column == tail_after_last(before.take(i as int), '\n'),
            line <= i,
            column <= i,
        decreases k - i,
    {
        assert(before.take(i + 1).drop_last() =~= before.take(i as int));
        assert(before.take(i + 1).last() == v@[i as int]);
        if v[i] == '\n' {
            line = line + 1;
            column = 0;
        } else {
            column = column + 1;
        }
        i = i + 1;
    }
    assert(before.take(k as int) =~= before);
    (line, column)
}

fn clone_strings(v: &Vec<String>) -> (r: Vec<String>)
    ensures
        r@ == v@,
{
    let mut r: Vec<String> = Vec::new();
    let mut i: usize = 0;
    while i < v.len()
        invariant
            i <= v@.len(),
            r@ == v@.take(i as int),
        decreases v.len() - i,
    {
        r.push(v[i].clone());
        assert(r@ =~= v@.take(i + 1));
        i = i + 1;
    }
    assert(v@.take(i as int) =~= v@);
    r
}

/// The approval mode's word.
pub open spec fn approval_word(p: ApprovalPolicyDescriptor) -> Seq<char> {
    crate::commands::approval_label(p)
}

pub open spec fn top_bar_shows(t: TopBarViewModel, session_id: Seq<char>, runtime: RuntimeSummary, shell: InteractiveShellState) -> bool {
    &&& t.product_name@ == "muldex"@
    &&& t.session_summary@ == "session: "@ + session_id
    &&& t.phase@ == "phase: "@ + runtime.phase_label@
    &&& t.model@ == "model: "@ + model_label(runtime, shell)
    &&& t.approval_mode@ == "approval: "@ + approval_word(runtime.approval_policy)
    &&& t.cycle_summary@ == "cycle: "@ + decimal(runtime.cycle_index as nat)
}

pub open spec fn transcript_shows(items: Seq<TranscriptItemViewModel>, messages: Seq<InteractiveMessage>) -> bool {
    &&& items.len() == messages.len()
    &&& forall|i: int|
        0 <= i < messages.len() ==> (#[trigger] items[i]).role_label@ == role_label(messages[i].role)
            && items[i].content == messages[i].content
}

pub open spec fn status_shows(
    p: StatusPanelViewModel,
    runtime: RuntimeSummary,
    shell: InteractiveShellState,
    provider_summary: Seq<char>,
) -> bool {
    &&& p.phase@ == runtime.phase_label@
    &&& p.objective == runtime.objective
    &&& p.last_outcome@ == match runtime.latest_report_rationale {
        Some(r) => r@,
        None => match runtime.last_run_report_rationale {
            Some(r) => r@,
            None => "none"@,
        },
    }
    &&& p.pending_approval == (runtime.approval_request_active || runtime.blocked_on_approval)
    &&& p.busy == runtime.running
    &&& p.compact_count == shell.compact_count
    &&& p.resume_count == shell.resume_count
    &&& p.provider_summary@ == provider_summary
    &&& p.model_summary@ == model_label(runtime, shell)
    &&& p.usage == (UsageViewModel {
        input_tokens: shell.usage.input_tokens,
        cached_input_tokens: shell.usage.cached_input_tokens,
        output_tokens: shell.usage.output_tokens,
        total_tokens: shell.usage.total_tokens,
    })
    &&& p.rate_limit == (RateLimitViewModel {
        limit_requests: shell.rate_limit.limit_requests,
        remaining_requests: shell.rate_limit.remaining_requests,
        limit_tokens: shell.rate_limit.limit_tokens,
        remaining_tokens: shell.rate_limit.remaining_tokens,
        reset_after_seconds: shell.rate_limit.reset_after_seconds,
    })
}

/// Hint `h` is shown as `v`, selected when it is the completion's current
/// command.
pub open spec fn hint_shows(v: SlashHintViewModel, h: InteractiveSlashHint, c: InteractiveSlashCompletionState) -> bool {
    &&& v.command@ == h.command@
    &&& v.summary@ == h.summary@
    &&& v.selected == (c.index < c.matches@.len() && c.matches@[c.index as int]@ == h.command@)
}

pub open spec fn hints_show(
    vs: Seq<SlashHintViewModel>,
    hints: Seq<InteractiveSlashHint>,
    c: InteractiveSlashCompletionState,
) -> bool {
    if c.visible && hints.len() > 0 {
        &&& vs.len() == hints.len()
        &&& forall|i: int| 0 <= i < hints.len() ==> hint_shows(#[trigger] vs[i], hints[i], c)
    } else {
        vs.len() == 0
    }
}

/// The lines of the reverse-search panel.
pub open spec fn search_lines(s: InteractiveHistorySearchState, h: InteractiveHistoryState) -> Seq<Seq<char>> {
    let n = s.matches@.len();
    let head = seq!["reverse search active: "@ + s.query@, "matches: "@ + decimal(n)];
    let index_line: Seq<Seq<char>> = if n > 0 {
        seq!["match_index: "@ + decimal((s.match_index + 1) as nat) + "/"@ + decimal(n)]
    } else {
        Seq::empty()
    };
    let found = s.match_index < n && s.matches@[s.match_index as int] < h.entries@.len();
    let last = if found {
        "match: "@ + h.entries@[s.matches@[s.match_index as int] as int]@
    } else {
        "match: none"@
    };
    head + index_line + seq![last]
}

pub open spec fn footer_shows(
    f: FooterViewModel,
    runtime: RuntimeSummary,
    shell: InteractiveShellState,
    search_active: bool,
    completion_visible: bool,
) -> bool {
    &&& f.status_badge@ == if runtime.running {
        "busy"@
    } else if runtime.blocked_on_approval {
        "approval"@
    } else {
        "idle"@
    }
    &&& f.token_summary@ == if shell.usage.total_tokens > 0 {
        "tok "@ + decimal(shell.usage.output_tokens as nat) + "\u{25b2}/"@ + decimal(
            shell.usage.input_tokens as nat,
        ) + "\u{25bc}"@
    } else {
        Seq::empty()
    }
    &&& f.hint@ == if search_active {
        "Ctrl+R cycle \u{2022} Esc restore draft"@
    } else if completion_visible {
        "Tab complete \u{2022} Enter apply \u{2022} Esc close"@
    } else {
        "Enter send \u{2022} Ctrl+J newline \u{2022} Ctrl+R search"@
    }
}

pub open spec fn overlay_shows(v: OverlayViewModel, o: OverlayState) -> bool {
    &&& v.visible == o.visible
    &&& v.title == o.title
    &&& v.lines@ == o.lines@
    &&& v.scroll == o.scroll
    &&& v.kind@ == match o.kind {
        OverlayKind::Approval => "approval"@,
        OverlayKind::Pager => "pager"@,
    }
}

fn decimal_usize(n: usize) -> (s: String)
    ensures
        s@ == decimal(n as nat),
{
    u64_to_decimal(n as u64)
}

/// Builds what the renderer draws from the session's state.
pub fn build_shell_view_model(input: ShellViewModelInput) -> (vm: ShellViewModel)
    requires
        on_boundary(input.prompt_buffer.text@, input.prompt_buffer.cursor),
        input.search.match_index < usize::MAX,
    ensures
        top_bar_shows(vm.top_bar, input.session_id@, *input.runtime, *input.shell),
        transcript_shows(vm.transcript_items@, input.messages@),
        status_shows(vm.status_panel, *input.runtime, *input.shell, input.provider_summary@),
        vm.composer.text == input.prompt_buffer.text,
        ({
            let t = input.prompt_buffer.text@;
            let before = t.take(char_index(t, input.prompt_buffer.cursor as int));
            vm.composer.cursor_line == count_char(before, '\n') && vm.composer.cursor_column
                == tail_after_last(before, '\n')
        }),
        vm.composer.mode == input.mode,
        hints_show(vm.slash_hints@, input.slash_hints@, *input.completion),
        match vm.search {
            Some(s) => input.search.active && string_views(s.lines@) == search_lines(
                *input.search,
                *input.history,
            ),
            None => !input.search.active,
        },
        footer_shows(vm.footer, *input.runtime, *input.shell, input.search.active, input.completion.visible),
        overlay_shows(vm.overlay, *input.overlay),
{
    let runtime = input.runtime;
    let shell = input.shell;
    let (cursor_line, cursor_column) = cursor_line_and_column(input.prompt_buffer);
    let top_bar = TopBarViewModel {
        product_name: "muldex".to_owned(),
        session_summary: join2("session: ", input.session_id),
        phase: join2("phase: ", runtime.phase_label.as_str()),
        model: join2("model: ", runtime_model_label(runtime, shell).as_str()),
        approval_mode: join2(
            "approval: ",
            crate::commands::approval_policy_label(&runtime.approval_policy),
        ),
        cycle_summary: join2("cycle: ", u64_to_decimal(runtime.cycle_index).as_str()),
    };
    let mut items: Vec<TranscriptItemViewModel> = Vec::new();
    let mut i: usize = 0;
    while i < input.messages.len()
        invariant
            i <= input.messages@.len(),
            items@.len() == i,
            forall|k: int|
                0 <= k < i ==> (#[trigger] items@[k]).role_label@ == role_label(
                    input.messages@[k].role,
                ) && items@[k].content == input.messages@[k].content,
        decreases input.messages.len() - i,
    {
        let m = &input.messages[i];
        items.push(
            TranscriptItemViewModel {
                role_label: transcript_role_label(&m.role).to_owned(),
                content: m.content.clone(),
            },
        );
        i = i + 1;
    }
    let last_outcome = match &runtime.latest_report_rationale {
        Some(r) => r.clone(),
        None => match &runtime.last_run_report_rationale {
            Some(r) => r.clone(),
            None => "none".to_owned(),
        },
    };
    let status_panel = StatusPanelViewModel {
        phase: runtime.phase_label.clone(),
        objective: runtime.objective.clone(),
        last_outcome,
        pending_approval: runtime.approval_request_active || runtime.blocked_on_approval,
        busy: runtime.running,
        compact_count: shell.compact_count,
        resume_count: shell.resume_count,
        provider_summary: input.provider_summary.to_owned(),
        model_summary: runtime_model_label(runtime, shell),
        usage: UsageViewModel {
            input_tokens: shell.usage.input_tokens,
            cached_input_tokens: shell.usage.cached_input_tokens,
            output_tokens: shell.usage.output_tokens,
            total_tokens: shell.usage.total_tokens,
        },
        rate_limit: RateLimitViewModel {
            limit_requests: shell.rate_limit.limit_requests,
            remaining_requests: shell.rate_limit.remaining_requests,
            limit_tokens: shell.rate_limit.limit_tokens,
            remaining_tokens: shell.rate_limit.remaining_tokens,
            reset_after_seconds: shell.rate_limit.reset_after_seconds,
        },
    };
    let composer = ComposerViewModel {
        text: input.prompt_buffer.text.clone(),
        cursor_line,
        cursor_column,
        mode: input.mode,
    };
    let mut hints: Vec<SlashHintViewModel> = Vec::new();
    if input.completion.visible && input.slash_hints.len() > 0 {
        let current = input.completion.current_command();
        let mut k: usize = 0;
        while k < input.slash_hints.len()
            invariant
                k <= input.slash_hints@.len(),
                hints@.len() == k,
                current == if input.completion.index < input.completion.matches@.len() {
                    Some(input.completion.matches@[input.completion.index as int])
                } else {
                    None
                },
                forall|j: int|
                    0 <= j < k ==> hint_shows(
                        #[trigger] hints@[j],
                        input.slash_hints@[j],
                        *input.completion,
                    ),
            decreases input.slash_hints.len() - k,
        {
            let h = &input.slash_hints[k];
            let selected = match current {
                Some(c) => crate::commands::is_text(c, h.command),
                None => false,
            };
            hints.push(
                SlashHintViewModel {
                    command: h.command.to_owned(),
                    summary: h.summary.to_owned(),
                    selected,
                },
            );
            k = k + 1;
        }
    }
    let search = if input.search.active {
        let n = input.search.matches.len();
        let mut lines: Vec<String> = Vec::new();
        lines.push(join2("reverse search active: ", input.search.query.as_str()));
        lines.push(join2("matches: ", decimal_usize(n).as_str()));
        if n > 0 {
            let shown = decimal_usize(input.search.match_index + 1);
            let total = decimal_usize(n);
            lines.push(join3(join2("match_index: ", shown.as_str()).as_str(), "/", total.as_str()));
        }
        match input.search.current_match(input.history) {
            Some(entry) => lines.push(join2("match: ", entry.as_str())),
            None => lines.push("match: none".to_owned()),
        }
        assert(string_views(lines@) =~= search_lines(*input.search, *input.history));
        Some(HistorySearchViewModel { lines })
    } else {
        None
    };
    let status_badge = if runtime.running {
        "busy".to_owned()
    } else if runtime.blocked_on_approval {
        "approval".to_owned()
    } else {
        "idle".to_owned()
    };
    let token_summary = if shell.usage.total_tokens > 0 {
        let out = u64_to_decimal(shell.usage.output_tokens);
        let inp = u64_to_decimal(shell.usage.input_tokens);
        join3(join3("tok ", out.as_str(), "\u{25b2}/").as_str(), inp.as_str(), "\u{25bc}")
    } else {
        String::new()
    };
    let hint = if input.search.active {
        "Ctrl+R cycle \u{2022} Esc restore draft".to_owned()
    } else if input.completion.visible {
        "Tab complete \u{2022} Enter apply \u{2022} Esc close".to_owned()
    } else {
        "Enter send \u{2022} Ctrl+J newline \u{2022} Ctrl+R search".to_owned()
    };
    let footer = FooterViewModel { status_badge, hint, token_summary };
    let overlay = OverlayViewModel {
        visible: input.overlay.visible,
        title: input.overlay.title.clone(),
        lines: clone_strings(&input.overlay.lines),
        scroll: input.overlay.scroll,
        kind: match input.overlay.kind {
            OverlayKind::Approval => "approval".to_owned(),
            OverlayKind::Pager => "pager".to_owned(),
        },
    };
    ShellViewModel {
        top_bar,
        transcript_items: items,
        status_panel,
        composer,
        slash_hints: hints,
        search,
        footer,
        overlay,
    }
}

/// The status panel's provider: the active provider's name and model (its
/// default model, else the session's), or nothing when no provider
/// resolves.
pub open spec fn provider_summary_text(
    config: MuldexConfig,
    env: Seq<(String, String)>,
    runtime: RuntimeSummary,
    shell: InteractiveShellState,
) -> Seq<char> {
    match resolution(config, None, env) {
        Ok(p) => p.name + " / "@ + match p.default_model {
            Some(m) => m,
            None => model_label(runtime, shell),
        },
        Err(_) => Seq::empty(),
    }
}

/// `env` holds the environment's variables (for a key given by variable).
pub fn active_provider_summary(
    config: &MuldexConfig,
    env: &[(String, String)],
    runtime: &RuntimeSummary,
    shell: &InteractiveShellState,
) -> (s: String)
    requires
        config.providers.wf(),
    ensures
        s@ == provider_summary_text(*config, env@, *runtime, *shell),
{
    match resolve_provider_config(config, None, env) {
        Ok(provider) => {
            let model = match provider.default_model {
                Some(m) => m,
                None => runtime_model_label(runtime, shell),
            };
            join3(provider.name.as_str(), " / ", model.as_str())
        },
        Err(_) => String::new(),
    }
}

/// The composer's mode: Vim's normal mode when Vim editing is on and in
/// normal mode, insert mode otherwise.
pub fn composer_mode(vim: &VimState) -> (m: ComposerMode)
    ensures
        m == (if vim.enabled && vim.normal {
            ComposerMode::Normal
        } else {
            ComposerMode::Insert
        }),
{
    if vim.enabled && vim.normal {
        ComposerMode::Normal
    } else {
        ComposerMode::Insert
    }
}

/// The terminal cursor's shape.
#[derive(Clone, Copy, Debug, PartialEq, Eq)]
pub enum CursorShape {
    Hidden,
    Block,
    Bar,
}

/// Hidden under an overlay, a block in Vim's normal mode, a bar otherwise.
pub fn cursor_shape(overlay_visible: bool, vim: &VimState) -> (c: CursorShape)
    ensures
        c == (if overlay_visible {
            CursorShape::Hidden
        } else if vim.enabled && vim.normal {
            CursorShape::Block
        } else {
            CursorShape::Bar
        }),
{
    if overlay_visible {
        CursorShape::Hidden
    } else if vim.enabled && vim.normal {
        CursorShape::Block
    } else {
        CursorShape::Bar
    }
}

} // verus!
