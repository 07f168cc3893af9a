//! What the interactive shell reads from a submitted line: the shell input,
//! the slash commands and their sub-commands, and the approval modes.
use vstd::prelude::*;

use crate::protocol::ApprovalPolicyDescriptor;
use crate::text::contains;
use crate::text::join2;
use crate::text::parse_u16;
use crate::text::parse_u16_spec;
use crate::text::split_words;
use crate::text::starts_with;
use crate::text::string_views;
use crate::text::to_chars;
use crate::text::trim;
use crate::text::trim_chars;
use crate::text::words;

verus! {

#[derive(Clone, Debug, PartialEq, Eq)]
pub enum InteractiveLlmConfigCommand {
    Show,
    Test,
    SetHost(String),
    SetPort(u16),
    SetApiKey(String),
    SetDefaultModel(String),
    Invalid(String),
}

#[derive(Clone, Debug, PartialEq, Eq)]
pub enum InteractiveProviderCommand {
    Show,
    List,
    Use(String),
    Test(Option<String>),
    Invalid(String),
}

#[derive(Clone, Debug, PartialEq, Eq)]
pub enum InteractiveSlashCommand {
    Model(Option<String>),
    Approval(Option<String>),
    Compact,
    Sessions,
    Resume(Option<String>),
    New,
    ConfigLlm(InteractiveLlmConfigCommand),
    Provider(InteractiveProviderCommand),
    Unknown(String),
}

#[derive(Clone, Debug, PartialEq, Eq)]
pub enum InteractiveShellInput {
    Empty,
    Exit,
    Help,
    Status,
    SlashCommand(InteractiveSlashCommand),
    Prompt(String),
}

/// The text of an optional string.
pub open spec fn opt_text(o: Option<String>) -> Option<Seq<char>> {
    match o {
        Some(s) => Some(s@),
        None => None,
    }
}

/// The word at `i`, if there is one.
pub open spec fn word_at(ws: Seq<Seq<char>>, i: int) -> Option<Seq<char>> {
    if 0 <= i < ws.len() {
        Some(ws[i])
    } else {
        None
    }
}

/// The words from `i` on (none when `i` is past the end).
pub open spec fn words_from(ws: Seq<Seq<char>>, i: int) -> Seq<Seq<char>> {
    if i <= ws.len() {
        ws.skip(i)
    } else {
        Seq::empty()
    }
}

pub open spec fn str_views(v: Seq<&str>) -> Seq<Seq<char>> {
    v.map_values(|s: &str| s@)
}

/// `c` is what `/config llm ...` with the words `ps` after `llm` asks for.
pub open spec fn parsed_llm_config(ps: Seq<Seq<char>>, c: InteractiveLlmConfigCommand) -> bool {
    if ps.len() == 0 || (ps.len() == 1 && ps[0] == "show"@) {
        c is Show
    } else if ps.len() == 1 && ps[0] == "test"@ {
        c is Test
    } else if ps.len() == 2 && ps[0] == "host"@ {
        c matches InteractiveLlmConfigCommand::SetHost(h) && h@ == ps[1]
    } else if ps.len() == 2 && ps[0] == "port"@ {
        match parse_u16_spec(ps[1]) {
            Some(p) => c matches InteractiveLlmConfigCommand::SetPort(q) && q == p,
            None => c matches InteractiveLlmConfigCommand::Invalid(m) && m@ == "invalid port"@,
        }
    } else if ps.len() == 2 && ps[0] == "api-key"@ {
        c matches InteractiveLlmConfigCommand::SetApiKey(k) && k@ == ps[1]
    } else if ps.len() == 2 && ps[0] == "default-model"@ {
        c matches InteractiveLlmConfigCommand::SetDefaultModel(m) && m@ == ps[1]
    } else {
        c matches InteractiveLlmConfigCommand::Invalid(m) && m@ == "unsupported llm config command"@
    }
}

/// `c` is what `/provider ...` with the words `ps` after `/provider` asks for.
pub open spec fn parsed_provider(ps: Seq<Seq<char>>, c: InteractiveProviderCommand) -> bool {
    if ps.len() == 0 || (ps.len() == 1 && ps[0] == "show"@) {
        c is Show
    } else if ps.len() == 1 && ps[0] == "list"@ {
        c is List
    } else if ps.len() == 1 && ps[0] == "test"@ {
        c matches InteractiveProviderCommand::Test(n) && n is None
    } else if ps.len() == 2 && ps[0] == "test"@ {
        c matches InteractiveProviderCommand::Test(n) && opt_text(n) == Some(ps[1])
    } else if ps.len() == 2 && ps[0] == "use"@ {
        c matches InteractiveProviderCommand::Use(n) && n@ == ps[1]
    } else {
        c matches InteractiveProviderCommand::Invalid(m) && m@ == "unsupported provider command"@
    }
}

/// `c` is the slash command the text `command` names, read word by word.
pub open spec fn parsed_slash_command(command: Seq<char>, c: InteractiveSlashCommand) -> bool {
    let ws = words(command);
    if ws.len() == 0 {
        c matches InteractiveSlashCommand::Unknown(u) && u@ == command
    } else if ws[0] == "/model"@ {
        c matches InteractiveSlashCommand::Model(m) && opt_text(m) == word_at(ws, 1)
    } else if ws[0] == "/approval"@ {
        c matches InteractiveSlashCommand::Approval(m) && opt_text(m) == word_at(ws, 1)
    } else if ws[0] == "/compact"@ {
        c is Compact
    } else if ws[0] == "/sessions"@ {
        c is Sessions
    } else if ws[0] == "/resume"@ {
        c matches InteractiveSlashCommand::Resume(m) && opt_text(m) == word_at(ws, 1)
    } else if ws[0] == "/new"@ {
        c is New
    } else if ws[0] == "/config"@ {
        if ws.len() < 2 || ws[1] == "llm"@ {
            c matches InteractiveSlashCommand::ConfigLlm(l) && parsed_llm_config(words_from(ws, 2), l)
        } else {
            c matches InteractiveSlashCommand::Unknown(u) && u@ == "/config "@ + ws[1]
        }
    } else if ws[0] == "/provider"@ {
        c matches InteractiveSlashCommand::Provider(p) && parsed_provider(words_from(ws, 1), p)
    } else {
        c matches InteractiveSlashCommand::Unknown(u) && u@ == ws[0]
    }
}

/// Drops every trailing `\r` and `\n`.
pub open spec fn trim_line_end(s: Seq<char>) -> Seq<char>
    decreases s.len(),
{
    if s.len() > 0 && (s.last() == '\r' || s.last() == '\n') {
        trim_line_end(s.drop_last())
    } else {
        s
    }
}

/// `i` is the shell input the submitted `line` stands for.
pub open spec fn parsed_shell_input(line: Seq<char>, i: InteractiveShellInput) -> bool {
    let normalized = trim_line_end(line);
    let trimmed = trim(normalized);
    let single_line = !contains(normalized, seq!['\n']);
    if trimmed.len() == 0 {
        i is Empty
    } else if trimmed == "/exit"@ || trimmed == "/quit"@ {
        i is Exit
    } else if trimmed == "/help"@ {
        i is Help
    } else if trimmed == "/status"@ {
        i is Status
    } else if single_line && starts_with(trimmed, seq!['/']) {
        i matches InteractiveShellInput::SlashCommand(c) && parsed_slash_command(trimmed, c)
    } else {
        i matches InteractiveShellInput::Prompt(p) && p@ == trimmed
    }
}

/// `s` holds exactly the text `lit`.
pub(crate) fn is_text(s: &str, lit: &str) -> (b: bool)
    ensures
        b == (s@ == lit@),
{
    let a = s.to_owned();
    let l = lit.to_owned();
    a == l
}

fn opt_word(ws: &Vec<String>, i: usize) -> (o: Option<String>)
    ensures
        opt_text(o) == word_at(string_views(ws@), i as int),
{
    if i < ws.len() {
        Some(ws[i].clone())
    } else {
        None
    }
}

/// The words of `ws` from `i` on, borrowed.
fn words_tail<'a>(ws: &'a Vec<String>, i: usize) -> (r: Vec<&'a str>)
    ensures
        str_views(r@) == words_from(string_views(ws@), i as int),
{
    let mut r: Vec<&'a str> = Vec::new();
    let mut k: usize = i;
    if i > ws.len() {
        assert(str_views(r@) =~= Seq::<Seq<char>>::empty());
        return r;
    }
    assert(str_views(r@) =~= string_views(ws@).subrange(i as int, k as int));
    while k < ws.len()
        invariant
            i <= k <= ws@.len(),
            str_views(r@) == string_views(ws@).subrange(i as int, k as int),
        decreases ws.len() - k,
    {
        let ghost old_r = r@;
        r.push(ws[k].as_str());
        assert(str_views(r@) =~= str_views(old_r).push(ws@[k as int]@));
        assert(str_views(r@) =~= string_views(ws@).subrange(i as int, k + 1));
        k = k + 1;
    }
    assert(string_views(ws@).subrange(i as int, k as int) =~= string_views(ws@).skip(i as int));
    r
}

/// Reads the words after `/config llm`.
pub fn parse_interactive_llm_config_command(parts: Vec<&str>) -> (c: InteractiveLlmConfigCommand)
    ensures
        parsed_llm_config(str_views(parts@), c),
{
    let ghost ps = str_views(parts@);
    assert(parts.len() > 0 ==> ps[0] == parts@[0]@);
    assert(parts.len() > 1 ==> ps[1] == parts@[1]@);
    if parts.len() == 0 || (parts.len() == 1 && is_text(parts[0], "show")) {
        InteractiveLlmConfigCommand::Show
    } else if parts.len() == 1 && is_text(parts[0], "test") {
        InteractiveLlmConfigCommand::Test
    } else if parts.len() == 2 && is_text(parts[0], "host") {
        InteractiveLlmConfigCommand::SetHost(parts[1].to_owned())
    } else if parts.len() == 2 && is_text(parts[0], "port") {
        let digits = to_chars(parts[1]);
        match parse_u16(&digits) {
            Some(port) => InteractiveLlmConfigCommand::SetPort(port),
            None => InteractiveLlmConfigCommand::Invalid("invalid port".to_owned()),
        }
    } else if parts.len() == 2 && is_text(parts[0], "api-key") {
        InteractiveLlmConfigCommand::SetApiKey(parts[1].to_owned())
    } else if parts.len() == 2 && is_text(parts[0], "default-model") {
        InteractiveLlmConfigCommand::SetDefaultModel(parts[1].to_owned())
    } else {
        InteractiveLlmConfigCommand::Invalid("unsupported llm config command".to_owned())
    }
}

/// Reads the words after `/provider`.
pub fn parse_interactive_provider_command(parts: Vec<&str>) -> (c: InteractiveProviderCommand)
    ensures
        parsed_provider(str_views(parts@), c),
{
    let ghost ps = str_views(parts@);
    assert(parts.len() > 0 ==> ps[0] == parts@[0]@);
    assert(parts.len() > 1 ==> ps[1] == parts@[1]@);
    if parts.len() == 0 || (parts.len() == 1 && is_text(parts[0], "show")) {
        InteractiveProviderCommand::Show
    } else if parts.len() == 1 && is_text(parts[0], "list") {
        InteractiveProviderCommand::List
    } else if parts.len() == 1 && is_text(parts[0], "test") {
        InteractiveProviderCommand::Test(None)
    } else if parts.len() == 2 && is_text(parts[0], "test") {
        InteractiveProviderCommand::Test(Some(parts[1].to_owned()))
    } else if parts.len() == 2 && is_text(parts[0], "use") {
        InteractiveProviderCommand::Use(parts[1].to_owned())
    } else {
        InteractiveProviderCommand::Invalid("unsupported provider command".to_owned())
    }
}

/// Reads a slash command word by word.
pub fn parse_interactive_slash_command(command: &str) -> (c: InteractiveSlashCommand)
    ensures
        parsed_slash_command(command@, c),
{
    let chars = to_chars(command);
    let ws = split_words(&chars);
    let ghost vs = string_views(ws@);
    if ws.len() == 0 {
        return InteractiveSlashCommand::Unknown(command.to_owned());
    }
    assert(vs[0] == ws@[0]@);
    assert(ws.len() > 1 ==> vs[1] == ws@[1]@);
    let first = ws[0].as_str();
    if is_text(first, "/model") {
        InteractiveSlashCommand::Model(opt_word(&ws, 1))
    } else if is_text(first, "/approval") {
        InteractiveSlashCommand::Approval(opt_word(&ws, 1))
    } else if is_text(first, "/compact") {
        InteractiveSlashCommand::Compact
    } else if is_text(first, "/sessions") {
        InteractiveSlashCommand::Sessions
    } else if is_text(first, "/resume") {
        InteractiveSlashCommand::Resume(opt_word(&ws, 1))
    } else if is_text(first, "/new") {
        InteractiveSlashCommand::New
    } else if is_text(first, "/config") {
        if ws.len() < 2 || is_text(ws[1].as_str(), "llm") {
            InteractiveSlashCommand::ConfigLlm(parse_interactive_llm_config_command(words_tail(&ws, 2)))
        } else {
            InteractiveSlashCommand::Unknown(join2("/config ", ws[1].as_str()))
        }
    } else if is_text(first, "/provider") {
        InteractiveSlashCommand::Provider(parse_interactive_provider_command(words_tail(&ws, 1)))
    } else {
        InteractiveSlashCommand::Unknown(first.to_owned())
    }
}

fn trim_line_end_chars(s: &[char]) -> (r: Vec<char>)
    ensures
        r@ == trim_line_end(s@),
{
    let mut n = s.len();
    assert(s@.take(n as int) =~= s@);
    while n > 0 && (s[n - 1] == '\r' || s[n - 1] == '\n')
        invariant
            n <= s@.len(),
            trim_line_end(s@.take(n as int)) == trim_line_end(s@),
        decreases n,
    {
        assert(s@.take(n as int).drop_last() =~= s@.take(n - 1));
        n = n - 1;
    }
    crate::text::sub_chars(s, 0, n)
}

/// Reads a submitted line: blank, one of the shell's own commands, a
/// single-line slash command, or else a prompt (trimmed).
pub fn parse_interactive_shell_input(line: &str) -> (i: InteractiveShellInput)
    ensures
        parsed_shell_input(line@, i),
{
    let chars = to_chars(line);
    let normalized = trim_line_end_chars(&chars);
    let trimmed = trim_chars(&normalized);
    let newline = vec!['\n'];
    assert(newline@ =~= seq!['\n']);
    let single_line = !crate::text::chars_contain(&normalized, &newline);
    let text = crate::text::from_chars(trimmed.as_slice());
    let slash = vec!['/'];
    assert(slash@ =~= seq!['/']);
    if trimmed.len() == 0 {
        InteractiveShellInput::Empty
    } else if is_text(text.as_str(), "/exit") || is_text(text.as_str(), "/quit") {
        InteractiveShellInput::Exit
    } else if is_text(text.as_str(), "/help") {
        InteractiveShellInput::Help
    } else if is_text(text.as_str(), "/status") {
        InteractiveShellInput::Status
    } else if single_line && crate::text::chars_start_with(&trimmed, &slash) {
        InteractiveShellInput::SlashCommand(parse_interactive_slash_command(text.as_str()))
    } else {
        InteractiveShellInput::Prompt(text)
    }
}

/// The approval mode a word names.
pub open spec fn approval_policy_of(s: Seq<char>) -> Option<ApprovalPolicyDescriptor> {
    if s == "ask"@ || s == "manual"@ {
        Some(ApprovalPolicyDescriptor::Ask)
    } else if s == "on-request"@ {
        Some(ApprovalPolicyDescriptor::OnRequest)
    } else if s == "never"@ || s == "auto"@ {
        Some(ApprovalPolicyDescriptor::Never)
    } else if s == "unless-trusted"@ {
        Some(ApprovalPolicyDescriptor::UnlessTrusted)
    } else {
        None
    }
}

/// The word an approval mode is shown as.
pub open spec fn approval_label(p: ApprovalPolicyDescriptor) -> Seq<char> {
    match p {
        ApprovalPolicyDescriptor::Never => "never"@,
        ApprovalPolicyDescriptor::Ask => "ask"@,
        ApprovalPolicyDescriptor::OnRequest => "on-request"@,
        ApprovalPolicyDescriptor::UnlessTrusted => "unless-trusted"@,
        ApprovalPolicyDescriptor::Unknown => "unknown"@,
    }
}

pub fn parse_approval_policy(input: &str) -> (p: Option<ApprovalPolicyDescriptor>)
    ensures
        p == approval_policy_of(input@),
{
    if is_text(input, "ask") || is_text(input, "manual") {
        Some(ApprovalPolicyDescriptor::Ask)
    } else if is_text(input, "on-request") {
        Some(ApprovalPolicyDescriptor::OnRequest)
    } else if is_text(input, "never") || is_text(input, "auto") {
        Some(ApprovalPolicyDescriptor::Never)
    } else if is_text(input, "unless-trusted") {
        Some(ApprovalPolicyDescriptor::UnlessTrusted)
    } else {
        None
    }
}

pub fn approval_policy_label(policy: &ApprovalPolicyDescriptor) -> (l: &'static str)
    ensures
        l@ == approval_label(*policy),
{
    match policy {
        ApprovalPolicyDescriptor::Never => "never",
        ApprovalPolicyDescriptor::Ask => "ask",
        ApprovalPolicyDescriptor::OnRequest => "on-request",
        ApprovalPolicyDescriptor::UnlessTrusted => "unless-trusted",
        ApprovalPolicyDescriptor::Unknown => "unknown",
    }
}

/// Law: every known approval mode is read back from the word it is shown as.
pub proof fn lemma_approval_label_round_trip(p: ApprovalPolicyDescriptor)
    requires
        p != ApprovalPolicyDescriptor::Unknown,
    ensures
        approval_policy_of(approval_label(p)) == Some(p),
{
    reveal_strlit("ask");
    reveal_strlit("manual");
    reveal_strlit("on-request");
    reveal_strlit("never");
    reveal_strlit("auto");
    reveal_strlit("unless-trusted");
    let l = approval_label(p);
    match p {
        ApprovalPolicyDescriptor::Never => {
            assert(l[0] != "ask"@[0]);
            assert(l[0] != "manual"@[0]);
            assert(l[1] != "on-request"@[1]);
        },
        ApprovalPolicyDescriptor::OnRequest => {
            assert(l[0] != "ask"@[0]);
            assert(l[0] != "manual"@[0]);
        },
        ApprovalPolicyDescriptor::UnlessTrusted => {
            assert(l[0] != "ask"@[0]);
            assert(l[0] != "manual"@[0]);
            assert(l[0] != "on-request"@[0]);
            assert(l[0] != "never"@[0]);
            assert(l[0] != "auto"@[0]);
        },
        _ => {},
    }
}

} // verus!
