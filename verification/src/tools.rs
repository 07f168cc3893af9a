//! The tools the interactive shell offers a model, and the approval gate in
//! front of the two that change things: writing a file and running a
//! command each wait for the user's approval; while one waits, no other tool
//! runs. Writing, running and the read-only tools' answers are the caller's
//! work; here is what a call comes to.
use vstd::prelude::*;

use crate::text::byte_len;
use crate::text::lemma_byte_len_encoding;
use crate::text::decimal;
use crate::text::join2;
use crate::text::join3;
use crate::text::string_views;
use crate::text::to_chars;
use crate::text::u64_to_decimal;

verus! {

#[derive(Clone, Debug, PartialEq, Eq)]
pub enum InteractiveToolError {
    Unsupported(String),
    Failed(String),
    ApprovalRequired(String),
}

/// The arguments the gated tools read from a call: the string fields
/// `path`, `content` and `command`, and the items of the array `args`, each
/// where it is a string.
#[derive(Clone, Debug, PartialEq, Eq)]
pub struct ToolArgs {
    pub path: Option<String>,
    pub content: Option<String>,
    pub command: Option<String>,
    pub args: Vec<Option<String>>,
}

pub struct ToolArgsView {
    pub path: Option<Seq<char>>,
    pub content: Option<Seq<char>>,
    pub command: Option<Seq<char>>,
    pub args: Seq<Option<Seq<char>>>,
}

pub open spec fn opt_text(o: Option<String>) -> Option<Seq<char>> {
    match o {
        Some(s) => Some(s@),
        None => None,
    }
}

impl View for ToolArgs {
    type V = ToolArgsView;

    open spec fn view(&self) -> ToolArgsView {
        ToolArgsView {
            path: opt_text(self.path),
            content: opt_text(self.content),
            command: opt_text(self.command),
            args: self.args@.map_values(|a: Option<String>| opt_text(a)),
        }
    }
}

/// What a call's JSON arguments hold for the gated tools (`serde_json`'s
/// reading of them; text that is not a JSON object holds nothing).
pub uninterp spec fn tool_args_of(arguments_json: Seq<char>) -> ToolArgsView;

/// Reads a call's JSON arguments with `serde_json` (`from_str`, then
/// `Value::as_str` and `Value::as_array` on the fields): each field taken
/// where it is a string, each item of `args` where it is one.
#[verifier::external_body]
fn read_tool_args(arguments_json: &str) -> (a: ToolArgs)
    ensures
        a@ == tool_args_of(arguments_json@),
{
    let v: serde_json::Value = serde_json::from_str(arguments_json).unwrap_or(serde_json::Value::Null);
    let mut args = Vec::new();
    if let Some(items) = v["args"].as_array() {
        for x in items {
            args.push(x.as_str().map(str::to_string));
        }
    }
    let path = v["path"].as_str().map(str::to_string);
    let content = v["content"].as_str().map(str::to_string);
    ToolArgs { path, content, command: v["command"].as_str().map(str::to_string), args }
}

/// A gated call waiting for (or given) the user's approval.
#[derive(Clone, Debug, PartialEq, Eq)]
pub struct PendingApproval {
    pub tool_name: String,
    pub call_id: String,
    pub args: ToolArgs,
    pub summary: String,
    pub approved: bool,
}

/// What a tool call comes to.
#[derive(Debug, PartialEq, Eq)]
pub enum ToolStep {
    /// The call's answer.
    Answer(Result<String, InteractiveToolError>),
    /// A read-only tool: the caller answers from the session's state.
    ReadOnly,
    /// Write `content` to `path`, then answer.
    WriteFile { path: String, content: String },
    /// Run `command` with `args`, then answer with its output.
    RunCommand { command: String, args: Vec<String> },
}

pub open spec fn or_empty(o: Option<Seq<char>>) -> Seq<char> {
    match o {
        Some(s) => s,
        None => Seq::empty(),
    }
}

/// The string items of a call's `args`, in order.
pub open spec fn string_items(items: Seq<Option<Seq<char>>>) -> Seq<Seq<char>>
    decreases items.len(),
{
    if items.len() == 0 {
        Seq::empty()
    } else {
        string_items(items.drop_last()) + match items.last() {
            Some(s) => seq![s],
            None => Seq::empty(),
        }
    }
}

/// `ss` joined by single spaces.
pub open spec fn spaced(ss: Seq<Seq<char>>) -> Seq<char> {
    crate::config_commands::joined(ss, " "@)
}

/// What a file write is summarized as: the content's length in bytes (as
/// `str::len` gives it) and the path.
pub open spec fn write_summary(a: ToolArgsView) -> Seq<char> {
    "Write "@ + decimal((byte_len(or_empty(a.content)) as usize) as nat) + " bytes to "@ + or_empty(
        a.path,
    )
}

/// What a command run is summarized as: the command and its arguments.
pub open spec fn exec_summary(a: ToolArgsView) -> Seq<char> {
    let items = string_items(a.args);
    if items.len() == 0 {
        or_empty(a.command)
    } else {
        or_empty(a.command) + " "@ + spaced(items)
    }
}

pub open spec fn is_read_only_tool(name: Seq<char>) -> bool {
    name == "session.status"@ || name == "session.list"@ || name == "runtime.inspect"@
}

pub open spec fn failed_with(s: ToolStep, m: Seq<char>) -> bool {
    s matches ToolStep::Answer(Err(InteractiveToolError::Failed(e))) && e@ == m
}

/// What a call to the shell's tools does, with `gate` holding the call
/// that waits for approval, if any.
pub open spec fn tool_called(
    name: Seq<char>,
    call_id: Seq<char>,
    a: ToolArgsView,
    gate: Option<PendingApproval>,
    gate2: Option<PendingApproval>,
    s: ToolStep,
) -> bool {
    if gate is Some && name != "approval.respond"@ {
        gate2 == gate && failed_with(s, "Must respond to pending approval first"@)
    } else if is_read_only_tool(name) {
        gate2 == gate && s is ReadOnly
    } else if name == "file.write"@ {
        let path = or_empty(a.path);
        if path.len() == 0 {
            gate2 == gate && failed_with(s, "path is required"@)
        } else {
            match gate {
                None => {
                    &&& gate2 matches Some(p) && p.tool_name@ == "file.write"@ && p.call_id@ == call_id
                        && p.args@ == a && p.summary@ == write_summary(a) && !p.approved
                    &&& s matches ToolStep::Answer(Err(InteractiveToolError::ApprovalRequired(m)))
                        && m@ == write_summary(a)
                },
                Some(p) => gate2 is None && if p.approved {
                    s matches ToolStep::WriteFile { path: w, content } && w@ == path && content@
                        == or_empty(a.content)
                } else {
                    failed_with(s, "User denied file write"@)
                },
            }
        }
    } else if name == "shell.exec"@ {
        let command = or_empty(a.command);
        if command.len() == 0 {
            gate2 == gate && failed_with(s, "command is required"@)
        } else {
            match gate {
                None => {
                    &&& gate2 matches Some(p) && p.tool_name@ == "shell.exec"@ && p.call_id@ == call_id
                        && p.args@ == a && p.summary@ == exec_summary(a) && !p.approved
                    &&& s matches ToolStep::Answer(Err(InteractiveToolError::ApprovalRequired(m)))
                        && m@ == "Execute: "@ + exec_summary(a)
                },
                Some(p) => gate2 is None && if p.approved {
                    s matches ToolStep::RunCommand { command: c, args } && c@ == command
                        && string_views(args@) == string_items(a.args)
                } else {
                    failed_with(s, "User denied shell exec"@)
                },
            }
        }
    } else {
        gate2 == gate && (s matches ToolStep::Answer(Err(InteractiveToolError::Unsupported(n)))
            && n@ == name)
    }
}

fn text_or_empty(o: &Option<String>) -> (s: String)
    ensures
        s@ == or_empty(opt_text(*o)),
{
    match o {
        Some(t) => t.clone(),
        None => String::new(),
    }
}

fn is_name(name: &str, lit: &str) -> (r: bool)
    ensures
        r == (name@ == lit@),
{
    let a = to_chars(name);
    let b = to_chars(lit);
    crate::text::chars_eq(a.as_slice(), b.as_slice())
}

fn string_args(items: &Vec<Option<String>>) -> (r: Vec<String>)
    ensures
        string_views(r@) == string_items(items@.map_values(|a: Option<String>| opt_text(a))),
{
    let ghost vs = items@.map_values(|a: Option<String>| opt_text(a));
    let mut r: Vec<String> = Vec::new();
    let mut i: usize = 0;
    assert(vs.take(0) =~= Seq::<Option<Seq<char>>>::empty());
    assert(string_views(r@) =~= Seq::<Seq<char>>::empty());
    while i < items.len()
        invariant
            i <= items@.len(),
            vs == items@.map_values(|a: Option<String>| opt_text(a)),
            string_views(r@) == string_items(vs.take(i as int)),
        decreases items.len() - i,
    {
        proof {
            assert(vs.take(i + 1).drop_last() =~= vs.take(i as int));
        }
        match &items[i] {
            Some(s) => {
                let ghost before = r@;
                r.push(s.clone());
                assert(string_views(r@) =~= string_views(before) + seq![s@]);
            },
            None => {
                assert(string_views(r@) =~= string_views(r@) + Seq::<Seq<char>>::empty());
            },
        }
        i = i + 1;
    }
    assert(vs.take(vs.len() as int) =~= vs);
    r
}

fn summary_of_write(args: &ToolArgs) -> (s: String)
    ensures
        s@ == write_summary(args@),
{
    let content = text_or_empty(&args.content);
    let path = text_or_empty(&args.path);
    let n = content.as_str().len();
    proof {
        lemma_byte_len_encoding(content@);
    }
    let a = join3("Write ", u64_to_decimal(n as u64).as_str(), " bytes to ");
    let r = join2(a.as_str(), path.as_str());
    assert(r@ =~= write_summary(args@));
    r
}

fn summary_of_exec(args: &ToolArgs) -> (s: String)
    ensures
        s@ == exec_summary(args@),
{
    let command = text_or_empty(&args.command);
    let items = string_args(&args.args);
    if items.len() == 0 {
        command
    } else {
        let joined = crate::config_commands::join_with(&items, " ");
        join3(command.as_str(), " ", joined.as_str())
    }
}

fn copy_args(a: &ToolArgs) -> (r: ToolArgs)
    ensures
        r@ == a@,
{
    let mut args: Vec<Option<String>> = Vec::new();
    let mut i: usize = 0;
    while i < a.args.len()
        invariant
            i <= a.args@.len(),
            args@.map_values(|x: Option<String>| opt_text(x)) == a.args@.take(i as int).map_values(
                |x: Option<String>| opt_text(x),
            ),
        decreases a.args.len() - i,
    {
        let item = match &a.args[i] {
            Some(s) => Some(s.clone()),
            None => None,
        };
        assert(opt_text(item) == opt_text(a.args@[i as int]));
        let ghost before = args@;
        args.push(item);
        assert(args@.map_values(|x: Option<String>| opt_text(x)) =~= before.map_values(
            |x: Option<String>| opt_text(x),
        ).push(opt_text(item)));
        assert(a.args@.take(i + 1).map_values(|x: Option<String>| opt_text(x)) =~= a.args@.take(
            i as int,
        ).map_values(|x: Option<String>| opt_text(x)).push(opt_text(a.args@[i as int])));
        i = i + 1;
    }
    assert(a.args@.take(a.args@.len() as int) =~= a.args@);
    ToolArgs {
        path: match &a.path {
            Some(s) => Some(s.clone()),
            None => None,
        },
        content: match &a.content {
            Some(s) => Some(s.clone()),
            None => None,
        },
        command: match &a.command {
            Some(s) => Some(s.clone()),
            None => None,
        },
        args,
    }
}

/// Handles a call to the shell's tools, keeping the approval gate.
pub fn call_tool(
    name: &str,
    call_id: &str,
    args: &ToolArgs,
    gate: &mut Option<PendingApproval>,
) -> (s: ToolStep)
    ensures
        tool_called(name@, call_id@, args@, *old(gate), *final(gate), s),
{
    if gate.is_some() && !is_name(name, "approval.respond") {
        return ToolStep::Answer(
            Err(InteractiveToolError::Failed("Must respond to pending approval first".to_string())),
        );
    }
    if is_name(name, "session.status") || is_name(name, "session.list") || is_name(
        name,
        "runtime.inspect",
    ) {
        return ToolStep::ReadOnly;
    }
    if is_name(name, "file.write") {
        let path = text_or_empty(&args.path);
        if to_chars(path.as_str()).len() == 0 {
            return ToolStep::Answer(Err(InteractiveToolError::Failed("path is required".to_string())));
        }
        let approved = match gate {
            None => {
                let summary = summary_of_write(args);
                *gate = Some(
                    PendingApproval {
                        tool_name: "file.write".to_string(),
                        call_id: call_id.to_string(),
                        args: copy_args(args),
                        summary: summary.clone(),
                        approved: false,
                    },
                );
                return ToolStep::Answer(Err(InteractiveToolError::ApprovalRequired(summary)));
            },
            Some(p) => p.approved,
        };
        *gate = None;
        if approved {
            ToolStep::WriteFile { path, content: text_or_empty(&args.content) }
        } else {
            ToolStep::Answer(Err(InteractiveToolError::Failed("User denied file write".to_string())))
        }
    } else if is_name(name, "shell.exec") {
        let command = text_or_empty(&args.command);
        if to_chars(command.as_str()).len() == 0 {
            return ToolStep::Answer(
                Err(InteractiveToolError::Failed("command is required".to_string())),
            );
        }
        let approved = match gate {
            None => {
                let summary = summary_of_exec(args);
                let message = join2("Execute: ", summary.as_str());
                *gate = Some(
                    PendingApproval {
                        tool_name: "shell.exec".to_string(),
                        call_id: call_id.to_string(),
                        args: copy_args(args),
                        summary,
                        approved: false,
                    },
                );
                return ToolStep::Answer(Err(InteractiveToolError::ApprovalRequired(message)));
            },
            Some(p) => p.approved,
        };
        *gate = None;
        if approved {
            ToolStep::RunCommand { command, args: string_args(&args.args) }
        } else {
            ToolStep::Answer(Err(InteractiveToolError::Failed("User denied shell exec".to_string())))
        }
    } else {
        ToolStep::Answer(Err(InteractiveToolError::Unsupported(name.to_string())))
    }
}

/// What an approved or denied gated call comes to once the approval modal
/// is answered: a denial fails it; an approved write or command runs unless
/// its path or command is missing.
pub open spec fn captured(name: Seq<char>, a: ToolArgsView, approve: bool, s: ToolStep) -> bool {
    if name != "file.write"@ && name != "shell.exec"@ {
        s matches ToolStep::Answer(Err(InteractiveToolError::Unsupported(n))) && n@ == name
    } else if !approve {
        failed_with(s, "User denied approval"@)
    } else if name == "file.write"@ {
        if or_empty(a.path).len() == 0 {
            failed_with(s, "path is required"@)
        } else {
            s matches ToolStep::WriteFile { path, content } && path@ == or_empty(a.path) && content@
                == or_empty(a.content)
        }
    } else if or_empty(a.command).len() == 0 {
        failed_with(s, "command is required"@)
    } else {
        s matches ToolStep::RunCommand { command, args } && command@ == or_empty(a.command)
            && string_views(args@) == string_items(a.args)
    }
}

/// Runs a gated call after the approval modal was answered.
pub fn run_captured(name: &str, args: &ToolArgs, approve: bool) -> (s: ToolStep)
    ensures
        captured(name@, args@, approve, s),
{
    let write = is_name(name, "file.write");
    let exec = is_name(name, "shell.exec");
    if !write && !exec {
        return ToolStep::Answer(Err(InteractiveToolError::Unsupported(name.to_string())));
    }
    if !approve {
        return ToolStep::Answer(Err(InteractiveToolError::Failed("User denied approval".to_string())));
    }
    if write {
        let path = text_or_empty(&args.path);
        if to_chars(path.as_str()).len() == 0 {
            return ToolStep::Answer(Err(InteractiveToolError::Failed("path is required".to_string())));
        }
        ToolStep::WriteFile { path, content: text_or_empty(&args.content) }
    } else {
        let command = text_or_empty(&args.command);
        if to_chars(command.as_str()).len() == 0 {
            return ToolStep::Answer(
                Err(InteractiveToolError::Failed("command is required".to_string())),
            );
        }
        ToolStep::RunCommand { command, args: string_args(&args.args) }
    }
}

/// Handles a call to the shell's tools given its JSON arguments.
pub fn call_tool_json(
    name: &str,
    call_id: &str,
    arguments_json: &str,
    gate: &mut Option<PendingApproval>,
) -> (s: ToolStep)
    ensures
        tool_called(name@, call_id@, tool_args_of(arguments_json@), *old(gate), *final(gate), s),
{
    let args = read_tool_args(arguments_json);
    call_tool(name, call_id, &args, gate)
}

/// Runs a gated call, given its JSON arguments, after the approval modal
/// was answered.
pub fn run_captured_json(name: &str, arguments_json: &str, approve: bool) -> (s: ToolStep)
    ensures
        captured(name@, tool_args_of(arguments_json@), approve, s),
{
    let args = read_tool_args(arguments_json);
    run_captured(name, &args, approve)
}

} // verus!
