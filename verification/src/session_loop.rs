//! The interactive shell's top-level decisions: how input is read and
//! output shown, which background the theme assumes, what is said at start
//! when no provider is configured, and what each input leads to.
use vstd::prelude::*;

use crate::commands::InteractiveShellInput;
use crate::commands::InteractiveSlashCommand;
use crate::history::recorded;
use crate::history::search_is_reset;
use crate::history::InteractiveHistorySearchState;
use crate::history::InteractiveHistoryState;
use crate::prompt::InteractivePromptBuffer;
use crate::shell::InteractiveShellState;
use crate::slash::is_reset;
use crate::slash::InteractiveSlashCompletionState;
use crate::text::ascii_lower;
use crate::text::chars_eq;
use crate::text::to_ascii_lowercase;
use crate::text::to_chars;

verus! {

/// Where the shell's input comes from.
#[derive(Clone, Copy, Debug, PartialEq, Eq)]
pub enum InputMode {
    /// Keys given in advance, for scripted runs.
    Scripted,
    /// Whole lines read from standard input.
    Line,
    /// Key events from the full-screen terminal interface.
    Terminal,
}

/// How the shell reads input and whether it prints plain lines in place of
/// the full-screen interface.
#[derive(Clone, Copy, Debug, PartialEq, Eq)]
pub struct ShellIo {
    pub mode: InputMode,
    pub plain_output: bool,
}

/// Output is plain when forced (the variable set to `1`) or when standard
/// output and input are not both terminals; input comes in lines when
/// output is plain or standard input is not a terminal, unless keys are
/// scripted.
pub open spec fn shell_io_for(
    scripted: bool,
    force_plain: Option<Seq<char>>,
    stdout_tty: bool,
    stdin_tty: bool,
) -> ShellIo {
    let plain = force_plain == Some("1"@) || !(stdout_tty && stdin_tty);
    ShellIo {
        mode: if scripted {
            InputMode::Scripted
        } else if plain || !stdin_tty {
            InputMode::Line
        } else {
            InputMode::Terminal
        },
        plain_output: plain,
    }
}

/// `force_plain` is the value of the variable that forces plain output.
pub fn shell_io(scripted: bool, force_plain: Option<&str>, stdout_tty: bool, stdin_tty: bool) -> (io:
    ShellIo)
    ensures
        io == shell_io_for(
            scripted,
            match force_plain {
                Some(v) => Some(v@),
                None => None,
            },
            stdout_tty,
            stdin_tty,
        ),
{
    let forced = match force_plain {
        Some(v) => {
            let a = to_chars(v);
            let one = to_chars("1");
            chars_eq(a.as_slice(), one.as_slice())
        },
        None => false,
    };
    let plain = forced || !(stdout_tty && stdin_tty);
    let mode = if scripted {
        InputMode::Scripted
    } else if plain || !stdin_tty {
        InputMode::Line
    } else {
        InputMode::Terminal
    };
    ShellIo { mode, plain_output: plain }
}

/// The background the theme assumes.
#[derive(Clone, Copy, Debug, PartialEq, Eq)]
pub enum ThemeBackground {
    /// A fixed colour, chosen by the theme setting.
    Fixed(u8, u8, u8),
    /// Ask the terminal for its background.
    Probe,
    /// Assume nothing.
    Unknown,
}

/// `light` and `dark` (in any ASCII case) fix the background; otherwise it
/// is probed when that was asked for. No setting counts as `auto`.
pub open spec fn theme_background_for(theme: Option<Seq<char>>, probe: bool) -> ThemeBackground {
    let mode = match theme {
        Some(t) => ascii_lower(t),
        None => "auto"@,
    };
    if mode == "light"@ {
        ThemeBackground::Fixed(245, 245, 245)
    } else if mode == "dark"@ {
        ThemeBackground::Fixed(24, 24, 27)
    } else if probe {
        ThemeBackground::Probe
    } else {
        ThemeBackground::Unknown
    }
}

pub fn theme_background(theme: Option<&str>, probe: bool) -> (b: ThemeBackground)
    ensures
        b == theme_background_for(
            match theme {
                Some(t) => Some(t@),
                None => None,
            },
            probe,
        ),
{
    let mode = match theme {
        Some(t) => to_ascii_lowercase(t),
        None => to_chars("auto"),
    };
    let light = to_chars("light");
    let dark = to_chars("dark");
    if chars_eq(mode.as_slice(), light.as_slice()) {
        ThemeBackground::Fixed(245, 245, 245)
    } else if chars_eq(mode.as_slice(), dark.as_slice()) {
        ThemeBackground::Fixed(24, 24, 27)
    } else if probe {
        ThemeBackground::Probe
    } else {
        ThemeBackground::Unknown
    }
}

pub open spec fn provider_notice_text() -> Seq<char> {
    "llm-router not configured; use /config llm host <ip>, /config llm port <port>, /config llm api-key <key>"@
}

/// What the shell says at start: how to configure the router, when no
/// provider is configured.
pub fn provider_notice(configured: bool) -> (n: Option<String>)
    ensures
        match n {
            Some(s) => !configured && s@ == provider_notice_text(),
            None => configured,
        },
{
    if configured {
        None
    } else {
        Some(
            "llm-router not configured; use /config llm host <ip>, /config llm port <port>, /config llm api-key <key>".to_string(),
        )
    }
}

/// What an input leads to.
#[derive(Clone, Debug, PartialEq, Eq)]
pub enum LoopAction {
    Nothing,
    /// Leave the shell, with the exit notice.
    Exit,
    /// Print the help; `record` adds its lines to the transcript too.
    Help { record: bool },
    /// Print the status; `record` adds its lines to the transcript too.
    Status { record: bool },
    /// Run a slash command, then refresh the session's locals.
    Slash(InteractiveSlashCommand),
    /// Send a prompt (recorded in the history first).
    Prompt(String),
}

/// The action for an input; the transcript records help and status only
/// under the full-screen interface.
pub open spec fn loop_action_for(input: InteractiveShellInput, plain_output: bool) -> LoopAction {
    match input {
        InteractiveShellInput::Empty => LoopAction::Nothing,
        InteractiveShellInput::Exit => LoopAction::Exit,
        InteractiveShellInput::Help => LoopAction::Help { record: !plain_output },
        InteractiveShellInput::Status => LoopAction::Status { record: !plain_output },
        InteractiveShellInput::SlashCommand(c) => LoopAction::Slash(c),
        InteractiveShellInput::Prompt(p) => LoopAction::Prompt(p),
    }
}

/// Takes an input: a prompt is recorded in the history; the history is
/// otherwise unchanged.
pub fn loop_action(
    input: InteractiveShellInput,
    plain_output: bool,
    history: &mut InteractiveHistoryState,
) -> (a: LoopAction)
    ensures
        a == loop_action_for(input, plain_output),
        match input {
            InteractiveShellInput::Prompt(p) => {
                &&& final(history).index_from_end is None
                &&& final(history).draft is None
                &&& recorded(old(history).entries@, p@, final(history).entries@)
            },
            _ => *final(history) == *old(history),
        },
{
    match input {
        InteractiveShellInput::Empty => LoopAction::Nothing,
        InteractiveShellInput::Exit => LoopAction::Exit,
        InteractiveShellInput::Help => LoopAction::Help { record: !plain_output },
        InteractiveShellInput::Status => LoopAction::Status { record: !plain_output },
        InteractiveShellInput::SlashCommand(c) => LoopAction::Slash(c),
        InteractiveShellInput::Prompt(p) => {
            history.record_submission(p.as_str());
            LoopAction::Prompt(p)
        },
    }
}

/// What the shell keeps of the session it shows: its id, the shell's
/// settings, the prompt being edited, the completion, the prompt history
/// and its search.
#[derive(Clone, Debug, PartialEq, Eq)]
pub struct SessionLocals {
    pub session_id: String,
    pub shell: InteractiveShellState,
    pub prompt_buffer: InteractivePromptBuffer,
    pub completion: InteractiveSlashCompletionState,
    pub history: InteractiveHistoryState,
    pub search: InteractiveHistorySearchState,
}

/// After a command, follows the store's active session: when it is another
/// session than the one shown, its id, settings and prompt history are
/// taken, and the prompt, completion and search start afresh; otherwise
/// nothing changes.
pub fn refresh_session_locals(
    locals: &mut SessionLocals,
    active_id: String,
    active_shell: InteractiveShellState,
    active_history: Vec<String>,
)
    ensures
        if active_id@ == old(locals).session_id@ {
            *final(locals) == *old(locals)
        } else {
            &&& final(locals).session_id == active_id
            &&& final(locals).shell == active_shell
            &&& final(locals).history.entries == active_history
            &&& final(locals).history.index_from_end is None
            &&& final(locals).history.draft is None
            &&& search_is_reset(final(locals).search)
            &&& is_reset(final(locals).completion)
            &&& final(locals).prompt_buffer.text@.len() == 0
            &&& final(locals).prompt_buffer.cursor == 0
        },
{
    let a = crate::text::to_chars(active_id.as_str());
    let b = crate::text::to_chars(locals.session_id.as_str());
    if chars_eq(a.as_slice(), b.as_slice()) {
        return;
    }
    locals.session_id = active_id;
    locals.shell = active_shell;
    locals.history = InteractiveHistoryState::from_entries(active_history);
    locals.search.reset();
    locals.completion.reset();
    locals.prompt_buffer.clear();
}

} // verus!
