//! How the shell's input loop treats what a key did, the key scripts that
//! drive the shell without a terminal, and which editor the composer opens.
use vstd::prelude::*;

use crate::commands::InteractiveShellInput;
use crate::keymap::mods;
use crate::keymap::KeyCodeView;
use crate::keymap::KeyInput;
use crate::keys::InteractiveKeyAction;
use crate::text::chars_eq;
use crate::text::split_chars_on;
use crate::text::split_on;
use crate::text::split_words;
use crate::text::string_views;
use crate::text::to_chars;
use crate::text::trim;
use crate::text::trim_chars;
use crate::text::views;
use crate::text::words;

verus! {

/// What the input loop does after a key.
#[derive(Clone, Debug, PartialEq, Eq)]
pub enum InputEffect {
    /// Nothing to show; read the next key.
    Nothing,
    /// Draw the input frame again.
    Redraw,
    /// Clear the terminal's scrollback, then draw the frame.
    ClearAndRedraw,
    /// Edit the composer's text in an external editor, then draw the frame.
    EditExternally,
    /// Copy the composer's text to the clipboard, notify, then draw.
    CopyBuffer(&'static str),
    /// The loop ends with this input.
    Finish(InteractiveShellInput),
}

/// What a key's action means for the loop; a scripted run neither edits
/// externally nor copies.
pub open spec fn effect_of(action: InteractiveKeyAction, scripted: bool) -> InputEffect {
    match action {
        InteractiveKeyAction::Noop => InputEffect::Nothing,
        InteractiveKeyAction::RedrawPrompt | InteractiveKeyAction::RedrawFrame => InputEffect::Redraw,
        InteractiveKeyAction::ClearScreen => InputEffect::ClearAndRedraw,
        InteractiveKeyAction::OpenExternalEditor => if scripted {
            InputEffect::Nothing
        } else {
            InputEffect::EditExternally
        },
        InteractiveKeyAction::Copy | InteractiveKeyAction::Yank => if scripted {
            InputEffect::Nothing
        } else {
            InputEffect::CopyBuffer(
                if action is Copy {
                    "copied to clipboard"
                } else {
                    "yanked to clipboard"
                },
            )
        },
        InteractiveKeyAction::Exit => InputEffect::Finish(InteractiveShellInput::Exit),
        InteractiveKeyAction::Status => InputEffect::Finish(InteractiveShellInput::Status),
        InteractiveKeyAction::Submit(input) => InputEffect::Finish(input),
    }
}

pub fn input_effect(action: InteractiveKeyAction, scripted: bool) -> (e: InputEffect)
    ensures
        e == effect_of(action, scripted),
{
    match action {
        InteractiveKeyAction::Noop => InputEffect::Nothing,
        InteractiveKeyAction::RedrawPrompt | InteractiveKeyAction::RedrawFrame => InputEffect::Redraw,
        InteractiveKeyAction::ClearScreen => InputEffect::ClearAndRedraw,
        InteractiveKeyAction::OpenExternalEditor => if scripted {
            InputEffect::Nothing
        } else {
            InputEffect::EditExternally
        },
        InteractiveKeyAction::Copy => if scripted {
            InputEffect::Nothing
        } else {
            InputEffect::CopyBuffer("copied to clipboard")
        },
        InteractiveKeyAction::Yank => if scripted {
            InputEffect::Nothing
        } else {
            InputEffect::CopyBuffer("yanked to clipboard")
        },
        InteractiveKeyAction::Exit => InputEffect::Finish(InteractiveShellInput::Exit),
        InteractiveKeyAction::Status => InputEffect::Finish(InteractiveShellInput::Status),
        InteractiveKeyAction::Submit(input) => InputEffect::Finish(input),
    }
}

// ---------------------------------------------------------------------
// key scripts

pub open spec fn pressed_key(code: KeyCodeView, control: bool) -> KeyInput {
    KeyInput { code, modifiers: mods(false, control, false), pressed: true }
}

/// The keys that type `s`.
pub open spec fn typed(s: Seq<char>) -> Seq<KeyInput>
    decreases s.len(),
{
    if s.len() == 0 {
        Seq::empty()
    } else {
        typed(s.drop_last()).push(pressed_key(KeyCodeView::Char(s.last()), false))
    }
}

/// The keys one token of a script stands for: `TEXT:` and the chars to
/// type, or one of the named keys; an unknown token stands for none.
pub open spec fn token_keys(t: Seq<char>) -> Seq<KeyInput> {
    if t.len() >= 5 && t.take(5) == "TEXT:"@ {
        typed(t.skip(5))
    } else if t == "ENTER"@ {
        seq![pressed_key(KeyCodeView::Enter, false)]
    } else if t == "TAB"@ {
        seq![pressed_key(KeyCodeView::Tab, false)]
    } else if t == "UP"@ {
        seq![pressed_key(KeyCodeView::Up, false)]
    } else if t == "DOWN"@ {
        seq![pressed_key(KeyCodeView::Down, false)]
    } else if t == "ESC"@ {
        seq![pressed_key(KeyCodeView::Esc, false)]
    } else if t == "CTRL_R"@ {
        seq![pressed_key(KeyCodeView::Char('r'), true)]
    } else if t == "CTRL_U"@ {
        seq![pressed_key(KeyCodeView::Char('u'), true)]
    } else if t == "CTRL_C"@ {
        seq![pressed_key(KeyCodeView::Char('c'), true)]
    } else {
        Seq::empty()
    }
}

pub open spec fn tokens_keys(tokens: Seq<Seq<char>>) -> Seq<KeyInput>
    decreases tokens.len(),
{
    if tokens.len() == 0 {
        Seq::empty()
    } else {
        tokens_keys(tokens.drop_last()) + token_keys(trim(tokens.last()))
    }
}

/// The keys a script such as `TEXT:/model,TAB,ENTER` presses: its
/// comma-separated tokens, each trimmed, in order.
pub open spec fn scripted_keys(raw: Seq<char>) -> Seq<KeyInput> {
    tokens_keys(split_on(raw, ','))
}

fn is_token(t: &Vec<char>, name: &str) -> (r: bool)
    ensures
        r == (t@ == name@),
{
    let n = to_chars(name);
    chars_eq(t.as_slice(), n.as_slice())
}

fn one_key(code: KeyCodeView, control: bool) -> (v: Vec<KeyInput>)
    ensures
        v@ == seq![pressed_key(code, control)],
{
    let mut v: Vec<KeyInput> = Vec::new();
    v.push(
        KeyInput {
            code,
            modifiers: crate::keymap::KeyMods {
                shift: false,
                control,
                alt: false,
                super_key: false,
                hyper: false,
                meta: false,
            },
            pressed: true,
        },
    );
    assert(v@ =~= seq![pressed_key(code, control)]);
    v
}

fn keys_of_token(t: &Vec<char>) -> (v: Vec<KeyInput>)
    ensures
        v@ == token_keys(t@),
{
    let prefix = to_chars("TEXT:");
    if t.len() >= 5 && crate::text::chars_start_with(t.as_slice(), prefix.as_slice()) {
        proof {
            reveal_strlit("TEXT:");
            assert(t@.take(5) =~= "TEXT:"@);
        }
        let mut v: Vec<KeyInput> = Vec::new();
        let mut i: usize = 5;
        let ghost rest = t@.skip(5);
        assert(rest.take(0) =~= Seq::<char>::empty());
        while i < t.len()
            invariant
                5 <= i <= t@.len(),
                rest == t@.skip(5),
                v@ == typed(rest.take(i - 5)),
            decreases t.len() - i,
        {
            let ghost k: int = i - 5;
            v.push(
                KeyInput {
                    code: KeyCodeView::Char(t[i]),
                    modifiers: crate::keymap::KeyMods {
                        shift: false,
                        control: false,
                        alt: false,
                        super_key: false,
                        hyper: false,
                        meta: false,
                    },
                    pressed: true,
                },
            );
            assert(rest.take(k + 1).drop_last() =~= rest.take(k));
            i = i + 1;
        }
        assert(rest.take(t@.len() - 5) =~= rest);
        v
    } else {
        proof {
            if t@.len() >= 5 {
                reveal_strlit("TEXT:");
                assert(t@.take(5) != "TEXT:"@) by {
                    if t@.take(5) == "TEXT:"@ {
                        assert(crate::text::starts_with(t@, "TEXT:"@));
                    }
                }
            }
        }
        if is_token(t, "ENTER") {
            one_key(KeyCodeView::Enter, false)
        } else if is_token(t, "TAB") {
            one_key(KeyCodeView::Tab, false)
        } else if is_token(t, "UP") {
            one_key(KeyCodeView::Up, false)
        } else if is_token(t, "DOWN") {
            one_key(KeyCodeView::Down, false)
        } else if is_token(t, "ESC") {
            one_key(KeyCodeView::Esc, false)
        } else if is_token(t, "CTRL_R") {
            one_key(KeyCodeView::Char('r'), true)
        } else if is_token(t, "CTRL_U") {
            one_key(KeyCodeView::Char('u'), true)
        } else if is_token(t, "CTRL_C") {
            one_key(KeyCodeView::Char('c'), true)
        } else {
            Vec::new()
        }
    }
}

/// The keys a key script presses.
pub fn parse_scripted_keys(raw: &str) -> (keys: Vec<KeyInput>)
    ensures
        keys@ == scripted_keys(raw@),
{
    let chars = to_chars(raw);
    let tokens = split_chars_on(chars.as_slice(), ',');
    let ghost ts = split_on(raw@, ',');
    let mut keys: Vec<KeyInput> = Vec::new();
    let mut i: usize = 0;
    assert(ts.take(0) =~= Seq::<Seq<char>>::empty());
    while i < tokens.len()
        invariant
            i <= tokens@.len(),
            views(tokens@) == ts,
            keys@ == tokens_keys(ts.take(i as int)),
        decreases tokens.len() - i,
    {
        let t = trim_chars(tokens[i].as_slice());
        assert(tokens@[i as int]@ == ts[i as int]);
        let more = keys_of_token(&t);
        let mut j: usize = 0;
        let ghost before = keys@;
        while j < more.len()
            invariant
                j <= more@.len(),
                keys@ == before + more@.take(j as int),
            decreases more.len() - j,
        {
            keys.push(more[j]);
            assert(keys@ =~= before + more@.take(j + 1));
            j = j + 1;
        }
        assert(more@.take(more@.len() as int) =~= more@);
        assert(ts.take(i + 1).drop_last() =~= ts.take(i as int));
        i = i + 1;
    }
    assert(ts.take(ts.len() as int) =~= ts);
    keys
}

// ---------------------------------------------------------------------
// the external editor

/// The editor a variable names, where it is set and not empty.
pub open spec fn named_editor(v: Option<String>) -> Option<Seq<char>> {
    match v {
        Some(s) => if s@.len() > 0 {
            Some(s@)
        } else {
            None
        },
        None => None,
    }
}

/// The editor command: `VISUAL`, else `EDITOR`, else the platform's
/// default (`notepad` on Windows, `vi` elsewhere).
pub open spec fn editor_command_text(visual: Option<String>, editor: Option<String>, windows: bool) -> Seq<
    char,
> {
    match named_editor(visual) {
        Some(v) => v,
        None => match named_editor(editor) {
            Some(e) => e,
            None => if windows {
                "notepad"@
            } else {
                "vi"@
            },
        },
    }
}

/// The program to run and its leading arguments: the command's
/// whitespace-separated words (`vi` where it has none).
pub fn editor_invocation(visual: Option<String>, editor: Option<String>, windows: bool) -> (r: (
    String,
    Vec<String>,
))
    ensures
        ({
            let ws = words(editor_command_text(visual, editor, windows));
            &&& r.0@ == if ws.len() > 0 {
                ws[0]
            } else {
                "vi"@
            }
            &&& string_views(r.1@) == if ws.len() > 0 {
                ws.skip(1)
            } else {
                Seq::empty()
            }
        }),
{
    let chosen = match visual {
        Some(v) if to_chars(v.as_str()).len() > 0 => v,
        _ => match editor {
            Some(e) if to_chars(e.as_str()).len() > 0 => e,
            _ => if windows {
                "notepad".to_string()
            } else {
                "vi".to_string()
            },
        },
    };
    let chars = to_chars(chosen.as_str());
    let ws = split_words(chars.as_slice());
    if ws.len() == 0 {
        return ("vi".to_string(), Vec::new());
    }
    let mut args: Vec<String> = Vec::new();
    let mut i: usize = 1;
    while i < ws.len()
        invariant
            1 <= i <= ws@.len(),
            string_views(args@) == string_views(ws@).subrange(1, i as int),
        decreases ws.len() - i,
    {
        let ghost before = args@;
        args.push(ws[i].clone());
        assert(string_views(args@) =~= string_views(before).push(ws@[i as int]@));
        assert(string_views(args@) =~= string_views(ws@).subrange(1, i + 1));
        i = i + 1;
    }
    assert(string_views(ws@).subrange(1, ws@.len() as int) =~= string_views(ws@).skip(1));
    (ws[0].clone(), args)
}

} // verus!
