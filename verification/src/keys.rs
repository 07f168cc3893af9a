//! What a key does in the interactive shell: the overlay's keys, Vim
//! editing, the application and chat shortcuts, the composer's submit and
//! completion keys, the editing keys, and plain typing. The key bindings are
//! resolved before: each keymap section hands in the action it matched.
use vstd::prelude::*;

use crate::commands::parsed_shell_input;
use crate::commands::InteractiveShellInput;
use crate::history::draft_restored;
use crate::history::entries_fit;
use crate::history::query_extended;
use crate::history::query_shortened;
use crate::history::reverse_searched;
use crate::history::search_is_reset;
use crate::history::stepped_back;
use crate::history::stepped_forward;
use crate::history::InteractiveHistorySearchState;
use crate::history::InteractiveHistoryState;
use crate::overlay::sat_add;
use crate::overlay::sat_sub;
use crate::overlay::OverlayKind;
use crate::overlay::OverlayState;
use crate::prompt::fits;
use crate::prompt::on_boundary;
use crate::prompt::word_left;
use crate::prompt::word_right;
use crate::prompt::InteractivePromptBuffer;
use crate::slash::completed;
use crate::slash::first_line_set;
use crate::slash::is_reset;
use crate::slash::matches_fit;
use crate::slash::matches_short;
use crate::slash::selection_moved;
use crate::slash::selection_moves;
use crate::slash::slash_prefix;
use crate::slash::updated_from;
use crate::slash::InteractiveSlashCompletionState;
use crate::text::byte_len;
use crate::text::byte_offset;
use crate::text::char_index;
use crate::text::first_line;
use crate::text::starts_with;
use crate::text::utf8_width;
use crate::vim::inserted_at;
use crate::vim::left_of;
use crate::vim::right_of;
use crate::vim::vim_normal_effect;
use crate::vim::vim_normal_key_safe;
use crate::vim::VimKey;
use crate::vim::VimState;

verus! {

#[derive(Clone, Debug, PartialEq, Eq)]
pub enum InteractiveKeyAction {
    Noop,
    RedrawPrompt,
    RedrawFrame,
    Exit,
    Status,
    ClearScreen,
    OpenExternalEditor,
    Copy,
    Yank,
    Submit(InteractiveShellInput),
}

#[derive(Clone, Copy, Debug, PartialEq, Eq, Structural)]
pub enum PagerAction {
    ScrollUp,
    ScrollDown,
    PageUp,
    PageDown,
    JumpTop,
    JumpBottom,
    Close,
    Other,
}

#[derive(Clone, Copy, Debug, PartialEq, Eq, Structural)]
pub enum ApprovalAction {
    Approve,
    ApproveSession,
    Deny,
    Cancel,
    Other,
}

#[derive(Clone, Copy, Debug, PartialEq, Eq, Structural)]
pub enum AppAction {
    ClearTerminal,
    OpenExternalEditor,
    Copy,
    OpenTranscript,
    Other,
}

#[derive(Clone, Copy, Debug, PartialEq, Eq, Structural)]
pub enum ChatAction {
    InterruptTurn,
    Other,
}

#[derive(Clone, Copy, Debug, PartialEq, Eq, Structural)]
pub enum ComposerAction {
    Submit,
    Queue,
    HistorySearchPrevious,
    HistorySearchNext,
    Other,
}

#[derive(Clone, Copy, Debug, PartialEq, Eq, Structural)]
pub enum EditorAction {
    InsertNewline,
    MoveLeft,
    MoveRight,
    MoveUp,
    MoveDown,
    MoveWordLeft,
    MoveWordRight,
    MoveLineStart,
    MoveLineEnd,
    DeleteBackward,
    DeleteBackwardWord,
    KillLineStart,
    Yank,
    Other,
}

/// The key itself where no binding took it: Control with `c` or `d`,
/// Escape, a char typed without Control or Alt, or anything else.
#[derive(Clone, Copy, Debug, PartialEq, Eq, Structural)]
pub enum KeyPress {
    ControlCOrD,
    Esc,
    Char(char),
    Other,
}

/// A key event as the shell reads it: whether it is a press (or repeat),
/// the action each keymap section bound it to, the key itself and the key
/// Vim reads.
#[derive(Clone, Copy, Debug, PartialEq, Eq, Structural)]
pub struct KeyEventView {
    pub pressed: bool,
    pub pager: Option<PagerAction>,
    pub approval: Option<ApprovalAction>,
    pub app: Option<AppAction>,
    pub chat: Option<ChatAction>,
    pub composer: Option<ComposerAction>,
    pub editor: Option<EditorAction>,
    pub key: KeyPress,
    pub vim: VimKey,
}

/// The composer's state is well formed: the buffer's text fits and its
/// cursor is on a char boundary, history texts fit, browsing stays within
/// the history, search matches index the history, and the completion's
/// matches are short texts with an index that can step.
pub open spec fn editor_wf(
    b: InteractivePromptBuffer,
    c: InteractiveSlashCompletionState,
    h: InteractiveHistoryState,
    s: InteractiveHistorySearchState,
) -> bool {
    &&& fits(b.text@)
    &&& on_boundary(b.text@, b.cursor)
    &&& entries_fit(h.entries@)
    &&& h.draft matches Some(d) ==> fits(d@)
    &&& h.index_from_end matches Some(i) ==> i <= h.entries@.len()
    &&& s.draft matches Some(d) ==> fits(d@)
    &&& forall|i: int| 0 <= i < s.matches@.len() ==> (#[trigger] s.matches@[i]) < h.entries@.len()
    &&& matches_fit(c)
    &&& matches_short(c)
    &&& c.index < usize::MAX
}

/// Room for what one key can add to the buffer.
pub open spec fn editor_room(b: InteractivePromptBuffer) -> bool {
    byte_len(b.text@) + 64 <= isize::MAX
}

/// Vim editing takes the key: it is on, no search or completion is shown,
/// and it is in normal mode or the key is Escape.
pub open spec fn vim_takes(
    v: VimState,
    k: KeyEventView,
    c: InteractiveSlashCompletionState,
    s: InteractiveHistorySearchState,
) -> bool {
    &&& !s.active
    &&& !c.visible
    &&& v.enabled
    &&& (v.normal || k.vim == VimKey::Esc)
}

/// The browsing state of the history is cleared.
pub open spec fn browsing_cleared(h0: InteractiveHistoryState, h1: InteractiveHistoryState) -> bool {
    h1 == InteractiveHistoryState { index_from_end: None, draft: None, ..h0 }
}

/// What an overlay key does to the overlay.
pub open spec fn overlay_key(k: KeyEventView, o0: OverlayState, o1: OverlayState, a: InteractiveKeyAction) -> bool {
    let moved = |scroll: int| o1 == OverlayState { scroll: scroll as usize, ..o0 } && a
        == InteractiveKeyAction::RedrawFrame;
    let dismissed = !o1.visible && o1.lines@.len() == 0 && o1.scroll == 0 && o1.title == o0.title
        && o1.kind == o0.kind;
    match k.pager {
        Some(p) => match p {
            PagerAction::ScrollUp => moved(sat_sub(o0.scroll as int, 1)),
            PagerAction::ScrollDown => moved(sat_add(o0.scroll as int, 1)),
            PagerAction::PageUp => moved(sat_sub(o0.scroll as int, 10)),
            PagerAction::PageDown => moved(sat_add(o0.scroll as int, 10)),
            PagerAction::JumpTop => moved(0),
            PagerAction::JumpBottom => moved((usize::MAX / 2) as int),
            PagerAction::Close => dismissed && a == InteractiveKeyAction::RedrawFrame,
            PagerAction::Other => o1 == o0 && a == InteractiveKeyAction::Noop,
        },
        None => match k.approval {
            Some(ApprovalAction::Approve) | Some(ApprovalAction::ApproveSession) => dismissed && a
                == InteractiveKeyAction::Status,
            Some(ApprovalAction::Deny) | Some(ApprovalAction::Cancel) => dismissed && a
                == InteractiveKeyAction::RedrawFrame,
            _ => o1 == o0 && a == InteractiveKeyAction::Noop,
        },
    }
}

/// What the editing keys do to the buffer.
pub open spec fn edited(e: EditorAction, b0: InteractivePromptBuffer, b1: InteractivePromptBuffer) -> bool {
    let t = b0.text@;
    let c = b0.cursor as int;
    let k = char_index(t, c);
    match e {
        EditorAction::InsertNewline => b1.text@ == inserted_at(t, c, '\n') && b1.cursor == c + 1,
        EditorAction::MoveLeft => b1.text == b0.text && b1.cursor == left_of(t, c),
        EditorAction::MoveRight => b1.text == b0.text && b1.cursor == right_of(t, c),
        EditorAction::MoveWordLeft => b1.text == b0.text && b1.cursor == if c == 0 {
            0
        } else {
            byte_offset(t, word_left(t, k)) as int
        },
        EditorAction::MoveWordRight => b1.text == b0.text && b1.cursor == if c >= byte_len(t) {
            c
        } else {
            byte_offset(t, word_right(t, k)) as int
        },
        EditorAction::MoveLineStart => b1.text == b0.text && b1.cursor == 0,
        EditorAction::MoveLineEnd => b1.text == b0.text && b1.cursor == byte_len(t),
        EditorAction::DeleteBackward => if c == 0 {
            b1 == b0
        } else {
            b1.text@ == t.take(k - 1) + t.skip(k) && b1.cursor == byte_offset(t, k - 1)
        },
        EditorAction::DeleteBackwardWord => if c == 0 {
            b1 == b0
        } else {
            b1.text@ == t.take(word_left(t, k)) + t.skip(k) && b1.cursor == byte_offset(t, word_left(t, k))
        },
        EditorAction::KillLineStart => b1.text@.len() == 0 && b1.cursor == 0,
        _ => b1 == b0,
    }
}

/// What a composer action (submit, completion, history search) does.
pub open spec fn composer_action(
    ca: ComposerAction,
    b0: InteractivePromptBuffer,
    c0: InteractiveSlashCompletionState,
    h0: InteractiveHistoryState,
    s0: InteractiveHistorySearchState,
    b1: InteractivePromptBuffer,
    c1: InteractiveSlashCompletionState,
    h1: InteractiveHistoryState,
    s1: InteractiveHistorySearchState,
    a: InteractiveKeyAction,
) -> bool {
    let t = b0.text@;
    let fl = first_line(t);
    match ca {
        ComposerAction::Submit => {
            let selected = c0.index < c0.matches@.len();
            if starts_with(fl, slash_prefix()) && selected && c0.matches@[c0.index as int]@ != fl {
                &&& a == InteractiveKeyAction::RedrawFrame
                &&& c1 == c0 && h1 == h0 && s1 == s0
                &&& first_line_set(b0, c0.matches@[c0.index as int]@, b1)
            } else {
                &&& a matches InteractiveKeyAction::Submit(input) && parsed_shell_input(t, input)
                &&& is_reset(c1)
                &&& search_is_reset(s1)
                &&& b1.text@.len() == 0 && b1.cursor == 0
                &&& browsing_cleared(h0, h1)
            }
        },
        ComposerAction::Queue => {
            &&& h1 == h0 && s1 == s0
            &&& exists|applied: bool| #![auto] completed(b0, c0, b1, c1, applied) && a == if applied {
                InteractiveKeyAction::RedrawFrame
            } else {
                InteractiveKeyAction::Noop
            }
        },
        ComposerAction::HistorySearchPrevious => {
            &&& is_reset(c1) && h1 == h0
            &&& exists|found: bool| #![auto] reverse_searched(h0, s0, b0, s1, b1, found) && a == if found {
                InteractiveKeyAction::RedrawFrame
            } else {
                InteractiveKeyAction::Noop
            }
        },
        _ => b1 == b0 && c1 == c0 && h1 == h0 && s1 == s0 && a == InteractiveKeyAction::RedrawFrame,
    }
}

/// What an editing key does.
pub open spec fn editor_key(
    e: EditorAction,
    b0: InteractivePromptBuffer,
    c0: InteractiveSlashCompletionState,
    h0: InteractiveHistoryState,
    s0: InteractiveHistorySearchState,
    b1: InteractivePromptBuffer,
    c1: InteractiveSlashCompletionState,
    h1: InteractiveHistoryState,
    s1: InteractiveHistorySearchState,
    a: InteractiveKeyAction,
) -> bool {
    let t = b0.text@;
    let same = b1 == b0 && c1 == c0 && h1 == h0 && s1 == s0;
    if e == EditorAction::MoveUp || e == EditorAction::MoveDown {
        let up = e == EditorAction::MoveUp;
        let m1 = selection_moves(t, c0);
        &&& s1 == s0
        &&& selection_moved(
            t,
            c0,
            c1,
            if up {
                -1
            } else {
                1
            },
            m1,
        )
        &&& m1 ==> h1 == h0 && b1 == b0
        &&& !m1 ==> if up {
            stepped_back(h0, b0, h1, b1, h0.entries@.len() > 0)
        } else {
            stepped_forward(h0, b0, h1, b1, h0.index_from_end is Some)
        }
        &&& a == if m1 || (up && h0.entries@.len() > 0) || (!up && h0.index_from_end is Some) {
            if c1.visible {
                InteractiveKeyAction::RedrawFrame
            } else {
                InteractiveKeyAction::RedrawPrompt
            }
        } else {
            InteractiveKeyAction::Noop
        }
    } else if e == EditorAction::DeleteBackward {
        exists|done: bool, sq: InteractiveHistorySearchState, bq: InteractivePromptBuffer|
            #![auto]
            {
                &&& query_shortened(h0, s0, b0, sq, bq, done)
                &&& is_reset(c1) && h1 == h0
                &&& done ==> a == InteractiveKeyAction::RedrawFrame && s1 == sq && b1 == bq
                &&& !done ==> a == InteractiveKeyAction::RedrawPrompt && search_is_reset(s1) && edited(
                    e,
                    b0,
                    b1,
                )
            }
    } else if e == EditorAction::Yank {
        same && a == InteractiveKeyAction::Yank
    } else if e == EditorAction::Other {
        same && a == InteractiveKeyAction::Noop
    } else {
        &&& a == InteractiveKeyAction::RedrawPrompt
        &&& is_reset(c1) && search_is_reset(s1)
        &&& if e == EditorAction::DeleteBackwardWord {
            browsing_cleared(h0, h1)
        } else {
            h1 == h0
        }
        &&& edited(e, b0, b1)
    }
}

/// What a key no binding took does.
pub open spec fn plain_key(
    kp: KeyPress,
    b0: InteractivePromptBuffer,
    c0: InteractiveSlashCompletionState,
    h0: InteractiveHistoryState,
    s0: InteractiveHistorySearchState,
    b1: InteractivePromptBuffer,
    c1: InteractiveSlashCompletionState,
    h1: InteractiveHistoryState,
    s1: InteractiveHistorySearchState,
    a: InteractiveKeyAction,
) -> bool {
    let t = b0.text@;
    let same = b1 == b0 && c1 == c0 && h1 == h0 && s1 == s0;
    match kp {
        KeyPress::ControlCOrD => same && a == InteractiveKeyAction::Exit,
        KeyPress::Esc => {
            &&& h1 == h0
            &&& a == InteractiveKeyAction::RedrawFrame
            &&& exists|done: bool, sr: InteractiveHistorySearchState, br: InteractivePromptBuffer|
                #![auto]
                {
                    &&& draft_restored(s0, b0, sr, br, done)
                    &&& done ==> is_reset(c1) && s1 == sr && b1 == br
                    &&& !done && c0.visible && c0.matches@.len() > 0 ==> c1
                        == InteractiveSlashCompletionState { visible: false, ..c0 } && s1 == s0 && b1 == b0
                    &&& !done && !(c0.visible && c0.matches@.len() > 0) ==> is_reset(c1) && search_is_reset(
                        s1,
                    ) && b1.text@.len() == 0 && b1.cursor == 0
                }
        },
        KeyPress::Char(ch) => exists|found: bool, sx: InteractiveHistorySearchState, bx: InteractivePromptBuffer|
            #![auto]
            {
                &&& query_extended(h0, s0, b0, ch, sx, bx, found)
                &&& found ==> a == InteractiveKeyAction::RedrawFrame && is_reset(c1) && s1 == sx && b1
                    == bx && h1 == h0
                &&& !found ==> {
                    &&& browsing_cleared(h0, h1)
                    &&& search_is_reset(s1)
                    &&& b1.text@ == inserted_at(t, b0.cursor as int, ch)
                    &&& b1.cursor == b0.cursor + utf8_width(ch)
                    &&& if starts_with(first_line(b1.text@), slash_prefix()) {
                        updated_from(c1, b1.text@) && a == InteractiveKeyAction::RedrawFrame
                    } else {
                        is_reset(c1) && a == InteractiveKeyAction::RedrawPrompt
                    }
                }
            },
        KeyPress::Other => same && a == InteractiveKeyAction::Noop,
    }
}

/// What a key the composer gets (no overlay shown, Vim not taking it) does:
/// the application and chat shortcuts first, then the composer's actions,
/// the editing keys, and the key itself.
pub open spec fn composer_key(
    k: KeyEventView,
    transcript: Seq<String>,
    b0: InteractivePromptBuffer,
    c0: InteractiveSlashCompletionState,
    h0: InteractiveHistoryState,
    s0: InteractiveHistorySearchState,
    o0: OverlayState,
    b1: InteractivePromptBuffer,
    c1: InteractiveSlashCompletionState,
    h1: InteractiveHistoryState,
    s1: InteractiveHistorySearchState,
    o1: OverlayState,
    a: InteractiveKeyAction,
) -> bool {
    let same = b1 == b0 && c1 == c0 && h1 == h0 && s1 == s0 && o1 == o0;
    let app_takes = k.app is Some && k.app != Some(AppAction::Other);
    let chat_takes = k.chat == Some(ChatAction::InterruptTurn);
    let composer_takes = k.composer is Some && k.composer != Some(ComposerAction::Other);
    if app_takes {
        match k.app {
            Some(AppAction::ClearTerminal) => same && a == InteractiveKeyAction::ClearScreen,
            Some(AppAction::OpenExternalEditor) => same && a == InteractiveKeyAction::OpenExternalEditor,
            Some(AppAction::Copy) => same && a == InteractiveKeyAction::Copy,
            _ => {
                &&& b1 == b0 && c1 == c0 && h1 == h0 && s1 == s0
                &&& a == InteractiveKeyAction::RedrawFrame
                &&& o1.visible && o1.title@ == "Transcript History"@ && o1.lines@ == transcript
                &&& o1.scroll == 0 && o1.kind == OverlayKind::Pager
            },
        }
    } else if chat_takes {
        same && a == InteractiveKeyAction::Exit
    } else if composer_takes {
        o1 == o0 && composer_action(k.composer->0, b0, c0, h0, s0, b1, c1, h1, s1, a)
    } else if k.editor is Some {
        o1 == o0 && editor_key(k.editor->0, b0, c0, h0, s0, b1, c1, h1, s1, a)
    } else {
        o1 == o0 && plain_key(k.key, b0, c0, h0, s0, b1, c1, h1, s1, a)
    }
}

/// Runs one key event through the shell's composer and overlay.
/// `transcript` is what the transcript pager shows when the key opens it.
pub fn handle_interactive_key_event(
    key: KeyEventView,
    buffer: &mut InteractivePromptBuffer,
    completion: &mut InteractiveSlashCompletionState,
    history: &mut InteractiveHistoryState,
    search: &mut InteractiveHistorySearchState,
    overlay: &mut OverlayState,
    vim: &mut VimState,
    transcript: Vec<String>,
) -> (a: InteractiveKeyAction)
    requires
        editor_wf(*old(buffer), *old(completion), *old(history), *old(search)),
        editor_room(*old(buffer)),
        key.pressed && !old(overlay).visible && vim_takes(*old(vim), key, *old(completion), *old(search))
            && old(vim).normal ==> vim_normal_key_safe(*old(vim), key.vim, *old(buffer)),
    ensures
        !key.pressed ==> {
            &&& a == InteractiveKeyAction::Noop
            &&& *final(buffer) == *old(buffer) && *final(completion) == *old(completion)
            &&& *final(history) == *old(history) && *final(search) == *old(search)
            &&& *final(overlay) == *old(overlay) && *final(vim) == *old(vim)
        },
        key.pressed && old(overlay).visible ==> {
            &&& *final(buffer) == *old(buffer) && *final(completion) == *old(completion)
            &&& *final(history) == *old(history) && *final(search) == *old(search)
            &&& *final(vim) == *old(vim)
            &&& overlay_key(key, *old(overlay), *final(overlay), a)
        },
        key.pressed && !old(overlay).visible && vim_takes(*old(vim), key, *old(completion), *old(search))
            ==> {
            &&& *final(completion) == *old(completion) && *final(history) == *old(history)
            &&& *final(search) == *old(search) && *final(overlay) == *old(overlay)
            &&& if old(vim).normal {
                vim_normal_effect(*old(vim), key.vim, *old(buffer), *final(vim), *final(buffer), a)
            } else {
                &&& a == InteractiveKeyAction::RedrawFrame
                &&& *final(vim) == (VimState { normal: true, pending: None, ..*old(vim) })
                &&& *final(buffer) == *old(buffer)
            }
        },
        key.pressed && !old(overlay).visible && !vim_takes(*old(vim), key, *old(completion), *old(search))
            ==> {
            &&& *final(vim) == *old(vim)
            &&& composer_key(
                key,
                transcript@,
                *old(buffer),
                *old(completion),
                *old(history),
                *old(search),
                *old(overlay),
                *final(buffer),
                *final(completion),
                *final(history),
                *final(search),
                *final(overlay),
                a,
            )
            &&& editor_wf(*final(buffer), *final(completion), *final(history), *final(search))
        },
{
    if !key.pressed {
        return InteractiveKeyAction::Noop;
    }
    if overlay.visible {
        match key.pager {
            Some(p) => {
                return match p {
                    PagerAction::ScrollUp => {
                        overlay.scroll_up(1);
                        InteractiveKeyAction::RedrawFrame
                    },
                    PagerAction::ScrollDown => {
                        overlay.scroll_down(1);
                        InteractiveKeyAction::RedrawFrame
                    },
                    PagerAction::PageUp => {
                        overlay.page_up(10);
                        InteractiveKeyAction::RedrawFrame
                    },
                    PagerAction::PageDown => {
                        overlay.page_down(10);
                        InteractiveKeyAction::RedrawFrame
                    },
                    PagerAction::JumpTop => {
                        overlay.jump_top();
                        InteractiveKeyAction::RedrawFrame
                    },
                    PagerAction::JumpBottom => {
                        overlay.jump_bottom();
                        InteractiveKeyAction::RedrawFrame
                    },
                    PagerAction::Close => {
                        overlay.dismiss();
                        InteractiveKeyAction::RedrawFrame
                    },
                    PagerAction::Other => InteractiveKeyAction::Noop,
                };
            },
            None => {},
        }
        match key.approval {
            Some(ApprovalAction::Approve) | Some(ApprovalAction::ApproveSession) => {
                overlay.dismiss();
                return InteractiveKeyAction::Status;
            },
            Some(ApprovalAction::Deny) | Some(ApprovalAction::Cancel) => {
                overlay.dismiss();
                return InteractiveKeyAction::RedrawFrame;
            },
            Some(ApprovalAction::Other) => {
                return InteractiveKeyAction::Noop;
            },
            None => {},
        }
        return InteractiveKeyAction::Noop;
    }
    if !search.is_active() && !completion.visible {
        match crate::vim::vim_handle_key(vim, key.vim, buffer) {
            Some(action) => {
                return action;
            },
            None => {},
        }
    }
    match key.app {
        Some(AppAction::ClearTerminal) => {
            return InteractiveKeyAction::ClearScreen;
        },
        Some(AppAction::OpenExternalEditor) => {
            return InteractiveKeyAction::OpenExternalEditor;
        },
        Some(AppAction::Copy) => {
            return InteractiveKeyAction::Copy;
        },
        Some(AppAction::OpenTranscript) => {
            *overlay = OverlayState::show_pager("Transcript History".to_owned(), transcript);
            return InteractiveKeyAction::RedrawFrame;
        },
        _ => {},
    }
    if key.chat == Some(ChatAction::InterruptTurn) {
        return InteractiveKeyAction::Exit;
    }
    match key.composer {
        Some(ca) => {
            if ca != ComposerAction::Other {
                return composer_action_step(ca, buffer, completion, history, search);
            }
        },
        None => {},
    }
    match key.editor {
        Some(e) => {
            return editor_step(e, buffer, completion, history, search);
        },
        None => {},
    }
    plain_key_step(key.key, buffer, completion, history, search)
}

/// Runs a composer action: submit, tab completion or history search.
fn composer_action_step(
    ca: ComposerAction,
    buffer: &mut InteractivePromptBuffer,
    completion: &mut InteractiveSlashCompletionState,
    history: &mut InteractiveHistoryState,
    search: &mut InteractiveHistorySearchState,
) -> (a: InteractiveKeyAction)
    requires
        editor_wf(*old(buffer), *old(completion), *old(history), *old(search)),
        editor_room(*old(buffer)),
        ca != ComposerAction::Other,
    ensures
        composer_action(
            ca,
            *old(buffer),
            *old(completion),
            *old(history),
            *old(search),
            *final(buffer),
            *final(completion),
            *final(history),
            *final(search),
            a,
        ),
        editor_wf(*final(buffer), *final(completion), *final(history), *final(search)),
{
    let ghost b0 = *buffer;
    let ghost c0 = *completion;
    let ghost h0 = *history;
    let ghost s0 = *search;
    assert(completion.matches@.len() == completion.matches.len());
    match ca {
        ComposerAction::Submit => {
            let fl = buffer.first_line();
            let flc = crate::text::to_chars(fl.as_str());
            let slash = vec!['/'];
            assert(slash@ =~= slash_prefix());
            let on_command = match completion.current_command() {
                Some(command) => !crate::commands::is_text(command, fl.as_str()),
                None => false,
            };
            if crate::text::chars_start_with(&flc, &slash) && on_command {
                let command = completion.current_command().unwrap();
                buffer.replace_first_line(command);
                proof {
                    lemma_replaced_fits(b0.text@, command@);
                }
                return InteractiveKeyAction::RedrawFrame;
            }
            let input = crate::commands::parse_interactive_shell_input(buffer.text.as_str());
            completion.reset();
            search.reset();
            buffer.clear();
            history.index_from_end = None;
            history.draft = None;
            return InteractiveKeyAction::Submit(input);
        },
        ComposerAction::Queue => {
            let applied = crate::slash::apply_interactive_slash_completion(buffer, completion);
            proof {
                lemma_completion_keeps_wf(b0, c0, *buffer, *completion, applied);
            }
            if applied {
                return InteractiveKeyAction::RedrawFrame;
            }
            return InteractiveKeyAction::Noop;
        },
        ComposerAction::HistorySearchPrevious => {
            completion.reset();
            let found = search.reverse_search(history, buffer);
            proof {
                lemma_reverse_keeps_wf(h0, s0, b0, *search, *buffer, found);
            }
            if found {
                return InteractiveKeyAction::RedrawFrame;
            }
            return InteractiveKeyAction::Noop;
        },
        ComposerAction::HistorySearchNext => {
            return InteractiveKeyAction::RedrawFrame;
        },
        ComposerAction::Other => InteractiveKeyAction::Noop,
    }
}

/// Runs an editing key.
fn editor_step(
    e: EditorAction,
    buffer: &mut InteractivePromptBuffer,
    completion: &mut InteractiveSlashCompletionState,
    history: &mut InteractiveHistoryState,
    search: &mut InteractiveHistorySearchState,
) -> (a: InteractiveKeyAction)
    requires
        editor_wf(*old(buffer), *old(completion), *old(history), *old(search)),
        editor_room(*old(buffer)),
    ensures
        editor_key(
            e,
            *old(buffer),
            *old(completion),
            *old(history),
            *old(search),
            *final(buffer),
            *final(completion),
            *final(history),
            *final(search),
            a,
        ),
        editor_wf(*final(buffer), *final(completion), *final(history), *final(search)),
{
    let ghost b0 = *buffer;
    let ghost c0 = *completion;
    let ghost h0 = *history;
    let ghost s0 = *search;
    assert(completion.matches@.len() == completion.matches.len());
    match e {
                EditorAction::InsertNewline => {
                    completion.reset();
                    search.reset();
                    buffer.insert_newline();
                    proof {
                        lemma_insert_fits(b0.text@, b0.cursor as int, '\n');
                    }
                    InteractiveKeyAction::RedrawPrompt
                },
                EditorAction::MoveLeft => {
                    completion.reset();
                    search.reset();
                    buffer.move_left();
                    InteractiveKeyAction::RedrawPrompt
                },
                EditorAction::MoveRight => {
                    completion.reset();
                    search.reset();
                    buffer.move_right();
                    InteractiveKeyAction::RedrawPrompt
                },
                EditorAction::MoveUp => {
                    let m1 = crate::slash::move_interactive_slash_selection(buffer, completion, -1);
                    proof {
                        lemma_selection_keeps_wf(b0.text@, c0, *completion, -1, m1);
                    }
                    let moved = m1 || history.previous(buffer);
                    proof {
                        if !m1 && moved {
                            lemma_browse_keeps_wf(h0, b0, *history, *buffer);
                        }
                    }
                    if moved {
                        if completion.visible {
                            InteractiveKeyAction::RedrawFrame
                        } else {
                            InteractiveKeyAction::RedrawPrompt
                        }
                    } else {
                        InteractiveKeyAction::Noop
                    }
                },
                EditorAction::MoveDown => {
                    let m1 = crate::slash::move_interactive_slash_selection(buffer, completion, 1);
                    proof {
                        lemma_selection_keeps_wf(b0.text@, c0, *completion, 1, m1);
                    }
                    let moved = m1 || history.next(buffer);
                    proof {
                        if !m1 && moved {
                            lemma_browse_keeps_wf(h0, b0, *history, *buffer);
                        }
                    }
                    if moved {
                        if completion.visible {
                            InteractiveKeyAction::RedrawFrame
                        } else {
                            InteractiveKeyAction::RedrawPrompt
                        }
                    } else {
                        InteractiveKeyAction::Noop
                    }
                },
                EditorAction::MoveWordLeft => {
                    completion.reset();
                    search.reset();
                    buffer.move_word_left();
                    InteractiveKeyAction::RedrawPrompt
                },
                EditorAction::MoveWordRight => {
                    completion.reset();
                    search.reset();
                    buffer.move_word_right();
                    InteractiveKeyAction::RedrawPrompt
                },
                EditorAction::MoveLineStart => {
                    completion.reset();
                    search.reset();
                    buffer.move_home();
                    InteractiveKeyAction::RedrawPrompt
                },
                EditorAction::MoveLineEnd => {
                    completion.reset();
                    search.reset();
                    buffer.move_end();
                    InteractiveKeyAction::RedrawPrompt
                },
                EditorAction::DeleteBackward => {
                    let done = search.backspace_query(history, buffer);
                    proof {
                        lemma_shorten_keeps_wf(h0, s0, b0, *search, *buffer, done);
                    }
                    if done {
                        completion.reset();
                        return InteractiveKeyAction::RedrawFrame;
                    }
                    completion.reset();
                    search.reset();
                    buffer.backspace();
                    proof {
                        lemma_shrunk_fits(b0.text@, b0.cursor as int, false);
                    }
                    InteractiveKeyAction::RedrawPrompt
                },
                EditorAction::DeleteBackwardWord => {
                    completion.reset();
                    history.index_from_end = None;
                    history.draft = None;
                    search.reset();
                    buffer.delete_word_left();
                    proof {
                        lemma_shrunk_fits(b0.text@, b0.cursor as int, true);
                    }
                    InteractiveKeyAction::RedrawPrompt
                },
                EditorAction::KillLineStart => {
                    completion.reset();
                    search.reset();
                    buffer.clear();
                    InteractiveKeyAction::RedrawPrompt
                },
                EditorAction::Yank => InteractiveKeyAction::Yank,
                EditorAction::Other => InteractiveKeyAction::Noop,
    }
}

/// Runs a key no binding took: Control-C/D, Escape, or a typed char.
fn plain_key_step(
    kp: KeyPress,
    buffer: &mut InteractivePromptBuffer,
    completion: &mut InteractiveSlashCompletionState,
    history: &mut InteractiveHistoryState,
    search: &mut InteractiveHistorySearchState,
) -> (a: InteractiveKeyAction)
    requires
        editor_wf(*old(buffer), *old(completion), *old(history), *old(search)),
        editor_room(*old(buffer)),
    ensures
        plain_key(
            kp,
            *old(buffer),
            *old(completion),
            *old(history),
            *old(search),
            *final(buffer),
            *final(completion),
            *final(history),
            *final(search),
            a,
        ),
        editor_wf(*final(buffer), *final(completion), *final(history), *final(search)),
{
    let ghost b0 = *buffer;
    let ghost c0 = *completion;
    let ghost h0 = *history;
    let ghost s0 = *search;
    assert(completion.matches@.len() == completion.matches.len());
    match kp {
        KeyPress::ControlCOrD => InteractiveKeyAction::Exit,
        KeyPress::Esc => {
            if search.restore_draft(buffer) {
                completion.reset();
                proof {
                    assert(byte_len(Seq::<char>::empty()) == 0);
                    lemma_shows_on_boundary(*buffer, crate::history::draft_text(s0.draft));
                }
                return InteractiveKeyAction::RedrawFrame;
            }
            if completion.visible && completion.matches.len() > 0 {
                completion.visible = false;
            } else {
                completion.reset();
                search.reset();
                buffer.clear();
            }
            InteractiveKeyAction::RedrawFrame
        },
        KeyPress::Char(ch) => {
            let found = search.extend_query(history, buffer, ch);
            proof {
                lemma_extend_keeps_wf(h0, s0, b0, ch, *search, *buffer, found);
            }
            if found {
                completion.reset();
                return InteractiveKeyAction::RedrawFrame;
            }
            completion.reset();
            history.index_from_end = None;
            history.draft = None;
            search.reset();
            buffer.insert_char(ch);
            proof {
                lemma_insert_fits(b0.text@, b0.cursor as int, ch);
            }
            let fl = buffer.first_line();
            let flc = crate::text::to_chars(fl.as_str());
            let slash = vec!['/'];
            assert(slash@ =~= slash_prefix());
            if crate::text::chars_start_with(&flc, &slash) {
                completion.update_from_buffer(buffer);
                proof {
                    crate::slash::lemma_updated_matches_short(*completion, buffer.text@);
                }
                InteractiveKeyAction::RedrawFrame
            } else {
                InteractiveKeyAction::RedrawPrompt
            }
        },
        KeyPress::Other => InteractiveKeyAction::Noop,
    }
}

/// A buffer showing a text that fits has its cursor on a boundary.
proof fn lemma_shows_on_boundary(b: InteractivePromptBuffer, t: Seq<char>)
    requires
        crate::history::shows(b, t),
    ensures
        on_boundary(b.text@, b.cursor),
{
    crate::text::lemma_byte_offset_bounds(t, t.len() as int);
    assert(t.take(t.len() as int) =~= t);
    crate::text::lemma_char_index(t, t.len() as int);
}

/// Replacing the first line by a short text keeps a roomy text fitting.
proof fn lemma_replaced_fits(t: Seq<char>, r: Seq<char>)
    requires
        byte_len(t) + 64 <= isize::MAX,
        byte_len(r) <= 64,
    ensures
        fits(crate::prompt::replaced_first_line(t, r)),
{
    let n = first_line(t).len() as int;
    crate::prompt::lemma_first_line_prefix(t);
    crate::text::lemma_byte_len_concat(r, t.skip(n));
    assert(t =~= t.take(n) + t.skip(n));
    crate::text::lemma_byte_len_concat(t.take(n), t.skip(n));
}

/// Inserting one char keeps a roomy text fitting.
proof fn lemma_insert_fits(t: Seq<char>, c: int, ch: char)
    requires
        byte_len(t) + 64 <= isize::MAX,
        is_boundary_at(t, c),
    ensures
        fits(inserted_at(t, c, ch)),
{
    let k = char_index(t, c);
    crate::text::lemma_byte_len_concat(t.take(k) + seq![ch], t.skip(k));
    crate::text::lemma_byte_len_concat(t.take(k), seq![ch]);
    crate::text::lemma_byte_len_concat(t.take(k), t.skip(k));
    assert(t =~= t.take(k) + t.skip(k));
    assert(seq![ch].drop_first() =~= Seq::<char>::empty());
    assert(byte_len(Seq::<char>::empty()) == 0);
    assert(seq![ch][0] == ch);
}

pub open spec fn is_boundary_at(t: Seq<char>, c: int) -> bool {
    crate::text::is_boundary(t, c)
}

/// Deleting before the cursor keeps a text fitting.
proof fn lemma_shrunk_fits(t: Seq<char>, c: int, word: bool)
    requires
        fits(t),
        c == 0 || crate::text::is_boundary(t, c),
    ensures
        c != 0 ==> ({
            let k = char_index(t, c);
            let w = if word {
                word_left(t, k)
            } else {
                k - 1
            };
            fits(t.take(w) + t.skip(k))
        }),
{
    if c != 0 {
        let k = char_index(t, c);
        assert(0 <= k <= t.len() && crate::text::byte_offset(t, k) == c);
        assert(t.take(0) =~= Seq::<char>::empty());
        assert(byte_len(Seq::<char>::empty()) == 0);
        assert(k != 0);
        let w = if word {
            word_left(t, k)
        } else {
            k - 1
        };
        crate::prompt::lemma_skip_back_bounds(t, k);
        crate::prompt::lemma_skip_back_bounds(t, crate::prompt::skip_ws_back(t, k));
        assert(0 <= w <= k);
        crate::text::lemma_byte_len_concat(t.take(w), t.skip(k));
        crate::text::lemma_byte_offset_monotone(t, w, k);
        assert(t =~= t.take(k) + t.skip(k));
        crate::text::lemma_byte_len_concat(t.take(k), t.skip(k));
    }
}

/// Steps through the history keep the buffer and history well formed.
proof fn lemma_browse_keeps_wf(
    h0: InteractiveHistoryState,
    b0: InteractivePromptBuffer,
    h1: InteractiveHistoryState,
    b1: InteractivePromptBuffer,
)
    requires
        fits(b0.text@),
        entries_fit(h0.entries@),
        h0.draft matches Some(d) ==> fits(d@),
        h0.index_from_end matches Some(i) ==> i <= h0.entries@.len(),
        stepped_back(h0, b0, h1, b1, true) || stepped_forward(h0, b0, h1, b1, true),
    ensures
        fits(b1.text@),
        on_boundary(b1.text@, b1.cursor),
        h1.draft matches Some(d) ==> fits(d@),
        h1.index_from_end matches Some(i) ==> i <= h1.entries@.len(),
{
    if stepped_back(h0, b0, h1, b1, true) {
        let n = h0.entries@.len();
        let i = match h0.index_from_end {
            Some(i) => if i + 1 < n {
                i + 1
            } else {
                n as int
            },
            None => 1,
        };
        assert(0 <= n - i < n);
        assert(fits(h0.entries@[n - i]@));
        lemma_shows_on_boundary(b1, h0.entries@[n - i]@);
    } else {
        let i = h0.index_from_end->0;
        if i <= 1 {
            lemma_shows_on_boundary(b1, crate::history::draft_text(h0.draft));
            assert(crate::text::byte_len(Seq::<char>::empty()) == 0);
        } else {
            let j = h0.entries@.len() - (i - 1);
            assert(fits(h0.entries@[j]@));
            lemma_shows_on_boundary(b1, h0.entries@[j]@);
        }
    }
}

/// What the search shows keeps the buffer and search well formed.
proof fn lemma_shown_match_wf(
    h: InteractiveHistoryState,
    s1: InteractiveHistorySearchState,
    b0: InteractivePromptBuffer,
    b1: InteractivePromptBuffer,
    found: bool,
)
    requires
        fits(b0.text@),
        on_boundary(b0.text@, b0.cursor),
        entries_fit(h.entries@),
        forall|i: int| 0 <= i < s1.matches@.len() ==> (#[trigger] s1.matches@[i]) < h.entries@.len(),
        crate::history::shows_match(h, s1, b0, b1, found),
    ensures
        fits(b1.text@),
        on_boundary(b1.text@, b1.cursor),
{
    if s1.match_index < s1.matches@.len() {
        let e = h.entries@[s1.matches@[s1.match_index as int] as int]@;
        assert(fits(e));
        lemma_shows_on_boundary(b1, e);
    }
}

proof fn lemma_searched_bounded(
    h: InteractiveHistoryState,
    s0: InteractiveHistorySearchState,
    s1: InteractiveHistorySearchState,
    q: Seq<char>,
)
    requires
        crate::history::searched(h, s0, s1, q),
    ensures
        forall|i: int| 0 <= i < s1.matches@.len() ==> (#[trigger] s1.matches@[i]) < h.entries@.len(),
{
    crate::history::lemma_match_indices_bounded(h.entries@, q);
}

proof fn lemma_reverse_keeps_wf(
    h: InteractiveHistoryState,
    s0: InteractiveHistorySearchState,
    b0: InteractivePromptBuffer,
    s1: InteractiveHistorySearchState,
    b1: InteractivePromptBuffer,
    found: bool,
)
    requires
        fits(b0.text@),
        on_boundary(b0.text@, b0.cursor),
        entries_fit(h.entries@),
        s0.draft matches Some(d) ==> fits(d@),
        forall|i: int| 0 <= i < s0.matches@.len() ==> (#[trigger] s0.matches@[i]) < h.entries@.len(),
        reverse_searched(h, s0, b0, s1, b1, found),
    ensures
        fits(b1.text@),
        on_boundary(b1.text@, b1.cursor),
        s1.draft matches Some(d) ==> fits(d@),
        forall|i: int| 0 <= i < s1.matches@.len() ==> (#[trigger] s1.matches@[i]) < h.entries@.len(),
{
    let q = crate::text::trim(
        if s0.matches@.len() == 0 {
            b0.text@
        } else {
            s0.query@
        },
    );
    if q.len() != 0 && (s0.matches@.len() == 0 || s0.query@ != q) {
        lemma_searched_bounded(h, InteractiveHistorySearchState { draft: s1.draft, ..s0 }, s1, q);
    }
    if q.len() != 0 {
        lemma_shown_match_wf(h, s1, b0, b1, found);
    }
}

proof fn lemma_shorten_keeps_wf(
    h: InteractiveHistoryState,
    s0: InteractiveHistorySearchState,
    b0: InteractivePromptBuffer,
    s1: InteractiveHistorySearchState,
    b1: InteractivePromptBuffer,
    done: bool,
)
    requires
        fits(b0.text@),
        on_boundary(b0.text@, b0.cursor),
        entries_fit(h.entries@),
        s0.draft matches Some(d) ==> fits(d@),
        forall|i: int| 0 <= i < s0.matches@.len() ==> (#[trigger] s0.matches@[i]) < h.entries@.len(),
        query_shortened(h, s0, b0, s1, b1, done),
    ensures
        fits(b1.text@),
        on_boundary(b1.text@, b1.cursor),
        s1.draft matches Some(d) ==> fits(d@),
        forall|i: int| 0 <= i < s1.matches@.len() ==> (#[trigger] s1.matches@[i]) < h.entries@.len(),
{
    if s0.active {
        let q = if s0.query@.len() > 0 {
            s0.query@.drop_last()
        } else {
            Seq::<char>::empty()
        };
        if q.len() == 0 {
            assert(crate::text::byte_len(Seq::<char>::empty()) == 0);
            lemma_shows_on_boundary(b1, crate::history::draft_text(s0.draft));
        } else {
            lemma_searched_bounded(h, s0, s1, crate::text::trim(q));
            lemma_shown_match_wf(h, s1, b0, b1, done);
        }
    }
}

proof fn lemma_extend_keeps_wf(
    h: InteractiveHistoryState,
    s0: InteractiveHistorySearchState,
    b0: InteractivePromptBuffer,
    ch: char,
    s1: InteractiveHistorySearchState,
    b1: InteractivePromptBuffer,
    found: bool,
)
    requires
        fits(b0.text@),
        on_boundary(b0.text@, b0.cursor),
        entries_fit(h.entries@),
        s0.draft matches Some(d) ==> fits(d@),
        forall|i: int| 0 <= i < s0.matches@.len() ==> (#[trigger] s0.matches@[i]) < h.entries@.len(),
        query_extended(h, s0, b0, ch, s1, b1, found),
    ensures
        fits(b1.text@),
        on_boundary(b1.text@, b1.cursor),
        s1.draft matches Some(d) ==> fits(d@),
        forall|i: int| 0 <= i < s1.matches@.len() ==> (#[trigger] s1.matches@[i]) < h.entries@.len(),
        !found ==> b1 == b0,
{
    if s0.active {
        lemma_searched_bounded(h, s0, s1, crate::text::trim(s0.query@.push(ch)));
        lemma_shown_match_wf(h, s1, b0, b1, found);
    }
}

/// Tab completion keeps the buffer and completion well formed.
proof fn lemma_completion_keeps_wf(
    b0: InteractivePromptBuffer,
    c0: InteractiveSlashCompletionState,
    b1: InteractivePromptBuffer,
    c1: InteractiveSlashCompletionState,
    applied: bool,
)
    requires
        fits(b0.text@),
        on_boundary(b0.text@, b0.cursor),
        editor_room(b0),
        matches_fit(c0),
        matches_short(c0),
        c0.index < usize::MAX,
        c0.matches@.len() <= usize::MAX,
        completed(b0, c0, b1, c1, applied),
    ensures
        fits(b1.text@),
        on_boundary(b1.text@, b1.cursor),
        matches_fit(c1),
        matches_short(c1),
        c1.index < usize::MAX,
{
    let t = b0.text@;
    let fl = first_line(t);
    if !starts_with(fl, slash_prefix()) {
    } else if c0.seed@ == fl && c0.index < c0.matches@.len() {
        let r = c0.matches@[c0.index as int]@;
        lemma_replaced_fits(t, r);
        crate::prompt::lemma_replace_keeps_boundary(t, b0.cursor as int, r);
    } else if applied {
        if crate::slash::keeps_selection(c0, t) {
            if c0.matches@.len() > 1 {
                vstd::arithmetic::div_mod::lemma_mod_pos_bound(
                    c0.index + 1,
                    c0.matches@.len() as int,
                );
            }
        } else {
            crate::slash::lemma_updated_matches_short(c1, t);
        }
        let r = c1.matches@[c1.index as int]@;
        lemma_replaced_fits(t, r);
        crate::prompt::lemma_replace_keeps_boundary(t, b0.cursor as int, r);
    }
}

proof fn lemma_matching_commands_len(hs: Seq<(Seq<char>, Seq<char>)>, p: Seq<char>)
    ensures
        crate::slash::matching_commands(hs, p).len() <= hs.len(),
    decreases hs.len(),
{
    if hs.len() > 0 {
        lemma_matching_commands_len(hs.drop_last(), p);
    }
}

/// Moving the selection keeps the completion well formed.
proof fn lemma_selection_keeps_wf(
    t: Seq<char>,
    c0: InteractiveSlashCompletionState,
    c1: InteractiveSlashCompletionState,
    direction: int,
    moved: bool,
)
    requires
        matches_fit(c0),
        matches_short(c0),
        c0.index < usize::MAX,
        c0.matches@.len() <= usize::MAX,
        selection_moved(t, c0, c1, direction, moved),
    ensures
        matches_fit(c1),
        matches_short(c1),
        c1.index < usize::MAX,
{
    let fl = first_line(t);
    let fresh = c0.matches@.len() == 0 || !starts_with(c0.seed@, slash_prefix());
    if !starts_with(fl, slash_prefix()) {
    } else if fresh {
        let c2 = InteractiveSlashCompletionState { index: 0, visible: c1.matches@.len() > 0, ..c1 };
        lemma_matching_commands_len(crate::slash::slash_hints(), fl);
        assert(crate::slash::command_views(c1.matches@).len() == c1.matches@.len());
        crate::slash::lemma_updated_matches_short(c2, t);
        assert(c2.matches == c1.matches);
        if moved && direction >= 0 {
            vstd::arithmetic::div_mod::lemma_mod_pos_bound(1, c1.matches@.len() as int);
        }
    } else if direction >= 0 {
        vstd::arithmetic::div_mod::lemma_mod_pos_bound(c0.index + 1, c0.matches@.len() as int);
    }
}

} // verus!
