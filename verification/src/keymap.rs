//! Key bindings: the keys each action of the shell answers to, their
//! defaults, the overrides a configuration file gives, the check that no key
//! is bound twice within a section, and the resolution of a key event into
//! the actions the key handler reads.
use vstd::prelude::*;

use crate::keys::AppAction;
use crate::keys::ApprovalAction;
use crate::keys::ChatAction;
use crate::keys::ComposerAction;
use crate::keys::EditorAction;
use crate::keys::KeyEventView;
use crate::keys::KeyPress;
use crate::keys::PagerAction;
use crate::text::chars_eq;
use crate::text::decimal;
use crate::text::from_chars;
use crate::text::join2;
use crate::text::join3;
use crate::text::split_chars_on;
use crate::text::split_on;
use crate::text::to_chars;
use crate::text::to_lowercase;
use crate::text::trim;
use crate::text::trim_chars;
use crate::text::u64_to_decimal;
use crate::text::unicode_lowercase;
use crate::text::views;
use crate::vim::VimKey;

verus! {

/// The key of a key event, as the terminal reports it.
#[derive(Clone, Copy, Debug, PartialEq, Eq, Hash, Structural)]
pub enum KeyCodeView {
    Backspace,
    Enter,
    Left,
    Right,
    Up,
    Down,
    Home,
    End,
    PageUp,
    PageDown,
    Tab,
    BackTab,
    Delete,
    Insert,
    F(u8),
    Char(char),
    Null,
    Esc,
    Other,
}

/// The modifier keys held with a key.
#[derive(Clone, Copy, Debug, PartialEq, Eq, Hash, Structural)]
pub struct KeyMods {
    pub shift: bool,
    pub control: bool,
    pub alt: bool,
    pub super_key: bool,
    pub hyper: bool,
    pub meta: bool,
}

/// Shift, Control and Alt as given, no other modifier.
pub open spec fn mods(shift: bool, control: bool, alt: bool) -> KeyMods {
    KeyMods { shift, control, alt, super_key: false, hyper: false, meta: false }
}

fn make_mods(shift: bool, control: bool, alt: bool) -> (m: KeyMods)
    ensures
        m == mods(shift, control, alt),
{
    KeyMods { shift, control, alt, super_key: false, hyper: false, meta: false }
}

/// A key with the exact set of modifiers it must be pressed with.
#[derive(Clone, Copy, Debug, PartialEq, Eq, Hash, Structural)]
pub struct KeyBinding {
    pub code: KeyCodeView,
    pub modifiers: KeyMods,
}

/// A key event: its key, the modifiers held, and whether it is a press or a
/// repeat (not a release).
#[derive(Clone, Copy, Debug, PartialEq, Eq, Structural)]
pub struct KeyInput {
    pub code: KeyCodeView,
    pub modifiers: KeyMods,
    pub pressed: bool,
}

/// A binding takes an event with its key and exactly its modifiers.
pub open spec fn binds(b: KeyBinding, e: KeyInput) -> bool {
    b.code == e.code && b.modifiers == e.modifiers
}

impl KeyBinding {
    pub fn new(code: KeyCodeView, modifiers: KeyMods) -> (b: Self)
        ensures
            b == (KeyBinding { code, modifiers }),
    {
        KeyBinding { code, modifiers }
    }

    /// The event has this binding's key and exactly its modifiers.
    pub fn matches(&self, event: &KeyInput) -> (r: bool)
        ensures
            r == binds(*self, *event),
    {
        self.code == event.code && self.modifiers == event.modifiers
    }
}

pub open spec fn plain_b(code: KeyCodeView) -> KeyBinding {
    KeyBinding { code, modifiers: mods(false, false, false) }
}

pub open spec fn ctrl_b(code: KeyCodeView) -> KeyBinding {
    KeyBinding { code, modifiers: mods(false, true, false) }
}

pub open spec fn alt_b(code: KeyCodeView) -> KeyBinding {
    KeyBinding { code, modifiers: mods(false, false, true) }
}

pub open spec fn shift_b(code: KeyCodeView) -> KeyBinding {
    KeyBinding { code, modifiers: mods(true, false, false) }
}

/// The key alone.
pub fn plain(code: KeyCodeView) -> (b: KeyBinding)
    ensures
        b == plain_b(code),
{
    KeyBinding::new(code, make_mods(false, false, false))
}

/// The key with Control.
pub fn ctrl(code: KeyCodeView) -> (b: KeyBinding)
    ensures
        b == ctrl_b(code),
{
    KeyBinding::new(code, make_mods(false, true, false))
}

/// The key with Alt.
pub fn alt(code: KeyCodeView) -> (b: KeyBinding)
    ensures
        b == alt_b(code),
{
    KeyBinding::new(code, make_mods(false, false, true))
}

/// The key with Shift.
pub fn shift(code: KeyCodeView) -> (b: KeyBinding)
    ensures
        b == shift_b(code),
{
    KeyBinding::new(code, make_mods(true, false, false))
}

#[derive(Clone, Debug, PartialEq, Eq)]
pub struct AppKeymap {
    pub open_transcript: Vec<KeyBinding>,
    pub open_external_editor: Vec<KeyBinding>,
    pub copy: Vec<KeyBinding>,
    pub clear_terminal: Vec<KeyBinding>,
    pub toggle_vim_mode: Vec<KeyBinding>,
}

#[derive(Clone, Debug, PartialEq, Eq)]
pub struct ChatKeymap {
    pub interrupt_turn: Vec<KeyBinding>,
    pub decrease_reasoning_effort: Vec<KeyBinding>,
    pub increase_reasoning_effort: Vec<KeyBinding>,
}

#[derive(Clone, Debug, PartialEq, Eq)]
pub struct ComposerKeymap {
    pub submit: Vec<KeyBinding>,
    pub queue: Vec<KeyBinding>,
    pub toggle_shortcuts: Vec<KeyBinding>,
    pub history_search_previous: Vec<KeyBinding>,
    pub history_search_next: Vec<KeyBinding>,
}

#[derive(Clone, Debug, PartialEq, Eq)]
pub struct EditorKeymap {
    pub insert_newline: Vec<KeyBinding>,
    pub move_left: Vec<KeyBinding>,
    pub move_right: Vec<KeyBinding>,
    pub move_up: Vec<KeyBinding>,
    pub move_down: Vec<KeyBinding>,
    pub move_word_left: Vec<KeyBinding>,
    pub move_word_right: Vec<KeyBinding>,
    pub move_line_start: Vec<KeyBinding>,
    pub move_line_end: Vec<KeyBinding>,
    pub delete_backward: Vec<KeyBinding>,
    pub delete_forward: Vec<KeyBinding>,
    pub delete_backward_word: Vec<KeyBinding>,
    pub delete_forward_word: Vec<KeyBinding>,
    pub kill_line_start: Vec<KeyBinding>,
    pub kill_whole_line: Vec<KeyBinding>,
    pub kill_line_end: Vec<KeyBinding>,
    pub yank: Vec<KeyBinding>,
}

#[derive(Clone, Debug, PartialEq, Eq)]
pub struct PagerKeymap {
    pub scroll_up: Vec<KeyBinding>,
    pub scroll_down: Vec<KeyBinding>,
    pub page_up: Vec<KeyBinding>,
    pub page_down: Vec<KeyBinding>,
    pub jump_top: Vec<KeyBinding>,
    pub jump_bottom: Vec<KeyBinding>,
    pub close: Vec<KeyBinding>,
}

#[derive(Clone, Debug, PartialEq, Eq)]
pub struct ApprovalKeymap {
    pub approve: Vec<KeyBinding>,
    pub approve_session: Vec<KeyBinding>,
    pub deny: Vec<KeyBinding>,
    pub cancel: Vec<KeyBinding>,
}

#[derive(Clone, Debug, PartialEq, Eq)]
pub struct ListKeymap {
    pub move_up: Vec<KeyBinding>,
    pub move_down: Vec<KeyBinding>,
    pub accept: Vec<KeyBinding>,
    pub cancel: Vec<KeyBinding>,
}

#[derive(Clone, Debug, PartialEq, Eq)]
pub struct RuntimeKeymap {
    pub app: AppKeymap,
    pub chat: ChatKeymap,
    pub composer: ComposerKeymap,
    pub editor: EditorKeymap,
    pub pager: PagerKeymap,
    pub list: ListKeymap,
    pub approval: ApprovalKeymap,
}

/// The bindings the shell starts with.
pub open spec fn is_default_keymap(km: RuntimeKeymap) -> bool {
    &&& km.app.open_transcript@ == seq![ctrl_b(KeyCodeView::Char('t'))]
    &&& km.app.open_external_editor@ == seq![ctrl_b(KeyCodeView::Char('g'))]
    &&& km.app.copy@ == seq![ctrl_b(KeyCodeView::Char('o'))]
    &&& km.app.clear_terminal@ == seq![ctrl_b(KeyCodeView::Char('l'))]
    &&& km.app.toggle_vim_mode@ == Seq::<KeyBinding>::empty()
    &&& km.chat.interrupt_turn@ == seq![ctrl_b(KeyCodeView::Char('c'))]
    &&& km.chat.decrease_reasoning_effort@ == seq![alt_b(KeyCodeView::Char(','))]
    &&& km.chat.increase_reasoning_effort@ == seq![alt_b(KeyCodeView::Char('.'))]
    &&& km.composer.submit@ == seq![
        plain_b(KeyCodeView::Enter),
        plain_b(KeyCodeView::Char('\r')),
        plain_b(KeyCodeView::Char('\n')),
    ]
    &&& km.composer.queue@ == seq![plain_b(KeyCodeView::Tab)]
    &&& km.composer.toggle_shortcuts@ == seq![
        plain_b(KeyCodeView::Char('?')),
        shift_b(KeyCodeView::Char('?')),
    ]
    &&& km.composer.history_search_previous@ == seq![ctrl_b(KeyCodeView::Char('r'))]
    &&& km.composer.history_search_next@ == seq![ctrl_b(KeyCodeView::Char('s'))]
    &&& km.editor.insert_newline@ == seq![
        ctrl_b(KeyCodeView::Char('j')),
        ctrl_b(KeyCodeView::Char('m')),
        alt_b(KeyCodeView::Enter),
    ]
    &&& km.editor.move_left@ == seq![plain_b(KeyCodeView::Left)]
    &&& km.editor.move_right@ == seq![plain_b(KeyCodeView::Right)]
    &&& km.editor.move_up@ == seq![plain_b(KeyCodeView::Up)]
    &&& km.editor.move_down@ == seq![plain_b(KeyCodeView::Down)]
    &&& km.editor.move_word_left@ == seq![
        alt_b(KeyCodeView::Char('b')),
        alt_b(KeyCodeView::Left),
        ctrl_b(KeyCodeView::Left),
    ]
    &&& km.editor.move_word_right@ == seq![
        alt_b(KeyCodeView::Char('f')),
        alt_b(KeyCodeView::Right),
        ctrl_b(KeyCodeView::Right),
    ]
    &&& km.editor.move_line_start@ == seq![plain_b(KeyCodeView::Home)]
    &&& km.editor.move_line_end@ == seq![plain_b(KeyCodeView::End)]
    &&& km.editor.delete_backward@ == seq![plain_b(KeyCodeView::Backspace)]
    &&& km.editor.delete_forward@ == seq![plain_b(KeyCodeView::Delete)]
    &&& km.editor.delete_backward_word@ == seq![
        ctrl_b(KeyCodeView::Char('w')),
        alt_b(KeyCodeView::Backspace),
        ctrl_b(KeyCodeView::Backspace),
    ]
    &&& km.editor.delete_forward_word@ == seq![
        alt_b(KeyCodeView::Delete),
        ctrl_b(KeyCodeView::Delete),
    ]
    &&& km.editor.kill_line_start@ == seq![ctrl_b(KeyCodeView::Char('u'))]
    &&& km.editor.kill_whole_line@ == Seq::<KeyBinding>::empty()
    &&& km.editor.kill_line_end@ == seq![ctrl_b(KeyCodeView::Char('k'))]
    &&& km.editor.yank@ == seq![ctrl_b(KeyCodeView::Char('y'))]
    &&& km.pager.scroll_up@ == seq![plain_b(KeyCodeView::Up), plain_b(KeyCodeView::Char('k'))]
    &&& km.pager.scroll_down@ == seq![plain_b(KeyCodeView::Down), plain_b(KeyCodeView::Char('j'))]
    &&& km.pager.page_up@ == seq![plain_b(KeyCodeView::PageUp)]
    &&& km.pager.page_down@ == seq![plain_b(KeyCodeView::PageDown)]
    &&& km.pager.jump_top@ == seq![plain_b(KeyCodeView::Char('g'))]
    &&& km.pager.jump_bottom@ == seq![plain_b(KeyCodeView::Char('G'))]
    &&& km.pager.close@ == seq![
        plain_b(KeyCodeView::Char('q')),
        plain_b(KeyCodeView::Esc),
        ctrl_b(KeyCodeView::Char('c')),
    ]
    &&& km.approval.approve@ == seq![plain_b(KeyCodeView::Enter), plain_b(KeyCodeView::Char('a'))]
    &&& km.approval.approve_session@ == seq![plain_b(KeyCodeView::Char('s'))]
    &&& km.approval.deny@ == seq![plain_b(KeyCodeView::Char('d')), plain_b(KeyCodeView::Esc)]
    &&& km.approval.cancel@ == seq![ctrl_b(KeyCodeView::Char('c'))]
    &&& km.list.move_up@ == seq![plain_b(KeyCodeView::Up), plain_b(KeyCodeView::Char('k'))]
    &&& km.list.move_down@ == seq![plain_b(KeyCodeView::Down), plain_b(KeyCodeView::Char('j'))]
    &&& km.list.accept@ == seq![plain_b(KeyCodeView::Enter)]
    &&& km.list.cancel@ == seq![plain_b(KeyCodeView::Esc)]
}

/// Some binding of `bs` takes the event.
pub open spec fn bound(bs: Seq<KeyBinding>, e: KeyInput) -> bool {
    exists|i: int| 0 <= i < bs.len() && binds(#[trigger] bs[i], e)
}

fn find_match(bindings: &Vec<KeyBinding>, event: &KeyInput) -> (r: bool)
    ensures
        r == bound(bindings@, *event),
{
    let mut i: usize = 0;
    while i < bindings.len()
        invariant
            i <= bindings@.len(),
            forall|j: int| 0 <= j < i ==> !binds(#[trigger] bindings@[j], *event),
        decreases bindings.len() - i,
    {
        if bindings[i].matches(event) {
            return true;
        }
        i = i + 1;
    }
    false
}

/// An action name picked by its index in a section's table.
pub open spec fn named(p: Option<int>, names: Seq<Seq<char>>) -> Option<Seq<char>> {
    match p {
        Some(i) => Some(names[i]),
        None => None,
    }
}

pub open spec fn str_opt(r: Option<&'static str>) -> Option<Seq<char>> {
    match r {
        Some(s) => Some(s@),
        None => None,
    }
}

pub open spec fn idx(r: Option<usize>) -> Option<int> {
    match r {
        Some(i) => Some(i as int),
        None => None,
    }
}

/// The application action a key takes, by its index in `app_names`: the
/// first section entry, in that order, with a binding for the key.
pub open spec fn app_pick(a: AppKeymap, e: KeyInput) -> Option<int> {
    if bound(a.clear_terminal@, e) {
        Some(0)
    } else if bound(a.open_transcript@, e) {
        Some(1)
    } else if bound(a.copy@, e) {
        Some(2)
    } else if bound(a.open_external_editor@, e) {
        Some(3)
    } else {
        None
    }
}

pub open spec fn app_names() -> Seq<Seq<char>> {
    seq!["clear_terminal"@, "open_transcript"@, "copy"@, "open_external_editor"@]
}

pub open spec fn chat_pick(c: ChatKeymap, e: KeyInput) -> Option<int> {
    if bound(c.interrupt_turn@, e) {
        Some(0)
    } else if bound(c.decrease_reasoning_effort@, e) {
        Some(1)
    } else if bound(c.increase_reasoning_effort@, e) {
        Some(2)
    } else {
        None
    }
}

pub open spec fn chat_names() -> Seq<Seq<char>> {
    seq!["interrupt_turn"@, "decrease_reasoning_effort"@, "increase_reasoning_effort"@]
}

pub open spec fn composer_pick(c: ComposerKeymap, e: KeyInput) -> Option<int> {
    if bound(c.submit@, e) {
        Some(0)
    } else if bound(c.queue@, e) {
        Some(1)
    } else if bound(c.toggle_shortcuts@, e) {
        Some(2)
    } else if bound(c.history_search_previous@, e) {
        Some(3)
    } else if bound(c.history_search_next@, e) {
        Some(4)
    } else {
        None
    }
}

pub open spec fn composer_names() -> Seq<Seq<char>> {
    seq![
        "submit"@,
        "queue"@,
        "toggle_shortcuts"@,
        "history_search_previous"@,
        "history_search_next"@,
    ]
}

pub open spec fn editor_pick(k: EditorKeymap, e: KeyInput) -> Option<int> {
    if bound(k.insert_newline@, e) {
        Some(0)
    } else if bound(k.move_left@, e) {
        Some(1)
    } else if bound(k.move_right@, e) {
        Some(2)
    } else if bound(k.move_up@, e) {
        Some(3)
    } else if bound(k.move_down@, e) {
        Some(4)
    } else if bound(k.move_word_left@, e) {
        Some(5)
    } else if bound(k.move_word_right@, e) {
        Some(6)
    } else if bound(k.move_line_start@, e) {
        Some(7)
    } else if bound(k.move_line_end@, e) {
        Some(8)
    } else if bound(k.delete_backward@, e) {
        Some(9)
    } else if bound(k.delete_forward@, e) {
        Some(10)
    } else if bound(k.delete_backward_word@, e) {
        Some(11)
    } else if bound(k.delete_forward_word@, e) {
        Some(12)
    } else if bound(k.kill_line_start@, e) {
        Some(13)
    } else if bound(k.kill_whole_line@, e) {
        Some(14)
    } else if bound(k.kill_line_end@, e) {
        Some(15)
    } else if bound(k.yank@, e) {
        Some(16)
    } else {
        None
    }
}

pub open spec fn editor_names() -> Seq<Seq<char>> {
    seq![
        "insert_newline"@,
        "move_left"@,
        "move_right"@,
        "move_up"@,
        "move_down"@,
        "move_word_left"@,
        "move_word_right"@,
        "move_line_start"@,
        "move_line_end"@,
        "delete_backward"@,
        "delete_forward"@,
        "delete_backward_word"@,
        "delete_forward_word"@,
        "kill_line_start"@,
        "kill_whole_line"@,
        "kill_line_end"@,
        "yank"@,
    ]
}

pub open spec fn pager_pick(p: PagerKeymap, e: KeyInput) -> Option<int> {
    if bound(p.scroll_up@, e) {
        Some(0)
    } else if bound(p.scroll_down@, e) {
        Some(1)
    } else if bound(p.page_up@, e) {
        Some(2)
    } else if bound(p.page_down@, e) {
        Some(3)
    } else if bound(p.jump_top@, e) {
        Some(4)
    } else if bound(p.jump_bottom@, e) {
        Some(5)
    } else if bound(p.close@, e) {
        Some(6)
    } else {
        None
    }
}

pub open spec fn pager_names() -> Seq<Seq<char>> {
    seq![
        "scroll_up"@,
        "scroll_down"@,
        "page_up"@,
        "page_down"@,
        "jump_top"@,
        "jump_bottom"@,
        "close"@,
    ]
}

pub open spec fn approval_pick(a: ApprovalKeymap, e: KeyInput) -> Option<int> {
    if bound(a.approve@, e) {
        Some(0)
    } else if bound(a.approve_session@, e) {
        Some(1)
    } else if bound(a.deny@, e) {
        Some(2)
    } else if bound(a.cancel@, e) {
        Some(3)
    } else {
        None
    }
}

pub open spec fn approval_names() -> Seq<Seq<char>> {
    seq!["approve"@, "approve_session"@, "deny"@, "cancel"@]
}

fn no_bindings() -> (v: Vec<KeyBinding>)
    ensures
        v@ == Seq::<KeyBinding>::empty(),
{
    Vec::new()
}

fn one(a: KeyBinding) -> (v: Vec<KeyBinding>)
    ensures
        v@ == seq![a],
{
    let mut v = Vec::new();
    v.push(a);
    assert(v@ =~= seq![a]);
    v
}

fn two(a: KeyBinding, b: KeyBinding) -> (v: Vec<KeyBinding>)
    ensures
        v@ == seq![a, b],
{
    let mut v = one(a);
    v.push(b);
    assert(v@ =~= seq![a, b]);
    v
}

fn three(a: KeyBinding, b: KeyBinding, c: KeyBinding) -> (v: Vec<KeyBinding>)
    ensures
        v@ == seq![a, b, c],
{
    let mut v = two(a, b);
    v.push(c);
    assert(v@ =~= seq![a, b, c]);
    v
}

impl RuntimeKeymap {
    /// The default bindings.
    pub fn defaults() -> (km: Self)
        ensures
            is_default_keymap(km),
    {
        RuntimeKeymap {
            app: AppKeymap {
                open_transcript: one(ctrl(KeyCodeView::Char('t'))),
                open_external_editor: one(ctrl(KeyCodeView::Char('g'))),
                copy: one(ctrl(KeyCodeView::Char('o'))),
                clear_terminal: one(ctrl(KeyCodeView::Char('l'))),
                toggle_vim_mode: no_bindings(),
            },
            chat: ChatKeymap {
                interrupt_turn: one(ctrl(KeyCodeView::Char('c'))),
                decrease_reasoning_effort: one(alt(KeyCodeView::Char(','))),
                increase_reasoning_effort: one(alt(KeyCodeView::Char('.'))),
            },
            composer: ComposerKeymap {
                submit: three(plain(KeyCodeView::Enter), plain(KeyCodeView::Char('\r')), plain(KeyCodeView::Char('\n'))),
                queue: one(plain(KeyCodeView::Tab)),
                toggle_shortcuts: two(plain(KeyCodeView::Char('?')), shift(KeyCodeView::Char('?'))),
                history_search_previous: one(ctrl(KeyCodeView::Char('r'))),
                history_search_next: one(ctrl(KeyCodeView::Char('s'))),
            },
            editor: EditorKeymap {
                insert_newline: three(ctrl(KeyCodeView::Char('j')), ctrl(KeyCodeView::Char('m')), alt(KeyCodeView::Enter)),
                move_left: one(plain(KeyCodeView::Left)),
                move_right: one(plain(KeyCodeView::Right)),
                move_up: one(plain(KeyCodeView::Up)),
                move_down: one(plain(KeyCodeView::Down)),
                move_word_left: three(alt(KeyCodeView::Char('b')), alt(KeyCodeView::Left), ctrl(KeyCodeView::Left)),
                move_word_right: three(alt(KeyCodeView::Char('f')), alt(KeyCodeView::Right), ctrl(KeyCodeView::Right)),
                move_line_start: one(plain(KeyCodeView::Home)),
                move_line_end: one(plain(KeyCodeView::End)),
                delete_backward: one(plain(KeyCodeView::Backspace)),
                delete_forward: one(plain(KeyCodeView::Delete)),
                delete_backward_word: three(ctrl(KeyCodeView::Char('w')), alt(KeyCodeView::Backspace), ctrl(KeyCodeView::Backspace)),
                delete_forward_word: two(alt(KeyCodeView::Delete), ctrl(KeyCodeView::Delete)),
                kill_line_start: one(ctrl(KeyCodeView::Char('u'))),
                kill_whole_line: no_bindings(),
                kill_line_end: one(ctrl(KeyCodeView::Char('k'))),
                yank: one(ctrl(KeyCodeView::Char('y'))),
            },
            pager: PagerKeymap {
                scroll_up: two(plain(KeyCodeView::Up), plain(KeyCodeView::Char('k'))),
                scroll_down: two(plain(KeyCodeView::Down), plain(KeyCodeView::Char('j'))),
                page_up: one(plain(KeyCodeView::PageUp)),
                page_down: one(plain(KeyCodeView::PageDown)),
                jump_top: one(plain(KeyCodeView::Char('g'))),
                jump_bottom: one(plain(KeyCodeView::Char('G'))),
                close: three(plain(KeyCodeView::Char('q')), plain(KeyCodeView::Esc), ctrl(KeyCodeView::Char('c'))),
            },
            approval: ApprovalKeymap {
                approve: two(plain(KeyCodeView::Enter), plain(KeyCodeView::Char('a'))),
                approve_session: one(plain(KeyCodeView::Char('s'))),
                deny: two(plain(KeyCodeView::Char('d')), plain(KeyCodeView::Esc)),
                cancel: one(ctrl(KeyCodeView::Char('c'))),
            },
            list: ListKeymap {
                move_up: two(plain(KeyCodeView::Up), plain(KeyCodeView::Char('k'))),
                move_down: two(plain(KeyCodeView::Down), plain(KeyCodeView::Char('j'))),
                accept: one(plain(KeyCodeView::Enter)),
                cancel: one(plain(KeyCodeView::Esc)),
            },
        }
    }

    fn app_index(&self, event: &KeyInput) -> (r: Option<usize>)
        ensures
            idx(r) == app_pick(self.app, *event),
    {
        if find_match(&self.app.clear_terminal, event) {
            Some(0)
        } else if find_match(&self.app.open_transcript, event) {
            Some(1)
        } else if find_match(&self.app.copy, event) {
            Some(2)
        } else if find_match(&self.app.open_external_editor, event) {
            Some(3)
        } else {
            None
        }
    }

    fn chat_index(&self, event: &KeyInput) -> (r: Option<usize>)
        ensures
            idx(r) == chat_pick(self.chat, *event),
    {
        if find_match(&self.chat.interrupt_turn, event) {
            Some(0)
        } else if find_match(&self.chat.decrease_reasoning_effort, event) {
            Some(1)
        } else if find_match(&self.chat.increase_reasoning_effort, event) {
            Some(2)
        } else {
            None
        }
    }

    fn composer_index(&self, event: &KeyInput) -> (r: Option<usize>)
        ensures
            idx(r) == composer_pick(self.composer, *event),
    {
        if find_match(&self.composer.submit, event) {
            Some(0)
        } else if find_match(&self.composer.queue, event) {
            Some(1)
        } else if find_match(&self.composer.toggle_shortcuts, event) {
            Some(2)
        } else if find_match(&self.composer.history_search_previous, event) {
            Some(3)
        } else if find_match(&self.composer.history_search_next, event) {
            Some(4)
        } else {
            None
        }
    }

    fn editor_index(&self, event: &KeyInput) -> (r: Option<usize>)
        ensures
            idx(r) == editor_pick(self.editor, *event),
    {
        let k = &self.editor;
        if find_match(&k.insert_newline, event) {
            Some(0)
        } else if find_match(&k.move_left, event) {
            Some(1)
        } else if find_match(&k.move_right, event) {
            Some(2)
        } else if find_match(&k.move_up, event) {
            Some(3)
        } else if find_match(&k.move_down, event) {
            Some(4)
        } else if find_match(&k.move_word_left, event) {
            Some(5)
        } else if find_match(&k.move_word_right, event) {
            Some(6)
        } else if find_match(&k.move_line_start, event) {
            Some(7)
        } else if find_match(&k.move_line_end, event) {
            Some(8)
        } else if find_match(&k.delete_backward, event) {
            Some(9)
        } else if find_match(&k.delete_forward, event) {
            Some(10)
        } else if find_match(&k.delete_backward_word, event) {
            Some(11)
        } else if find_match(&k.delete_forward_word, event) {
            Some(12)
        } else if find_match(&k.kill_line_start, event) {
            Some(13)
        } else if find_match(&k.kill_whole_line, event) {
            Some(14)
        } else if find_match(&k.kill_line_end, event) {
            Some(15)
        } else if find_match(&k.yank, event) {
            Some(16)
        } else {
            None
        }
    }

    fn pager_index(&self, event: &KeyInput) -> (r: Option<usize>)
        ensures
            idx(r) == pager_pick(self.pager, *event),
    {
        let p = &self.pager;
        if find_match(&p.scroll_up, event) {
            Some(0)
        } else if find_match(&p.scroll_down, event) {
            Some(1)
        } else if find_match(&p.page_up, event) {
            Some(2)
        } else if find_match(&p.page_down, event) {
            Some(3)
        } else if find_match(&p.jump_top, event) {
            Some(4)
        } else if find_match(&p.jump_bottom, event) {
            Some(5)
        } else if find_match(&p.close, event) {
            Some(6)
        } else {
            None
        }
    }

    fn approval_index(&self, event: &KeyInput) -> (r: Option<usize>)
        ensures
            idx(r) == approval_pick(self.approval, *event),
    {
        if find_match(&self.approval.approve, event) {
            Some(0)
        } else if find_match(&self.approval.approve_session, event) {
            Some(1)
        } else if find_match(&self.approval.deny, event) {
            Some(2)
        } else if find_match(&self.approval.cancel, event) {
            Some(3)
        } else {
            None
        }
    }

    /// The application action the event triggers, if any.
    pub fn match_app_action(&self, event: &KeyInput) -> (r: Option<&'static str>)
        ensures
            str_opt(r) == named(app_pick(self.app, *event), app_names()),
    {
        match self.app_index(event) {
            Some(0) => Some("clear_terminal"),
            Some(1) => Some("open_transcript"),
            Some(2) => Some("copy"),
            Some(_) => Some("open_external_editor"),
            None => None,
        }
    }

    /// The chat action the event triggers, if any.
    pub fn match_chat_action(&self, event: &KeyInput) -> (r: Option<&'static str>)
        ensures
            str_opt(r) == named(chat_pick(self.chat, *event), chat_names()),
    {
        match self.chat_index(event) {
            Some(0) => Some("interrupt_turn"),
            Some(1) => Some("decrease_reasoning_effort"),
            Some(_) => Some("increase_reasoning_effort"),
            None => None,
        }
    }

    /// The composer action the event triggers, if any.
    pub fn match_composer_action(&self, event: &KeyInput) -> (r: Option<&'static str>)
        ensures
            str_opt(r) == named(composer_pick(self.composer, *event), composer_names()),
    {
        match self.composer_index(event) {
            Some(0) => Some("submit"),
            Some(1) => Some("queue"),
            Some(2) => Some("toggle_shortcuts"),
            Some(3) => Some("history_search_previous"),
            Some(_) => Some("history_search_next"),
            None => None,
        }
    }

    /// The editing action the event triggers, if any.
    pub fn match_editor_action(&self, event: &KeyInput) -> (r: Option<&'static str>)
        ensures
            str_opt(r) == named(editor_pick(self.editor, *event), editor_names()),
    {
        match self.editor_index(event) {
            Some(0) => Some("insert_newline"),
            Some(1) => Some("move_left"),
            Some(2) => Some("move_right"),
            Some(3) => Some("move_up"),
            Some(4) => Some("move_down"),
            Some(5) => Some("move_word_left"),
            Some(6) => Some("move_word_right"),
            Some(7) => Some("move_line_start"),
            Some(8) => Some("move_line_end"),
            Some(9) => Some("delete_backward"),
            Some(10) => Some("delete_forward"),
            Some(11) => Some("delete_backward_word"),
            Some(12) => Some("delete_forward_word"),
            Some(13) => Some("kill_line_start"),
            Some(14) => Some("kill_whole_line"),
            Some(15) => Some("kill_line_end"),
            Some(_) => Some("yank"),
            None => None,
        }
    }

    /// The pager action the event triggers, if any.
    pub fn match_pager_action(&self, event: &KeyInput) -> (r: Option<&'static str>)
        ensures
            str_opt(r) == named(pager_pick(self.pager, *event), pager_names()),
    {
        match self.pager_index(event) {
            Some(0) => Some("scroll_up"),
            Some(1) => Some("scroll_down"),
            Some(2) => Some("page_up"),
            Some(3) => Some("page_down"),
            Some(4) => Some("jump_top"),
            Some(5) => Some("jump_bottom"),
            Some(_) => Some("close"),
            None => None,
        }
    }

    /// The approval action the event triggers, if any.
    pub fn match_approval_action(&self, event: &KeyInput) -> (r: Option<&'static str>)
        ensures
            str_opt(r) == named(approval_pick(self.approval, *event), approval_names()),
    {
        match self.approval_index(event) {
            Some(0) => Some("approve"),
            Some(1) => Some("approve_session"),
            Some(2) => Some("deny"),
            Some(_) => Some("cancel"),
            None => None,
        }
    }
}

/// The pager action at a pick of the pager section.
pub open spec fn pager_action_at(p: Option<int>) -> Option<PagerAction> {
    match p {
        Some(i) => Some(
            if i == 0 {
                PagerAction::ScrollUp
            } else if i == 1 {
                PagerAction::ScrollDown
            } else if i == 2 {
                PagerAction::PageUp
            } else if i == 3 {
                PagerAction::PageDown
            } else if i == 4 {
                PagerAction::JumpTop
            } else if i == 5 {
                PagerAction::JumpBottom
            } else {
                PagerAction::Close
            },
        ),
        None => None,
    }
}

pub open spec fn approval_action_at(p: Option<int>) -> Option<ApprovalAction> {
    match p {
        Some(i) => Some(
            if i == 0 {
                ApprovalAction::Approve
            } else if i == 1 {
                ApprovalAction::ApproveSession
            } else if i == 2 {
                ApprovalAction::Deny
            } else {
                ApprovalAction::Cancel
            },
        ),
        None => None,
    }
}

pub open spec fn app_action_at(p: Option<int>) -> Option<AppAction> {
    match p {
        Some(i) => Some(
            if i == 0 {
                AppAction::ClearTerminal
            } else if i == 1 {
                AppAction::OpenTranscript
            } else if i == 2 {
                AppAction::Copy
            } else {
                AppAction::OpenExternalEditor
            },
        ),
        None => None,
    }
}

/// Only the interrupt is a chat action the key handler acts on.
pub open spec fn chat_action_at(p: Option<int>) -> Option<ChatAction> {
    match p {
        Some(i) => Some(
            if i == 0 {
                ChatAction::InterruptTurn
            } else {
                ChatAction::Other
            },
        ),
        None => None,
    }
}

/// The shortcut overlay is a composer action the key handler does not act on.
pub open spec fn composer_action_at(p: Option<int>) -> Option<ComposerAction> {
    match p {
        Some(i) => Some(
            if i == 0 {
                ComposerAction::Submit
            } else if i == 1 {
                ComposerAction::Queue
            } else if i == 3 {
                ComposerAction::HistorySearchPrevious
            } else if i == 4 {
                ComposerAction::HistorySearchNext
            } else {
                ComposerAction::Other
            },
        ),
        None => None,
    }
}

/// Forward deletion and the line kills other than to the line's start are
/// editing actions the key handler does not act on.
pub open spec fn editor_action_at(p: Option<int>) -> Option<EditorAction> {
    match p {
        Some(i) => Some(
            if i == 0 {
                EditorAction::InsertNewline
            } else if i == 1 {
                EditorAction::MoveLeft
            } else if i == 2 {
                EditorAction::MoveRight
            } else if i == 3 {
                EditorAction::MoveUp
            } else if i == 4 {
                EditorAction::MoveDown
            } else if i == 5 {
                EditorAction::MoveWordLeft
            } else if i == 6 {
                EditorAction::MoveWordRight
            } else if i == 7 {
                EditorAction::MoveLineStart
            } else if i == 8 {
                EditorAction::MoveLineEnd
            } else if i == 9 {
                EditorAction::DeleteBackward
            } else if i == 11 {
                EditorAction::DeleteBackwardWord
            } else if i == 13 {
                EditorAction::KillLineStart
            } else if i == 16 {
                EditorAction::Yank
            } else {
                EditorAction::Other
            },
        ),
        None => None,
    }
}

/// The key itself, where no binding takes it: Control with `c` or `d`,
/// Escape, a char typed without Control and Alt, or anything else.
pub open spec fn key_press_of(e: KeyInput) -> KeyPress {
    match e.code {
        KeyCodeView::Char(c) => if (c == 'c' || c == 'd') && e.modifiers.control {
            KeyPress::ControlCOrD
        } else if !e.modifiers.control && !e.modifiers.alt {
            KeyPress::Char(c)
        } else {
            KeyPress::Other
        },
        KeyCodeView::Esc => KeyPress::Esc,
        _ => KeyPress::Other,
    }
}

/// The key a Vim command reads.
pub open spec fn vim_key_of(e: KeyInput) -> VimKey {
    match e.code {
        KeyCodeView::Char(c) => VimKey::Char(c),
        KeyCodeView::Esc => VimKey::Esc,
        _ => VimKey::Other,
    }
}

impl RuntimeKeymap {
    /// What the key handler reads of an event under these bindings: the
    /// action each section binds it to, the key itself and the key Vim
    /// reads.
    pub fn key_event_view(&self, event: &KeyInput) -> (v: KeyEventView)
        ensures
            v.pressed == event.pressed,
            v.pager == pager_action_at(pager_pick(self.pager, *event)),
            v.approval == approval_action_at(approval_pick(self.approval, *event)),
            v.app == app_action_at(app_pick(self.app, *event)),
            v.chat == chat_action_at(chat_pick(self.chat, *event)),
            v.composer == composer_action_at(composer_pick(self.composer, *event)),
            v.editor == editor_action_at(editor_pick(self.editor, *event)),
            v.key == key_press_of(*event),
            v.vim == vim_key_of(*event),
    {
        let pager = match self.pager_index(event) {
            Some(0) => Some(PagerAction::ScrollUp),
            Some(1) => Some(PagerAction::ScrollDown),
            Some(2) => Some(PagerAction::PageUp),
            Some(3) => Some(PagerAction::PageDown),
            Some(4) => Some(PagerAction::JumpTop),
            Some(5) => Some(PagerAction::JumpBottom),
            Some(_) => Some(PagerAction::Close),
            None => None,
        };
        let approval = match self.approval_index(event) {
            Some(0) => Some(ApprovalAction::Approve),
            Some(1) => Some(ApprovalAction::ApproveSession),
            Some(2) => Some(ApprovalAction::Deny),
            Some(_) => Some(ApprovalAction::Cancel),
            None => None,
        };
        let app = match self.app_index(event) {
            Some(0) => Some(AppAction::ClearTerminal),
            Some(1) => Some(AppAction::OpenTranscript),
            Some(2) => Some(AppAction::Copy),
            Some(_) => Some(AppAction::OpenExternalEditor),
            None => None,
        };
        let chat = match self.chat_index(event) {
            Some(0) => Some(ChatAction::InterruptTurn),
            Some(_) => Some(ChatAction::Other),
            None => None,
        };
        let composer = match self.composer_index(event) {
            Some(0) => Some(ComposerAction::Submit),
            Some(1) => Some(ComposerAction::Queue),
            Some(3) => Some(ComposerAction::HistorySearchPrevious),
            Some(4) => Some(ComposerAction::HistorySearchNext),
            Some(_) => Some(ComposerAction::Other),
            None => None,
        };
        let editor = match self.editor_index(event) {
            Some(0) => Some(EditorAction::InsertNewline),
            Some(1) => Some(EditorAction::MoveLeft),
            Some(2) => Some(EditorAction::MoveRight),
            Some(3) => Some(EditorAction::MoveUp),
            Some(4) => Some(EditorAction::MoveDown),
            Some(5) => Some(EditorAction::MoveWordLeft),
            Some(6) => Some(EditorAction::MoveWordRight),
            Some(7) => Some(EditorAction::MoveLineStart),
            Some(8) => Some(EditorAction::MoveLineEnd),
            Some(9) => Some(EditorAction::DeleteBackward),
            Some(11) => Some(EditorAction::DeleteBackwardWord),
            Some(13) => Some(EditorAction::KillLineStart),
            Some(16) => Some(EditorAction::Yank),
            Some(_) => Some(EditorAction::Other),
            None => None,
        };
        let key = match event.code {
            KeyCodeView::Char(c) => if (c == 'c' || c == 'd') && event.modifiers.control {
                KeyPress::ControlCOrD
            } else if !event.modifiers.control && !event.modifiers.alt {
                KeyPress::Char(c)
            } else {
                KeyPress::Other
            },
            KeyCodeView::Esc => KeyPress::Esc,
            _ => KeyPress::Other,
        };
        let vim = match event.code {
            KeyCodeView::Char(c) => VimKey::Char(c),
            KeyCodeView::Esc => VimKey::Esc,
            _ => VimKey::Other,
        };
        KeyEventView { pressed: event.pressed, pager, approval, app, chat, composer, editor, key, vim }
    }
}

// ---------------------------------------------------------------------
// bindings taken twice

/// How a binding is named in a conflict message: its modifiers, then its key.
pub open spec fn binding_text(b: KeyBinding) -> Seq<char> {
    mods_text(b.modifiers) + key_text(b.code)
}

pub open spec fn mods_text(m: KeyMods) -> Seq<char> {
    (if m.control {
        "ctrl+"@
    } else {
        Seq::empty()
    }) + (if m.alt {
        "alt+"@
    } else {
        Seq::empty()
    }) + (if m.shift {
        "shift+"@
    } else {
        Seq::empty()
    }) + (if m.super_key {
        "super+"@
    } else {
        Seq::empty()
    }) + (if m.hyper {
        "hyper+"@
    } else {
        Seq::empty()
    }) + (if m.meta {
        "meta+"@
    } else {
        Seq::empty()
    })
}

pub open spec fn key_text(c: KeyCodeView) -> Seq<char> {
    match c {
        KeyCodeView::Char(ch) => seq![ch],
        KeyCodeView::F(n) => "f"@ + decimal(n as nat),
        KeyCodeView::Backspace => "backspace"@,
        KeyCodeView::Enter => "enter"@,
        KeyCodeView::Left => "left"@,
        KeyCodeView::Right => "right"@,
        KeyCodeView::Up => "up"@,
        KeyCodeView::Down => "down"@,
        KeyCodeView::Home => "home"@,
        KeyCodeView::End => "end"@,
        KeyCodeView::PageUp => "pageup"@,
        KeyCodeView::PageDown => "pagedown"@,
        KeyCodeView::Tab => "tab"@,
        KeyCodeView::BackTab => "backtab"@,
        KeyCodeView::Delete => "delete"@,
        KeyCodeView::Insert => "insert"@,
        KeyCodeView::Null => "null"@,
        KeyCodeView::Esc => "esc"@,
        KeyCodeView::Other => "other"@,
    }
}

fn append_if(s: String, on: bool, piece: &str) -> (r: String)
    ensures
        r@ == s@ + (if on {
            piece@
        } else {
            Seq::empty()
        }),
{
    if on {
        s.concat(piece)
    } else {
        assert(s@ + Seq::<char>::empty() =~= s@);
        s
    }
}

fn key_text_of(c: KeyCodeView) -> (s: String)
    ensures
        s@ == key_text(c),
{
    match c {
        KeyCodeView::Char(ch) => {
            let mut v: Vec<char> = Vec::new();
            v.push(ch);
            assert(v@ =~= seq![ch]);
            from_chars(v.as_slice())
        },
        KeyCodeView::F(n) => join2("f", u64_to_decimal(n as u64).as_str()),
        KeyCodeView::Backspace => "backspace".to_string(),
        KeyCodeView::Enter => "enter".to_string(),
        KeyCodeView::Left => "left".to_string(),
        KeyCodeView::Right => "right".to_string(),
        KeyCodeView::Up => "up".to_string(),
        KeyCodeView::Down => "down".to_string(),
        KeyCodeView::Home => "home".to_string(),
        KeyCodeView::End => "end".to_string(),
        KeyCodeView::PageUp => "pageup".to_string(),
        KeyCodeView::PageDown => "pagedown".to_string(),
        KeyCodeView::Tab => "tab".to_string(),
        KeyCodeView::BackTab => "backtab".to_string(),
        KeyCodeView::Delete => "delete".to_string(),
        KeyCodeView::Insert => "insert".to_string(),
        KeyCodeView::Null => "null".to_string(),
        KeyCodeView::Esc => "esc".to_string(),
        KeyCodeView::Other => "other".to_string(),
    }
}

fn binding_text_of(b: &KeyBinding) -> (s: String)
    ensures
        s@ == binding_text(*b),
{
    let m = b.modifiers;
    let s = String::new();
    let s = append_if(s, m.control, "ctrl+");
    let s = append_if(s, m.alt, "alt+");
    let s = append_if(s, m.shift, "shift+");
    let s = append_if(s, m.super_key, "super+");
    let s = append_if(s, m.hyper, "hyper+");
    let s = append_if(s, m.meta, "meta+");
    let k = key_text_of(b.code);
    let r = s.concat(k.as_str());
    assert(r@ =~= binding_text(*b));
    r
}

/// The bindings of a section's actions, one after the other.
pub open spec fn concat_groups(gs: Seq<Seq<KeyBinding>>) -> Seq<KeyBinding>
    decreases gs.len(),
{
    if gs.len() == 0 {
        Seq::empty()
    } else {
        concat_groups(gs.drop_last()) + gs.last()
    }
}

pub open spec fn group_views(gs: Seq<&Vec<KeyBinding>>) -> Seq<Seq<KeyBinding>> {
    gs.map_values(|g: &Vec<KeyBinding>| g@)
}

/// The binding at `j` is one taken before it.
pub open spec fn repeats_at(s: Seq<KeyBinding>, j: int) -> bool {
    0 <= j < s.len() && exists|i: int| 0 <= i < j && s[i] == #[trigger] s[j]
}

pub open spec fn no_repeat(s: Seq<KeyBinding>) -> bool {
    forall|k: int| !#[trigger] repeats_at(s, k)
}

/// `j` is where a binding is first taken a second time.
pub open spec fn first_repeat(s: Seq<KeyBinding>, j: int) -> bool {
    repeats_at(s, j) && forall|k: int| 0 <= k < j ==> !#[trigger] repeats_at(s, k)
}

pub open spec fn conflict_message(label: Seq<char>, b: KeyBinding) -> Seq<char> {
    label + ": duplicate key binding "@ + binding_text(b)
}

/// What `check_conflicts` answers for a section: no binding taken twice, or
/// the message naming the first one taken again.
pub open spec fn conflict_result(label: Seq<char>, flat: Seq<KeyBinding>, r: Result<(), String>) -> bool {
    &&& (r is Ok <==> no_repeat(flat))
    &&& r matches Err(m) ==> exists|j: int|
        first_repeat(flat, j) && m@ == conflict_message(label, #[trigger] flat[j])
}

proof fn lemma_concat_append(a: Seq<Seq<KeyBinding>>, b: Seq<Seq<KeyBinding>>)
    ensures
        concat_groups(a + b) == concat_groups(a) + concat_groups(b),
    decreases b.len(),
{
    if b.len() == 0 {
        assert(a + b =~= a);
        assert(concat_groups(a) + concat_groups(b) =~= concat_groups(a));
    } else {
        lemma_concat_append(a, b.drop_last());
        assert((a + b).drop_last() =~= a + b.drop_last());
        assert(concat_groups(a + b) =~= concat_groups(a) + concat_groups(b));
    }
}

/// The bindings seen before the `k`th of group `i` are a prefix of all.
proof fn lemma_concat_prefix(gs: Seq<Seq<KeyBinding>>, i: int, k: int)
    requires
        0 <= i < gs.len(),
        0 <= k <= gs[i].len(),
    ensures
        concat_groups(gs.take(i)).len() + k <= concat_groups(gs).len(),
        concat_groups(gs.take(i)) + gs[i].take(k) == concat_groups(gs).take(
            concat_groups(gs.take(i)).len() + k,
        ),
{
    assert(gs.take(i + 1).drop_last() =~= gs.take(i));
    assert(gs =~= gs.take(i + 1) + gs.skip(i + 1));
    lemma_concat_append(gs.take(i + 1), gs.skip(i + 1));
    assert(concat_groups(gs.take(i)) + gs[i].take(k) =~= concat_groups(gs).take(
        concat_groups(gs.take(i)).len() + k,
    ));
}

fn contains_binding(seen: &Vec<KeyBinding>, b: KeyBinding) -> (r: bool)
    ensures
        r == exists|i: int| 0 <= i < seen@.len() && #[trigger] seen@[i] == b,
{
    let mut i: usize = 0;
    while i < seen.len()
        invariant
            i <= seen@.len(),
            forall|j: int| 0 <= j < i ==> #[trigger] seen@[j] != b,
        decreases seen.len() - i,
    {
        if seen[i] == b {
            return true;
        }
        i = i + 1;
    }
    false
}

impl RuntimeKeymap {
    /// Fails, naming the binding, where a binding is taken twice among the
    /// given actions of the section `label`.
    pub fn check_conflicts(label: &str, bindings: &Vec<&Vec<KeyBinding>>) -> (r: Result<(), String>)
        ensures
            conflict_result(label@, concat_groups(group_views(bindings@)), r),
    {
        let ghost gs = group_views(bindings@);
        let ghost flat = concat_groups(gs);
        let mut seen: Vec<KeyBinding> = Vec::new();
        let mut gi: usize = 0;
        assert(gs.take(0) =~= Seq::<Seq<KeyBinding>>::empty());
        while gi < bindings.len()
            invariant
                gi <= bindings@.len(),
                gs == group_views(bindings@),
                flat == concat_groups(gs),
                seen@ == concat_groups(gs.take(gi as int)),
                no_repeat(seen@),
            decreases bindings.len() - gi,
        {
            let g: &Vec<KeyBinding> = bindings[gi];
            assert(g@ == gs[gi as int]);
            let mut k: usize = 0;
            assert(seen@ + g@.take(0) =~= seen@);
            let ghost base = seen@;
            while k < g.len()
                invariant
                    gi < bindings@.len(),
                    k <= g@.len(),
                    g@ == gs[gi as int],
                    gs == group_views(bindings@),
                    flat == concat_groups(gs),
                    base == concat_groups(gs.take(gi as int)),
                    seen@ == base + g@.take(k as int),
                    no_repeat(seen@),
                decreases g.len() - k,
            {
                let b = g[k];
                proof {
                    lemma_concat_prefix(gs, gi as int, k + 1);
                    assert(g@.take(k + 1) =~= g@.take(k as int).push(b));
                }
                if contains_binding(&seen, b) {
                    let ghost p = seen@.len() as int;
                    proof {
                        assert(flat.take(p + 1) == seen@.push(b));
                        assert(flat.take(p + 1)[p] == b);
                        assert(flat[p] == b);
                        let i = choose|i: int| 0 <= i < seen@.len() && #[trigger] seen@[i] == b;
                        assert(flat.take(p + 1)[i] == seen@[i]);
                        assert(flat[i] == seen@[i]);
                        assert(repeats_at(flat, p));
                        assert forall|q: int| 0 <= q < p implies !#[trigger] repeats_at(flat, q) by {
                            if repeats_at(flat, q) {
                                let i2 = choose|i2: int| 0 <= i2 < q && flat[i2] == #[trigger] flat[q];
                                assert(flat.take(p + 1)[i2] == flat[i2]);
                                assert(flat.take(p + 1)[q] == flat[q]);
                                assert(seen@[i2] == seen@[q]);
                                assert(repeats_at(seen@, q));
                            }
                        }
                    }
                    let text = binding_text_of(&b);
                    let m = join3(label, ": duplicate key binding ", text.as_str());
                    proof {
                        assert(m@ == conflict_message(label@, flat[p]));
                        assert(!no_repeat(flat));
                    }
                    return Err(m);
                }
                proof {
                    let ns = seen@.push(b);
                    assert forall|q: int| !#[trigger] repeats_at(ns, q) by {
                        if q == seen@.len() {
                            if repeats_at(ns, q) {
                                let i = choose|i: int| 0 <= i < q && ns[i] == #[trigger] ns[q];
                                assert(seen@[i] == b);
                            }
                        } else if 0 <= q < seen@.len() {
                            if repeats_at(ns, q) {
                                let i = choose|i: int| 0 <= i < q && ns[i] == #[trigger] ns[q];
                                assert(seen@[i] == seen@[q]);
                                assert(repeats_at(seen@, q));
                            }
                        }
                    }
                }
                seen.push(b);
                k = k + 1;
            }
            proof {
                assert(g@.take(g@.len() as int) =~= g@);
                assert(gs.take(gi + 1).drop_last() =~= gs.take(gi as int));
            }
            gi = gi + 1;
        }
        proof {
            assert(gs.take(gs.len() as int) =~= gs);
        }
        Ok(())
    }
}

/// The application actions that must not share a key.
pub open spec fn app_conflict_groups(a: AppKeymap) -> Seq<Seq<KeyBinding>> {
    seq![a.open_transcript@, a.open_external_editor@, a.copy@, a.clear_terminal@]
}

/// The editing actions that must not share a key.
pub open spec fn editor_conflict_groups(k: EditorKeymap) -> Seq<Seq<KeyBinding>> {
    seq![
        k.move_left@,
        k.move_right@,
        k.move_up@,
        k.move_down@,
        k.move_word_left@,
        k.move_word_right@,
        k.delete_backward@,
        k.delete_forward@,
        k.delete_backward_word@,
        k.delete_forward_word@,
        k.kill_line_start@,
        k.kill_line_end@,
        k.yank@,
    ]
}

/// The composer actions that must not share a key.
pub open spec fn composer_conflict_groups(c: ComposerKeymap) -> Seq<Seq<KeyBinding>> {
    seq![c.submit@, c.queue@, c.history_search_previous@, c.history_search_next@]
}

/// What `validate` answers: the application section is checked first, then
/// editing, then the composer; the first with a key taken twice fails.
pub open spec fn validation_result(km: RuntimeKeymap, r: Result<(), String>) -> bool {
    let app = concat_groups(app_conflict_groups(km.app));
    let editor = concat_groups(editor_conflict_groups(km.editor));
    let composer = concat_groups(composer_conflict_groups(km.composer));
    if !no_repeat(app) {
        conflict_result("app"@, app, r)
    } else if !no_repeat(editor) {
        conflict_result("editor"@, editor, r)
    } else {
        conflict_result("composer"@, composer, r)
    }
}

fn push_group<'a>(gs: &mut Vec<&'a Vec<KeyBinding>>, g: &'a Vec<KeyBinding>)
    ensures
        group_views(final(gs)@) == group_views(old(gs)@).push(g@),
{
    gs.push(g);
    assert(group_views(gs@) =~= group_views(old(gs)@).push(g@));
}

impl RuntimeKeymap {
    /// Fails where two actions of the application, editing or composer
    /// section (or one action twice) take the same key.
    pub fn validate(&self) -> (r: Result<(), String>)
        ensures
            validation_result(*self, r),
    {
        let mut app: Vec<&Vec<KeyBinding>> = Vec::new();
        assert(group_views(app@) =~= Seq::<Seq<KeyBinding>>::empty());
        push_group(&mut app, &self.app.open_transcript);
        push_group(&mut app, &self.app.open_external_editor);
        push_group(&mut app, &self.app.copy);
        push_group(&mut app, &self.app.clear_terminal);
        assert(group_views(app@) =~= app_conflict_groups(self.app));
        let r = Self::check_conflicts("app", &app);
        if r.is_err() {
            return r;
        }
        let k = &self.editor;
        let mut editor: Vec<&Vec<KeyBinding>> = Vec::new();
        assert(group_views(editor@) =~= Seq::<Seq<KeyBinding>>::empty());
        push_group(&mut editor, &k.move_left);
        push_group(&mut editor, &k.move_right);
        push_group(&mut editor, &k.move_up);
        push_group(&mut editor, &k.move_down);
        push_group(&mut editor, &k.move_word_left);
        push_group(&mut editor, &k.move_word_right);
        push_group(&mut editor, &k.delete_backward);
        push_group(&mut editor, &k.delete_forward);
        push_group(&mut editor, &k.delete_backward_word);
        push_group(&mut editor, &k.delete_forward_word);
        push_group(&mut editor, &k.kill_line_start);
        push_group(&mut editor, &k.kill_line_end);
        push_group(&mut editor, &k.yank);
        assert(group_views(editor@) =~= editor_conflict_groups(self.editor));
        let r = Self::check_conflicts("editor", &editor);
        if r.is_err() {
            return r;
        }
        let mut composer: Vec<&Vec<KeyBinding>> = Vec::new();
        assert(group_views(composer@) =~= Seq::<Seq<KeyBinding>>::empty());
        push_group(&mut composer, &self.composer.submit);
        push_group(&mut composer, &self.composer.queue);
        push_group(&mut composer, &self.composer.history_search_previous);
        push_group(&mut composer, &self.composer.history_search_next);
        assert(group_views(composer@) =~= composer_conflict_groups(self.composer));
        Self::check_conflicts("composer", &composer)
    }
}

// ---------------------------------------------------------------------
// bindings written in a configuration file

/// The key a configuration file names, given the lowercased name: the
/// named keys, `f1` to `f12`, `space`, a name of one ASCII char as that char,
/// and `?` for anything else.
pub open spec fn key_code_named(l: Seq<char>) -> KeyCodeView {
    if l == "enter"@ {
        KeyCodeView::Enter
    } else if l == "tab"@ {
        KeyCodeView::Tab
    } else if l == "backspace"@ {
        KeyCodeView::Backspace
    } else if l == "delete"@ || l == "del"@ {
        KeyCodeView::Delete
    } else if l == "esc"@ || l == "escape"@ {
        KeyCodeView::Esc
    } else if l == "up"@ {
        KeyCodeView::Up
    } else if l == "down"@ {
        KeyCodeView::Down
    } else if l == "left"@ {
        KeyCodeView::Left
    } else if l == "right"@ {
        KeyCodeView::Right
    } else if l == "home"@ {
        KeyCodeView::Home
    } else if l == "end"@ {
        KeyCodeView::End
    } else if l == "pageup"@ || l == "page_up"@ {
        KeyCodeView::PageUp
    } else if l == "pagedown"@ || l == "page_down"@ {
        KeyCodeView::PageDown
    } else if l == "f1"@ {
        KeyCodeView::F(1)
    } else if l == "f2"@ {
        KeyCodeView::F(2)
    } else if l == "f3"@ {
        KeyCodeView::F(3)
    } else if l == "f4"@ {
        KeyCodeView::F(4)
    } else if l == "f5"@ {
        KeyCodeView::F(5)
    } else if l == "f6"@ {
        KeyCodeView::F(6)
    } else if l == "f7"@ {
        KeyCodeView::F(7)
    } else if l == "f8"@ {
        KeyCodeView::F(8)
    } else if l == "f9"@ {
        KeyCodeView::F(9)
    } else if l == "f10"@ {
        KeyCodeView::F(10)
    } else if l == "f11"@ {
        KeyCodeView::F(11)
    } else if l == "f12"@ {
        KeyCodeView::F(12)
    } else if l == "space"@ {
        KeyCodeView::Char(' ')
    } else if l.len() == 1 && (l[0] as u32) < 0x80 {
        KeyCodeView::Char(l[0])
    } else {
        KeyCodeView::Char('?')
    }
}

fn is_name(l: &Vec<char>, name: &str) -> (r: bool)
    ensures
        r == (l@ == name@),
{
    let n = to_chars(name);
    chars_eq(l.as_slice(), n.as_slice())
}

/// The key a configuration file names: the name is lowercased (by Unicode's
/// mapping), then read by `key_code_named`.
pub fn parse_key_code(s: &str) -> (k: KeyCodeView)
    ensures
        k == key_code_named(unicode_lowercase(s@)),
{
    let lower = to_lowercase(s);
    let l = to_chars(lower.as_str());
    if is_name(&l, "enter") {
        KeyCodeView::Enter
    } else if is_name(&l, "tab") {
        KeyCodeView::Tab
    } else if is_name(&l, "backspace") {
        KeyCodeView::Backspace
    } else if is_name(&l, "delete") || is_name(&l, "del") {
        KeyCodeView::Delete
    } else if is_name(&l, "esc") || is_name(&l, "escape") {
        KeyCodeView::Esc
    } else if is_name(&l, "up") {
        KeyCodeView::Up
    } else if is_name(&l, "down") {
        KeyCodeView::Down
    } else if is_name(&l, "left") {
        KeyCodeView::Left
    } else if is_name(&l, "right") {
        KeyCodeView::Right
    } else if is_name(&l, "home") {
        KeyCodeView::Home
    } else if is_name(&l, "end") {
        KeyCodeView::End
    } else if is_name(&l, "pageup") || is_name(&l, "page_up") {
        KeyCodeView::PageUp
    } else if is_name(&l, "pagedown") || is_name(&l, "page_down") {
        KeyCodeView::PageDown
    } else if is_name(&l, "f1") {
        KeyCodeView::F(1)
    } else if is_name(&l, "f2") {
        KeyCodeView::F(2)
    } else if is_name(&l, "f3") {
        KeyCodeView::F(3)
    } else if is_name(&l, "f4") {
        KeyCodeView::F(4)
    } else if is_name(&l, "f5") {
        KeyCodeView::F(5)
    } else if is_name(&l, "f6") {
        KeyCodeView::F(6)
    } else if is_name(&l, "f7") {
        KeyCodeView::F(7)
    } else if is_name(&l, "f8") {
        KeyCodeView::F(8)
    } else if is_name(&l, "f9") {
        KeyCodeView::F(9)
    } else if is_name(&l, "f10") {
        KeyCodeView::F(10)
    } else if is_name(&l, "f11") {
        KeyCodeView::F(11)
    } else if is_name(&l, "f12") {
        KeyCodeView::F(12)
    } else if is_name(&l, "space") {
        KeyCodeView::Char(' ')
    } else if l.len() == 1 && (l[0] as u32) < 0x80 {
        KeyCodeView::Char(l[0])
    } else {
        KeyCodeView::Char('?')
    }
}

/// One `+`-separated part of a modifier list, trimmed and lowercased.
pub open spec fn modifier_part(p: Seq<char>) -> Seq<char> {
    unicode_lowercase(trim(p))
}

pub open spec fn is_shift_name(x: Seq<char>) -> bool {
    x == "shift"@
}

pub open spec fn is_ctrl_name(x: Seq<char>) -> bool {
    x == "ctrl"@ || x == "control"@
}

pub open spec fn is_alt_name(x: Seq<char>) -> bool {
    x == "alt"@ || x == "option"@
}

pub open spec fn is_super_name(x: Seq<char>) -> bool {
    x == "super"@ || x == "meta"@ || x == "cmd"@ || x == "command"@
}

/// The modifiers a list such as `ctrl+shift` names: `ctrl` or `control`,
/// `alt` or `option`, `shift`, and `super`, `meta`, `cmd` or `command` for
/// Super; other parts are ignored.
pub open spec fn modifiers_named(s: Seq<char>) -> KeyMods {
    let parts = split_on(s, '+');
    KeyMods {
        shift: exists|i: int| 0 <= i < parts.len() && is_shift_name(#[trigger] modifier_part(parts[i])),
        control: exists|i: int| 0 <= i < parts.len() && is_ctrl_name(#[trigger] modifier_part(parts[i])),
        alt: exists|i: int| 0 <= i < parts.len() && is_alt_name(#[trigger] modifier_part(parts[i])),
        super_key: exists|i: int| 0 <= i < parts.len() && is_super_name(#[trigger] modifier_part(parts[i])),
        hyper: false,
        meta: false,
    }
}

/// The modifiers a `+`-separated list names.
pub fn parse_modifiers(s: &str) -> (m: KeyMods)
    ensures
        m == modifiers_named(s@),
{
    let chars = to_chars(s);
    let parts = split_chars_on(chars.as_slice(), '+');
    let ghost ps = split_on(s@, '+');
    let mut shift = false;
    let mut control = false;
    let mut alt = false;
    let mut super_key = false;
    let mut i: usize = 0;
    while i < parts.len()
        invariant
            i <= parts@.len(),
            views(parts@) == ps,
            ps == split_on(s@, '+'),
            shift == exists|j: int| 0 <= j < i && is_shift_name(#[trigger] modifier_part(ps[j])),
            control == exists|j: int| 0 <= j < i && is_ctrl_name(#[trigger] modifier_part(ps[j])),
            alt == exists|j: int| 0 <= j < i && is_alt_name(#[trigger] modifier_part(ps[j])),
            super_key == exists|j: int| 0 <= j < i && is_super_name(#[trigger] modifier_part(ps[j])),
        decreases parts.len() - i,
    {
        let trimmed = trim_chars(parts[i].as_slice());
        let text = from_chars(trimmed.as_slice());
        let lower = to_lowercase(text.as_str());
        let l = to_chars(lower.as_str());
        assert(parts@[i as int]@ == ps[i as int]);
        assert(l@ == modifier_part(ps[i as int]));
        proof {
            reveal_strlit("ctrl");
            reveal_strlit("control");
            reveal_strlit("alt");
            reveal_strlit("option");
            reveal_strlit("shift");
            reveal_strlit("super");
            reveal_strlit("meta");
            reveal_strlit("cmd");
            reveal_strlit("command");
            assert("ctrl"@[0] != "meta"@[0]);
            assert("shift"@[1] != "super"@[1]);
            assert("control"@[2] != "command"@[2]);
            assert("alt"@[0] != "cmd"@[0]);
        }
        if is_name(&l, "ctrl") || is_name(&l, "control") {
            control = true;
        } else if is_name(&l, "alt") || is_name(&l, "option") {
            alt = true;
        } else if is_name(&l, "shift") {
            shift = true;
        } else if is_name(&l, "super") || is_name(&l, "meta") || is_name(&l, "cmd") || is_name(
            &l,
            "command",
        ) {
            super_key = true;
        }
        i = i + 1;
    }
    KeyMods { shift, control, alt, super_key, hyper: false, meta: false }
}

/// A binding as a configuration file writes it: the key's name and the
/// modifiers held with it.
#[derive(Clone, Debug, PartialEq, Eq)]
pub struct KeyBindingDef {
    pub key: String,
    pub ctrl: Option<bool>,
    pub alt: Option<bool>,
    pub shift: Option<bool>,
}

/// The binding a configuration entry stands for; an absent modifier is not
/// held.
pub open spec fn def_binding(d: KeyBindingDef) -> KeyBinding {
    KeyBinding {
        code: key_code_named(unicode_lowercase(d.key@)),
        modifiers: mods(d.shift == Some(true), d.ctrl == Some(true), d.alt == Some(true)),
    }
}

fn flag(f: Option<bool>) -> (b: bool)
    ensures
        b == (f == Some(true)),
{
    match f {
        Some(true) => true,
        _ => false,
    }
}

impl KeyBindingDef {
    pub fn to_key_binding(&self) -> (b: KeyBinding)
        ensures
            b == def_binding(*self),
    {
        let modifiers = make_mods(flag(self.shift), flag(self.ctrl), flag(self.alt));
        KeyBinding::new(parse_key_code(self.key.as_str()), modifiers)
    }
}

/// A binding list as a configuration file overrides it: replaced by the
/// entries given, left as it is where none are.
pub open spec fn overridden(cur: Seq<KeyBinding>, over: Option<Vec<KeyBindingDef>>) -> Seq<KeyBinding> {
    match over {
        Some(v) => v@.map_values(|d: KeyBindingDef| def_binding(d)),
        None => cur,
    }
}

fn convert_defs(defs: &Vec<KeyBindingDef>) -> (r: Vec<KeyBinding>)
    ensures
        r@ == defs@.map_values(|d: KeyBindingDef| def_binding(d)),
{
    let mut r: Vec<KeyBinding> = Vec::new();
    let mut i: usize = 0;
    while i < defs.len()
        invariant
            i <= defs@.len(),
            r@ == defs@.take(i as int).map_values(|d: KeyBindingDef| def_binding(d)),
        decreases defs.len() - i,
    {
        r.push(defs[i].to_key_binding());
        assert(defs@.take(i + 1).map_values(|d: KeyBindingDef| def_binding(d)) =~= defs@.take(
            i as int,
        ).map_values(|d: KeyBindingDef| def_binding(d)).push(def_binding(defs@[i as int])));
        i = i + 1;
    }
    assert(defs@.take(defs@.len() as int) =~= defs@);
    r
}

fn apply_override(target: &mut Vec<KeyBinding>, over: &Option<Vec<KeyBindingDef>>)
    ensures
        final(target)@ == overridden(old(target)@, *over),
{
    match over {
        Some(v) => {
            *target = convert_defs(v);
        },
        None => {},
    }
}

#[derive(Clone, Debug, Default, PartialEq, Eq)]
pub struct AppKeymapOverride {
    pub open_transcript: Option<Vec<KeyBindingDef>>,
    pub open_external_editor: Option<Vec<KeyBindingDef>>,
    pub copy: Option<Vec<KeyBindingDef>>,
    pub clear_terminal: Option<Vec<KeyBindingDef>>,
    pub toggle_vim_mode: Option<Vec<KeyBindingDef>>,
}

#[derive(Clone, Debug, Default, PartialEq, Eq)]
pub struct ChatKeymapOverride {
    pub interrupt_turn: Option<Vec<KeyBindingDef>>,
    pub decrease_reasoning_effort: Option<Vec<KeyBindingDef>>,
    pub increase_reasoning_effort: Option<Vec<KeyBindingDef>>,
}

#[derive(Clone, Debug, Default, PartialEq, Eq)]
pub struct ComposerKeymapOverride {
    pub submit: Option<Vec<KeyBindingDef>>,
    pub queue: Option<Vec<KeyBindingDef>>,
    pub toggle_shortcuts: Option<Vec<KeyBindingDef>>,
    pub history_search_previous: Option<Vec<KeyBindingDef>>,
    pub history_search_next: Option<Vec<KeyBindingDef>>,
}

#[derive(Clone, Debug, Default, PartialEq, Eq)]
pub struct EditorKeymapOverride {
    pub insert_newline: Option<Vec<KeyBindingDef>>,
    pub move_left: Option<Vec<KeyBindingDef>>,
    pub move_right: Option<Vec<KeyBindingDef>>,
    pub move_up: Option<Vec<KeyBindingDef>>,
    pub move_down: Option<Vec<KeyBindingDef>>,
    pub move_word_left: Option<Vec<KeyBindingDef>>,
    pub move_word_right: Option<Vec<KeyBindingDef>>,
    pub move_line_start: Option<Vec<KeyBindingDef>>,
    pub move_line_end: Option<Vec<KeyBindingDef>>,
    pub delete_backward: Option<Vec<KeyBindingDef>>,
    pub delete_forward: Option<Vec<KeyBindingDef>>,
    pub delete_backward_word: Option<Vec<KeyBindingDef>>,
    pub delete_forward_word: Option<Vec<KeyBindingDef>>,
    pub kill_line_start: Option<Vec<KeyBindingDef>>,
    pub kill_whole_line: Option<Vec<KeyBindingDef>>,
    pub kill_line_end: Option<Vec<KeyBindingDef>>,
    pub yank: Option<Vec<KeyBindingDef>>,
}

#[derive(Clone, Debug, Default, PartialEq, Eq)]
pub struct PagerKeymapOverride {
    pub scroll_up: Option<Vec<KeyBindingDef>>,
    pub scroll_down: Option<Vec<KeyBindingDef>>,
    pub page_up: Option<Vec<KeyBindingDef>>,
    pub page_down: Option<Vec<KeyBindingDef>>,
    pub jump_top: Option<Vec<KeyBindingDef>>,
    pub jump_bottom: Option<Vec<KeyBindingDef>>,
    pub close: Option<Vec<KeyBindingDef>>,
}

#[derive(Clone, Debug, Default, PartialEq, Eq)]
pub struct ApprovalKeymapOverride {
    pub approve: Option<Vec<KeyBindingDef>>,
    pub approve_session: Option<Vec<KeyBindingDef>>,
    pub deny: Option<Vec<KeyBindingDef>>,
    pub cancel: Option<Vec<KeyBindingDef>>,
}

#[derive(Clone, Debug, Default, PartialEq, Eq)]
pub struct ListKeymapOverride {
    pub move_up: Option<Vec<KeyBindingDef>>,
    pub move_down: Option<Vec<KeyBindingDef>>,
    pub accept: Option<Vec<KeyBindingDef>>,
    pub cancel: Option<Vec<KeyBindingDef>>,
}

/// The keymap part of the configuration file: per section, the actions it
/// rebinds.
#[derive(Clone, Debug, Default, PartialEq, Eq)]
pub struct KeymapConfig {
    pub app: Option<AppKeymapOverride>,
    pub chat: Option<ChatKeymapOverride>,
    pub composer: Option<ComposerKeymapOverride>,
    pub editor: Option<EditorKeymapOverride>,
    pub pager: Option<PagerKeymapOverride>,
    pub approval: Option<ApprovalKeymapOverride>,
    pub list: Option<ListKeymapOverride>,
}

/// What the shell reads of its configuration file.
#[derive(Clone, Debug, Default, PartialEq, Eq)]
pub struct CliConfig {
    pub keymap: Option<KeymapConfig>,
}

/// The app section after an override of it, if any, is applied.
pub open spec fn app_applied(before: AppKeymap, o: Option<AppKeymapOverride>, after: AppKeymap) -> bool {
    match o {
        Some(o) => {
            &&& after.open_transcript@ == overridden(before.open_transcript@, o.open_transcript)
            &&& after.open_external_editor@ == overridden(before.open_external_editor@, o.open_external_editor)
            &&& after.copy@ == overridden(before.copy@, o.copy)
            &&& after.clear_terminal@ == overridden(before.clear_terminal@, o.clear_terminal)
            &&& after.toggle_vim_mode@ == overridden(before.toggle_vim_mode@, o.toggle_vim_mode)
        },
        None => {
            &&& after.open_transcript@ == before.open_transcript@
            &&& after.open_external_editor@ == before.open_external_editor@
            &&& after.copy@ == before.copy@
            &&& after.clear_terminal@ == before.clear_terminal@
            &&& after.toggle_vim_mode@ == before.toggle_vim_mode@
        },
    }
}

fn apply_app(km: &mut AppKeymap, o: &Option<AppKeymapOverride>)
    ensures
        app_applied(*old(km), *o, *final(km)),
{
    match o {
        Some(o) => {
            apply_override(&mut km.open_transcript, &o.open_transcript);
            apply_override(&mut km.open_external_editor, &o.open_external_editor);
            apply_override(&mut km.copy, &o.copy);
            apply_override(&mut km.clear_terminal, &o.clear_terminal);
            apply_override(&mut km.toggle_vim_mode, &o.toggle_vim_mode);
        },
        None => {},
    }
}

/// The chat section after an override of it, if any, is applied.
pub open spec fn chat_applied(before: ChatKeymap, o: Option<ChatKeymapOverride>, after: ChatKeymap) -> bool {
    match o {
        Some(o) => {
            &&& after.interrupt_turn@ == overridden(before.interrupt_turn@, o.interrupt_turn)
            &&& after.decrease_reasoning_effort@ == overridden(before.decrease_reasoning_effort@, o.decrease_reasoning_effort)
            &&& after.increase_reasoning_effort@ == overridden(before.increase_reasoning_effort@, o.increase_reasoning_effort)
        },
        None => {
            &&& after.interrupt_turn@ == before.interrupt_turn@
            &&& after.decrease_reasoning_effort@ == before.decrease_reasoning_effort@
            &&& after.increase_reasoning_effort@ == before.increase_reasoning_effort@
        },
    }
}

fn apply_chat(km: &mut ChatKeymap, o: &Option<ChatKeymapOverride>)
    ensures
        chat_applied(*old(km), *o, *final(km)),
{
    match o {
        Some(o) => {
            apply_override(&mut km.interrupt_turn, &o.interrupt_turn);
            apply_override(&mut km.decrease_reasoning_effort, &o.decrease_reasoning_effort);
            apply_override(&mut km.increase_reasoning_effort, &o.increase_reasoning_effort);
        },
        None => {},
    }
}

/// The composer section after an override of it, if any, is applied.
pub open spec fn composer_applied(before: ComposerKeymap, o: Option<ComposerKeymapOverride>, after: ComposerKeymap) -> bool {
    match o {
        Some(o) => {
            &&& after.submit@ == overridden(before.submit@, o.submit)
            &&& after.queue@ == overridden(before.queue@, o.queue)
            &&& after.toggle_shortcuts@ == overridden(before.toggle_shortcuts@, o.toggle_shortcuts)
            &&& after.history_search_previous@ == overridden(before.history_search_previous@, o.history_search_previous)
            &&& after.history_search_next@ == overridden(before.history_search_next@, o.history_search_next)
        },
        None => {
            &&& after.submit@ == before.submit@
            &&& after.queue@ == before.queue@
            &&& after.toggle_shortcuts@ == before.toggle_shortcuts@
            &&& after.history_search_previous@ == before.history_search_previous@
            &&& after.history_search_next@ == before.history_search_next@
        },
    }
}

fn apply_composer(km: &mut ComposerKeymap, o: &Option<ComposerKeymapOverride>)
    ensures
        composer_applied(*old(km), *o, *final(km)),
{
    match o {
        Some(o) => {
            apply_override(&mut km.submit, &o.submit);
            apply_override(&mut km.queue, &o.queue);
            apply_override(&mut km.toggle_shortcuts, &o.toggle_shortcuts);
            apply_override(&mut km.history_search_previous, &o.history_search_previous);
            apply_override(&mut km.history_search_next, &o.history_search_next);
        },
        None => {},
    }
}

/// The editor section after an override of it, if any, is applied.
pub open spec fn editor_applied(before: EditorKeymap, o: Option<EditorKeymapOverride>, after: EditorKeymap) -> bool {
    match o {
        Some(o) => {
            &&& after.insert_newline@ == overridden(before.insert_newline@, o.insert_newline)
            &&& after.move_left@ == overridden(before.move_left@, o.move_left)
            &&& after.move_right@ == overridden(before.move_right@, o.move_right)
            &&& after.move_up@ == overridden(before.move_up@, o.move_up)
            &&& after.move_down@ == overridden(before.move_down@, o.move_down)
            &&& after.move_word_left@ == overridden(before.move_word_left@, o.move_word_left)
            &&& after.move_word_right@ == overridden(before.move_word_right@, o.move_word_right)
            &&& after.move_line_start@ == overridden(before.move_line_start@, o.move_line_start)
            &&& after.move_line_end@ == overridden(before.move_line_end@, o.move_line_end)
            &&& after.delete_backward@ == overridden(before.delete_backward@, o.delete_backward)
            &&& after.delete_forward@ == overridden(before.delete_forward@, o.delete_forward)
            &&& after.delete_backward_word@ == overridden(before.delete_backward_word@, o.delete_backward_word)
            &&& after.delete_forward_word@ == overridden(before.delete_forward_word@, o.delete_forward_word)
            &&& after.kill_line_start@ == overridden(before.kill_line_start@, o.kill_line_start)
            &&& after.kill_whole_line@ == overridden(before.kill_whole_line@, o.kill_whole_line)
            &&& after.kill_line_end@ == overridden(before.kill_line_end@, o.kill_line_end)
            &&& after.yank@ == overridden(before.yank@, o.yank)
        },
        None => {
            &&& after.insert_newline@ == before.insert_newline@
            &&& after.move_left@ == before.move_left@
            &&& after.move_right@ == before.move_right@
            &&& after.move_up@ == before.move_up@
            &&& after.move_down@ == before.move_down@
            &&& after.move_word_left@ == before.move_word_left@
            &&& after.move_word_right@ == before.move_word_right@
            &&& after.move_line_start@ == before.move_line_start@
            &&& after.move_line_end@ == before.move_line_end@
            &&& after.delete_backward@ == before.delete_backward@
            &&& after.delete_forward@ == before.delete_forward@
            &&& after.delete_backward_word@ == before.delete_backward_word@
            &&& after.delete_forward_word@ == before.delete_forward_word@
            &&& after.kill_line_start@ == before.kill_line_start@
            &&& after.kill_whole_line@ == before.kill_whole_line@
            &&& after.kill_line_end@ == before.kill_line_end@
            &&& after.yank@ == before.yank@
        },
    }
}

fn apply_editor(km: &mut EditorKeymap, o: &Option<EditorKeymapOverride>)
    ensures
        editor_applied(*old(km), *o, *final(km)),
{
    match o {
        Some(o) => {
            apply_override(&mut km.insert_newline, &o.insert_newline);
            apply_override(&mut km.move_left, &o.move_left);
            apply_override(&mut km.move_right, &o.move_right);
            apply_override(&mut km.move_up, &o.move_up);
            apply_override(&mut km.move_down, &o.move_down);
            apply_override(&mut km.move_word_left, &o.move_word_left);
            apply_override(&mut km.move_word_right, &o.move_word_right);
            apply_override(&mut km.move_line_start, &o.move_line_start);
            apply_override(&mut km.move_line_end, &o.move_line_end);
            apply_override(&mut km.delete_backward, &o.delete_backward);
            apply_override(&mut km.delete_forward, &o.delete_forward);
            apply_override(&mut km.delete_backward_word, &o.delete_backward_word);
            apply_override(&mut km.delete_forward_word, &o.delete_forward_word);
            apply_override(&mut km.kill_line_start, &o.kill_line_start);
            apply_override(&mut km.kill_whole_line, &o.kill_whole_line);
            apply_override(&mut km.kill_line_end, &o.kill_line_end);
            apply_override(&mut km.yank, &o.yank);
        },
        None => {},
    }
}

/// The pager section after an override of it, if any, is applied.
pub open spec fn pager_applied(before: PagerKeymap, o: Option<PagerKeymapOverride>, after: PagerKeymap) -> bool {
    match o {
        Some(o) => {
            &&& after.scroll_up@ == overridden(before.scroll_up@, o.scroll_up)
            &&& after.scroll_down@ == overridden(before.scroll_down@, o.scroll_down)
            &&& after.page_up@ == overridden(before.page_up@, o.page_up)
            &&& after.page_down@ == overridden(before.page_down@, o.page_down)
            &&& after.jump_top@ == overridden(before.jump_top@, o.jump_top)
            &&& after.jump_bottom@ == overridden(before.jump_bottom@, o.jump_bottom)
            &&& after.close@ == overridden(before.close@, o.close)
        },
        None => {
            &&& after.scroll_up@ == before.scroll_up@
            &&& after.scroll_down@ == before.scroll_down@
            &&& after.page_up@ == before.page_up@
            &&& after.page_down@ == before.page_down@
            &&& after.jump_top@ == before.jump_top@
            &&& after.jump_bottom@ == before.jump_bottom@
            &&& after.close@ == before.close@
        },
    }
}

fn apply_pager(km: &mut PagerKeymap, o: &Option<PagerKeymapOverride>)
    ensures
        pager_applied(*old(km), *o, *final(km)),
{
    match o {
        Some(o) => {
            apply_override(&mut km.scroll_up, &o.scroll_up);
            apply_override(&mut km.scroll_down, &o.scroll_down);
            apply_override(&mut km.page_up, &o.page_up);
            apply_override(&mut km.page_down, &o.page_down);
            apply_override(&mut km.jump_top, &o.jump_top);
            apply_override(&mut km.jump_bottom, &o.jump_bottom);
            apply_override(&mut km.close, &o.close);
        },
        None => {},
    }
}

/// The approval section after an override of it, if any, is applied.
pub open spec fn approval_applied(before: ApprovalKeymap, o: Option<ApprovalKeymapOverride>, after: ApprovalKeymap) -> bool {
    match o {
        Some(o) => {
            &&& after.approve@ == overridden(before.approve@, o.approve)
            &&& after.approve_session@ == overridden(before.approve_session@, o.approve_session)
            &&& after.deny@ == overridden(before.deny@, o.deny)
            &&& after.cancel@ == overridden(before.cancel@, o.cancel)
        },
        None => {
            &&& after.approve@ == before.approve@
            &&& after.approve_session@ == before.approve_session@
            &&& after.deny@ == before.deny@
            &&& after.cancel@ == before.cancel@
        },
    }
}

fn apply_approval(km: &mut ApprovalKeymap, o: &Option<ApprovalKeymapOverride>)
    ensures
        approval_applied(*old(km), *o, *final(km)),
{
    match o {
        Some(o) => {
            apply_override(&mut km.approve, &o.approve);
            apply_override(&mut km.approve_session, &o.approve_session);
            apply_override(&mut km.deny, &o.deny);
            apply_override(&mut km.cancel, &o.cancel);
        },
        None => {},
    }
}

/// The list section after an override of it, if any, is applied.
pub open spec fn list_applied(before: ListKeymap, o: Option<ListKeymapOverride>, after: ListKeymap) -> bool {
    match o {
        Some(o) => {
            &&& after.move_up@ == overridden(before.move_up@, o.move_up)
            &&& after.move_down@ == overridden(before.move_down@, o.move_down)
            &&& after.accept@ == overridden(before.accept@, o.accept)
            &&& after.cancel@ == overridden(before.cancel@, o.cancel)
        },
        None => {
            &&& after.move_up@ == before.move_up@
            &&& after.move_down@ == before.move_down@
            &&& after.accept@ == before.accept@
            &&& after.cancel@ == before.cancel@
        },
    }
}

fn apply_list(km: &mut ListKeymap, o: &Option<ListKeymapOverride>)
    ensures
        list_applied(*old(km), *o, *final(km)),
{
    match o {
        Some(o) => {
            apply_override(&mut km.move_up, &o.move_up);
            apply_override(&mut km.move_down, &o.move_down);
            apply_override(&mut km.accept, &o.accept);
            apply_override(&mut km.cancel, &o.cancel);
        },
        None => {},
    }
}

/// The section overrides of a configuration's keymap, none where it has none.
pub open spec fn section<T>(k: Option<KeymapConfig>, f: spec_fn(KeymapConfig) -> Option<T>) -> Option<T> {
    match k {
        Some(k) => f(k),
        None => None,
    }
}

impl CliConfig {
    /// Rebinds each action the configuration names; the others keep their
    /// bindings.
    pub fn apply_keymap(&self, keymap: &mut RuntimeKeymap)
        ensures
            app_applied(old(keymap).app, section(self.keymap, |k: KeymapConfig| k.app), final(keymap).app),
            chat_applied(old(keymap).chat, section(self.keymap, |k: KeymapConfig| k.chat), final(keymap).chat),
            composer_applied(old(keymap).composer, section(self.keymap, |k: KeymapConfig| k.composer), final(keymap).composer),
            editor_applied(old(keymap).editor, section(self.keymap, |k: KeymapConfig| k.editor), final(keymap).editor),
            pager_applied(old(keymap).pager, section(self.keymap, |k: KeymapConfig| k.pager), final(keymap).pager),
            approval_applied(old(keymap).approval, section(self.keymap, |k: KeymapConfig| k.approval), final(keymap).approval),
            list_applied(old(keymap).list, section(self.keymap, |k: KeymapConfig| k.list), final(keymap).list),
    {
        match &self.keymap {
            Some(kc) => {
                apply_app(&mut keymap.app, &kc.app);
                apply_chat(&mut keymap.chat, &kc.chat);
                apply_composer(&mut keymap.composer, &kc.composer);
                apply_editor(&mut keymap.editor, &kc.editor);
                apply_pager(&mut keymap.pager, &kc.pager);
                apply_approval(&mut keymap.approval, &kc.approval);
                apply_list(&mut keymap.list, &kc.list);
            },
            None => {
                apply_app(&mut keymap.app, &None);
                apply_chat(&mut keymap.chat, &None);
                apply_composer(&mut keymap.composer, &None);
                apply_editor(&mut keymap.editor, &None);
                apply_pager(&mut keymap.pager, &None);
                apply_approval(&mut keymap.approval, &None);
                apply_list(&mut keymap.list, &None);
            },
        }
    }
}

/// `after` is `before` with every section override of `k` applied.
pub open spec fn keymap_applied(before: RuntimeKeymap, k: Option<KeymapConfig>, after: RuntimeKeymap) -> bool {
    &&& app_applied(before.app, section(k, |k: KeymapConfig| k.app), after.app)
    &&& chat_applied(before.chat, section(k, |k: KeymapConfig| k.chat), after.chat)
    &&& composer_applied(before.composer, section(k, |k: KeymapConfig| k.composer), after.composer)
    &&& editor_applied(before.editor, section(k, |k: KeymapConfig| k.editor), after.editor)
    &&& pager_applied(before.pager, section(k, |k: KeymapConfig| k.pager), after.pager)
    &&& approval_applied(before.approval, section(k, |k: KeymapConfig| k.approval), after.approval)
    &&& list_applied(before.list, section(k, |k: KeymapConfig| k.list), after.list)
}

/// The keymap the shell runs with: the defaults, whose check for
/// conflicting bindings is reported, with the configuration's overrides
/// applied when a configuration was read.
pub fn configured_keymap(config: Option<&CliConfig>) -> (r: (RuntimeKeymap, Result<(), String>))
    ensures
        exists|d: RuntimeKeymap|
            #![trigger is_default_keymap(d)]
            is_default_keymap(d) && validation_result(d, r.1) && match config {
                Some(c) => keymap_applied(d, c.keymap, r.0),
                None => r.0 == d,
            },
{
    let mut km = RuntimeKeymap::defaults();
    let ghost d = km;
    let check = km.validate();
    match config {
        Some(c) => c.apply_keymap(&mut km),
        None => {},
    }
    assert(is_default_keymap(d) && validation_result(d, check));
    (km, check)
}

proof fn lemma_bound_small(bs: Seq<KeyBinding>, e: KeyInput)
    requires
        bs.len() <= 3,
    ensures
        bound(bs, e) <==> (bs.len() > 0 && binds(bs[0], e)) || (bs.len() > 1 && binds(bs[1], e)) || (
        bs.len() > 2 && binds(bs[2], e)),
{
    if bound(bs, e) {
        let i = choose|i: int| 0 <= i < bs.len() && binds(#[trigger] bs[i], e);
        assert(i == 0 || i == 1 || i == 2);
    }
    if bs.len() > 0 && binds(bs[0], e) {
        assert(binds(bs[0], e));
    }
}

proof fn lemma_default_pager_bound(km: RuntimeKeymap, e: KeyInput)
    requires
        is_default_keymap(km),
    ensures
        bound(km.pager.scroll_up@, e) <==> e.modifiers == mods(false, false, false) && (e.code
            == KeyCodeView::Up || e.code == KeyCodeView::Char('k')),
        bound(km.pager.scroll_down@, e) <==> e.modifiers == mods(false, false, false) && (e.code
            == KeyCodeView::Down || e.code == KeyCodeView::Char('j')),
        bound(km.pager.page_up@, e) <==> e.modifiers == mods(false, false, false) && e.code
            == KeyCodeView::PageUp,
        bound(km.pager.page_down@, e) <==> e.modifiers == mods(false, false, false) && e.code
            == KeyCodeView::PageDown,
        bound(km.pager.jump_top@, e) <==> e.modifiers == mods(false, false, false) && e.code
            == KeyCodeView::Char('g'),
        bound(km.pager.jump_bottom@, e) <==> e.modifiers == mods(false, false, false) && e.code
            == KeyCodeView::Char('G'),
        bound(km.pager.close@, e) <==> (e.modifiers == mods(false, false, false) && (e.code
            == KeyCodeView::Char('q') || e.code == KeyCodeView::Esc)) || (e.modifiers == mods(
            false,
            true,
            false,
        ) && e.code == KeyCodeView::Char('c')),
{
    lemma_bound_small(km.pager.scroll_up@, e);
    lemma_bound_small(km.pager.scroll_down@, e);
    lemma_bound_small(km.pager.page_up@, e);
    lemma_bound_small(km.pager.page_down@, e);
    lemma_bound_small(km.pager.jump_top@, e);
    lemma_bound_small(km.pager.jump_bottom@, e);
    lemma_bound_small(km.pager.close@, e);
}

/// Law: in the default keymap the pager scrolls with plain Up/`k` and
/// Down/`j`, pages with plain PageUp and PageDown, jumps with plain `g` and
/// `G`, and closes with plain `q`, plain Esc or Ctrl-C; no other key does
/// anything there. `r` is what `match_pager_action` answers.
pub proof fn lemma_default_pager_keys(km: RuntimeKeymap, e: KeyInput, r: Option<Seq<char>>)
    requires
        is_default_keymap(km),
        r == named(pager_pick(km.pager, e), pager_names()),
    ensures
        e.modifiers == mods(false, false, false) ==> {
            &&& (e.code == KeyCodeView::Up || e.code == KeyCodeView::Char('k')) ==> r == Some(
                "scroll_up"@,
            )
            &&& (e.code == KeyCodeView::Down || e.code == KeyCodeView::Char('j')) ==> r == Some(
                "scroll_down"@,
            )
            &&& e.code == KeyCodeView::PageUp ==> r == Some("page_up"@)
            &&& e.code == KeyCodeView::PageDown ==> r == Some("page_down"@)
            &&& e.code == KeyCodeView::Char('g') ==> r == Some("jump_top"@)
            &&& e.code == KeyCodeView::Char('G') ==> r == Some("jump_bottom"@)
            &&& (e.code == KeyCodeView::Char('q') || e.code == KeyCodeView::Esc) ==> r == Some(
                "close"@,
            )
        },
        (e.modifiers == mods(false, true, false) && e.code == KeyCodeView::Char('c')) ==> r == Some(
            "close"@,
        ),
        r is Some ==> (e.modifiers == mods(false, false, false) && (e.code == KeyCodeView::Up
            || e.code == KeyCodeView::Char('k') || e.code == KeyCodeView::Down || e.code
            == KeyCodeView::Char('j') || e.code == KeyCodeView::PageUp || e.code
            == KeyCodeView::PageDown || e.code == KeyCodeView::Char('g') || e.code
            == KeyCodeView::Char('G') || e.code == KeyCodeView::Char('q') || e.code
            == KeyCodeView::Esc)) || (e.modifiers == mods(false, true, false) && e.code
            == KeyCodeView::Char('c')),
{
    lemma_default_pager_bound(km, e);
}

/// Law: in the default keymap an approval prompt approves with plain Enter
/// or `a`, approves for the session with plain `s`, denies with plain `d` or
/// Esc, and cancels with Ctrl-C; no other key does anything there. `r` is
/// what `match_approval_action` answers.
pub proof fn lemma_default_approval_keys(km: RuntimeKeymap, e: KeyInput, r: Option<Seq<char>>)
    requires
        is_default_keymap(km),
        r == named(approval_pick(km.approval, e), approval_names()),
    ensures
        e.modifiers == mods(false, false, false) ==> {
            &&& (e.code == KeyCodeView::Enter || e.code == KeyCodeView::Char('a')) ==> r == Some(
                "approve"@,
            )
            &&& e.code == KeyCodeView::Char('s') ==> r == Some("approve_session"@)
            &&& (e.code == KeyCodeView::Char('d') || e.code == KeyCodeView::Esc) ==> r == Some(
                "deny"@,
            )
        },
        (e.modifiers == mods(false, true, false) && e.code == KeyCodeView::Char('c')) ==> r == Some(
            "cancel"@,
        ),
        r is Some ==> (e.modifiers == mods(false, false, false) && (e.code == KeyCodeView::Enter
            || e.code == KeyCodeView::Char('a') || e.code == KeyCodeView::Char('s') || e.code
            == KeyCodeView::Char('d') || e.code == KeyCodeView::Esc)) || (e.modifiers == mods(
            false,
            true,
            false,
        ) && e.code == KeyCodeView::Char('c')),
{
    lemma_bound_small(km.approval.approve@, e);
    lemma_bound_small(km.approval.approve_session@, e);
    lemma_bound_small(km.approval.deny@, e);
    lemma_bound_small(km.approval.cancel@, e);
}

/// Law: in the default keymap Ctrl-L clears the terminal, Ctrl-T opens the
/// transcript, Ctrl-O copies and Ctrl-G opens the external editor; no other
/// key is an app action. `r` is what `match_app_action` answers.
pub proof fn lemma_default_app_keys(km: RuntimeKeymap, e: KeyInput, r: Option<Seq<char>>)
    requires
        is_default_keymap(km),
        r == named(app_pick(km.app, e), app_names()),
    ensures
        e.modifiers == mods(false, true, false) ==> {
            &&& e.code == KeyCodeView::Char('l') ==> r == Some("clear_terminal"@)
            &&& e.code == KeyCodeView::Char('t') ==> r == Some("open_transcript"@)
            &&& e.code == KeyCodeView::Char('o') ==> r == Some("copy"@)
            &&& e.code == KeyCodeView::Char('g') ==> r == Some("open_external_editor"@)
        },
        r is Some ==> e.modifiers == mods(false, true, false) && (e.code == KeyCodeView::Char('l')
            || e.code == KeyCodeView::Char('t') || e.code == KeyCodeView::Char('o') || e.code
            == KeyCodeView::Char('g')),
{
    lemma_bound_small(km.app.clear_terminal@, e);
    lemma_bound_small(km.app.open_transcript@, e);
    lemma_bound_small(km.app.copy@, e);
    lemma_bound_small(km.app.open_external_editor@, e);
}

/// Law: in the default keymap Ctrl-C interrupts the turn and Alt-`,` and
/// Alt-`.` lower and raise the reasoning effort; no other key is a chat
/// action. `r` is what `match_chat_action` answers.
pub proof fn lemma_default_chat_keys(km: RuntimeKeymap, e: KeyInput, r: Option<Seq<char>>)
    requires
        is_default_keymap(km),
        r == named(chat_pick(km.chat, e), chat_names()),
    ensures
        (e.modifiers == mods(false, true, false) && e.code == KeyCodeView::Char('c')) ==> r == Some(
            "interrupt_turn"@,
        ),
        (e.modifiers == mods(false, false, true) && e.code == KeyCodeView::Char(',')) ==> r == Some(
            "decrease_reasoning_effort"@,
        ),
        (e.modifiers == mods(false, false, true) && e.code == KeyCodeView::Char('.')) ==> r == Some(
            "increase_reasoning_effort"@,
        ),
        r is Some ==> (e.modifiers == mods(false, true, false) && e.code == KeyCodeView::Char('c')) || (
        e.modifiers == mods(false, false, true) && (e.code == KeyCodeView::Char(',') || e.code
            == KeyCodeView::Char('.'))),
{
    lemma_bound_small(km.chat.interrupt_turn@, e);
    lemma_bound_small(km.chat.decrease_reasoning_effort@, e);
    lemma_bound_small(km.chat.increase_reasoning_effort@, e);
}

/// Law: in the default keymap the composer submits with plain Enter, CR or
/// LF, queues with plain Tab, toggles the shortcuts with `?` (plain or
/// shifted) and searches the history back with Ctrl-R and forward with
/// Ctrl-S; no other key is a composer action. `r` is what
/// `match_composer_action` answers.
pub proof fn lemma_default_composer_keys(km: RuntimeKeymap, e: KeyInput, r: Option<Seq<char>>)
    requires
        is_default_keymap(km),
        r == named(composer_pick(km.composer, e), composer_names()),
    ensures
        e.modifiers == mods(false, false, false) ==> {
            &&& (e.code == KeyCodeView::Enter || e.code == KeyCodeView::Char('\r') || e.code
                == KeyCodeView::Char('\n')) ==> r == Some("submit"@)
            &&& e.code == KeyCodeView::Tab ==> r == Some("queue"@)
            &&& e.code == KeyCodeView::Char('?') ==> r == Some("toggle_shortcuts"@)
        },
        (e.modifiers == mods(true, false, false) && e.code == KeyCodeView::Char('?')) ==> r == Some(
            "toggle_shortcuts"@,
        ),
        (e.modifiers == mods(false, true, false) && e.code == KeyCodeView::Char('r')) ==> r == Some(
            "history_search_previous"@,
        ),
        (e.modifiers == mods(false, true, false) && e.code == KeyCodeView::Char('s')) ==> r == Some(
            "history_search_next"@,
        ),
        r is Some ==> (e.modifiers == mods(false, false, false) && (e.code == KeyCodeView::Enter
            || e.code == KeyCodeView::Char('\r') || e.code == KeyCodeView::Char('\n') || e.code
            == KeyCodeView::Tab || e.code == KeyCodeView::Char('?'))) || (e.modifiers == mods(
            true,
            false,
            false,
        ) && e.code == KeyCodeView::Char('?')) || (e.modifiers == mods(false, true, false) && (
        e.code == KeyCodeView::Char('r') || e.code == KeyCodeView::Char('s'))),
{
    lemma_bound_small(km.composer.submit@, e);
    lemma_bound_small(km.composer.queue@, e);
    lemma_bound_small(km.composer.toggle_shortcuts@, e);
    lemma_bound_small(km.composer.history_search_previous@, e);
    lemma_bound_small(km.composer.history_search_next@, e);
}

/// Law: in the default keymap the editor inserts a newline with Ctrl-J,
/// Ctrl-M or Alt-Enter; moves with the plain arrows, by words with Alt-B /
/// Alt-F and Alt or Ctrl with Left / Right, to the line's ends with plain
/// Home and End; deletes with plain Backspace and Delete, by words with
/// Ctrl-W, Alt or Ctrl with Backspace and Alt or Ctrl with Delete; kills to
/// the line's start with Ctrl-U and to its end with Ctrl-K, and yanks with
/// Ctrl-Y. `r` is what `match_editor_action`
/// answers.
pub proof fn lemma_default_editor_keys(km: RuntimeKeymap, e: KeyInput, r: Option<Seq<char>>)
    requires
        is_default_keymap(km),
        r == named(editor_pick(km.editor, e), editor_names()),
    ensures
        e.modifiers == mods(false, false, false) ==> {
            &&& e.code == KeyCodeView::Left ==> r == Some("move_left"@)
            &&& e.code == KeyCodeView::Right ==> r == Some("move_right"@)
            &&& e.code == KeyCodeView::Up ==> r == Some("move_up"@)
            &&& e.code == KeyCodeView::Down ==> r == Some("move_down"@)
            &&& e.code == KeyCodeView::Home ==> r == Some("move_line_start"@)
            &&& e.code == KeyCodeView::End ==> r == Some("move_line_end"@)
            &&& e.code == KeyCodeView::Backspace ==> r == Some("delete_backward"@)
            &&& e.code == KeyCodeView::Delete ==> r == Some("delete_forward"@)
        },
        e.modifiers == mods(false, true, false) ==> {
            &&& (e.code == KeyCodeView::Char('j') || e.code == KeyCodeView::Char('m')) ==> r == Some(
                "insert_newline"@,
            )
            &&& e.code == KeyCodeView::Left ==> r == Some("move_word_left"@)
            &&& e.code == KeyCodeView::Right ==> r == Some("move_word_right"@)
            &&& (e.code == KeyCodeView::Char('w') || e.code == KeyCodeView::Backspace) ==> r == Some(
                "delete_backward_word"@,
            )
            &&& e.code == KeyCodeView::Delete ==> r == Some("delete_forward_word"@)
            &&& e.code == KeyCodeView::Char('u') ==> r == Some("kill_line_start"@)
            &&& e.code == KeyCodeView::Char('k') ==> r == Some("kill_line_end"@)
            &&& e.code == KeyCodeView::Char('y') ==> r == Some("yank"@)
        },
        e.modifiers == mods(false, false, true) ==> {
            &&& e.code == KeyCodeView::Enter ==> r == Some("insert_newline"@)
            &&& (e.code == KeyCodeView::Char('b') || e.code == KeyCodeView::Left) ==> r == Some(
                "move_word_left"@,
            )
            &&& (e.code == KeyCodeView::Char('f') || e.code == KeyCodeView::Right) ==> r == Some(
                "move_word_right"@,
            )
            &&& e.code == KeyCodeView::Backspace ==> r == Some("delete_backward_word"@)
            &&& e.code == KeyCodeView::Delete ==> r == Some("delete_forward_word"@)
        },
{
    let k = km.editor;
    lemma_bound_small(k.insert_newline@, e);
    lemma_bound_small(k.move_left@, e);
    lemma_bound_small(k.move_right@, e);
    lemma_bound_small(k.move_up@, e);
    lemma_bound_small(k.move_down@, e);
    lemma_bound_small(k.move_word_left@, e);
    lemma_bound_small(k.move_word_right@, e);
    lemma_bound_small(k.move_line_start@, e);
    lemma_bound_small(k.move_line_end@, e);
    lemma_bound_small(k.delete_backward@, e);
    lemma_bound_small(k.delete_forward@, e);
    lemma_bound_small(k.delete_backward_word@, e);
    lemma_bound_small(k.delete_forward_word@, e);
    lemma_bound_small(k.kill_line_start@, e);
    lemma_bound_small(k.kill_whole_line@, e);
    lemma_bound_small(k.kill_line_end@, e);
    lemma_bound_small(k.yank@, e);
}

} // verus!
