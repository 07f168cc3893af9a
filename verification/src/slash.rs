//! Slash commands in the composer: the catalog, the hints filtered by the
//! first line, and tab completion that cycles through the matches.
use vstd::prelude::*;

use crate::prompt::cursor_after_replacing_first_line;
use crate::prompt::fits;
use crate::prompt::replaced_first_line;
use crate::prompt::InteractivePromptBuffer;
use crate::text::byte_len;
use crate::text::chars_start_with;
use crate::text::first_line;
use crate::text::starts_with;
use crate::text::to_chars;

verus! {

#[derive(Clone, Debug, PartialEq, Eq)]
pub struct InteractiveSlashHint {
    pub command: &'static str,
    pub summary: &'static str,
}

/// The catalog, as (command, summary) pairs, in the order it is shown.
pub open spec fn slash_hints() -> Seq<(Seq<char>, Seq<char>)> {
    seq![
        ("/help"@, "show available commands"@),
        ("/status"@, "show runtime state"@),
        ("/model"@, "show or set active model"@),
        ("/provider"@, "show, list, or switch provider"@),
        ("/approval"@, "show or set approval mode"@),
        ("/compact"@, "request compaction"@),
        ("/sessions"@, "list resumable sessions"@),
        ("/resume"@, "resume active or named session"@),
        ("/new"@, "create a fresh session"@),
        ("/exit"@, "leave interactive shell"@),
    ]
}

pub open spec fn hint_views(v: Seq<InteractiveSlashHint>) -> Seq<(Seq<char>, Seq<char>)> {
    v.map_values(|h: InteractiveSlashHint| (h.command@, h.summary@))
}

pub open spec fn command_views(v: Seq<&'static str>) -> Seq<Seq<char>> {
    v.map_values(|c: &'static str| c@)
}

/// The hints whose command starts with `p`, in catalog order.
pub open spec fn matching_hints(hs: Seq<(Seq<char>, Seq<char>)>, p: Seq<char>) -> Seq<
    (Seq<char>, Seq<char>),
>
    decreases hs.len(),
{
    if hs.len() == 0 {
        Seq::empty()
    } else {
        matching_hints(hs.drop_last(), p) + if starts_with(hs.last().0, p) {
            seq![hs.last()]
        } else {
            Seq::empty()
        }
    }
}

/// The commands of the hints whose command starts with `p`, in catalog order.
pub open spec fn matching_commands(hs: Seq<(Seq<char>, Seq<char>)>, p: Seq<char>) -> Seq<Seq<char>>
    decreases hs.len(),
{
    if hs.len() == 0 {
        Seq::empty()
    } else {
        matching_commands(hs.drop_last(), p) + if starts_with(hs.last().0, p) {
            seq![hs.last().0]
        } else {
            Seq::empty()
        }
    }
}

pub open spec fn slash_prefix() -> Seq<char> {
    seq!['/']
}

pub fn interactive_slash_catalog() -> (c: Vec<InteractiveSlashHint>)
    ensures
        hint_views(c@) == slash_hints(),
{
    let c = vec![
        InteractiveSlashHint { command: "/help", summary: "show available commands" },
        InteractiveSlashHint { command: "/status", summary: "show runtime state" },
        InteractiveSlashHint { command: "/model", summary: "show or set active model" },
        InteractiveSlashHint { command: "/provider", summary: "show, list, or switch provider" },
        InteractiveSlashHint { command: "/approval", summary: "show or set approval mode" },
        InteractiveSlashHint { command: "/compact", summary: "request compaction" },
        InteractiveSlashHint { command: "/sessions", summary: "list resumable sessions" },
        InteractiveSlashHint { command: "/resume", summary: "resume active or named session" },
        InteractiveSlashHint { command: "/new", summary: "create a fresh session" },
        InteractiveSlashHint { command: "/exit", summary: "leave interactive shell" },
    ];
    assert(hint_views(c@) =~= slash_hints());
    c
}

proof fn lemma_byte_len_at_most(s: Seq<char>)
    ensures
        byte_len(s) <= 4 * s.len(),
    decreases s.len(),
{
    if s.len() > 0 {
        lemma_byte_len_at_most(s.drop_first());
    }
}

/// Every command of the catalog is a short text.
proof fn lemma_slash_commands_fit()
    ensures
        forall|i: int| 0 <= i < slash_hints().len() ==> fits(#[trigger] slash_hints()[i].0),
{
    reveal_strlit("/help");
    reveal_strlit("/status");
    reveal_strlit("/model");
    reveal_strlit("/provider");
    reveal_strlit("/approval");
    reveal_strlit("/compact");
    reveal_strlit("/sessions");
    reveal_strlit("/resume");
    reveal_strlit("/new");
    reveal_strlit("/exit");
    assert forall|i: int| 0 <= i < slash_hints().len() implies fits(#[trigger] slash_hints()[i].0) by {
        lemma_byte_len_at_most(slash_hints()[i].0);
    }
}

proof fn lemma_matching_commands_from(hs: Seq<(Seq<char>, Seq<char>)>, p: Seq<char>)
    ensures
        forall|i: int|
            0 <= i < matching_commands(hs, p).len() ==> exists|j: int|
                0 <= j < hs.len() && #[trigger] matching_commands(hs, p)[i] == hs[j].0,
    decreases hs.len(),
{
    if hs.len() > 0 {
        let prefix = hs.drop_last();
        lemma_matching_commands_from(prefix, p);
        let m = matching_commands(hs, p);
        let mp = matching_commands(prefix, p);
        assert forall|i: int| 0 <= i < m.len() implies exists|j: int|
            0 <= j < hs.len() && #[trigger] m[i] == hs[j].0 by {
            if i < mp.len() {
                assert(m[i] == mp[i]);
                let j = choose|j: int| 0 <= j < prefix.len() && mp[i] == prefix[j].0;
                assert(hs[j] == prefix[j]);
            } else {
                assert(m[i] == hs[hs.len() - 1].0);
            }
        }
    }
}

/// The hints whose command starts with the first line of the buffer; none
/// when the first line does not start with `/`.
pub fn filtered_interactive_slash_hints(buffer: &InteractivePromptBuffer) -> (hints: Vec<
    InteractiveSlashHint,
>)
    ensures
        hint_views(hints@) == if starts_with(first_line(buffer.text@), slash_prefix()) {
            matching_hints(slash_hints(), first_line(buffer.text@))
        } else {
            Seq::empty()
        },
{
    let fl = buffer.first_line();
    let flc = to_chars(fl.as_str());
    let slash = vec!['/'];
    assert(slash@ =~= slash_prefix());
    if !chars_start_with(&flc, &slash) {
        let empty: Vec<InteractiveSlashHint> = Vec::new();
        assert(hint_views(empty@) =~= Seq::<(Seq<char>, Seq<char>)>::empty());
        return empty;
    }
    let catalog = interactive_slash_catalog();
    let mut hints: Vec<InteractiveSlashHint> = Vec::new();
    let mut i: usize = 0;
    assert(hint_views(catalog@).take(0) =~= Seq::<(Seq<char>, Seq<char>)>::empty());
    assert(hint_views(hints@) =~= Seq::<(Seq<char>, Seq<char>)>::empty());
    while i < catalog.len()
        invariant
            i <= catalog@.len(),
            hint_views(catalog@) == slash_hints(),
            flc@ == first_line(buffer.text@),
            hint_views(hints@) == matching_hints(hint_views(catalog@).take(i as int), flc@),
        decreases catalog.len() - i,
    {
        let h = InteractiveSlashHint { command: catalog[i].command, summary: catalog[i].summary };
        let cc = to_chars(h.command);
        let ghost pre = hint_views(catalog@).take(i + 1);
        assert(pre.drop_last() =~= hint_views(catalog@).take(i as int));
        assert(pre.last() == (catalog@[i as int].command@, catalog@[i as int].summary@));
        let ghost old_hints = hints@;
        if chars_start_with(&cc, &flc) {
            hints.push(h);
            assert(hint_views(hints@) =~= hint_views(old_hints).push(pre.last()));
        }
        assert(hint_views(hints@) =~= matching_hints(pre, flc@));
        i = i + 1;
    }
    assert(hint_views(catalog@).take(i as int) =~= hint_views(catalog@));
    hints
}

#[derive(Clone, Debug, Default, PartialEq, Eq)]
pub struct InteractiveSlashCompletionState {
    pub seed: String,
    pub matches: Vec<&'static str>,
    pub index: usize,
    pub visible: bool,
}

/// The state after `reset`.
pub open spec fn is_reset(c: InteractiveSlashCompletionState) -> bool {
    &&& c.seed@ == Seq::<char>::empty()
    &&& c.matches@.len() == 0
    &&& c.index == 0
    &&& !c.visible
}

/// The state after `update_from_buffer` on a buffer holding `t`: seeded with
/// its first line, holding the catalog commands that start with it, on the
/// first of them, shown when there is one.
pub open spec fn updated_from(c: InteractiveSlashCompletionState, t: Seq<char>) -> bool {
    &&& c.seed@ == first_line(t)
    &&& command_views(c.matches@) == matching_commands(slash_hints(), first_line(t))
    &&& c.index == 0
    &&& c.visible == (c.matches@.len() > 0)
}

/// Every match is a text a `String` can hold.
pub open spec fn matches_fit(c: InteractiveSlashCompletionState) -> bool {
    forall|i: int| 0 <= i < c.matches@.len() ==> fits(#[trigger] c.matches@[i]@)
}

/// The state after `select_next` on a state with matches.
pub open spec fn stepped_next(c0: InteractiveSlashCompletionState, c1: InteractiveSlashCompletionState) -> bool {
    &&& c1.seed == c0.seed
    &&& c1.matches == c0.matches
    &&& c1.index == (c0.index + 1) % (c0.matches@.len() as int)
    &&& c1.visible
}

/// The state after `select_previous` on a state with matches.
pub open spec fn stepped_previous(
    c0: InteractiveSlashCompletionState,
    c1: InteractiveSlashCompletionState,
) -> bool {
    &&& c1.seed == c0.seed
    &&& c1.matches == c0.matches
    &&& c1.index == if c0.index == 0 {
        c0.matches@.len() - 1
    } else {
        c0.index - 1
    }
    &&& c1.visible
}

proof fn lemma_updated_matches_fit(c: InteractiveSlashCompletionState, t: Seq<char>)
    requires
        updated_from(c, t),
    ensures
        matches_fit(c),
{
    lemma_slash_commands_fit();
    lemma_matching_commands_from(slash_hints(), first_line(t));
    assert forall|i: int| 0 <= i < c.matches@.len() implies fits(#[trigger] c.matches@[i]@) by {
        assert(command_views(c.matches@)[i] == c.matches@[i]@);
        let m = matching_commands(slash_hints(), first_line(t));
        let j = choose|j: int| 0 <= j < slash_hints().len() && #[trigger] m[i] == slash_hints()[j].0;
        assert(fits(slash_hints()[j].0));
    }
}

/// Law: `select_previous` right after `select_next` comes back to the same
/// match.
pub proof fn lemma_select_previous_undoes_select_next(
    c0: InteractiveSlashCompletionState,
    c1: InteractiveSlashCompletionState,
    c2: InteractiveSlashCompletionState,
)
    requires
        c0.index < c0.matches@.len(),
        stepped_next(c0, c1),
        stepped_previous(c1, c2),
    ensures
        c2.index == c0.index,
        c2.matches == c0.matches,
        c2.seed == c0.seed,
{
    let n = c0.matches@.len();
    if c0.index + 1 < n {
        vstd::arithmetic::div_mod::lemma_small_mod((c0.index + 1) as nat, n);
    } else {
        vstd::arithmetic::div_mod::lemma_mod_self_0(n as int);
    }
}

impl InteractiveSlashCompletionState {
    pub fn reset(&mut self)
        ensures
            is_reset(*final(self)),
    {
        self.seed = String::new();
        self.matches = Vec::new();
        self.index = 0;
        self.visible = false;
    }

    /// Seeds the completion with the first line of the buffer and collects
    /// the catalog commands that start with it.
    pub fn update_from_buffer(&mut self, buffer: &InteractivePromptBuffer)
        ensures
            updated_from(*final(self), buffer.text@),
            matches_fit(*final(self)),
    {
        let fl = buffer.first_line();
        let flc = to_chars(fl.as_str());
        let catalog = interactive_slash_catalog();
        let mut matches: Vec<&'static str> = Vec::new();
        let mut i: usize = 0;
        assert(hint_views(catalog@).take(0) =~= Seq::<(Seq<char>, Seq<char>)>::empty());
        assert(command_views(matches@) =~= Seq::<Seq<char>>::empty());
        while i < catalog.len()
            invariant
                i <= catalog@.len(),
                hint_views(catalog@) == slash_hints(),
                flc@ == first_line(buffer.text@),
                command_views(matches@) == matching_commands(
                    hint_views(catalog@).take(i as int),
                    flc@,
                ),
            decreases catalog.len() - i,
        {
            let command = catalog[i].command;
            let cc = to_chars(command);
            let ghost pre = hint_views(catalog@).take(i + 1);
            assert(pre.drop_last() =~= hint_views(catalog@).take(i as int));
            assert(pre.last().0 == catalog@[i as int].command@);
            let ghost old_matches = matches@;
            if chars_start_with(&cc, &flc) {
                matches.push(command);
                assert(command_views(matches@) =~= command_views(old_matches).push(command@));
            }
            assert(command_views(matches@) =~= matching_commands(pre, flc@));
            i = i + 1;
        }
        assert(hint_views(catalog@).take(i as int) =~= hint_views(catalog@));
        self.seed = fl;
        self.matches = matches;
        self.index = 0;
        self.visible = self.matches.len() > 0;
        proof {
            lemma_updated_matches_fit(*self, buffer.text@);
        }
    }

    /// The selected command, if the index is on a match.
    pub fn current_command(&self) -> (c: Option<&'static str>)
        ensures
            c == if self.index < self.matches@.len() {
                Some(self.matches@[self.index as int])
            } else {
                None
            },
    {
        if self.index < self.matches.len() {
            Some(self.matches[self.index])
        } else {
            None
        }
    }

    /// Selects the next match, wrapping around; false (and nothing changes)
    /// without matches.
    pub fn select_next(&mut self) -> (moved: bool)
        requires
            old(self).index < usize::MAX,
        ensures
            moved == (old(self).matches@.len() > 0),
            !moved ==> *final(self) == *old(self),
            moved ==> stepped_next(*old(self), *final(self)),
    {
        if self.matches.len() == 0 {
            return false;
        }
        self.index = (self.index + 1) % self.matches.len();
        self.visible = true;
        true
    }

    /// Selects the previous match, wrapping around; false (and nothing
    /// changes) without matches.
    pub fn select_previous(&mut self) -> (moved: bool)
        ensures
            moved == (old(self).matches@.len() > 0),
            !moved ==> *final(self) == *old(self),
            moved ==> stepped_previous(*old(self), *final(self)),
    {
        if self.matches.len() == 0 {
            return false;
        }
        self.index = if self.index == 0 {
            self.matches.len() - 1
        } else {
            self.index - 1
        };
        self.visible = true;
        true
    }
}

/// The buffer `b1` is `b0` with its first line replaced by `r`.
pub open spec fn first_line_set(b0: InteractivePromptBuffer, r: Seq<char>, b1: InteractivePromptBuffer) -> bool {
    &&& b1.text@ == replaced_first_line(b0.text@, r)
    &&& b1.cursor == cursor_after_replacing_first_line(b0.text@, b0.cursor as int, r)
}

/// The tab key keeps the old completion when it is seeded with a slash, has
/// matches and sits on the first line's command.
pub open spec fn keeps_selection(c0: InteractiveSlashCompletionState, t: Seq<char>) -> bool {
    &&& c0.matches@.len() > 0
    &&& starts_with(c0.seed@, slash_prefix())
    &&& c0.index < c0.matches@.len()
    &&& c0.matches@[c0.index as int]@ == first_line(t)
}

/// The completion the tab key continues with: the kept one, stepped to the
/// next match when there are several, or else a fresh one from the buffer.
pub open spec fn continued(
    c0: InteractiveSlashCompletionState,
    t: Seq<char>,
    c1: InteractiveSlashCompletionState,
) -> bool {
    if keeps_selection(c0, t) {
        if c0.matches@.len() > 1 {
            stepped_next(c0, c1)
        } else {
            c1 == c0
        }
    } else {
        updated_from(c1, t)
    }
}

/// What tab completion does: off a slash line it resets; on the command it
/// was seeded with it writes the selected command; else it continues (or
/// starts afresh) and writes the selection, resetting when nothing matches.
pub open spec fn completed(
    b0: InteractivePromptBuffer,
    c0: InteractiveSlashCompletionState,
    b1: InteractivePromptBuffer,
    c1: InteractiveSlashCompletionState,
    applied: bool,
) -> bool {
    let fl = first_line(b0.text@);
    if !starts_with(fl, slash_prefix()) {
        &&& !applied
        &&& is_reset(c1)
        &&& b1 == b0
    } else if c0.seed@ == fl && c0.index < c0.matches@.len() {
        &&& applied
        &&& c1 == c0
        &&& first_line_set(b0, c0.matches@[c0.index as int]@, b1)
    } else {
        &&& applied == (keeps_selection(c0, b0.text@) || matching_commands(slash_hints(), fl).len() > 0)
        &&& applied ==> {
            &&& continued(c0, b0.text@, c1)
            &&& c1.index < c1.matches@.len()
            &&& first_line_set(b0, c1.matches@[c1.index as int]@, b1)
        }
        &&& !applied ==> is_reset(c1) && b1 == b0
    }
}

/// Whether moving the selection on a buffer holding `t` moves it.
pub open spec fn selection_moves(t: Seq<char>, c0: InteractiveSlashCompletionState) -> bool {
    let fl = first_line(t);
    let fresh = c0.matches@.len() == 0 || !starts_with(c0.seed@, slash_prefix());
    if !starts_with(fl, slash_prefix()) {
        false
    } else if fresh {
        matching_commands(slash_hints(), fl).len() > 0
    } else {
        true
    }
}

/// What moving the selection does: off a slash line it resets; a completion
/// without slash-seeded matches is first seeded from the buffer; then the
/// selection steps up (`direction < 0`) or down when there are matches.
pub open spec fn selection_moved(
    t: Seq<char>,
    c0: InteractiveSlashCompletionState,
    c1: InteractiveSlashCompletionState,
    direction: int,
    moved: bool,
) -> bool {
    let fl = first_line(t);
    let fresh = c0.matches@.len() == 0 || !starts_with(c0.seed@, slash_prefix());
    let n = matching_commands(slash_hints(), fl).len();
    &&& moved == selection_moves(t, c0)
    &&& if !starts_with(fl, slash_prefix()) {
        is_reset(c1)
    } else if fresh {
        &&& c1.seed@ == fl
        &&& command_views(c1.matches@) == matching_commands(slash_hints(), fl)
        &&& c1.visible == moved
        &&& c1.index == if !moved {
            0
        } else if direction < 0 {
            (n - 1) as nat
        } else {
            1nat % n
        }
    } else if direction < 0 {
        stepped_previous(c0, c1)
    } else {
        stepped_next(c0, c1)
    }
}

/// Every match is a short text: at most 64 bytes.
pub open spec fn matches_short(c: InteractiveSlashCompletionState) -> bool {
    forall|i: int| 0 <= i < c.matches@.len() ==> byte_len(#[trigger] c.matches@[i]@) <= 64
}

/// A completion seeded from the catalog holds short matches that fit.
pub proof fn lemma_updated_matches_short(c: InteractiveSlashCompletionState, t: Seq<char>)
    requires
        updated_from(c, t),
    ensures
        matches_fit(c),
        matches_short(c),
{
    lemma_updated_matches_fit(c, t);
    lemma_slash_commands_short();
    lemma_matching_commands_from(slash_hints(), first_line(t));
    assert forall|i: int| 0 <= i < c.matches@.len() implies byte_len(#[trigger] c.matches@[i]@) <= 64 by {
        assert(command_views(c.matches@)[i] == c.matches@[i]@);
        let m = matching_commands(slash_hints(), first_line(t));
        let j = choose|j: int| 0 <= j < slash_hints().len() && #[trigger] m[i] == slash_hints()[j].0;
        assert(byte_len(slash_hints()[j].0) <= 64);
    }
}

/// Every catalog command is at most 64 bytes.
proof fn lemma_slash_commands_short()
    ensures
        forall|i: int| 0 <= i < slash_hints().len() ==> byte_len(#[trigger] slash_hints()[i].0) <= 64,
{
    reveal_strlit("/help");
    reveal_strlit("/status");
    reveal_strlit("/model");
    reveal_strlit("/provider");
    reveal_strlit("/approval");
    reveal_strlit("/compact");
    reveal_strlit("/sessions");
    reveal_strlit("/resume");
    reveal_strlit("/new");
    reveal_strlit("/exit");
    assert forall|i: int| 0 <= i < slash_hints().len() implies byte_len(#[trigger] slash_hints()[i].0)
        <= 64 by {
        lemma_byte_len_at_most(slash_hints()[i].0);
    }
}

/// Every match of the completion is a catalog command that starts with its
/// seed; so it is when reset, when seeded from a buffer, and after each
/// step.
pub open spec fn catalog_seeded(c: InteractiveSlashCompletionState) -> bool {
    forall|i: int|
        0 <= i < c.matches@.len() ==> starts_with(#[trigger] c.matches@[i]@, c.seed@) && exists|
            j: int,
        |
            0 <= j < slash_hints().len() && c.matches@[i]@ == slash_hints()[j].0
}

/// Each command `matching_commands` lists is one of the hints' commands and
/// starts with the prefix.
proof fn lemma_matching_commands_start_with(hs: Seq<(Seq<char>, Seq<char>)>, p: Seq<char>)
    ensures
        forall|i: int|
            0 <= i < matching_commands(hs, p).len() ==> starts_with(
                #[trigger] matching_commands(hs, p)[i],
                p,
            ),
    decreases hs.len(),
{
    if hs.len() > 0 {
        lemma_matching_commands_start_with(hs.drop_last(), p);
        let m = matching_commands(hs, p);
        let mp = matching_commands(hs.drop_last(), p);
        assert forall|i: int| 0 <= i < m.len() implies starts_with(#[trigger] m[i], p) by {
            if i < mp.len() {
                assert(m[i] == mp[i]);
            }
        }
    }
}

/// A hint whose command starts with the prefix makes the list non-empty.
proof fn lemma_matching_commands_nonempty(hs: Seq<(Seq<char>, Seq<char>)>, p: Seq<char>, j: int)
    requires
        0 <= j < hs.len(),
        starts_with(hs[j].0, p),
    ensures
        matching_commands(hs, p).len() > 0,
    decreases hs.len(),
{
    if j < hs.len() - 1 {
        assert(hs.drop_last()[j] == hs[j]);
        lemma_matching_commands_nonempty(hs.drop_last(), p, j);
    }
}

/// A completion seeded from a buffer holds catalog commands that start with
/// its seed.
proof fn lemma_updated_catalog_seeded(c: InteractiveSlashCompletionState, t: Seq<char>)
    requires
        updated_from(c, t),
    ensures
        catalog_seeded(c),
{
    let m = matching_commands(slash_hints(), first_line(t));
    lemma_matching_commands_from(slash_hints(), first_line(t));
    lemma_matching_commands_start_with(slash_hints(), first_line(t));
    assert forall|i: int| 0 <= i < c.matches@.len() implies starts_with(
        #[trigger] c.matches@[i]@,
        c.seed@,
    ) && exists|j: int| 0 <= j < slash_hints().len() && c.matches@[i]@ == slash_hints()[j].0 by {
        assert(command_views(c.matches@)[i] == c.matches@[i]@);
        assert(m[i] == c.matches@[i]@);
    }
}

/// Law: tab completion fails exactly when the first line is no slash
/// command or no catalog command starts with it, and a failed completion
/// leaves the buffer as it was and the completion reset. This holds
/// whatever completion state earlier calls left, as long as its matches
/// are catalog commands starting with its seed, which every call keeps.
pub proof fn lemma_failed_completion_changes_nothing(
    b0: InteractivePromptBuffer,
    c0: InteractiveSlashCompletionState,
    b1: InteractivePromptBuffer,
    c1: InteractiveSlashCompletionState,
    applied: bool,
)
    requires
        catalog_seeded(c0),
        completed(b0, c0, b1, c1, applied),
    ensures
        !applied <==> (!starts_with(first_line(b0.text@), slash_prefix()) || matching_commands(
            slash_hints(),
            first_line(b0.text@),
        ).len() == 0),
        !applied ==> b1 == b0 && is_reset(c1),
        catalog_seeded(c1),
{
    let fl = first_line(b0.text@);
    if starts_with(fl, slash_prefix()) {
        if c0.seed@ == fl && c0.index < c0.matches@.len() {
            let i = c0.index as int;
            assert(starts_with(c0.matches@[i]@, c0.seed@));
            let j = choose|j: int| 0 <= j < slash_hints().len() && c0.matches@[i]@ == slash_hints()[j].0;
            lemma_matching_commands_nonempty(slash_hints(), fl, j);
        } else {
            if keeps_selection(c0, b0.text@) {
                let i = c0.index as int;
                assert(starts_with(c0.matches@[i]@, c0.seed@));
                let j = choose|j: int| 0 <= j < slash_hints().len() && c0.matches@[i]@ == slash_hints()[j].0;
                assert(fl.take(fl.len() as int) =~= fl);
                lemma_matching_commands_nonempty(slash_hints(), fl, j);
            } else if applied {
                lemma_updated_catalog_seeded(c1, b0.text@);
            }
        }
    }
}

/// Law: moving the selection keeps the completion's matches catalog
/// commands that start with its seed.
pub proof fn lemma_selection_keeps_catalog_seeded(
    t: Seq<char>,
    c0: InteractiveSlashCompletionState,
    c1: InteractiveSlashCompletionState,
    direction: int,
    moved: bool,
)
    requires
        catalog_seeded(c0),
        selection_moved(t, c0, c1, direction, moved),
    ensures
        catalog_seeded(c1),
{
    let fl = first_line(t);
    let fresh = c0.matches@.len() == 0 || !starts_with(c0.seed@, slash_prefix());
    if starts_with(fl, slash_prefix()) && fresh {
        let m = matching_commands(slash_hints(), fl);
        lemma_matching_commands_from(slash_hints(), fl);
        lemma_matching_commands_start_with(slash_hints(), fl);
        assert forall|i: int| 0 <= i < c1.matches@.len() implies starts_with(
            #[trigger] c1.matches@[i]@,
            c1.seed@,
        ) && exists|j: int| 0 <= j < slash_hints().len() && c1.matches@[i]@ == slash_hints()[j].0 by {
            assert(command_views(c1.matches@)[i] == c1.matches@[i]@);
            assert(m[i] == c1.matches@[i]@);
        }
    } else if starts_with(fl, slash_prefix()) {
        assert(c1.matches@ == c0.matches@ && c1.seed@ == c0.seed@);
        assert forall|i: int| 0 <= i < c1.matches@.len() implies starts_with(
            #[trigger] c1.matches@[i]@,
            c1.seed@,
        ) && exists|j: int| 0 <= j < slash_hints().len() && c1.matches@[i]@ == slash_hints()[j].0 by {
            assert(c1.matches@[i] == c0.matches@[i]);
            assert(starts_with(c0.matches@[i]@, c0.seed@));
            let j = choose|j: int| 0 <= j < slash_hints().len() && c0.matches@[i]@ == slash_hints()[j].0;
            assert(c1.matches@[i]@ == slash_hints()[j].0);
        }
    }
}

/// Tab completion of a slash command on the first line. Returns whether the
/// first line was replaced by a command.
pub fn apply_interactive_slash_completion(
    buffer: &mut InteractivePromptBuffer,
    completion: &mut InteractiveSlashCompletionState,
) -> (applied: bool)
    requires
        fits(old(buffer).text@),
        matches_fit(*old(completion)),
        old(completion).index < usize::MAX,
    ensures
        completed(*old(buffer), *old(completion), *final(buffer), *final(completion), applied),
{
    let fl = buffer.first_line();
    let flc = to_chars(fl.as_str());
    let slash = vec!['/'];
    assert(slash@ =~= slash_prefix());
    if !chars_start_with(&flc, &slash) {
        completion.reset();
        return false;
    }
    let seed = to_chars(completion.seed.as_str());
    if crate::text::chars_eq(&seed, &flc) && completion.index < completion.matches.len() {
        let command = completion.matches[completion.index];
        buffer.replace_first_line(command);
        return true;
    }
    let seeded = chars_start_with(&seed, &slash);
    let on_line = match completion.current_command() {
        Some(command) => {
            let cc = to_chars(command);
            crate::text::chars_eq(&cc, &flc)
        },
        None => false,
    };
    if completion.matches.len() == 0 || !seeded {
        completion.update_from_buffer(buffer);
    } else if on_line {
        if completion.matches.len() > 1 {
            completion.select_next();
        }
    } else {
        completion.update_from_buffer(buffer);
    }
    match completion.current_command() {
        Some(replacement) => {
            buffer.replace_first_line(replacement);
            true
        },
        None => {
            completion.reset();
            false
        },
    }
}

/// Moves the highlighted match up (`direction < 0`) or down, seeding the
/// completion from the buffer first when it has no slash-seeded matches.
/// False when the first line is no slash command or nothing matches.
pub fn move_interactive_slash_selection(
    buffer: &InteractivePromptBuffer,
    completion: &mut InteractiveSlashCompletionState,
    direction: i32,
) -> (moved: bool)
    requires
        old(completion).index < usize::MAX,
    ensures
        selection_moved(buffer.text@, *old(completion), *final(completion), direction as int, moved),
{
    let fl = buffer.first_line();
    let flc = to_chars(fl.as_str());
    let slash = vec!['/'];
    assert(slash@ =~= slash_prefix());
    if !chars_start_with(&flc, &slash) {
        completion.reset();
        return false;
    }
    let seed = to_chars(completion.seed.as_str());
    if completion.matches.len() == 0 || !chars_start_with(&seed, &slash) {
        completion.update_from_buffer(buffer);
    }
    if completion.matches.len() == 0 {
        return false;
    }
    if direction < 0 {
        completion.select_previous()
    } else {
        completion.select_next()
    }
}

} // verus!
