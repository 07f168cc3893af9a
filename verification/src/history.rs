//! Prompt history: recalling earlier submissions with up/down, and reverse
//! search through them.
use vstd::prelude::*;

use crate::prompt::fits;
use crate::prompt::InteractivePromptBuffer;
use crate::text::byte_len;
use crate::text::chars_contain;
use crate::text::contains;
use crate::text::from_chars;
use crate::text::to_chars;
use crate::text::trim;
use crate::text::trim_chars;

verus! {

#[derive(Clone, Debug, Default, PartialEq, Eq)]
pub struct InteractiveHistoryState {
    pub entries: Vec<String>,
    pub index_from_end: Option<usize>,
    pub draft: Option<String>,
}

#[derive(Clone, Debug, Default, PartialEq, Eq)]
pub struct InteractiveHistorySearchState {
    pub active: bool,
    pub draft: Option<String>,
    pub query: String,
    pub matches: Vec<usize>,
    pub match_index: usize,
}

/// Every entry is a text `String` can hold.
pub open spec fn entries_fit(entries: Seq<String>) -> bool {
    forall|i: int| 0 <= i < entries.len() ==> fits(#[trigger] entries[i]@)
}

/// The buffer shows `t` with the cursor at its end.
pub open spec fn shows(buffer: InteractivePromptBuffer, t: Seq<char>) -> bool {
    buffer.text@ == t && buffer.cursor == byte_len(t)
}

/// The text of an optional draft (empty when there is none).
pub open spec fn draft_text(d: Option<String>) -> Seq<char> {
    match d {
        Some(s) => s@,
        None => Seq::empty(),
    }
}

/// `after` is `before` after recording `entry`: its trimmed text is
/// appended unless blank or equal to the last entry.
pub open spec fn recorded(before: Seq<String>, entry: Seq<char>, after: Seq<String>) -> bool {
    let n = trim(entry);
    if n.len() == 0 || (before.len() > 0 && before.last()@ == n) {
        after == before
    } else {
        &&& after.len() == before.len() + 1
        &&& after.drop_last() == before
        &&& after.last()@ == n
    }
}

/// What `previous` does: with entries, it steps one entry further back
/// (stopping at the oldest), saves the buffer as the draft when browsing
/// starts, and shows the entry; without entries nothing changes.
pub open spec fn stepped_back(
    h0: InteractiveHistoryState,
    b0: InteractivePromptBuffer,
    h1: InteractiveHistoryState,
    b1: InteractivePromptBuffer,
    moved: bool,
) -> bool {
    let n = h0.entries@.len();
    let i = match h0.index_from_end {
        Some(i) => if i + 1 < n {
            i + 1
        } else {
            n as int
        },
        None => 1,
    };
    &&& moved == (n > 0)
    &&& !moved ==> h1 == h0 && b1 == b0
    &&& moved ==> {
        &&& h1.entries == h0.entries
        &&& h1.index_from_end == Some(i as usize)
        &&& h1.draft == if h0.index_from_end is None {
            Some(b0.text)
        } else {
            h0.draft
        }
        &&& shows(b1, h0.entries@[n - i]@)
    }
}

/// What `next` does: while browsing, it steps one entry forward, or after
/// the newest ends browsing and shows the saved draft; otherwise nothing
/// changes.
pub open spec fn stepped_forward(
    h0: InteractiveHistoryState,
    b0: InteractivePromptBuffer,
    h1: InteractiveHistoryState,
    b1: InteractivePromptBuffer,
    moved: bool,
) -> bool {
    &&& moved == (h0.index_from_end is Some)
    &&& !moved ==> h1 == h0 && b1 == b0
    &&& moved ==> h1.entries == h0.entries
    &&& moved ==> {
        let i = h0.index_from_end->0;
        if i <= 1 {
            &&& h1.index_from_end is None
            &&& h1.draft is None
            &&& shows(b1, draft_text(h0.draft))
        } else {
            &&& h1.index_from_end == Some((i - 1) as usize)
            &&& h1.draft == h0.draft
            &&& shows(b1, h0.entries@[h0.entries@.len() - (i - 1)]@)
        }
    }
}

/// No entry is blank and no two neighbouring entries are equal.
pub open spec fn deduplicated(es: Seq<String>) -> bool {
    &&& forall|i: int| 0 <= i < es.len() ==> (#[trigger] es[i])@.len() > 0
    &&& forall|i: int| 0 <= i < es.len() - 1 ==> (#[trigger] es[i])@ != es[i + 1]@
}

/// Law: right after a submission that is not blank was recorded, stepping
/// back shows the submission's trimmed text and keeps the buffer's text as
/// the draft.
pub proof fn lemma_previous_recalls_submission(
    before: Seq<String>,
    entry: Seq<char>,
    h1: InteractiveHistoryState,
    b1: InteractivePromptBuffer,
    h2: InteractiveHistoryState,
    b2: InteractivePromptBuffer,
    moved: bool,
)
    requires
        trim(entry).len() > 0,
        recorded(before, entry, h1.entries@),
        h1.index_from_end is None,
        stepped_back(h1, b1, h2, b2, moved),
    ensures
        moved,
        shows(b2, trim(entry)),
        h2.draft == Some(b1.text),
        h2.index_from_end == Some(1usize),
{
    let es = h1.entries@;
    assert(es.len() > 0);
    assert(es[es.len() - 1] == es.last());
}

/// Law: recording the same submission twice in a row adds it at most once.
pub proof fn lemma_record_submission_idempotent(
    es0: Seq<String>,
    entry: Seq<char>,
    es1: Seq<String>,
    es2: Seq<String>,
)
    requires
        recorded(es0, entry, es1),
        recorded(es1, entry, es2),
    ensures
        es2 == es1,
{
}

/// Law: recording keeps the history free of blank entries and of
/// neighbouring duplicates.
pub proof fn lemma_record_submission_keeps_deduplicated(
    es0: Seq<String>,
    entry: Seq<char>,
    es1: Seq<String>,
)
    requires
        deduplicated(es0),
        recorded(es0, entry, es1),
    ensures
        deduplicated(es1),
{
    let n = trim(entry);
    if !(n.len() == 0 || (es0.len() > 0 && es0.last()@ == n)) {
        assert forall|i: int| 0 <= i < es1.len() implies (#[trigger] es1[i])@.len() > 0 by {
            if i < es0.len() {
                assert(es1[i] == es1.drop_last()[i]);
            }
        }
        assert forall|i: int| 0 <= i < es1.len() - 1 implies (#[trigger] es1[i])@ != es1[i + 1]@ by {
            assert(es1[i] == es1.drop_last()[i]);
            if i + 1 < es0.len() {
                assert(es1[i + 1] == es1.drop_last()[i + 1]);
                assert(es0[i]@ != es0[i + 1]@);
            }
        }
    }
}

/// Law: `next` right after `previous`, from a buffer that was not browsing
/// a non-empty history, shows the buffer's text again with the cursor at its
/// end and ends browsing.
pub proof fn lemma_next_undoes_previous(
    h0: InteractiveHistoryState,
    b0: InteractivePromptBuffer,
    h1: InteractiveHistoryState,
    b1: InteractivePromptBuffer,
    m1: bool,
    h2: InteractiveHistoryState,
    b2: InteractivePromptBuffer,
    m2: bool,
)
    requires
        h0.index_from_end is None,
        h0.entries@.len() > 0,
        stepped_back(h0, b0, h1, b1, m1),
        stepped_forward(h1, b1, h2, b2, m2),
    ensures
        m1,
        m2,
        shows(b2, b0.text@),
        h2.entries == h0.entries,
        h2.index_from_end is None,
        h2.draft is None,
{
}

/// While stepping back `j <= k` times from a buffer that was not browsing,
/// every step moves, the index counts the steps and the draft is the
/// buffer's text from before.
proof fn lemma_steps_back(
    hs: Seq<InteractiveHistoryState>,
    bs: Seq<InteractivePromptBuffer>,
    ms: Seq<bool>,
    k: int,
    j: int,
)
    requires
        1 <= k <= hs[0].entries@.len(),
        0 <= j <= k,
        hs.len() == 2 * k + 1,
        bs.len() == 2 * k + 1,
        ms.len() == 2 * k,
        hs[0].index_from_end is None,
        forall|t: int|
            0 <= t < k ==> #[trigger] stepped_back(hs[t], bs[t], hs[t + 1], bs[t + 1], ms[t]),
    ensures
        hs[j].entries == hs[0].entries,
        j > 0 ==> hs[j].index_from_end == Some(j as usize) && hs[j].draft == Some(bs[0].text),
        forall|t: int| 0 <= t < j ==> #[trigger] ms[t],
    decreases j,
{
    if j > 0 {
        lemma_steps_back(hs, bs, ms, k, j - 1);
        let t = j - 1;
        assert(stepped_back(hs[t], bs[t], hs[t + 1], bs[t + 1], ms[t]));
        assert(hs[0].entries@.len() == hs[0].entries.len());
    }
}

/// After the `k` steps back, `j < k` steps forward move each time and leave
/// the index at `k - j`, with the draft kept.
proof fn lemma_steps_forward(
    hs: Seq<InteractiveHistoryState>,
    bs: Seq<InteractivePromptBuffer>,
    ms: Seq<bool>,
    k: int,
    j: int,
)
    requires
        1 <= k <= hs[0].entries@.len(),
        0 <= j < k,
        hs.len() == 2 * k + 1,
        bs.len() == 2 * k + 1,
        ms.len() == 2 * k,
        hs[0].index_from_end is None,
        forall|t: int|
            0 <= t < k ==> #[trigger] stepped_back(hs[t], bs[t], hs[t + 1], bs[t + 1], ms[t]),
        forall|t: int|
            k <= t < 2 * k ==> #[trigger] stepped_forward(hs[t], bs[t], hs[t + 1], bs[t + 1], ms[t]),
    ensures
        hs[k + j].entries == hs[0].entries,
        hs[k + j].index_from_end == Some((k - j) as usize),
        hs[k + j].draft == Some(bs[0].text),
        forall|t: int| 0 <= t < k + j ==> #[trigger] ms[t],
    decreases j,
{
    lemma_steps_back(hs, bs, ms, k, k);
    assert(hs[0].entries@.len() == hs[0].entries.len());
    if j > 0 {
        lemma_steps_forward(hs, bs, ms, k, j - 1);
        let t = k + j - 1;
        assert(stepped_forward(hs[t], bs[t], hs[t + 1], bs[t + 1], ms[t]));
    }
}

/// Law: from a buffer that is not browsing the history, `k` calls of
/// `previous` followed by `k` calls of `next`, for any `k` from one up to the
/// number of entries, all move, and end with the buffer's original text
/// shown (cursor at its end), browsing over and no draft kept. State `t` of
/// the run is `hs[t]`, `bs[t]`; call `t` answered `ms[t]`.
pub proof fn lemma_browsing_back_and_forth_restores(
    hs: Seq<InteractiveHistoryState>,
    bs: Seq<InteractivePromptBuffer>,
    ms: Seq<bool>,
    k: int,
)
    requires
        1 <= k <= hs[0].entries@.len(),
        hs.len() == 2 * k + 1,
        bs.len() == 2 * k + 1,
        ms.len() == 2 * k,
        hs[0].index_from_end is None,
        forall|t: int|
            0 <= t < k ==> #[trigger] stepped_back(hs[t], bs[t], hs[t + 1], bs[t + 1], ms[t]),
        forall|t: int|
            k <= t < 2 * k ==> #[trigger] stepped_forward(hs[t], bs[t], hs[t + 1], bs[t + 1], ms[t]),
    ensures
        forall|t: int| 0 <= t < 2 * k ==> #[trigger] ms[t],
        shows(bs[2 * k], bs[0].text@),
        hs[2 * k].entries == hs[0].entries,
        hs[2 * k].index_from_end is None,
        hs[2 * k].draft is None,
{
    lemma_steps_forward(hs, bs, ms, k, k - 1);
    let t = 2 * k - 1;
    assert(stepped_forward(hs[t], bs[t], hs[t + 1], bs[t + 1], ms[t]));
}

/// Sets the buffer to `text` with the cursor at its end.
fn show(buffer: &mut InteractivePromptBuffer, text: String)
    requires
        fits(text@),
    ensures
        shows(*final(buffer), text@),
        final(buffer).text == text,
{
    buffer.cursor = crate::text::byte_length(&text);
    buffer.text = text;
}

fn draft_or_empty(d: &Option<String>) -> (s: String)
    ensures
        s@ == draft_text(*d),
{
    match d {
        Some(s) => s.clone(),
        None => String::new(),
    }
}

impl InteractiveHistoryState {
    pub fn from_entries(entries: Vec<String>) -> (h: Self)
        ensures
            h.entries == entries,
            h.index_from_end is None,
            h.draft is None,
    {
        InteractiveHistoryState { entries, index_from_end: None, draft: None }
    }

    /// Records a submission: its trimmed text is appended unless blank or
    /// equal to the last entry; browsing state is cleared either way.
    pub fn record_submission(&mut self, entry: &str)
        ensures
            final(self).index_from_end is None,
            final(self).draft is None,
            recorded(old(self).entries@, entry@, final(self).entries@),
    {
        let chars = to_chars(entry);
        let normalized = trim_chars(&chars);
        if normalized.len() == 0 {
            self.index_from_end = None;
            self.draft = None;
            return;
        }
        let duplicate = if self.entries.len() == 0 {
            false
        } else {
            let last = to_chars(self.entries[self.entries.len() - 1].as_str());
            crate::text::chars_eq(&last, &normalized)
        };
        if !duplicate {
            let ghost es = self.entries@;
            self.entries.push(from_chars(normalized.as_slice()));
            assert(self.entries@.drop_last() =~= es);
        }
        self.index_from_end = None;
        self.draft = None;
    }

    /// Steps back to an older entry, saving the buffer as the draft when
    /// browsing starts; false (and nothing changes) without entries.
    pub fn previous(&mut self, buffer: &mut InteractivePromptBuffer) -> (moved: bool)
        requires
            entries_fit(old(self).entries@),
        ensures
            stepped_back(*old(self), *old(buffer), *final(self), *final(buffer), moved),
    {
        if self.entries.len() == 0 {
            return false;
        }
        if self.index_from_end.is_none() {
            self.draft = Some(buffer.text.clone());
        }
        let current = match self.index_from_end {
            Some(i) => i,
            None => 0,
        };
        let stepped = current.saturating_add(1);
        let next_index = if stepped < self.entries.len() {
            stepped
        } else {
            self.entries.len()
        };
        self.index_from_end = Some(next_index);
        let entry = self.entries[self.entries.len() - next_index].clone();
        show(buffer, entry);
        true
    }

    /// Steps forward to a newer entry, or back to the saved draft after the
    /// newest; false (and nothing changes) when not browsing.
    pub fn next(&mut self, buffer: &mut InteractivePromptBuffer) -> (moved: bool)
        requires
            entries_fit(old(self).entries@),
            old(self).draft matches Some(d) ==> fits(d@),
            old(self).index_from_end matches Some(i) ==> i <= old(self).entries@.len() + 1,
        ensures
            stepped_forward(*old(self), *old(buffer), *final(self), *final(buffer), moved),
    {
        let current_index = match self.index_from_end {
            Some(i) => i,
            None => {
                return false;
            },
        };
        if current_index <= 1 {
            self.index_from_end = None;
            let text = draft_or_empty(&self.draft);
            show(buffer, text);
            self.draft = None;
            return true;
        }
        let next_index = current_index - 1;
        self.index_from_end = Some(next_index);
        let entry = self.entries[self.entries.len() - next_index].clone();
        show(buffer, entry);
        true
    }
}

/// Indices of the entries containing `q`, in ascending order.
pub open spec fn match_indices(entries: Seq<String>, q: Seq<char>) -> Seq<usize>
    decreases entries.len(),
{
    if entries.len() == 0 {
        Seq::empty()
    } else {
        match_indices(entries.drop_last(), q) + if contains(entries.last()@, q) {
            seq![(entries.len() - 1) as usize]
        } else {
            Seq::empty()
        }
    }
}

/// Every match index is an index of the entries.
pub proof fn lemma_match_indices_bounded(entries: Seq<String>, q: Seq<char>)
    ensures
        forall|i: int|
            0 <= i < match_indices(entries, q).len() ==> (#[trigger] match_indices(entries, q)[i])
                < entries.len(),
    decreases entries.len(),
{
    if entries.len() > 0 {
        let prefix = entries.drop_last();
        lemma_match_indices_bounded(prefix, q);
        let m = match_indices(entries, q);
        let mp = match_indices(prefix, q);
        assert forall|i: int| 0 <= i < m.len() implies #[trigger] m[i] < entries.len() by {
            if i < mp.len() {
                assert(m[i] == mp[i]);
            }
        }
    }
}

fn find_matches(entries: &Vec<String>, q: &[char]) -> (m: Vec<usize>)
    ensures
        m@ == match_indices(entries@, q@),
        forall|i: int| 0 <= i < m@.len() ==> (#[trigger] m@[i]) < entries@.len(),
{
    let mut m: Vec<usize> = Vec::new();
    let mut i: usize = 0;
    assert(entries@.take(0) =~= Seq::<String>::empty());
    while i < entries.len()
        invariant
            i <= entries@.len(),
            m@ == match_indices(entries@.take(i as int), q@),
        decreases entries.len() - i,
    {
        let e = to_chars(entries[i].as_str());
        assert(entries@.take(i + 1).drop_last() =~= entries@.take(i as int));
        if chars_contain(&e, q) {
            m.push(i);
        }
        assert(m@ =~= match_indices(entries@.take(i + 1), q@));
        i = i + 1;
    }
    assert(entries@.take(i as int) =~= entries@);
    proof {
        lemma_match_indices_bounded(entries@, q@);
    }
    m
}

/// The search state after searching `q` anew: active, on the newest match.
pub open spec fn searched(
    history: InteractiveHistoryState,
    before: InteractiveHistorySearchState,
    after: InteractiveHistorySearchState,
    q: Seq<char>,
) -> bool {
    let m = match_indices(history.entries@, q);
    &&& after.active
    &&& after.draft == before.draft
    &&& after.query@ == q
    &&& after.matches@ == m
    &&& after.match_index == if m.len() > 0 {
        (m.len() - 1) as usize
    } else {
        0
    }
}

/// The buffer shows the selected match, when there is one.
pub open spec fn shows_match(
    history: InteractiveHistoryState,
    s: InteractiveHistorySearchState,
    buffer_before: InteractivePromptBuffer,
    buffer_after: InteractivePromptBuffer,
    found: bool,
) -> bool {
    if s.match_index < s.matches@.len() {
        &&& found
        &&& shows(buffer_after, history.entries@[s.matches@[s.match_index as int] as int]@)
    } else {
        &&& !found
        &&& buffer_after == buffer_before
    }
}

/// A reverse search is under way, keeping the draft it already had or else
/// the buffer's text from when it started.
pub open spec fn search_started(
    s0: InteractiveHistorySearchState,
    b0: InteractivePromptBuffer,
    s1: InteractiveHistorySearchState,
) -> bool {
    &&& s1.active
    &&& s1.draft == if s0.active {
        s0.draft
    } else {
        Some(b0.text)
    }
}

/// What `restore_draft` does: a running search ends and its draft is shown
/// again; otherwise nothing changes.
pub open spec fn draft_restored(
    s0: InteractiveHistorySearchState,
    b0: InteractivePromptBuffer,
    s1: InteractiveHistorySearchState,
    b1: InteractivePromptBuffer,
    done: bool,
) -> bool {
    &&& done == s0.active
    &&& !done ==> s1 == s0 && b1 == b0
    &&& done ==> shows(b1, draft_text(s0.draft)) && search_is_reset(s1)
}

/// Law: cancelling a reverse search that `reverse_search` started puts back
/// the text the buffer held before the search, with the cursor at its end.
pub proof fn lemma_restore_draft_undoes_reverse_search(
    s0: InteractiveHistorySearchState,
    b0: InteractivePromptBuffer,
    s1: InteractiveHistorySearchState,
    b1: InteractivePromptBuffer,
    s2: InteractiveHistorySearchState,
    b2: InteractivePromptBuffer,
    done: bool,
)
    requires
        !s0.active,
        search_started(s0, b0, s1),
        draft_restored(s1, b1, s2, b2, done),
    ensures
        done,
        shows(b2, b0.text@),
        !s2.active,
{
}

/// Through a reverse search and the query extensions after it, the search
/// stays under way with the buffer's text from before as its draft.
proof fn lemma_search_keeps_draft(
    h: InteractiveHistoryState,
    ss: Seq<InteractiveHistorySearchState>,
    bs: Seq<InteractivePromptBuffer>,
    chs: Seq<char>,
    fs: Seq<bool>,
    j: int,
)
    requires
        ss.len() == chs.len() + 2,
        bs.len() == chs.len() + 2,
        fs.len() == chs.len() + 1,
        1 <= j < ss.len(),
        !ss[0].active,
        reverse_searched(h, ss[0], bs[0], ss[1], bs[1], fs[0]),
        forall|t: int|
            1 <= t <= chs.len() ==> #[trigger] query_extended(
                h,
                ss[t],
                bs[t],
                chs[t - 1],
                ss[t + 1],
                bs[t + 1],
                fs[t],
            ),
    ensures
        ss[j].active,
        ss[j].draft == Some(bs[0].text),
    decreases j,
{
    if j > 1 {
        lemma_search_keeps_draft(h, ss, bs, chs, fs, j - 1);
        let t = j - 1;
        assert(query_extended(h, ss[t], bs[t], chs[t - 1], ss[t + 1], bs[t + 1], fs[t]));
    }
}

/// Law: after `reverse_search` starts a search (whatever it finds) and any
/// number of characters are typed into the query with `extend_query`,
/// `restore_draft` ends the search, shows the text the buffer held before
/// the search (cursor at its end) and leaves the search state as `reset`
/// does. State `t` of the run is `ss[t]`, `bs[t]`; the characters typed are
/// `chs`, the answers `fs`.
pub proof fn lemma_restore_draft_after_query_extensions(
    h: InteractiveHistoryState,
    ss: Seq<InteractiveHistorySearchState>,
    bs: Seq<InteractivePromptBuffer>,
    chs: Seq<char>,
    fs: Seq<bool>,
    s_end: InteractiveHistorySearchState,
    b_end: InteractivePromptBuffer,
    done: bool,
)
    requires
        ss.len() == chs.len() + 2,
        bs.len() == chs.len() + 2,
        fs.len() == chs.len() + 1,
        !ss[0].active,
        reverse_searched(h, ss[0], bs[0], ss[1], bs[1], fs[0]),
        forall|t: int|
            1 <= t <= chs.len() ==> #[trigger] query_extended(
                h,
                ss[t],
                bs[t],
                chs[t - 1],
                ss[t + 1],
                bs[t + 1],
                fs[t],
            ),
        draft_restored(ss[chs.len() + 1int], bs[chs.len() + 1int], s_end, b_end, done),
    ensures
        done,
        shows(b_end, bs[0].text@),
        search_is_reset(s_end),
{
    lemma_search_keeps_draft(h, ss, bs, chs, fs, chs.len() + 1int);
}

/// What a reverse search step does: it starts the search (saving the
/// draft), then without matches searches the buffer's trimmed text, with a
/// changed query searches anew, and with the same query steps to the next
/// older match (wrapping to the newest); a blank query does nothing more.
pub open spec fn reverse_searched(
    h: InteractiveHistoryState,
    s0: InteractiveHistorySearchState,
    b0: InteractivePromptBuffer,
    s1: InteractiveHistorySearchState,
    b1: InteractivePromptBuffer,
    found: bool,
) -> bool {
    let q = trim(
        if s0.matches@.len() == 0 {
            b0.text@
        } else {
            s0.query@
        },
    );
    let n = s0.matches@.len();
    &&& search_started(s0, b0, s1)
    &&& if q.len() == 0 {
        &&& !found
        &&& b1 == b0
        &&& s1.query == s0.query
        &&& s1.matches == s0.matches
        &&& s1.match_index == s0.match_index
    } else if n == 0 || s0.query@ != q {
        &&& searched(h, InteractiveHistorySearchState { draft: s1.draft, ..s0 }, s1, q)
        &&& shows_match(h, s1, b0, b1, found)
    } else {
        &&& s1.query == s0.query
        &&& s1.matches == s0.matches
        &&& s1.match_index == if s0.match_index == 0 && n > 1 {
            (n - 1) as usize
        } else if s0.match_index == 0 {
            0
        } else {
            (s0.match_index - 1) as usize
        }
        &&& shows_match(h, s1, b0, b1, found)
    }
}

/// The search state after `reset`.
pub open spec fn search_is_reset(s: InteractiveHistorySearchState) -> bool {
    &&& !s.active
    &&& s.draft is None
    &&& s.query@ == Seq::<char>::empty()
    &&& s.matches@.len() == 0
    &&& s.match_index == 0
}

/// What dropping the query's last char does while searching: an emptied
/// query ends the search and shows the draft, else the shorter query is
/// searched; when not searching nothing changes.
pub open spec fn query_shortened(
    h: InteractiveHistoryState,
    s0: InteractiveHistorySearchState,
    b0: InteractivePromptBuffer,
    s1: InteractiveHistorySearchState,
    b1: InteractivePromptBuffer,
    done: bool,
) -> bool {
    let q = if s0.query@.len() > 0 {
        s0.query@.drop_last()
    } else {
        Seq::<char>::empty()
    };
    &&& !s0.active ==> !done && s1 == s0 && b1 == b0
    &&& s0.active ==> if q.len() == 0 {
        &&& done
        &&& shows(b1, draft_text(s0.draft))
        &&& search_is_reset(s1)
    } else {
        &&& searched(h, s0, s1, trim(q))
        &&& shows_match(h, s1, b0, b1, done)
    }
}

/// What typing `ch` into a running search does: the extended query is
/// searched; when not searching nothing changes.
pub open spec fn query_extended(
    h: InteractiveHistoryState,
    s0: InteractiveHistorySearchState,
    b0: InteractivePromptBuffer,
    ch: char,
    s1: InteractiveHistorySearchState,
    b1: InteractivePromptBuffer,
    found: bool,
) -> bool {
    &&& !s0.active ==> !found && s1 == s0 && b1 == b0
    &&& s0.active ==> searched(h, s0, s1, trim(s0.query@.push(ch))) && shows_match(h, s1, b0, b1, found)
}

impl InteractiveHistorySearchState {
    pub fn reset(&mut self)
        ensures
            search_is_reset(*final(self)),
    {
        self.active = false;
        self.draft = None;
        self.query = String::new();
        self.matches = Vec::new();
        self.match_index = 0;
    }

    pub fn is_active(&self) -> (b: bool)
        ensures
            b == self.active,
    {
        self.active
    }

    /// Searches the history for the trimmed `query` and shows the newest
    /// match; false when nothing matches.
    pub fn set_query(
        &mut self,
        history: &InteractiveHistoryState,
        buffer: &mut InteractivePromptBuffer,
        query: String,
    ) -> (found: bool)
        requires
            entries_fit(history.entries@),
        ensures
            searched(*history, *old(self), *final(self), trim(query@)),
            shows_match(*history, *final(self), *old(buffer), *final(buffer), found),
    {
        let q = to_chars(query.as_str());
        let normalized = trim_chars(&q);
        self.query = from_chars(normalized.as_slice());
        self.matches = find_matches(&history.entries, &normalized);
        self.match_index = self.matches.len().saturating_sub(1);
        self.active = true;
        if self.match_index < self.matches.len() {
            let entry_index = self.matches[self.match_index];
            let entry = history.entries[entry_index].clone();
            show(buffer, entry);
            true
        } else {
            false
        }
    }

    /// Starts or continues a reverse search. The first call saves the buffer
    /// as the draft. Without matches the buffer's trimmed text becomes the
    /// query; with matches a repeated query steps to the next older match,
    /// wrapping to the newest, while a changed query searches anew.
    pub fn reverse_search(
        &mut self,
        history: &InteractiveHistoryState,
        buffer: &mut InteractivePromptBuffer,
    ) -> (found: bool)
        requires
            entries_fit(history.entries@),
            forall|i: int|
                0 <= i < old(self).matches@.len() ==> (#[trigger] old(self).matches@[i])
                    < history.entries@.len(),
        ensures
            reverse_searched(*history, *old(self), *old(buffer), *final(self), *final(buffer), found),
    {
        if !self.active {
            self.active = true;
            self.draft = Some(buffer.text.clone());
        }
        let query = if self.matches.len() == 0 {
            buffer.text.clone()
        } else {
            self.query.clone()
        };
        let qc = to_chars(query.as_str());
        let normalized = trim_chars(&qc);
        if normalized.len() == 0 {
            return false;
        }
        let current = to_chars(self.query.as_str());
        let same_query = crate::text::chars_eq(&current, &normalized);
        if self.matches.len() == 0 || !same_query {
            self.query = from_chars(normalized.as_slice());
            self.matches = find_matches(&history.entries, &normalized);
            self.match_index = self.matches.len().saturating_sub(1);
        } else {
            if self.match_index == 0 && self.matches.len() > 1 {
                self.match_index = self.matches.len() - 1;
            } else {
                self.match_index = self.match_index.saturating_sub(1);
            }
        }
        if self.match_index < self.matches.len() {
            let entry_index = self.matches[self.match_index];
            let entry = history.entries[entry_index].clone();
            show(buffer, entry);
            true
        } else {
            self.active = true;
            false
        }
    }

    /// Drops the last char of the query and searches again; an emptied query
    /// restores the draft and ends the search. False when not searching.
    pub fn backspace_query(
        &mut self,
        history: &InteractiveHistoryState,
        buffer: &mut InteractivePromptBuffer,
    ) -> (done: bool)
        requires
            entries_fit(history.entries@),
            old(self).draft matches Some(d) ==> fits(d@),
        ensures
            query_shortened(*history, *old(self), *old(buffer), *final(self), *final(buffer), done),
    {
        if !self.active {
            return false;
        }
        let mut q = to_chars(self.query.as_str());
        if q.len() > 0 {
            q.pop();
        }
        if q.len() == 0 {
            let text = draft_or_empty(&self.draft);
            show(buffer, text);
            self.reset();
            return true;
        }
        let query = from_chars(q.as_slice());
        self.set_query(history, buffer, query)
    }

    /// Appends `ch` to the query and searches again. False when not searching.
    pub fn extend_query(
        &mut self,
        history: &InteractiveHistoryState,
        buffer: &mut InteractivePromptBuffer,
        ch: char,
    ) -> (found: bool)
        requires
            entries_fit(history.entries@),
        ensures
            query_extended(*history, *old(self), *old(buffer), ch, *final(self), *final(buffer), found),
    {
        if !self.active {
            return false;
        }
        let mut q = to_chars(self.query.as_str());
        q.push(ch);
        let query = from_chars(q.as_slice());
        self.set_query(history, buffer, query)
    }

    /// Ends the search and puts the saved draft back. False when not
    /// searching.
    pub fn restore_draft(&mut self, buffer: &mut InteractivePromptBuffer) -> (done: bool)
        requires
            old(self).draft matches Some(d) ==> fits(d@),
        ensures
            draft_restored(*old(self), *old(buffer), *final(self), *final(buffer), done),
    {
        if !self.active {
            return false;
        }
        let text = draft_or_empty(&self.draft);
        show(buffer, text);
        self.reset();
        true
    }

    /// The history entry the search currently selects.
    pub fn current_match(&self, history: &InteractiveHistoryState) -> (r: Option<String>)
        ensures
            match r {
                Some(e) => self.match_index < self.matches@.len() && self.matches@[self.match_index as int]
                    < history.entries@.len() && e == history.entries@[self.matches@[self.match_index as int] as int],
                None => !(self.match_index < self.matches@.len() && self.matches@[self.match_index as int]
                    < history.entries@.len()),
            },
    {
        if self.match_index < self.matches.len() {
            let i = self.matches[self.match_index];
            if i < history.entries.len() {
                return Some(history.entries[i].clone());
            }
        }
        None
    }
}

} // verus!
