//! The composer's prompt buffer: a text with a byte cursor, edited by
//! character, by word and by line.
use vstd::prelude::*;

use crate::text::byte_len;
use crate::text::byte_offset;
use crate::text::char_index;
use crate::text::first_line;
use crate::text::from_chars;
use crate::text::index_at_byte;
use crate::text::is_boundary;
use crate::text::is_ws;
use crate::text::is_whitespace;
use crate::text::lines;
use crate::text::offset_of;
use crate::text::split_lines;
use crate::text::to_chars;
use crate::text::utf8_width;
use crate::text::views;

verus! {

/// A text that `String` can hold: at most `isize::MAX` bytes.
pub open spec fn fits(t: Seq<char>) -> bool {
    byte_len(t) <= isize::MAX
}

/// The cursor of a buffer lies on a char boundary of its text.
pub open spec fn on_boundary(t: Seq<char>, b: usize) -> bool {
    is_boundary(t, b as int)
}

/// `b1` is `b0` with `ch` inserted at the cursor and the cursor past it.
pub open spec fn char_inserted(b0: InteractivePromptBuffer, ch: char, b1: InteractivePromptBuffer) -> bool {
    let t = b0.text@;
    let k = char_index(t, b0.cursor as int);
    &&& b1.text@ == t.take(k) + seq![ch] + t.skip(k)
    &&& b1.cursor == b0.cursor + utf8_width(ch)
}

/// `b1` is `b0` with the char before the cursor deleted and the cursor where
/// that char began; at the start nothing changes.
pub open spec fn backspaced(b0: InteractivePromptBuffer, b1: InteractivePromptBuffer) -> bool {
    let t = b0.text@;
    let k = char_index(t, b0.cursor as int);
    if b0.cursor == 0 {
        b1 == b0
    } else {
        &&& b1.text@ == t.take(k - 1) + t.skip(k)
        &&& b1.cursor == byte_offset(t, k - 1)
    }
}

// word motions over char indices

pub open spec fn skip_ws_back(t: Seq<char>, k: int) -> int
    decreases k,
{
    if 0 < k <= t.len() && is_ws(t[k - 1]) {
        skip_ws_back(t, k - 1)
    } else {
        k
    }
}

pub open spec fn skip_word_back(t: Seq<char>, k: int) -> int
    decreases k,
{
    if 0 < k <= t.len() && !is_ws(t[k - 1]) {
        skip_word_back(t, k - 1)
    } else {
        k
    }
}

pub open spec fn skip_ws_fwd(t: Seq<char>, k: int) -> int
    decreases t.len() - k,
{
    if 0 <= k < t.len() && is_ws(t[k]) {
        skip_ws_fwd(t, k + 1)
    } else {
        k
    }
}

pub open spec fn skip_word_fwd(t: Seq<char>, k: int) -> int
    decreases t.len() - k,
{
    if 0 <= k < t.len() && !is_ws(t[k]) {
        skip_word_fwd(t, k + 1)
    } else {
        k
    }
}

/// Start of the word before char index `k` (skipping whitespace first); `k`
/// itself when only whitespace precedes it.
pub open spec fn word_left(t: Seq<char>, k: int) -> int {
    let j = skip_ws_back(t, k);
    if j == 0 {
        k
    } else {
        skip_word_back(t, j)
    }
}

/// Start of the word after the one at char index `k`, or the end.
pub open spec fn word_right(t: Seq<char>, k: int) -> int {
    skip_ws_fwd(t, skip_word_fwd(t, skip_ws_fwd(t, k)))
}

pub proof fn lemma_skip_back_bounds(t: Seq<char>, k: int)
    requires
        0 <= k <= t.len(),
    ensures
        0 <= skip_ws_back(t, k) <= k,
        0 <= skip_word_back(t, k) <= k,
    decreases k,
{
    if k > 0 {
        lemma_skip_back_bounds(t, k - 1);
    }
}

proof fn lemma_skip_fwd_bounds(t: Seq<char>, k: int)
    requires
        0 <= k <= t.len(),
    ensures
        k <= skip_ws_fwd(t, k) <= t.len(),
        k <= skip_word_fwd(t, k) <= t.len(),
    decreases t.len() - k,
{
    if k < t.len() {
        lemma_skip_fwd_bounds(t, k + 1);
    }
}

fn ws_back(v: &[char], k: usize) -> (j: usize)
    requires
        k <= v@.len(),
    ensures
        j == skip_ws_back(v@, k as int),
{
    let mut j = k;
    while j > 0 && is_whitespace(v[j - 1])
        invariant
            j <= k <= v@.len(),
            skip_ws_back(v@, k as int) == skip_ws_back(v@, j as int),
        decreases j,
    {
        j = j - 1;
    }
    j
}

fn word_back(v: &[char], k: usize) -> (j: usize)
    requires
        k <= v@.len(),
    ensures
        j == skip_word_back(v@, k as int),
{
    let mut j = k;
    while j > 0 && !is_whitespace(v[j - 1])
        invariant
            j <= k <= v@.len(),
            skip_word_back(v@, k as int) == skip_word_back(v@, j as int),
        decreases j,
    {
        j = j - 1;
    }
    j
}

fn ws_fwd(v: &[char], k: usize) -> (j: usize)
    requires
        k <= v@.len(),
    ensures
        j == skip_ws_fwd(v@, k as int),
        k <= j <= v@.len(),
{
    let mut j = k;
    while j < v.len() && is_whitespace(v[j])
        invariant
            k <= j <= v@.len(),
            skip_ws_fwd(v@, k as int) == skip_ws_fwd(v@, j as int),
        decreases v.len() - j,
    {
        j = j + 1;
    }
    j
}

fn word_fwd(v: &[char], k: usize) -> (j: usize)
    requires
        k <= v@.len(),
    ensures
        j == skip_word_fwd(v@, k as int),
        k <= j <= v@.len(),
{
    let mut j = k;
    while j < v.len() && !is_whitespace(v[j])
        invariant
            k <= j <= v@.len(),
            skip_word_fwd(v@, k as int) == skip_word_fwd(v@, j as int),
        decreases v.len() - j,
    {
        j = j + 1;
    }
    j
}

/// The sum over the first `r` lines of their byte length plus one separator.
pub open spec fn lines_prefix_bytes(ls: Seq<Seq<char>>, r: int) -> int
    decreases r,
{
    if r <= 0 || ls.len() == 0 {
        0
    } else {
        lines_prefix_bytes(ls, r - 1) + byte_len(ls[r - 1]) + 1
    }
}

pub open spec fn line_count_of(t: Seq<char>) -> int {
    if t.len() == 0 {
        1
    } else {
        lines(t).len() as int
    }
}

pub open spec fn line_at_of(t: Seq<char>, row: int) -> Seq<char> {
    if 0 <= row < lines(t).len() {
        lines(t)[row]
    } else {
        Seq::empty()
    }
}

/// Row and column (in chars) of the end of `before`, as the buffer reports
/// them from the lines of the text before the cursor.
pub open spec fn row_col_of(before: Seq<char>) -> (int, int) {
    let ls = lines(before);
    if ls.len() == 0 {
        (0, 0)
    } else {
        (ls.len() - 1, ls.last().len() as int)
    }
}

/// The byte offset `set_row_col` aims at before clamping to the text.
pub open spec fn row_col_target(t: Seq<char>, row: int, col: int) -> int {
    let total = line_count_of(t);
    let r = if row < total - 1 {
        row
    } else {
        total - 1
    };
    let line = line_at_of(t, r);
    let c = if col < line.len() {
        col
    } else {
        line.len() as int
    };
    if lines(t).len() == 0 {
        0
    } else {
        lines_prefix_bytes(lines(t), r) + byte_offset(line, c)
    }
}

/// The first line is a prefix of the text.
pub proof fn lemma_first_line_prefix(t: Seq<char>)
    ensures
        first_line(t).len() <= t.len(),
        t.take(first_line(t).len() as int) == first_line(t),
{
    reveal_with_fuel(lines, 2);
    if t.len() == 0 {
        assert(t.take(0) =~= first_line(t));
    } else {
        let j = crate::text::first_newline(t);
        if j < t.len() {
            let l = t.take(j as int);
            if l.len() > 0 && l.last() == '\r' {
                assert(t.take(l.len() - 1) =~= l.drop_last());
            } else {
                assert(t.take(j as int) =~= l);
            }
        } else {
            assert(t.take(t.len() as int) =~= t);
        }
    }
}

/// `min(byte_offset(s, k), usize::MAX)`, without overflow.
fn sat_offset(s: &[char], k: usize) -> (b: usize)
    requires
        k <= s@.len(),
    ensures
        b == if byte_offset(s@, k as int) <= usize::MAX {
            byte_offset(s@, k as int)
        } else {
            usize::MAX as nat
        },
{
    let mut b: usize = 0;
    let mut i: usize = 0;
    assert(s@.take(0) =~= Seq::<char>::empty());
    while i < k
        invariant
            i <= k <= s@.len(),
            b == if byte_offset(s@, i as int) <= usize::MAX {
                byte_offset(s@, i as int)
            } else {
                usize::MAX as nat
            },
        decreases k - i,
    {
        proof {
            crate::text::lemma_byte_offset_step(s@, i as int);
        }
        b = b.saturating_add(crate::text::char_width(s[i]));
        i = i + 1;
    }
    b
}

/// `min(x, usize::MAX)` for a non-negative `x`.
pub open spec fn sat(x: int) -> int {
    if x <= usize::MAX {
        x
    } else {
        usize::MAX as int
    }
}

/// The text `t` with its first line replaced by `r` (the line ending and
/// the rest of the text kept).
pub open spec fn replaced_first_line(t: Seq<char>, r: Seq<char>) -> Seq<char> {
    r + t.skip(first_line(t).len() as int)
}

/// Where a cursor at byte `b` of `t` lands when the first line is replaced by
/// `r`: at the end of `r` when it was inside the first line, else shifted with
/// the rest of the text, and never past the end.
pub open spec fn cursor_after_replacing_first_line(t: Seq<char>, b: int, r: Seq<char>) -> int {
    let fl = first_line(t);
    let nt = replaced_first_line(t, r);
    if b <= byte_len(fl) {
        byte_len(r) as int
    } else if b - byte_len(fl) + byte_len(r) <= byte_len(nt) {
        b - byte_len(fl) + byte_len(r)
    } else {
        byte_len(nt) as int
    }
}

/// Byte 0 is a char boundary of every text.
pub proof fn lemma_start_is_boundary(t: Seq<char>)
    ensures
        is_boundary(t, 0),
        char_index(t, 0) == 0,
{
    assert(t.take(0) =~= Seq::<char>::empty());
    assert(byte_len(Seq::<char>::empty()) == 0);
    crate::text::lemma_char_index(t, 0);
}

/// A byte offset of a text is also one of any text with the same prefix.
pub proof fn lemma_offset_in_edited(t: Seq<char>, u: Seq<char>, k: int)
    requires
        0 <= k <= t.len(),
        k <= u.len(),
        t.take(k) == u.take(k),
    ensures
        byte_offset(u, k) == byte_offset(t, k),
        is_boundary(u, byte_offset(t, k) as int),
        char_index(u, byte_offset(t, k) as int) == k,
{
    crate::text::lemma_char_index(u, k);
}

/// Replacing the first line keeps the cursor on a char boundary.
pub proof fn lemma_replace_keeps_boundary(t: Seq<char>, b: int, r: Seq<char>)
    requires
        is_boundary(t, b),
    ensures
        is_boundary(replaced_first_line(t, r), cursor_after_replacing_first_line(t, b, r)),
{
    let fl = first_line(t);
    let n = fl.len() as int;
    lemma_first_line_prefix(t);
    let nt = replaced_first_line(t, r);
    let target = cursor_after_replacing_first_line(t, b, r);
    crate::text::lemma_byte_len_concat(r, t.skip(n));
    assert(t =~= t.take(n) + t.skip(n));
    crate::text::lemma_byte_len_concat(t.take(n), t.skip(n));
    if b <= byte_len(fl) {
        assert(nt.take(r.len() as int) =~= r);
        crate::text::lemma_char_index(nt, r.len() as int);
    } else if b - byte_len(fl) + byte_len(r) <= byte_len(nt) {
        let k = char_index(t, b);
        assert(0 <= k <= t.len() && byte_offset(t, k) == b);
        if k <= n {
            crate::text::lemma_byte_offset_monotone(t, k, n);
        }
        assert(k > n);
        let j = k - n;
        let sub = t.subrange(n, k);
        assert(nt.take(r.len() + j) =~= r + sub);
        crate::text::lemma_byte_len_concat(r, sub);
        assert(t.take(k) =~= t.take(n) + sub);
        crate::text::lemma_byte_len_concat(t.take(n), sub);
        crate::text::lemma_char_index(nt, r.len() + j);
    } else {
        crate::text::lemma_byte_offset_bounds(nt, nt.len() as int);
        crate::text::lemma_char_index(nt, nt.len() as int);
    }
}

#[derive(Clone, Debug, Default, PartialEq, Eq)]
pub struct InteractivePromptBuffer {
    pub text: String,
    pub cursor: usize,
}

impl InteractivePromptBuffer {
    /// Empties the buffer.
    pub fn clear(&mut self)
        ensures
            final(self).text@ == Seq::<char>::empty(),
            final(self).cursor == 0,
            on_boundary(final(self).text@, final(self).cursor),
    {
        self.text = String::new();
        self.cursor = 0;
        proof {
            lemma_start_is_boundary(self.text@);
        }
    }

    pub fn move_home(&mut self)
        ensures
            final(self).text == old(self).text,
            final(self).cursor == 0,
            on_boundary(final(self).text@, final(self).cursor),
    {
        self.cursor = 0;
        proof {
            lemma_start_is_boundary(self.text@);
        }
    }

    pub fn move_end(&mut self)
        requires
            fits(old(self).text@),
        ensures
            final(self).text == old(self).text,
            final(self).cursor == byte_len(old(self).text@),
            on_boundary(final(self).text@, final(self).cursor),
    {
        self.cursor = crate::text::byte_length(&self.text);
        proof {
            crate::text::lemma_byte_offset_bounds(self.text@, self.text@.len() as int);
            crate::text::lemma_char_index(self.text@, self.text@.len() as int);
        }
    }

    /// Inserts `ch` at the cursor and moves the cursor past it.
    pub fn insert_char(&mut self, ch: char)
        requires
            on_boundary(old(self).text@, old(self).cursor),
            byte_len(old(self).text@) + utf8_width(ch) <= isize::MAX,
        ensures
            char_inserted(*old(self), ch, *final(self)),
            on_boundary(final(self).text@, final(self).cursor),
    {
        let ghost t = self.text@;
        let mut v = to_chars(self.text.as_str());
        let k = index_at_byte(&v, self.cursor).unwrap();
        proof {
            crate::text::lemma_char_index(t, k as int);
            crate::text::lemma_byte_offset_bounds(t, k as int);
        }
        v.insert(k, ch);
        let ghost nt = v@;
        assert(nt =~= t.take(k as int) + seq![ch] + t.skip(k as int));
        proof {
            assert(nt.take(k as int) =~= t.take(k as int));
            crate::text::lemma_byte_offset_step(nt, k as int);
            crate::text::lemma_char_index(nt, k + 1);
        }
        self.text = from_chars(v.as_slice());
        self.cursor = self.cursor + crate::text::char_width(ch);
    }

    pub fn insert_newline(&mut self)
        requires
            on_boundary(old(self).text@, old(self).cursor),
            byte_len(old(self).text@) + 1 <= isize::MAX,
        ensures
            ({
                let t = old(self).text@;
                let k = char_index(t, old(self).cursor as int);
                &&& final(self).text@ == t.take(k) + seq!['\n'] + t.skip(k)
                &&& final(self).cursor == old(self).cursor + 1
            }),
            on_boundary(final(self).text@, final(self).cursor),
    {
        self.insert_char('\n');
    }

    /// Deletes the char before the cursor.
    pub fn backspace(&mut self)
        requires
            fits(old(self).text@),
            old(self).cursor == 0 || on_boundary(old(self).text@, old(self).cursor),
        ensures
            backspaced(*old(self), *final(self)),
            on_boundary(old(self).text@, old(self).cursor) ==> on_boundary(final(self).text@, final(self).cursor),
    {
        if self.cursor == 0 {
            return;
        }
        let ghost t = self.text@;
        let mut v = to_chars(self.text.as_str());
        let k = index_at_byte(&v, self.cursor).unwrap();
        proof {
            crate::text::lemma_char_index(t, k as int);
        }
        let previous = offset_of(&v, k - 1);
        v.remove(k - 1);
        assert(v@ =~= t.take(k - 1) + t.skip(k as int));
        proof {
            assert(v@.take(k - 1) =~= t.take(k - 1));
            lemma_offset_in_edited(t, v@, k - 1);
        }
        self.text = from_chars(v.as_slice());
        self.cursor = previous;
    }

    pub fn move_left(&mut self)
        requires
            fits(old(self).text@),
            old(self).cursor == 0 || on_boundary(old(self).text@, old(self).cursor),
        ensures
            final(self).text == old(self).text,
            old(self).cursor == 0 ==> final(self).cursor == 0,
            old(self).cursor != 0 ==> final(self).cursor == byte_offset(
                old(self).text@,
                char_index(old(self).text@, old(self).cursor as int) - 1,
            ),
            on_boundary(old(self).text@, old(self).cursor) ==> on_boundary(final(self).text@, final(self).cursor),
    {
        if self.cursor == 0 {
            return;
        }
        let ghost t = self.text@;
        let v = to_chars(self.text.as_str());
        let k = index_at_byte(&v, self.cursor).unwrap();
        proof {
            crate::text::lemma_char_index(t, k as int);
        }
        self.cursor = offset_of(&v, k - 1);
    }

    pub fn move_right(&mut self)
        requires
            fits(old(self).text@),
            old(self).cursor >= byte_len(old(self).text@) || on_boundary(old(self).text@, old(self).cursor),
        ensures
            final(self).text == old(self).text,
            old(self).cursor >= byte_len(old(self).text@) ==> final(self).cursor == old(self).cursor,
            old(self).cursor < byte_len(old(self).text@) ==> final(self).cursor == byte_offset(
                old(self).text@,
                char_index(old(self).text@, old(self).cursor as int) + 1,
            ),
            on_boundary(old(self).text@, old(self).cursor) ==> on_boundary(final(self).text@, final(self).cursor),
    {
        let len = crate::text::byte_length(&self.text);
        if self.cursor >= len {
            return;
        }
        let ghost t = self.text@;
        let v = to_chars(self.text.as_str());
        let k = index_at_byte(&v, self.cursor).unwrap();
        proof {
            crate::text::lemma_char_index(t, k as int);
            if k == t.len() {
                crate::text::lemma_byte_offset_bounds(t, k as int);
            }
            crate::text::lemma_byte_offset_bounds(t, k + 1);
        }
        self.cursor = offset_of(&v, k + 1);
    }

    /// Moves the cursor to the start of the word before it.
    pub fn move_word_left(&mut self)
        requires
            fits(old(self).text@),
            old(self).cursor == 0 || on_boundary(old(self).text@, old(self).cursor),
        ensures
            final(self).text == old(self).text,
            old(self).cursor == 0 ==> final(self).cursor == 0,
            old(self).cursor != 0 ==> final(self).cursor == byte_offset(
                old(self).text@,
                word_left(old(self).text@, char_index(old(self).text@, old(self).cursor as int)),
            ),
            on_boundary(old(self).text@, old(self).cursor) ==> on_boundary(final(self).text@, final(self).cursor),
    {
        if self.cursor == 0 {
            return;
        }
        let ghost t = self.text@;
        let v = to_chars(self.text.as_str());
        let k = index_at_byte(&v, self.cursor).unwrap();
        proof {
            crate::text::lemma_char_index(t, k as int);
            lemma_skip_back_bounds(t, k as int);
        }
        let j = ws_back(&v, k);
        if j == 0 {
            return;
        }
        proof {
            lemma_skip_back_bounds(t, j as int);
        }
        let w = word_back(&v, j);
        self.cursor = offset_of(&v, w);
    }

    /// Moves the cursor to the start of the next word, or to the end.
    pub fn move_word_right(&mut self)
        requires
            fits(old(self).text@),
            old(self).cursor >= byte_len(old(self).text@) || on_boundary(old(self).text@, old(self).cursor),
        ensures
            final(self).text == old(self).text,
            old(self).cursor >= byte_len(old(self).text@) ==> final(self).cursor == old(self).cursor,
            old(self).cursor < byte_len(old(self).text@) ==> final(self).cursor == byte_offset(
                old(self).text@,
                word_right(old(self).text@, char_index(old(self).text@, old(self).cursor as int)),
            ),
            on_boundary(old(self).text@, old(self).cursor) ==> on_boundary(final(self).text@, final(self).cursor),
    {
        let len = crate::text::byte_length(&self.text);
        if self.cursor >= len {
            return;
        }
        let ghost t = self.text@;
        let v = to_chars(self.text.as_str());
        let k = index_at_byte(&v, self.cursor).unwrap();
        proof {
            crate::text::lemma_char_index(t, k as int);
        }
        let p = ws_fwd(&v, k);
        let q = word_fwd(&v, p);
        let r = ws_fwd(&v, q);
        self.cursor = offset_of(&v, r);
    }

    /// Deletes from the start of the word before the cursor up to the cursor.
    pub fn delete_word_left(&mut self)
        requires
            fits(old(self).text@),
            old(self).cursor == 0 || on_boundary(old(self).text@, old(self).cursor),
        ensures
            ({
                let t = old(self).text@;
                let k = char_index(t, old(self).cursor as int);
                let w = word_left(t, k);
                if old(self).cursor == 0 {
                    *final(self) == *old(self)
                } else {
                    &&& final(self).text@ == t.take(w) + t.skip(k)
                    &&& final(self).cursor == byte_offset(t, w)
                }
            }),
            on_boundary(old(self).text@, old(self).cursor) ==> on_boundary(final(self).text@, final(self).cursor),
    {
        if self.cursor == 0 {
            return;
        }
        let ghost t = self.text@;
        let mut v = to_chars(self.text.as_str());
        let k = index_at_byte(&v, self.cursor).unwrap();
        proof {
            crate::text::lemma_char_index(t, k as int);
            lemma_skip_back_bounds(t, k as int);
        }
        let j = ws_back(&v, k);
        let w = if j == 0 {
            k
        } else {
            proof {
                lemma_skip_back_bounds(t, j as int);
            }
            word_back(&v, j)
        };
        let new_cursor = offset_of(&v, w);
        if w < k {
            let mut out: Vec<char> = crate::text::sub_chars(&v, 0, w);
            let tail = crate::text::sub_chars(&v, k, v.len());
            let joined = crate::text::chars_concat(&out, &tail);
            assert(joined@ =~= t.take(w as int) + t.skip(k as int));
            proof {
                assert(joined@.take(w as int) =~= t.take(w as int));
                lemma_offset_in_edited(t, joined@, w as int);
            }
            self.text = from_chars(joined.as_slice());
        } else {
            assert(t.take(w as int) + t.skip(k as int) =~= t);
            proof {
                crate::text::lemma_char_index(t, w as int);
            }
        }
        self.cursor = new_cursor;
    }

    /// The first line of the text.
    pub fn first_line(&self) -> (l: String)
        ensures
            l@ == first_line(self.text@),
    {
        let v = to_chars(self.text.as_str());
        let ls = split_lines(&v);
        if ls.len() > 0 {
            assert(views(ls@)[0] == ls@[0]@);
            from_chars(ls[0].as_slice())
        } else {
            String::new()
        }
    }

    /// Replaces the first line by `replacement`, keeping the rest of the text
    /// (including the first line ending). A cursor inside the first line moves
    /// to the end of the replacement; one after it shifts with the text.
    pub fn replace_first_line(&mut self, replacement: &str)
        requires
            fits(old(self).text@),
            fits(replacement@),
        ensures
            final(self).text@ == replaced_first_line(old(self).text@, replacement@),
            final(self).cursor == cursor_after_replacing_first_line(
                old(self).text@,
                old(self).cursor as int,
                replacement@,
            ),
            on_boundary(old(self).text@, old(self).cursor) ==> on_boundary(final(self).text@, final(self).cursor),
    {
        let ghost t = self.text@;
        let v = to_chars(self.text.as_str());
        let ls = split_lines(&v);
        let fl_len = if ls.len() > 0 {
            assert(views(ls@)[0] == ls@[0]@);
            ls[0].len()
        } else {
            0
        };
        proof {
            lemma_first_line_prefix(t);
            assert(fl_len == first_line(t).len());
            crate::text::lemma_byte_offset_bounds(t, fl_len as int);
        }
        let fb = offset_of(&v, fl_len);
        let r = to_chars(replacement);
        proof {
            crate::text::lemma_byte_offset_bounds(r@, r@.len() as int);
        }
        let rb = offset_of(&r, r.len());
        let tail = crate::text::sub_chars(&v, fl_len, v.len());
        let joined = crate::text::chars_concat(&r, &tail);
        proof {
            assert(tail@ =~= t.skip(fl_len as int));
            assert(t =~= t.take(fl_len as int) + t.skip(fl_len as int));
            crate::text::lemma_byte_len_concat(t.take(fl_len as int), t.skip(fl_len as int));
            crate::text::lemma_byte_len_concat(r@, tail@);
        }
        let tail_bytes = crate::text::byte_length(&self.text) - fb;
        let new_len = rb + tail_bytes;
        let cursor = if self.cursor <= fb {
            rb
        } else {
            let x = self.cursor - fb;
            if x > new_len - rb {
                new_len
            } else {
                x + rb
            }
        };
        self.text = from_chars(joined.as_slice());
        self.cursor = cursor;
        proof {
            if on_boundary(t, old(self).cursor) {
                lemma_replace_keeps_boundary(t, old(self).cursor as int, replacement@);
            }
        }
    }

    /// Row and column (in chars) of the cursor, from the lines of the text
    /// before it.
    pub fn row_col(&self) -> (rc: (usize, usize))
        requires
            on_boundary(self.text@, self.cursor),
        ensures
            rc.0 == row_col_of(self.text@.take(char_index(self.text@, self.cursor as int))).0,
            rc.1 == row_col_of(self.text@.take(char_index(self.text@, self.cursor as int))).1,
    {
        let v = to_chars(self.text.as_str());
        let k = index_at_byte(&v, self.cursor).unwrap();
        proof {
            crate::text::lemma_char_index(self.text@, k as int);
        }
        let before = crate::text::sub_chars(&v, 0, k);
        assert(before@ =~= self.text@.take(k as int));
        let ls = split_lines(&before);
        if ls.len() == 0 {
            (0, 0)
        } else {
            assert(views(ls@)[ls@.len() - 1] == ls@[ls@.len() - 1]@);
            (ls.len() - 1, ls[ls.len() - 1].len())
        }
    }

    /// Number of lines, counting an empty text as one line.
    pub fn line_count(&self) -> (n: usize)
        ensures
            n == line_count_of(self.text@),
    {
        let v = to_chars(self.text.as_str());
        if v.len() == 0 {
            1
        } else {
            split_lines(&v).len()
        }
    }

    /// The line at `row`, or the empty text past the last line.
    pub fn line_at(&self, row: usize) -> (l: String)
        ensures
            l@ == line_at_of(self.text@, row as int),
    {
        let v = to_chars(self.text.as_str());
        let ls = split_lines(&v);
        if row < ls.len() {
            assert(views(ls@)[row as int] == ls@[row as int]@);
            from_chars(ls[row].as_slice())
        } else {
            String::new()
        }
    }

    /// Moves the cursor to `row` and `col` (in chars), clamped to the last
    /// line and to the line's length; each earlier line counts its bytes plus
    /// one separator byte, and the result is clamped to the text's length.
    pub fn set_row_col(&mut self, row: usize, col: usize)
        requires
            fits(old(self).text@),
        ensures
            final(self).text == old(self).text,
            final(self).cursor == if row_col_target(old(self).text@, row as int, col as int)
                <= byte_len(old(self).text@) {
                row_col_target(old(self).text@, row as int, col as int)
            } else {
                byte_len(old(self).text@) as int
            },
    {
        let ghost t = self.text@;
        let v = to_chars(self.text.as_str());
        let ls = split_lines(&v);
        proof {
            if t.len() > 0 {
                assert(lines(t).len() >= 1);
            }
        }
        let total = if v.len() == 0 {
            1
        } else {
            ls.len()
        };
        let r = if row < total - 1 {
            row
        } else {
            total - 1
        };
        let len = crate::text::byte_length(&self.text);
        if ls.len() == 0 {
            self.cursor = 0;
            return;
        }
        assert(views(ls@)[r as int] == ls@[r as int]@);
        let line = &ls[r];
        let c = if col < line.len() {
            col
        } else {
            line.len()
        };
        let mut offset: usize = 0;
        let mut i: usize = 0;
        while i < r
            invariant
                i <= r < ls@.len(),
                views(ls@) == lines(t),
                offset == sat(lines_prefix_bytes(lines(t), i as int)),
            decreases r - i,
        {
            assert(views(ls@)[i as int] == ls@[i as int]@);
            let lb = sat_offset(&ls[i], ls[i].len());
            proof {
                assert(ls@[i as int]@.take(ls@[i as int]@.len() as int) =~= ls@[i as int]@);
            }
            offset = offset.saturating_add(lb).saturating_add(1);
            i = i + 1;
        }
        let cb = sat_offset(line, c);
        offset = offset.saturating_add(cb);
        self.cursor = if offset < len {
            offset
        } else {
            len
        };
    }
}

/// Law: `backspace` right after `insert_char` gives back the text and the
/// cursor from before the insertion. Stated over the clauses of the two
/// methods: the inserted text and cursor, the char index `backspace` finds
/// there, and the text and cursor it leaves.
pub proof fn lemma_backspace_undoes_insert_char(t: Seq<char>, cursor: int, ch: char)
    requires
        is_boundary(t, cursor),
    ensures
        ({
            let k = char_index(t, cursor);
            let inserted = t.take(k) + seq![ch] + t.skip(k);
            let after = cursor + utf8_width(ch);
            &&& after != 0
            &&& is_boundary(inserted, after)
            &&& char_index(inserted, after) == k + 1
            &&& inserted.take(k) + inserted.skip(k + 1) == t
            &&& byte_offset(inserted, k) == cursor
        }),
{
    let k = char_index(t, cursor);
    let inserted = t.take(k) + seq![ch] + t.skip(k);
    assert(0 <= k <= t.len() && byte_offset(t, k) == cursor);
    assert(inserted.take(k) =~= t.take(k));
    assert(inserted[k] == ch);
    crate::text::lemma_byte_offset_step(inserted, k);
    crate::text::lemma_char_index(inserted, k + 1);
    assert(inserted.take(k) + inserted.skip(k + 1) =~= t);
}

/// Law: on a buffer whose cursor lies on a char boundary, `backspace` right
/// after `insert_char(ch)` gives back the text and the cursor from before,
/// for any char, multi-byte ones included.
pub proof fn lemma_backspace_after_insert_restores_buffer(
    b0: InteractivePromptBuffer,
    ch: char,
    b1: InteractivePromptBuffer,
    b2: InteractivePromptBuffer,
)
    requires
        on_boundary(b0.text@, b0.cursor),
        char_inserted(b0, ch, b1),
        backspaced(b1, b2),
    ensures
        b2.text@ == b0.text@,
        b2.cursor == b0.cursor,
{
    lemma_backspace_undoes_insert_char(b0.text@, b0.cursor as int, ch);
}

/// Law: from a cursor after at least one char, `move_left` then
/// `move_right` comes back to the same cursor.
pub proof fn lemma_move_right_undoes_move_left(t: Seq<char>, cursor: int)
    requires
        is_boundary(t, cursor),
        cursor != 0,
    ensures
        ({
            let left = byte_offset(t, char_index(t, cursor) - 1);
            &&& left < byte_len(t)
            &&& is_boundary(t, left as int)
            &&& byte_offset(t, char_index(t, left as int) + 1) == cursor
        }),
{
    let k = char_index(t, cursor);
    assert(0 <= k <= t.len() && byte_offset(t, k) == cursor);
    assert(t.take(0) =~= Seq::<char>::empty());
    assert(k >= 1);
    crate::text::lemma_byte_offset_strict(t, k - 1, k);
    crate::text::lemma_byte_offset_bounds(t, k);
    crate::text::lemma_char_index(t, k - 1);
}

} // verus!
