//! Optional Vim-style modal editing of the composer, with a ring of killed
//! and yanked texts. Word motions treat ASCII whitespace as separators;
//! positions are byte offsets of the buffer's text.
use vstd::prelude::*;

use crate::keys::InteractiveKeyAction;
use crate::prompt::fits;
use crate::prompt::line_at_of;
use crate::prompt::on_boundary;
use crate::prompt::row_col_of;
use crate::prompt::row_col_target;
use crate::prompt::InteractivePromptBuffer;
use crate::text::byte_len;
use crate::text::byte_offset;
use crate::text::char_index;
use crate::text::from_chars;
use crate::text::index_at_byte;
use crate::text::is_ascii_whitespace;
use crate::text::is_ascii_ws;
use crate::text::is_boundary;
use crate::text::offset_of;
use crate::text::sub_chars;
use crate::text::to_chars;

verus! {

#[derive(Clone, Copy, Debug, PartialEq, Eq, Structural)]
pub enum VimOp {
    Delete,
    Yank,
}

#[derive(Clone, Debug, Default, PartialEq, Eq)]
pub struct VimState {
    pub enabled: bool,
    pub normal: bool,
    pub pending: Option<VimOp>,
    pub ring: Vec<String>,
}

/// The key a Vim command reads: a char, Escape, or any other key.
#[derive(Clone, Copy, Debug, PartialEq, Eq, Structural)]
pub enum VimKey {
    Char(char),
    Esc,
    Other,
}

impl VimState {
    /// Vim editing switched on or off; when on it starts in normal mode.
    pub fn new(enabled: bool) -> (s: Self)
        ensures
            s.enabled == enabled,
            s.normal == enabled,
            s.pending is None,
            s.ring@.len() == 0,
    {
        VimState { enabled, normal: enabled, pending: None, ring: Vec::new() }
    }
}

// ---------------------------------------------------------------------
// word motions over char indices, with ASCII whitespace as separator

pub open spec fn aws_fwd(t: Seq<char>, k: int) -> int
    decreases t.len() - k,
{
    if 0 <= k < t.len() && is_ascii_ws(t[k]) {
        aws_fwd(t, k + 1)
    } else {
        k
    }
}

pub open spec fn word_fwd(t: Seq<char>, k: int) -> int
    decreases t.len() - k,
{
    if 0 <= k < t.len() && !is_ascii_ws(t[k]) {
        word_fwd(t, k + 1)
    } else {
        k
    }
}

pub open spec fn aws_back(t: Seq<char>, k: int) -> int
    decreases k,
{
    if 0 < k <= t.len() && is_ascii_ws(t[k - 1]) {
        aws_back(t, k - 1)
    } else {
        k
    }
}

pub open spec fn word_back(t: Seq<char>, k: int) -> int
    decreases k,
{
    if 0 < k <= t.len() && !is_ascii_ws(t[k - 1]) {
        word_back(t, k - 1)
    } else {
        k
    }
}

/// Char index `w` reaches from `k`: over whitespace, a word and whitespace.
pub open spec fn next_word_start(t: Seq<char>, k: int) -> int {
    aws_fwd(t, word_fwd(t, aws_fwd(t, k)))
}

/// Char index `e` reaches from `k`: over whitespace and then a word, or the
/// end when only whitespace follows.
pub open spec fn next_word_end(t: Seq<char>, k: int) -> int {
    let j = aws_fwd(t, k);
    if j >= t.len() {
        t.len() as int
    } else {
        word_fwd(t, j)
    }
}

/// Char index `b` reaches from `k`: back over whitespace and a word.
pub open spec fn prev_word_start(t: Seq<char>, k: int) -> int {
    word_back(t, aws_back(t, k))
}

proof fn lemma_fwd_bounds(t: Seq<char>, k: int)
    requires
        0 <= k <= t.len(),
    ensures
        k <= aws_fwd(t, k) <= t.len(),
        k <= word_fwd(t, k) <= t.len(),
    decreases t.len() - k,
{
    if k < t.len() {
        lemma_fwd_bounds(t, k + 1);
    }
}

proof fn lemma_back_bounds(t: Seq<char>, k: int)
    requires
        0 <= k <= t.len(),
    ensures
        0 <= aws_back(t, k) <= k,
        0 <= word_back(t, k) <= k,
    decreases k,
{
    if k > 0 {
        lemma_back_bounds(t, k - 1);
    }
}

fn aws_fwd_exec(v: &[char], k: usize) -> (j: usize)
    requires
        k <= v@.len(),
    ensures
        j == aws_fwd(v@, k as int),
        k <= j <= v@.len(),
{
    let mut j = k;
    while j < v.len() && is_ascii_whitespace(v[j])
        invariant
            k <= j <= v@.len(),
            aws_fwd(v@, k as int) == aws_fwd(v@, j as int),
        decreases v.len() - j,
    {
        j = j + 1;
    }
    j
}

fn word_fwd_exec(v: &[char], k: usize) -> (j: usize)
    requires
        k <= v@.len(),
    ensures
        j == word_fwd(v@, k as int),
        k <= j <= v@.len(),
{
    let mut j = k;
    while j < v.len() && !is_ascii_whitespace(v[j])
        invariant
            k <= j <= v@.len(),
            word_fwd(v@, k as int) == word_fwd(v@, j as int),
        decreases v.len() - j,
    {
        j = j + 1;
    }
    j
}

fn aws_back_exec(v: &[char], k: usize) -> (j: usize)
    requires
        k <= v@.len(),
    ensures
        j == aws_back(v@, k as int),
        j <= k,
{
    let mut j = k;
    while j > 0 && is_ascii_whitespace(v[j - 1])
        invariant
            j <= k <= v@.len(),
            aws_back(v@, k as int) == aws_back(v@, j as int),
        decreases j,
    {
        j = j - 1;
    }
    j
}

fn word_back_exec(v: &[char], k: usize) -> (j: usize)
    requires
        k <= v@.len(),
    ensures
        j == word_back(v@, k as int),
        j <= k,
{
    let mut j = k;
    while j > 0 && !is_ascii_whitespace(v[j - 1])
        invariant
            j <= k <= v@.len(),
            word_back(v@, k as int) == word_back(v@, j as int),
        decreases j,
    {
        j = j - 1;
    }
    j
}

/// Byte offset of the start of the next word after the boundary `from`.
pub fn vim_word_start(text: &str, from: usize) -> (w: usize)
    requires
        is_boundary(text@, from as int),
        fits(text@),
    ensures
        w == byte_offset(text@, next_word_start(text@, char_index(text@, from as int))),
        is_boundary(text@, w as int),
{
    let v = to_chars(text);
    let k = index_at_byte(&v, from).unwrap();
    proof {
        crate::text::lemma_char_index(text@, k as int);
    }
    let j = aws_fwd_exec(&v, k);
    let j = word_fwd_exec(&v, j);
    let j = aws_fwd_exec(&v, j);
    proof {
        crate::text::lemma_char_index(text@, j as int);
    }
    offset_of(&v, j)
}

/// Byte offset of the end of the word at or after the boundary `from`; the
/// text's end when only whitespace follows.
pub fn vim_word_end(text: &str, from: usize) -> (e: usize)
    requires
        is_boundary(text@, from as int),
        fits(text@),
    ensures
        e == byte_offset(text@, next_word_end(text@, char_index(text@, from as int))),
        is_boundary(text@, e as int),
{
    let v = to_chars(text);
    let k = index_at_byte(&v, from).unwrap();
    proof {
        crate::text::lemma_char_index(text@, k as int);
    }
    let j = aws_fwd_exec(&v, k);
    let j = if j >= v.len() {
        v.len()
    } else {
        word_fwd_exec(&v, j)
    };
    proof {
        crate::text::lemma_char_index(text@, j as int);
    }
    offset_of(&v, j)
}

/// Byte offset of the start of the word before the boundary `from`.
pub fn vim_word_back(text: &str, from: usize) -> (b: usize)
    requires
        is_boundary(text@, from as int),
        fits(text@),
    ensures
        b == byte_offset(text@, prev_word_start(text@, char_index(text@, from as int))),
        is_boundary(text@, b as int),
{
    let v = to_chars(text);
    let k = index_at_byte(&v, from).unwrap();
    proof {
        crate::text::lemma_char_index(text@, k as int);
    }
    let j = aws_back_exec(&v, k);
    let j = word_back_exec(&v, j);
    proof {
        crate::text::lemma_char_index(text@, j as int);
    }
    offset_of(&v, j)
}

// ---------------------------------------------------------------------
// the kill ring

/// The ring after keeping `captured`: appended, and the oldest dropped once
/// it holds more than sixteen texts.
pub open spec fn ring_after(ring: Seq<String>, captured: Seq<char>, r: Seq<String>) -> bool {
    let pushed_len = ring.len() + 1;
    &&& r.last()@ == captured
    &&& if pushed_len > 16 {
        &&& r.len() == ring.len()
        &&& r.drop_last() == ring.drop_first()
    } else {
        &&& r.len() == pushed_len
        &&& r.drop_last() == ring
    }
}

fn keep_in_ring(st: &mut VimState, captured: String)
    ensures
        ring_after(old(st).ring@, captured@, final(st).ring@),
        final(st).enabled == old(st).enabled,
        final(st).normal == old(st).normal,
        final(st).pending == old(st).pending,
{
    let ghost before = st.ring@;
    st.ring.push(captured);
    if st.ring.len() > 16 {
        st.ring.remove(0);
        assert(st.ring@.drop_last() =~= before.drop_first());
    } else {
        assert(st.ring@.drop_last() =~= before);
    }
}

/// The text between two boundaries.
pub open spec fn between(t: Seq<char>, start: int, end: int) -> Seq<char> {
    t.subrange(char_index(t, start), char_index(t, end))
}

/// The text without what lies between two boundaries.
pub open spec fn without(t: Seq<char>, start: int, end: int) -> Seq<char> {
    t.take(char_index(t, start)) + t.skip(char_index(t, end))
}

/// The bytes `start..end` of a text are a piece one can cut out.
pub open spec fn cuttable(t: Seq<char>, start: int, end: int) -> bool {
    start <= end && is_boundary(t, start) && is_boundary(t, end)
}

proof fn lemma_boundaries_ordered(t: Seq<char>, start: int, end: int)
    requires
        cuttable(t, start, end),
    ensures
        0 <= char_index(t, start) <= char_index(t, end) <= t.len(),
        byte_offset(t, char_index(t, start)) == start,
        byte_offset(t, char_index(t, end)) == end,
        0 <= start <= end <= byte_len(t),
{
    let a = char_index(t, start);
    let b = char_index(t, end);
    assert(0 <= a <= t.len() && byte_offset(t, a) == start);
    assert(0 <= b <= t.len() && byte_offset(t, b) == end);
    if b < a {
        crate::text::lemma_byte_offset_strict(t, b, a);
    }
    crate::text::lemma_byte_offset_bounds(t, a);
    crate::text::lemma_byte_offset_bounds(t, b);
}

/// Cuts the bytes `range` out of the buffer into the ring, leaving the
/// cursor at the cut; an empty range, or one past the end, changes nothing.
pub fn vim_delete_range(buffer: &mut InteractivePromptBuffer, range: std::ops::Range<usize>, st: &mut VimState)
    requires
        fits(old(buffer).text@),
        range.start < range.end && range.end <= byte_len(old(buffer).text@) ==> cuttable(
            old(buffer).text@,
            range.start as int,
            range.end as int,
        ),
    ensures
        ({
            let t = old(buffer).text@;
            if range.start < range.end && range.end <= byte_len(t) {
                &&& final(buffer).text@ == without(t, range.start as int, range.end as int)
                &&& final(buffer).cursor == range.start
                &&& ring_after(old(st).ring@, between(t, range.start as int, range.end as int), final(st).ring@)
            } else {
                &&& *final(buffer) == *old(buffer)
                &&& final(st).ring == old(st).ring
            }
        }),
        final(st).enabled == old(st).enabled,
        final(st).normal == old(st).normal,
        final(st).pending == old(st).pending,
{
    let len = crate::text::byte_length(&buffer.text);
    if range.start < range.end && range.end <= len {
        let ghost t = buffer.text@;
        proof {
            lemma_boundaries_ordered(t, range.start as int, range.end as int);
        }
        let v = to_chars(buffer.text.as_str());
        let a = index_at_byte(&v, range.start).unwrap();
        let b = index_at_byte(&v, range.end).unwrap();
        proof {
            crate::text::lemma_char_index(t, a as int);
            crate::text::lemma_char_index(t, b as int);
        }
        let captured = sub_chars(&v, a, b);
        keep_in_ring(st, from_chars(captured.as_slice()));
        let head = sub_chars(&v, 0, a);
        let tail = sub_chars(&v, b, v.len());
        let joined = crate::text::chars_concat(&head, &tail);
        assert(joined@ =~= without(t, range.start as int, range.end as int));
        buffer.text = from_chars(joined.as_slice());
        buffer.cursor = range.start;
    }
}

/// Copies the bytes `range` of the buffer into the ring when the range ends
/// within the text.
pub fn vim_yank_range(buffer: &InteractivePromptBuffer, range: std::ops::Range<usize>, st: &mut VimState)
    requires
        fits(buffer.text@),
        range.end <= byte_len(buffer.text@) ==> cuttable(buffer.text@, range.start as int, range.end as int),
    ensures
        if range.end <= byte_len(buffer.text@) {
            ring_after(
                old(st).ring@,
                between(buffer.text@, range.start as int, range.end as int),
                final(st).ring@,
            )
        } else {
            final(st).ring == old(st).ring
        },
        final(st).enabled == old(st).enabled,
        final(st).normal == old(st).normal,
        final(st).pending == old(st).pending,
{
    let len = crate::text::byte_length(&buffer.text);
    if range.end <= len {
        let ghost t = buffer.text@;
        proof {
            lemma_boundaries_ordered(t, range.start as int, range.end as int);
        }
        let v = to_chars(buffer.text.as_str());
        let a = index_at_byte(&v, range.start).unwrap();
        let b = index_at_byte(&v, range.end).unwrap();
        proof {
            crate::text::lemma_char_index(t, a as int);
            crate::text::lemma_char_index(t, b as int);
        }
        let captured = sub_chars(&v, a, b);
        keep_in_ring(st, from_chars(captured.as_slice()));
    }
}

/// Puts the newest ring text at the cursor; with `after` the cursor moves
/// past it, else it stays at the start of the put text.
pub fn vim_put(buffer: &mut InteractivePromptBuffer, st: &VimState, after: bool)
    requires
        st.ring@.len() > 0 ==> (old(buffer).cursor == 0 || on_boundary(old(buffer).text@, old(buffer).cursor))
            && byte_len(old(buffer).text@) + byte_len(st.ring@.last()@) <= isize::MAX,
    ensures
        ({
            let t = old(buffer).text@;
            let k = char_index(t, old(buffer).cursor as int);
            if st.ring@.len() > 0 {
                let p = st.ring@.last()@;
                &&& final(buffer).text@ == t.take(k) + p + t.skip(k)
                &&& final(buffer).cursor == if after {
                    old(buffer).cursor + byte_len(p)
                } else {
                    old(buffer).cursor as int
                }
            } else {
                *final(buffer) == *old(buffer)
            }
        }),
{
    if st.ring.len() == 0 {
        return;
    }
    let ghost t = buffer.text@;
    let piece = &st.ring[st.ring.len() - 1];
    let p = to_chars(piece.as_str());
    let v = to_chars(buffer.text.as_str());
    let k = if buffer.cursor == 0 {
        assert(byte_offset(t, 0) == 0) by {
            assert(t.take(0) =~= Seq::<char>::empty());
        }
        proof {
            crate::text::lemma_char_index(t, 0);
        }
        0
    } else {
        index_at_byte(&v, buffer.cursor).unwrap()
    };
    proof {
        crate::text::lemma_char_index(t, k as int);
        crate::text::lemma_byte_offset_bounds(t, k as int);
        crate::text::lemma_byte_len_encoding(p@);
        crate::text::lemma_byte_len_encoding(t);
    }
    let head = sub_chars(&v, 0, k);
    let tail = sub_chars(&v, k, v.len());
    let joined = crate::text::chars_concat(&crate::text::chars_concat(&head, &p), &tail);
    assert(joined@ =~= t.take(k as int) + p@ + t.skip(k as int));
    let plen = crate::text::byte_length(piece);
    buffer.text = from_chars(joined.as_slice());
    if after {
        buffer.cursor = buffer.cursor + plen;
    }
}

/// The start of line `row` (the text's end past the last line).
pub open spec fn line_start(t: Seq<char>, row: int) -> int {
    let ls = crate::text::lines(t);
    crate::prompt::lines_prefix_bytes(
        ls,
        if row < ls.len() {
            row
        } else {
            ls.len() as int
        },
    )
}

/// Where a line starts and ends in bytes, the end taking its newline; the
/// last line takes the newline before it instead.
pub open spec fn line_span(t: Seq<char>, row: int) -> (int, int) {
    let start = line_start(t, row);
    let end = start + byte_len(line_at_of(t, row));
    let bytes = vstd::utf8::encode_utf8(t);
    if end < bytes.len() && bytes[end] == 10 {
        (start, end + 1)
    } else if start > 0 && bytes[start - 1] == 10 {
        (start - 1, end)
    } else {
        (start, end)
    }
}

proof fn lemma_prefix_bytes_monotone(ls: Seq<Seq<char>>, i: int, j: int)
    requires
        0 <= i <= j <= ls.len(),
    ensures
        0 <= crate::prompt::lines_prefix_bytes(ls, i) <= crate::prompt::lines_prefix_bytes(ls, j),
    decreases j,
{
    if j > 0 {
        if i < j {
            lemma_prefix_bytes_monotone(ls, i, j - 1);
        } else {
            lemma_prefix_bytes_monotone(ls, 0, j - 1);
        }
    }
}

/// The bounds of line `row` of the buffer's text.
pub fn vim_line_bounds(buffer: &InteractivePromptBuffer, row: usize) -> (b: (usize, usize))
    requires
        fits(buffer.text@),
        line_start(buffer.text@, row as int) <= byte_len(buffer.text@),
    ensures
        b.0 == line_span(buffer.text@, row as int).0,
        b.1 == line_span(buffer.text@, row as int).1,
{
    let ghost t = buffer.text@;
    let v = to_chars(buffer.text.as_str());
    let ls = crate::text::split_lines(&v);
    let ghost vs = crate::text::views(ls@);
    let upto = if row < ls.len() {
        row
    } else {
        ls.len()
    };
    let mut start: usize = 0;
    let mut i: usize = 0;
    proof {
        lemma_prefix_bytes_monotone(vs, 0, upto as int);
    }
    while i < upto
        invariant
            i <= upto <= ls@.len(),
            vs == crate::text::views(ls@),
            vs == crate::text::lines(t),
            start == crate::prompt::lines_prefix_bytes(vs, i as int),
            crate::prompt::lines_prefix_bytes(vs, upto as int) <= byte_len(t),
            fits(t),
        decreases upto - i,
    {
        proof {
            lemma_prefix_bytes_monotone(vs, i + 1, upto as int);
            assert(vs[i as int] == ls@[i as int]@);
            crate::text::lemma_byte_offset_bounds(vs[i as int], vs[i as int].len() as int);
            assert(vs[i as int].take(vs[i as int].len() as int) =~= vs[i as int]);
        }
        let lb = offset_of(&ls[i], ls[i].len());
        start = start + lb + 1;
        i = i + 1;
    }
    let line = buffer.line_at(row);
    let lc = to_chars(line.as_str());
    proof {
        crate::text::lemma_byte_offset_bounds(lc@, lc@.len() as int);
        assert(lc@.take(lc@.len() as int) =~= lc@);
        lemma_line_short(t, row as int);
        crate::text::lemma_byte_len_encoding(t);
    }
    let line_bytes = offset_of(&lc, lc.len());
    let end = start + line_bytes;
    let bytes = buffer.text.as_str().as_bytes();
    if end < bytes.len() && bytes[end] == 10u8 {
        (start, end + 1)
    } else if start > 0 && bytes[start - 1] == 10u8 {
        (start - 1, end)
    } else {
        (start, end)
    }
}

proof fn lemma_line_short(t: Seq<char>, row: int)
    ensures
        byte_len(line_at_of(t, row)) <= byte_len(t),
{
    let ls = crate::text::lines(t);
    if 0 <= row < ls.len() {
        crate::text::lemma_line_within(t, row);
    }
}

// ---------------------------------------------------------------------
// normal mode

/// `x` clamped to the length of `t`.
pub open spec fn clamp_len(t: Seq<char>, x: int) -> int {
    if x <= byte_len(t) {
        x
    } else {
        byte_len(t) as int
    }
}

/// The cursor `set_row_col(row, col)` leaves in `t`.
pub open spec fn row_target(t: Seq<char>, row: int, col: int) -> int {
    clamp_len(t, row_col_target(t, row, col))
}

/// Row and column of the boundary `c` of `t`.
pub open spec fn cursor_rc(t: Seq<char>, c: int) -> (int, int) {
    row_col_of(t.take(char_index(t, c)))
}

/// The cursor `move_right` leaves.
pub open spec fn right_of(t: Seq<char>, c: int) -> int {
    if c >= byte_len(t) {
        c
    } else {
        byte_offset(t, char_index(t, c) + 1) as int
    }
}

/// The cursor `move_left` leaves.
pub open spec fn left_of(t: Seq<char>, c: int) -> int {
    if c == 0 {
        0
    } else {
        byte_offset(t, char_index(t, c) - 1) as int
    }
}

/// `t` with `ch` inserted at the boundary `c`.
pub open spec fn inserted_at(t: Seq<char>, c: int, ch: char) -> Seq<char> {
    let k = char_index(t, c);
    t.take(k) + seq![ch] + t.skip(k)
}

/// Effect of `vim_delete_range(start..end)` on buffer and ring.
pub open spec fn cut(
    b0: InteractivePromptBuffer,
    start: int,
    end: int,
    b1: InteractivePromptBuffer,
    r0: Seq<String>,
    r1: Seq<String>,
) -> bool {
    let t = b0.text@;
    if start < end && end <= byte_len(t) {
        &&& b1.text@ == without(t, start, end)
        &&& b1.cursor == start
        &&& ring_after(r0, between(t, start, end), r1)
    } else {
        b1 == b0 && r1 == r0
    }
}

/// Effect of `vim_yank_range(start..end)` on the ring.
pub open spec fn copied(t: Seq<char>, start: int, end: int, r0: Seq<String>, r1: Seq<String>) -> bool {
    if end <= byte_len(t) {
        ring_after(r0, between(t, start, end), r1)
    } else {
        r1 == r0
    }
}

proof fn lemma_inserted_len(t: Seq<char>, k: int, ch: char)
    requires
        0 <= k <= t.len(),
    ensures
        byte_len(t.take(k) + seq![ch] + t.skip(k)) == byte_len(t) + crate::text::utf8_width(ch),
{
    crate::text::lemma_byte_len_concat(t.take(k) + seq![ch], t.skip(k));
    crate::text::lemma_byte_len_concat(t.take(k), seq![ch]);
    crate::text::lemma_byte_len_concat(t.take(k), t.skip(k));
    assert(t =~= t.take(k) + t.skip(k));
    assert(seq![ch].drop_first() =~= Seq::<char>::empty());
    assert(byte_len(Seq::<char>::empty()) == 0);
    assert(seq![ch][0] == ch);
    assert(byte_len(seq![ch]) == crate::text::utf8_width(ch) + byte_len(seq![ch].drop_first()));
}

/// The buffer holds `t` with cursor `c`.
pub open spec fn holds(b: InteractivePromptBuffer, t: Seq<char>, c: int) -> bool {
    b.text@ == t && b.cursor == c
}

/// What a normal-mode key may be given without the editing it asks for
/// failing: the cursor on a char boundary where the key reads the text, a
/// text a `String` can hold with room for a line break or the put text, and
/// cut ranges on char boundaries.
pub open spec fn vim_normal_key_safe(st: VimState, key: VimKey, b: InteractivePromptBuffer) -> bool {
    let t = b.text@;
    let c = b.cursor as int;
    let at = on_boundary(t, b.cursor);
    &&& fits(t)
    &&& match key {
        VimKey::Char(ch) => if ch == 'a' || ch == 'l' {
            c >= byte_len(t) || at
        } else if ch == 'h' {
            c == 0 || at
        } else if ch == 'A' || ch == 'I' || ch == 'j' || ch == 'k' || ch == '0' || ch == '$' {
            at
        } else if ch == 'o' {
            let r = cursor_rc(t, c).0;
            &&& at
            &&& is_boundary(t, row_target(t, r, line_at_of(t, r).len() as int))
            &&& byte_len(t) + 1 <= isize::MAX
        } else if ch == 'O' {
            let r = cursor_rc(t, c).0;
            &&& at
            &&& is_boundary(t, row_target(t, r, 0))
            &&& byte_len(t) + 1 <= isize::MAX
        } else if ch == 'w' || ch == 'e' || ch == 'b' {
            (c == 0 && ch == 'b') || at
        } else if ch == 'x' {
            c < usize::MAX && c + 1 <= byte_len(t) ==> cuttable(t, c, c + 1)
        } else if ch == 'X' {
            c > 0 && c <= byte_len(t) ==> cuttable(t, c - 1, c)
        } else if ch == 'd' {
            st.pending == Some(VimOp::Delete) ==> {
                let r = cursor_rc(t, c).0;
                let s = line_span(t, r).0;
                let e = line_span(t, r).1;
                &&& at
                &&& line_start(t, r) <= byte_len(t)
                &&& s < e && e <= byte_len(t) ==> cuttable(t, s, e)
            }
        } else if ch == 'y' {
            st.pending == Some(VimOp::Yank) ==> {
                let r = cursor_rc(t, c).0;
                let s = line_span(t, r).0;
                let e = s + line_at_of(t, r).len();
                &&& at
                &&& line_start(t, r) <= byte_len(t)
                &&& e <= byte_len(t) ==> cuttable(t, s, e)
            }
        } else if ch == 'p' || ch == 'P' {
            st.ring@.len() > 0 ==> (c == 0 || at) && byte_len(t) + byte_len(st.ring@.last()@)
                <= isize::MAX
        } else {
            true
        },
        _ => true,
    }
}

/// What a normal-mode key does to the buffer and the Vim state.
pub open spec fn vim_normal_effect(
    st0: VimState,
    key: VimKey,
    b0: InteractivePromptBuffer,
    st1: VimState,
    b1: InteractivePromptBuffer,
    a: InteractiveKeyAction,
) -> bool {
    let t = b0.text@;
    let c = b0.cursor as int;
    let rc = cursor_rc(t, c);
    let to_insert = st1 == VimState { normal: false, ..st0 };
    let ring_only = st1 == VimState { ring: st1.ring, ..st0 };
    let done = st1 == VimState { pending: None, ring: st1.ring, ..st0 };
    let redraw = a == InteractiveKeyAction::RedrawFrame;
    match key {
        VimKey::Esc => redraw && b1 == b0 && st1 == VimState { normal: true, pending: None, ..st0 },
        VimKey::Other => a == InteractiveKeyAction::Noop && b1 == b0 && st1 == st0,
        VimKey::Char(ch) => if ch == 'i' {
            redraw && to_insert && b1 == b0
        } else if ch == 'a' {
            redraw && to_insert && holds(b1, t, right_of(t, c))
        } else if ch == 'A' {
            redraw && to_insert && holds(b1, t, row_target(t, rc.0, line_at_of(t, rc.0).len() as int))
        } else if ch == 'I' {
            redraw && to_insert && holds(b1, t, row_target(t, rc.0, 0))
        } else if ch == 'o' {
            let c1 = row_target(t, rc.0, line_at_of(t, rc.0).len() as int);
            redraw && to_insert && holds(b1, inserted_at(t, c1, '\n'), c1 + 1)
        } else if ch == 'O' {
            let c1 = row_target(t, rc.0, 0);
            let t1 = inserted_at(t, c1, '\n');
            let r2 = cursor_rc(t1, c1 + 1).0;
            redraw && to_insert && holds(
                b1,
                t1,
                row_target(
                    t1,
                    if r2 >= 1 {
                        r2 - 1
                    } else {
                        0
                    },
                    0,
                ),
            )
        } else if ch == 'h' {
            redraw && st1 == st0 && holds(b1, t, left_of(t, c))
        } else if ch == 'l' {
            redraw && st1 == st0 && holds(b1, t, right_of(t, c))
        } else if ch == 'j' {
            redraw && st1 == st0 && holds(b1, t, row_target(t, rc.0 + 1, rc.1))
        } else if ch == 'k' {
            redraw && st1 == st0 && holds(
                b1,
                t,
                row_target(
                    t,
                    if rc.0 >= 1 {
                        rc.0 - 1
                    } else {
                        0
                    },
                    rc.1,
                ),
            )
        } else if ch == 'w' || ch == 'e' || ch == 'b' {
            let target = if ch == 'w' {
                byte_offset(t, next_word_start(t, char_index(t, c))) as int
            } else if ch == 'e' {
                byte_offset(t, next_word_end(t, char_index(t, c))) as int
            } else {
                byte_offset(t, prev_word_start(t, char_index(t, c))) as int
            };
            let s = if ch == 'b' {
                target
            } else {
                c
            };
            let e = if ch == 'b' {
                c
            } else {
                target
            };
            redraw && match st0.pending {
                Some(VimOp::Delete) => done && cut(b0, s, e, b1, st0.ring@, st1.ring@),
                Some(VimOp::Yank) => done && b1 == b0 && copied(t, s, e, st0.ring@, st1.ring@),
                None => st1 == st0 && holds(b1, t, target),
            }
        } else if ch == '0' {
            redraw && st1 == st0 && holds(b1, t, row_target(t, rc.0, 0))
        } else if ch == '$' {
            redraw && st1 == st0 && holds(b1, t, row_target(t, rc.0, line_at_of(t, rc.0).len() as int))
        } else if ch == 'G' {
            redraw && st1 == st0 && holds(b1, t, byte_len(t) as int)
        } else if ch == 'x' {
            let e = if c < usize::MAX {
                c + 1
            } else {
                c
            };
            redraw && ring_only && cut(b0, c, e, b1, st0.ring@, st1.ring@)
        } else if ch == 'X' {
            let s = if c >= 1 {
                c - 1
            } else {
                0
            };
            redraw && ring_only && cut(b0, s, c, b1, st0.ring@, st1.ring@)
        } else if ch == 'd' {
            redraw && if st0.pending == Some(VimOp::Delete) {
                let s = line_span(t, rc.0).0;
                let e = line_span(t, rc.0).1;
                done && cut(b0, s, e, b1, st0.ring@, st1.ring@)
            } else {
                b1 == b0 && st1 == VimState { pending: Some(VimOp::Delete), ..st0 }
            }
        } else if ch == 'y' {
            redraw && b1 == b0 && if st0.pending == Some(VimOp::Yank) {
                let s = line_span(t, rc.0).0;
                done && copied(t, s, s + line_at_of(t, rc.0).len(), st0.ring@, st1.ring@)
            } else {
                st1 == VimState { pending: Some(VimOp::Yank), ..st0 }
            }
        } else if ch == 'p' || ch == 'P' {
            redraw && st1 == st0 && if st0.ring@.len() > 0 {
                let p = st0.ring@.last()@;
                let k = char_index(t, c);
                holds(
                    b1,
                    t.take(k) + p + t.skip(k),
                    if ch == 'p' {
                        c + byte_len(p)
                    } else {
                        c
                    },
                )
            } else {
                b1 == b0
            }
        } else {
            a == InteractiveKeyAction::Noop && b1 == b0 && st1 == st0
        },
    }
}

/// Runs a key in normal mode.
pub fn vim_normal_key(st: &mut VimState, key: VimKey, buffer: &mut InteractivePromptBuffer) -> (a: Option<
    InteractiveKeyAction,
>)
    requires
        vim_normal_key_safe(*old(st), key, *old(buffer)),
    ensures
        a matches Some(action) && vim_normal_effect(*old(st), key, *old(buffer), *final(st), *final(buffer), action),
{
    let ghost t = buffer.text@;
    let ghost c = buffer.cursor as int;
    let action = match key {
        VimKey::Esc => {
            st.normal = true;
            st.pending = None;
            InteractiveKeyAction::RedrawFrame
        },
        VimKey::Other => InteractiveKeyAction::Noop,
        VimKey::Char(ch) => {
            if ch == 'i' {
                st.normal = false;
                InteractiveKeyAction::RedrawFrame
            } else if ch == 'a' {
                buffer.move_right();
                st.normal = false;
                InteractiveKeyAction::RedrawFrame
            } else if ch == 'A' {
                let (r, _) = buffer.row_col();
                let n = to_chars(buffer.line_at(r).as_str()).len();
                buffer.set_row_col(r, n);
                st.normal = false;
                InteractiveKeyAction::RedrawFrame
            } else if ch == 'I' {
                let (r, _) = buffer.row_col();
                buffer.set_row_col(r, 0);
                st.normal = false;
                InteractiveKeyAction::RedrawFrame
            } else if ch == 'o' {
                let (r, _) = buffer.row_col();
                let n = to_chars(buffer.line_at(r).as_str()).len();
                buffer.set_row_col(r, n);
                buffer.insert_char('\n');
                st.normal = false;
                InteractiveKeyAction::RedrawFrame
            } else if ch == 'O' {
                let (r, _) = buffer.row_col();
                buffer.set_row_col(r, 0);
                proof {
                    let k1 = char_index(t, buffer.cursor as int);
                    assert(0 <= k1 <= t.len() && byte_offset(t, k1) == buffer.cursor);
                    lemma_inserted_len(t, k1, '\n');
                }
                buffer.insert_char('\n');
                let (r2, _) = buffer.row_col();
                buffer.set_row_col(r2.saturating_sub(1), 0);
                st.normal = false;
                InteractiveKeyAction::RedrawFrame
            } else if ch == 'h' {
                buffer.move_left();
                InteractiveKeyAction::RedrawFrame
            } else if ch == 'l' {
                buffer.move_right();
                InteractiveKeyAction::RedrawFrame
            } else if ch == 'j' {
                let (r, col) = buffer.row_col();
                proof {
                    let k = char_index(t, c);
                    assert(0 <= k <= t.len() && byte_offset(t, k) == c);
                    crate::text::lemma_lines_len(t.take(k));
                    crate::text::lemma_byte_len_at_least_len(t);
                }
                buffer.set_row_col(r + 1, col);
                InteractiveKeyAction::RedrawFrame
            } else if ch == 'k' {
                let (r, col) = buffer.row_col();
                buffer.set_row_col(r.saturating_sub(1), col);
                InteractiveKeyAction::RedrawFrame
            } else if ch == 'w' || ch == 'e' || ch == 'b' {
                if buffer.cursor == 0 && ch == 'b' {
                    proof {
                        assert(t.take(0) =~= Seq::<char>::empty());
                        crate::text::lemma_char_index(t, 0);
                    }
                }
                let target = if ch == 'w' {
                    vim_word_start(buffer.text.as_str(), buffer.cursor)
                } else if ch == 'e' {
                    vim_word_end(buffer.text.as_str(), buffer.cursor)
                } else {
                    vim_word_back(buffer.text.as_str(), buffer.cursor)
                };
                proof {
                    let k = char_index(t, c);
                    assert(0 <= k <= t.len() && byte_offset(t, k) == c);
                    if ch == 'b' {
                        lemma_back_bounds(t, k);
                        lemma_back_bounds(t, aws_back(t, k));
                        crate::text::lemma_byte_offset_monotone(t, prev_word_start(t, k), k);
                    } else if ch == 'w' {
                        lemma_fwd_bounds(t, k);
                        lemma_fwd_bounds(t, aws_fwd(t, k));
                        lemma_fwd_bounds(t, word_fwd(t, aws_fwd(t, k)));
                        crate::text::lemma_byte_offset_monotone(t, k, next_word_start(t, k));
                    } else {
                        lemma_fwd_bounds(t, k);
                        lemma_fwd_bounds(t, aws_fwd(t, k));
                        crate::text::lemma_byte_offset_monotone(t, k, next_word_end(t, k));
                    }
                }
                let s = if ch == 'b' {
                    target
                } else {
                    buffer.cursor
                };
                let e = if ch == 'b' {
                    buffer.cursor
                } else {
                    target
                };
                if st.pending == Some(VimOp::Delete) {
                    vim_delete_range(buffer, s..e, st);
                    st.pending = None;
                } else if st.pending == Some(VimOp::Yank) {
                    vim_yank_range(buffer, s..e, st);
                    st.pending = None;
                } else {
                    buffer.cursor = target;
                }
                InteractiveKeyAction::RedrawFrame
            } else if ch == '0' {
                let (r, _) = buffer.row_col();
                buffer.set_row_col(r, 0);
                InteractiveKeyAction::RedrawFrame
            } else if ch == '$' {
                let (r, _) = buffer.row_col();
                let n = to_chars(buffer.line_at(r).as_str()).len();
                buffer.set_row_col(r, n);
                InteractiveKeyAction::RedrawFrame
            } else if ch == 'G' {
                buffer.cursor = crate::text::byte_length(&buffer.text);
                InteractiveKeyAction::RedrawFrame
            } else if ch == 'x' {
                let e = buffer.cursor.saturating_add(1);
                vim_delete_range(buffer, buffer.cursor..e, st);
                InteractiveKeyAction::RedrawFrame
            } else if ch == 'X' {
                let s = buffer.cursor.saturating_sub(1);
                vim_delete_range(buffer, s..buffer.cursor, st);
                InteractiveKeyAction::RedrawFrame
            } else if ch == 'd' {
                if st.pending == Some(VimOp::Delete) {
                    let (r, _) = buffer.row_col();
                    let (s, e) = vim_line_bounds(buffer, r);
                    vim_delete_range(buffer, s..e, st);
                    st.pending = None;
                } else {
                    st.pending = Some(VimOp::Delete);
                }
                InteractiveKeyAction::RedrawFrame
            } else if ch == 'y' {
                if st.pending == Some(VimOp::Yank) {
                    let (r, _) = buffer.row_col();
                    let (s, _) = vim_line_bounds(buffer, r);
                    let line_len = to_chars(buffer.line_at(r).as_str()).len();
                    proof {
                        lemma_line_short(t, r as int);
                        crate::text::lemma_byte_len_at_least_len(line_at_of(t, r as int));
                    }
                    vim_yank_range(buffer, s..s + line_len, st);
                    st.pending = None;
                } else {
                    st.pending = Some(VimOp::Yank);
                }
                InteractiveKeyAction::RedrawFrame
            } else if ch == 'p' {
                vim_put(buffer, st, true);
                InteractiveKeyAction::RedrawFrame
            } else if ch == 'P' {
                vim_put(buffer, st, false);
                InteractiveKeyAction::RedrawFrame
            } else {
                InteractiveKeyAction::Noop
            }
        },
    };
    Some(action)
}

/// Runs a key through Vim editing when it is on: normal mode takes every
/// key, insert mode only Escape (back to normal); `None` leaves the key to
/// the composer.
pub fn vim_handle_key(st: &mut VimState, key: VimKey, buffer: &mut InteractivePromptBuffer) -> (a: Option<
    InteractiveKeyAction,
>)
    requires
        old(st).enabled && old(st).normal ==> vim_normal_key_safe(*old(st), key, *old(buffer)),
    ensures
        !old(st).enabled ==> a is None && *final(st) == *old(st) && *final(buffer) == *old(buffer),
        old(st).enabled && old(st).normal ==> (a matches Some(action) && vim_normal_effect(
            *old(st),
            key,
            *old(buffer),
            *final(st),
            *final(buffer),
            action,
        )),
        old(st).enabled && !old(st).normal ==> if key == VimKey::Esc {
            &&& a == Some(InteractiveKeyAction::RedrawFrame)
            &&& *final(st) == (VimState { normal: true, pending: None, ..*old(st) })
            &&& *final(buffer) == *old(buffer)
        } else {
            a is None && *final(st) == *old(st) && *final(buffer) == *old(buffer)
        },
{
    if !st.enabled {
        return None;
    }
    if st.normal {
        vim_normal_key(st, key, buffer)
    } else if key == VimKey::Esc {
        st.normal = true;
        st.pending = None;
        Some(InteractiveKeyAction::RedrawFrame)
    } else {
        None
    }
}

} // verus!
