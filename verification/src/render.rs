//! Measures of the shell's panes: how many rows the composer and the
//! transcript items take once soft-wrapped, where the composer's cursor
//! lands, and which transcript items fit at the bottom of the pane.
use vstd::prelude::*;

use crate::text::split_chars_on;
use crate::text::split_on;
use crate::text::to_chars;
use crate::text::views;
use crate::view_model::TranscriptItemViewModel;

verus! {

/// `ceil(a / b)` for a positive `b`.
pub open spec fn div_ceil(a: int, b: int) -> int {
    (a + b - 1) / b
}

pub open spec fn at_least_one(x: int) -> int {
    if x < 1 {
        1
    } else {
        x
    }
}

/// Rows a line of `content_width` columns takes behind a two-column prefix
/// in a pane `width` columns wide (at least one column).
pub open spec fn prefixed_rows(content_width: int, width: int) -> int {
    div_ceil(at_least_one(2 + content_width), at_least_one(width))
}

/// Rows a text of `len` chars takes soft-wrapped at `width` (an empty text
/// takes one row).
pub open spec fn wrapped_rows(len: int, width: int) -> int {
    div_ceil(at_least_one(len), at_least_one(width))
}

fn div_ceil_usize(a: usize, b: usize) -> (q: usize)
    requires
        b >= 1,
    ensures
        q == div_ceil(a as int, b as int),
{
    let q = a / b;
    let r = a % b;
    proof {
        vstd::arithmetic::div_mod::lemma_fundamental_div_mod(a as int, b as int);
        assert(a == q * b + r) by (nonlinear_arith)
            requires
                a == b * q + r,
        ;
    }
    if r == 0 {
        proof {
            vstd::arithmetic::div_mod::lemma_fundamental_div_mod_converse(
                a + b - 1,
                b as int,
                q as int,
                b - 1,
            );
        }
        q
    } else {
        proof {
            assert((q + 1) * b == q * b + b) by (nonlinear_arith);
            vstd::arithmetic::div_mod::lemma_fundamental_div_mod_converse(
                a + b - 1,
                b as int,
                q + 1,
                r - 1,
            );
            assert(q * b <= a) by (nonlinear_arith)
                requires
                    a == q * b + r,
                    r >= 0,
            ;
            assert(q + 1 <= a) by (nonlinear_arith)
                requires
                    a == q * b + r,
                    r >= 1,
                    b >= 1,
                    q >= 0,
            ;
        }
        q + 1
    }
}

pub fn prefixed_visual_rows(content_width: usize, width: usize) -> (rows: usize)
    requires
        content_width + 2 <= usize::MAX,
    ensures
        rows == prefixed_rows(content_width as int, width as int),
{
    let total_columns = 2 + content_width;
    let w = if width < 1 {
        1
    } else {
        width
    };
    div_ceil_usize(total_columns, w)
}

pub fn wrapped_line_count(text: &str, width: usize) -> (rows: usize)
    ensures
        rows == wrapped_rows(text@.len() as int, width as int),
{
    let n = to_chars(text).len();
    let display_width = if n < 1 {
        1
    } else {
        n
    };
    let w = if width < 1 {
        1
    } else {
        width
    };
    div_ceil_usize(display_width, w)
}

/// The composer's lines: the pieces between newlines, one empty line for an
/// empty text.
pub open spec fn composer_lines(text: Seq<char>) -> Seq<Seq<char>> {
    if text.len() == 0 {
        seq![Seq::empty()]
    } else {
        split_on(text, '\n')
    }
}

/// Rows the first `n` lines take behind the prompt prefix.
pub open spec fn rows_of_lines(ls: Seq<Seq<char>>, n: int, width: int) -> int
    decreases n,
{
    if n <= 0 || ls.len() == 0 {
        0
    } else if n > ls.len() {
        rows_of_lines(ls, ls.len() as int, width)
    } else {
        rows_of_lines(ls, n - 1, width) + prefixed_rows(ls[n - 1].len() as int, width)
    }
}

/// The width the composer wraps at: the pane width less its two border
/// columns, at least one.
pub open spec fn composer_width(width: u16) -> int {
    at_least_one(width - 2)
}

/// Rows the composer needs for `text` in a pane `width` columns wide, at
/// least one.
pub open spec fn composer_rows(text: Seq<char>, width: u16) -> int {
    let ls = composer_lines(text);
    at_least_one(rows_of_lines(ls, ls.len() as int, composer_width(width)))
}

proof fn lemma_rows_of_lines_monotone(ls: Seq<Seq<char>>, i: int, j: int, width: int)
    requires
        0 <= i <= j <= ls.len(),
    ensures
        0 <= rows_of_lines(ls, i, width) <= rows_of_lines(ls, j, width),
    decreases j,
{
    if j > 0 {
        if i < j {
            lemma_rows_of_lines_monotone(ls, i, j - 1, width);
        } else {
            lemma_rows_of_lines_monotone(ls, 0, j - 1, width);
        }
        lemma_prefixed_rows_nonneg(ls[j - 1].len() as int, width);
    }
}

/// Every piece of a split is no longer than the text.
proof fn lemma_split_pieces_short(s: Seq<char>, c: char)
    ensures
        forall|k: int| 0 <= k < split_on(s, c).len() ==> (#[trigger] split_on(s, c)[k]).len() <= s.len(),
    decreases s.len(),
{
    let k0 = crate::text::first_index_of(s, c);
    lemma_first_index_bound(s, c);
    if k0 < s.len() {
        let rest = s.skip((k0 + 1) as int);
        lemma_split_pieces_short(rest, c);
        let ps = split_on(s, c);
        assert forall|k: int| 0 <= k < ps.len() implies (#[trigger] ps[k]).len() <= s.len() by {
            if k > 0 {
                assert(ps[k] == split_on(rest, c)[k - 1]);
            }
        }
    }
}

proof fn lemma_first_index_bound(s: Seq<char>, c: char)
    ensures
        crate::text::first_index_of(s, c) <= s.len(),
    decreases s.len(),
{
    if s.len() > 0 {
        lemma_first_index_bound(s.drop_first(), c);
    }
}

/// Every composer line is no longer than the text.
proof fn lemma_composer_lines_short(text: Seq<char>)
    ensures
        forall|k: int|
            0 <= k < composer_lines(text).len() ==> (#[trigger] composer_lines(text)[k]).len()
                <= text.len(),
{
    if text.len() > 0 {
        lemma_split_pieces_short(text, '\n');
    }
}

proof fn lemma_prefixed_rows_nonneg(cw: int, width: int)
    requires
        cw >= 0,
    ensures
        prefixed_rows(cw, width) >= 1,
{
    let a = at_least_one(2 + cw);
    let b = at_least_one(width);
    assert((a + b - 1) / b >= 1) by (nonlinear_arith)
        requires
            a >= 1,
            b >= 1,
    ;
}

fn lines_of(text: &str) -> (ls: Vec<Vec<char>>)
    ensures
        views(ls@) == composer_lines(text@),
{
    let chars = to_chars(text);
    if chars.len() == 0 {
        let v: Vec<Vec<char>> = vec![Vec::new()];
        assert(views(v@) =~= seq![Seq::<char>::empty()]);
        v
    } else {
        split_chars_on(&chars, '\n')
    }
}

/// The first `n` lines take at least a row each.
proof fn lemma_rows_of_lines_at_least_count(ls: Seq<Seq<char>>, n: int, width: int)
    requires
        0 <= n <= ls.len(),
    ensures
        rows_of_lines(ls, n, width) >= n,
    decreases n,
{
    if n > 0 {
        lemma_rows_of_lines_at_least_count(ls, n - 1, width);
        lemma_prefixed_rows_nonneg(ls[n - 1].len() as int, width);
    }
}

/// Law: the composer takes at least one row for each of its lines, and so
/// at least one row, whatever the width.
pub proof fn lemma_composer_rows_cover_lines(text: Seq<char>, width: u16)
    ensures
        composer_rows(text, width) >= composer_lines(text).len() >= 1,
{
    let ls = composer_lines(text);
    lemma_rows_of_lines_at_least_count(ls, ls.len() as int, composer_width(width));
}

/// Rows the composer needs for `text` in a pane `width` columns wide.
pub fn composer_visual_rows(text: &str, width: u16) -> (rows: u16)
    requires
        text@.len() <= isize::MAX,
        composer_rows(text@, width) <= u16::MAX,
    ensures
        rows == composer_rows(text@, width),
{
    let w: usize = if width < 3 {
        1
    } else {
        (width - 2) as usize
    };
    let ls = lines_of(text);
    let ghost vs = views(ls@);
    proof {
        lemma_composer_lines_short(text@);
    }
    let mut total: u16 = 0;
    let mut i: usize = 0;
    while i < ls.len()
        invariant
            i <= ls@.len(),
            vs == views(ls@),
            vs == composer_lines(text@),
            w == composer_width(width),
            total == rows_of_lines(vs, i as int, w as int),
            composer_rows(text@, width) <= u16::MAX,
            text@.len() <= isize::MAX,
            forall|k: int| 0 <= k < vs.len() ==> (#[trigger] vs[k]).len() <= text@.len(),
        decreases ls.len() - i,
    {
        proof {
            lemma_rows_of_lines_monotone(vs, i + 1, vs.len() as int, w as int);
            assert(vs[i as int] == ls@[i as int]@);
        }
        let n = ls[i].len();
        let r = prefixed_visual_rows(n, w);
        total = total + r as u16;
        i = i + 1;
    }
    if total < 1 {
        1
    } else {
        total
    }
}

/// Row of the composer's cursor: the rows of the lines above it, plus the
/// rows its column covers behind the two-column prefix.
pub open spec fn cursor_row(text: Seq<char>, cursor_line: int, cursor_column: int, width: u16) -> int {
    let w = at_least_one(width as int);
    rows_of_lines(composer_lines(text), cursor_line, w) + (2 + cursor_column) / w
}

/// Column of the composer's cursor within its row.
pub open spec fn cursor_col(cursor_column: int, width: u16) -> int {
    (2 + cursor_column) % at_least_one(width as int)
}

/// Where the composer's cursor lands once soft-wrapped, as (row, column),
/// each taken modulo 2^16 as the cast to `u16` does.
pub fn composer_cursor_offset(text: &str, cursor_line: usize, cursor_column: usize, width: u16) -> (rc: (
    u16,
    u16,
))
    requires
        text@.len() <= isize::MAX,
        cursor_column + 2 <= usize::MAX,
        cursor_row(text@, cursor_line as int, cursor_column as int, width) <= usize::MAX,
    ensures
        rc.0 as int == cursor_row(text@, cursor_line as int, cursor_column as int, width) % 65536,
        rc.1 as int == cursor_col(cursor_column as int, width),
        (rc.1 as int) < at_least_one(width as int),
{
    let w: usize = if width < 1 {
        1
    } else {
        width as usize
    };
    let ls = lines_of(text);
    let ghost vs = views(ls@);
    proof {
        lemma_composer_lines_short(text@);
    }
    let upto = if cursor_line < ls.len() {
        cursor_line
    } else {
        ls.len()
    };
    proof {
        assert(rows_of_lines(vs, cursor_line as int, w as int) == rows_of_lines(vs, upto as int, w as int));
        lemma_rows_of_lines_monotone(vs, upto as int, upto as int, w as int);
        let x = 2 + cursor_column;
        assert(x / (w as int) >= 0) by (nonlinear_arith)
            requires
                x >= 0,
                w >= 1,
        ;
    }
    let mut row: usize = 0;
    let mut i: usize = 0;
    while i < upto
        invariant
            i <= upto <= ls@.len(),
            vs == views(ls@),
            vs == composer_lines(text@),
            w == at_least_one(width as int),
            row == rows_of_lines(vs, i as int, w as int),
            rows_of_lines(vs, upto as int, w as int) <= usize::MAX,
            text@.len() <= isize::MAX,
            forall|k: int| 0 <= k < vs.len() ==> (#[trigger] vs[k]).len() <= text@.len(),
        decreases upto - i,
    {
        proof {
            lemma_rows_of_lines_monotone(vs, i + 1, upto as int, w as int);
            assert(vs[i as int] == ls@[i as int]@);
        }
        let n = ls[i].len();
        row = row + prefixed_visual_rows(n, w);
        i = i + 1;
    }
    let prefixed_column = 2 + cursor_column;
    row = row + prefixed_column / w;
    let col = prefixed_column % w;
    let r16 = row as u16;
    let c16 = col as u16;
    assert(r16 == row % 65536) by (bit_vector)
        requires
            r16 == row as u16,
    ;
    assert(c16 == col) by (bit_vector)
        requires
            c16 == col as u16,
            col < 65536,
    ;
    (r16, c16)
}

/// The content rows a transcript item's text takes: the wrapped rows of each
/// of its lines, at least one.
pub open spec fn content_rows(ls: Seq<Seq<char>>, width: int) -> int
    decreases ls.len(),
{
    if ls.len() == 0 {
        0
    } else {
        content_rows(ls.drop_last(), width) + wrapped_rows(ls.last().len() as int, width)
    }
}

/// Rows a transcript item takes: its `[role]` label, its content and a blank
/// separator row.
pub open spec fn item_rows(item: TranscriptItemViewModel, width: int) -> int {
    wrapped_rows(item.role_label@.len() + 2int, width) + at_least_one(
        content_rows(split_on(item.content@, '\n'), width),
    ) + 1
}

proof fn lemma_wrapped_rows_positive(len: int, width: int)
    ensures
        wrapped_rows(len, width) >= 1,
{
    let a = at_least_one(len);
    let b = at_least_one(width);
    assert((a + b - 1) / b >= 1) by (nonlinear_arith)
        requires
            a >= 1,
            b >= 1,
    ;
}

proof fn lemma_content_rows_nonneg(ls: Seq<Seq<char>>, width: int)
    ensures
        content_rows(ls, width) >= 0,
    decreases ls.len(),
{
    if ls.len() > 0 {
        lemma_content_rows_nonneg(ls.drop_last(), width);
        lemma_wrapped_rows_positive(ls.last().len() as int, width);
    }
}

proof fn lemma_content_rows_monotone(ls: Seq<Seq<char>>, i: int, width: int)
    requires
        0 <= i <= ls.len(),
    ensures
        0 <= content_rows(ls.take(i), width) <= content_rows(ls, width),
    decreases ls.len() - i,
{
    lemma_content_rows_nonneg(ls.take(i), width);
    if i < ls.len() {
        lemma_content_rows_monotone(ls, i + 1, width);
        assert(ls.take(i + 1).drop_last() =~= ls.take(i));
        assert(ls.take(i + 1).last() == ls[i]);
        lemma_wrapped_rows_positive(ls[i].len() as int, width);
    } else {
        assert(ls.take(i) =~= ls);
    }
}

pub fn transcript_item_rows(item: &TranscriptItemViewModel, width: usize) -> (rows: usize)
    requires
        item_rows(*item, width as int) <= usize::MAX,
        item.role_label@.len() + 2 <= usize::MAX,
    ensures
        rows == item_rows(*item, width as int),
{
    let w = if width < 1 {
        1
    } else {
        width
    };
    let role_len = to_chars(item.role_label.as_str()).len();
    let role_rows = div_ceil_usize(role_len + 2, w);
    let content = to_chars(item.content.as_str());
    let pieces = split_chars_on(&content, '\n');
    let ghost vs = views(pieces@);
    let mut content_total: usize = 0;
    let mut i: usize = 0;
    assert(vs.take(0) =~= Seq::<Seq<char>>::empty());
    proof {
        lemma_content_rows_monotone(vs, 0, width as int);
        lemma_wrapped_rows_positive(role_len + 2, width as int);
    }
    while i < pieces.len()
        invariant
            i <= pieces@.len(),
            vs == views(pieces@),
            vs == split_on(item.content@, '\n'),
            w == at_least_one(width as int),
            content_total == content_rows(vs.take(i as int), width as int),
            content_rows(vs, width as int) + 2 <= usize::MAX,
        decreases pieces.len() - i,
    {
        proof {
            lemma_content_rows_monotone(vs, i + 1, width as int);
            assert(vs.take(i + 1).drop_last() =~= vs.take(i as int));
            assert(vs.take(i + 1).last() == vs[i as int]);
            assert(vs[i as int] == pieces@[i as int]@);
        }
        let n = pieces[i].len();
        let display = if n < 1 {
            1
        } else {
            n
        };
        content_total = content_total + div_ceil_usize(display, w);
        i = i + 1;
    }
    assert(vs.take(i as int) =~= vs);
    let content_rows_total = if content_total < 1 {
        1
    } else {
        content_total
    };
    role_rows + content_rows_total + 1
}

/// Where the transcript tail starts: scanning from the newest item back, an
/// item is kept while the rows used stay within `height` (the newest is kept
/// whatever its size), and the scan stops once the pane is full.
pub open spec fn tail_start(rows: Seq<int>, i: int, used: int, height: int) -> int
    decreases i,
{
    if i <= 0 || i > rows.len() {
        0
    } else if i < rows.len() && used + rows[i - 1] > height {
        i
    } else if used + rows[i - 1] >= height {
        i - 1
    } else {
        tail_start(rows, i - 1, used + rows[i - 1], height)
    }
}

pub open spec fn rows_of_items(items: Seq<TranscriptItemViewModel>, width: int) -> Seq<int> {
    items.map_values(|it: TranscriptItemViewModel| item_rows(it, width))
}

/// The newest transcript items that fit a pane `width` by `height`; all of
/// them when there are none or the pane is empty.
pub open spec fn transcript_tail(items: Seq<TranscriptItemViewModel>, width: u16, height: u16) -> Seq<
    TranscriptItemViewModel,
> {
    if items.len() == 0 || height == 0 || width == 0 {
        items
    } else {
        items.skip(
            tail_start(rows_of_items(items, width as int), items.len() as int, 0, height as int),
        )
    }
}

proof fn lemma_tail_start_bounds(rows: Seq<int>, i: int, used: int, height: int)
    requires
        0 <= i <= rows.len(),
    ensures
        0 <= tail_start(rows, i, used, height) <= i,
    decreases i,
{
    if i > 0 {
        lemma_tail_start_bounds(rows, i - 1, used + rows[i - 1], height);
    }
}

fn tail_start_index(items: &[TranscriptItemViewModel], width: u16, height: u16) -> (s: usize)
    requires
        items@.len() > 0,
        width > 0,
        height > 0,
        forall|i: int|
            0 <= i < items@.len() ==> item_rows(#[trigger] items@[i], width as int) <= u16::MAX
                && items@[i].role_label@.len() + 2 <= usize::MAX,
    ensures
        s == tail_start(rows_of_items(items@, width as int), items@.len() as int, 0, height as int),
{
    let ghost rows = rows_of_items(items@, width as int);
    let w = width as usize;
    let h = height as usize;
    let mut used: usize = 0;
    let mut i: usize = items.len();
    while i > 0
        invariant
            i <= items@.len(),
            rows == rows_of_items(items@, width as int),
            used < h,
            h == height,
            w == width,
            w >= 1,
            forall|k: int|
                0 <= k < items@.len() ==> item_rows(#[trigger] items@[k], width as int) <= u16::MAX
                    && items@[k].role_label@.len() + 2 <= usize::MAX,
            tail_start(rows, items@.len() as int, 0, height as int) == tail_start(
                rows,
                i as int,
                used as int,
                height as int,
            ),
        decreases i,
    {
        assert(rows[i - 1] == item_rows(items@[i - 1], width as int));
        let r = transcript_item_rows(&items[i - 1], w);
        if i < items.len() && used + r > h {
            return i;
        }
        if used + r >= h {
            return i - 1;
        }
        used = used + r;
        i = i - 1;
    }
    0
}

/// The newest transcript items that fit the pane; the pane's width and
/// height are taken as plain numbers.
pub fn transcript_tail_for_area(items: &[TranscriptItemViewModel], width: u16, height: u16) -> (kept: Vec<
    TranscriptItemViewModel,
>)
    requires
        forall|i: int|
            0 <= i < items@.len() ==> item_rows(#[trigger] items@[i], width as int) <= u16::MAX
                && items@[i].role_label@.len() + 2 <= usize::MAX,
    ensures
        kept@ == transcript_tail(items@, width, height),
{
    if items.len() == 0 || height == 0 || width == 0 {
        return crate::view_model::duplicate_items(items);
    }
    let start = tail_start_index(items, width, height);
    proof {
        lemma_tail_start_bounds(rows_of_items(items@, width as int), items@.len() as int, 0, height as int);
    }
    let mut kept: Vec<TranscriptItemViewModel> = Vec::new();
    let mut k = start;
    while k < items.len()
        invariant
            start <= k <= items@.len(),
            kept@ == items@.subrange(start as int, k as int),
        decreases items.len() - k,
    {
        kept.push(items[k].duplicate());
        assert(kept@ =~= items@.subrange(start as int, k + 1));
        k = k + 1;
    }
    assert(items@.subrange(start as int, k as int) =~= items@.skip(start as int));
    kept
}

// ---------------------------------------------------------------------
// the heights of the shell's panes

/// The rows a pane of `rows` content rows takes: none when empty, else up to
/// four content rows inside a border.
pub open spec fn optional_pane_height(rows: u16) -> u16 {
    if rows == 0 {
        0
    } else if rows < 4 {
        (rows + 2) as u16
    } else {
        6
    }
}

/// The composer's rows: its content inside a border, between four and ten.
pub open spec fn composer_height(rows: u16) -> u16 {
    if rows + 2 < 4 {
        4
    } else if rows + 2 > 10 {
        10
    } else {
        (rows + 2) as u16
    }
}

/// The heights the shell asks of its slash-hint, search and composer panes;
/// the layout gives the top bar and footer one row each and the transcript
/// at least eight.
pub fn shell_pane_heights(hint_rows: u16, search_rows: u16, composer_rows: u16) -> (h: (
    u16,
    u16,
    u16,
))
    requires
        composer_rows + 2 <= u16::MAX,
    ensures
        h.0 == optional_pane_height(hint_rows),
        h.1 == optional_pane_height(search_rows),
        h.2 == composer_height(composer_rows),
{
    let hint = if hint_rows == 0 {
        0
    } else if hint_rows < 4 {
        hint_rows + 2
    } else {
        6
    };
    let search = if search_rows == 0 {
        0
    } else if search_rows < 4 {
        search_rows + 2
    } else {
        6
    };
    let c = composer_rows + 2;
    let composer = if c < 4 {
        4
    } else if c > 10 {
        10
    } else {
        c
    };
    (hint, search, composer)
}

} // verus!
