//! The modal overlay drawn over the shell: a scrollable pager or an
//! approval prompt.
use vstd::prelude::*;

use crate::text::string_views;

verus! {

#[derive(Clone, Copy, Debug, Default, PartialEq, Eq, Structural)]
pub enum OverlayKind {
    #[default]
    Pager,
    Approval,
}

#[derive(Clone, Debug, Default)]
pub struct OverlayState {
    pub visible: bool,
    pub title: String,
    pub lines: Vec<String>,
    pub scroll: usize,
    pub kind: OverlayKind,
}

/// `x` raised to at least one.
pub open spec fn at_least_one(x: usize) -> int {
    if x < 1 {
        1
    } else {
        x as int
    }
}

/// `x - y`, or 0 below zero.
pub open spec fn sat_sub(x: int, y: int) -> int {
    if x >= y {
        x - y
    } else {
        0
    }
}

/// `x + y`, or `usize::MAX` above it.
pub open spec fn sat_add(x: int, y: int) -> int {
    if x + y <= usize::MAX {
        x + y
    } else {
        usize::MAX as int
    }
}

impl OverlayState {
    /// A visible pager over `lines`, scrolled to the top.
    pub fn show_pager(title: String, lines: Vec<String>) -> (o: Self)
        ensures
            o.visible,
            o.title == title,
            o.lines == lines,
            o.scroll == 0,
            o.kind == OverlayKind::Pager,
    {
        OverlayState { visible: true, title, lines, scroll: 0, kind: OverlayKind::Pager }
    }

    /// A visible approval prompt: the summary, a blank line and the keys.
    pub fn show_approval(title: String, summary: String) -> (o: Self)
        ensures
            o.visible,
            o.title == title,
            string_views(o.lines@) == seq![
                summary@,
                Seq::<char>::empty(),
                "Approve: a / Enter   Deny: d / Esc   Cancel: Ctrl+C"@,
            ],
            o.scroll == 0,
            o.kind == OverlayKind::Approval,
    {
        let lines = vec![
            summary,
            String::new(),
            "Approve: a / Enter   Deny: d / Esc   Cancel: Ctrl+C".to_owned(),
        ];
        assert(string_views(lines@) =~= seq![
            lines@[0]@,
            Seq::<char>::empty(),
            "Approve: a / Enter   Deny: d / Esc   Cancel: Ctrl+C"@,
        ]);
        OverlayState { visible: true, title, lines, scroll: 0, kind: OverlayKind::Approval }
    }

    /// Hides the overlay and drops its lines; title and kind stay.
    pub fn dismiss(&mut self)
        ensures
            !final(self).visible,
            final(self).lines@.len() == 0,
            final(self).scroll == 0,
            final(self).title == old(self).title,
            final(self).kind == old(self).kind,
    {
        self.visible = false;
        self.lines = Vec::new();
        self.scroll = 0;
    }

    /// Scrolls up by `rows` (at least one), stopping at the top.
    pub fn scroll_up(&mut self, rows: usize)
        ensures
            final(self).scroll == sat_sub(old(self).scroll as int, at_least_one(rows)),
            final(self).visible == old(self).visible,
            final(self).title == old(self).title,
            final(self).lines == old(self).lines,
            final(self).kind == old(self).kind,
    {
        let step = if rows < 1 {
            1
        } else {
            rows
        };
        self.scroll = self.scroll.saturating_sub(step);
    }

    /// Scrolls down by `rows` (at least one).
    pub fn scroll_down(&mut self, rows: usize)
        ensures
            final(self).scroll == sat_add(old(self).scroll as int, at_least_one(rows)),
            final(self).visible == old(self).visible,
            final(self).title == old(self).title,
            final(self).lines == old(self).lines,
            final(self).kind == old(self).kind,
    {
        let step = if rows < 1 {
            1
        } else {
            rows
        };
        self.scroll = self.scroll.saturating_add(step);
    }

    /// Scrolls up by a page of `page` rows (at least one).
    pub fn page_up(&mut self, page: usize)
        ensures
            final(self).scroll == sat_sub(old(self).scroll as int, at_least_one(page)),
            final(self).visible == old(self).visible,
            final(self).title == old(self).title,
            final(self).lines == old(self).lines,
            final(self).kind == old(self).kind,
    {
        self.scroll_up(page);
    }

    /// Scrolls down by a page of `page` rows (at least one).
    pub fn page_down(&mut self, page: usize)
        ensures
            final(self).scroll == sat_add(old(self).scroll as int, at_least_one(page)),
            final(self).visible == old(self).visible,
            final(self).title == old(self).title,
            final(self).lines == old(self).lines,
            final(self).kind == old(self).kind,
    {
        self.scroll_down(page);
    }

    pub fn jump_top(&mut self)
        ensures
            final(self).scroll == 0,
            final(self).visible == old(self).visible,
            final(self).title == old(self).title,
            final(self).lines == old(self).lines,
            final(self).kind == old(self).kind,
    {
        self.scroll = 0;
    }

    /// Scrolls far past the end; `visible_range` then shows nothing past the
    /// last line.
    pub fn jump_bottom(&mut self)
        ensures
            final(self).scroll == usize::MAX / 2,
            final(self).visible == old(self).visible,
            final(self).title == old(self).title,
            final(self).lines == old(self).lines,
            final(self).kind == old(self).kind,
    {
        self.scroll = usize::MAX / 2;
    }

    /// The indices of the lines shown in a pane `height` rows high (at least
    /// one): from the scroll position, clamped to the lines.
    pub fn visible_range(&self, height: usize) -> (r: std::ops::Range<usize>)
        ensures
            r.start == if self.scroll <= self.lines@.len() {
                self.scroll as int
            } else {
                self.lines@.len() as int
            },
            r.end == if r.start + at_least_one(height) <= self.lines@.len() {
                r.start + at_least_one(height)
            } else {
                self.lines@.len() as int
            },
            r.start <= r.end <= self.lines@.len(),
    {
        let h = if height < 1 {
            1
        } else {
            height
        };
        let n = self.lines.len();
        let start = if self.scroll <= n {
            self.scroll
        } else {
            n
        };
        let end = if h <= n - start {
            start + h
        } else {
            n
        };
        start..end
    }
}

/// Law: scrolling down and back up by the same amount returns to the same
/// position, unless the way down hit the end of the scroll range.
pub proof fn lemma_scroll_up_undoes_scroll_down(scroll: usize, rows: usize)
    requires
        scroll + at_least_one(rows) <= usize::MAX,
    ensures
        sat_sub(sat_add(scroll as int, at_least_one(rows)), at_least_one(rows)) == scroll,
{
}

} // verus!
