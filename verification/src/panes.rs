//! What the shell's panes show: the top bar, the status panel's labelled
//! lines, the composer's lines and title, a transcript item's rows, the
//! footer, and the overlay's placement and visible lines. The drawing code
//! lays these values out on the terminal.
use vstd::prelude::*;

use crate::text::decimal;
use crate::text::from_chars;
use crate::text::join2;
use crate::text::join3;
use crate::text::split_chars_on;
use crate::text::split_on;
use crate::text::string_views;
use crate::text::to_chars;
use crate::text::trim;
use crate::text::trim_chars;
use crate::text::u64_to_decimal;
use crate::text::views;
use crate::theme::badge_style;
use crate::theme::footer_badge_style;
use crate::theme::role_style;
use crate::theme::transcript_role;
use crate::theme::StyleSpec;
use crate::view_model::ComposerMode;
use crate::view_model::FooterViewModel;
use crate::view_model::OverlayViewModel;
use crate::view_model::RateLimitViewModel;
use crate::view_model::StatusPanelViewModel;
use crate::view_model::TopBarViewModel;
use crate::view_model::TranscriptItemViewModel;
use crate::view_model::UsageViewModel;

verus! {

// ---------------------------------------------------------------------
// small arithmetic

pub open spec fn sat_sub(a: int, b: int) -> int {
    if a > b {
        a - b
    } else {
        0
    }
}

pub open spec fn min_of(a: int, b: int) -> int {
    if a < b {
        a
    } else {
        b
    }
}

pub open spec fn max_of(a: int, b: int) -> int {
    if a > b {
        a
    } else {
        b
    }
}

fn sat_sub_u16(a: u16, b: u16) -> (r: u16)
    ensures
        r == sat_sub(a as int, b as int),
{
    if a > b {
        a - b
    } else {
        0
    }
}

fn min_u16(a: u16, b: u16) -> (r: u16)
    ensures
        r == min_of(a as int, b as int),
{
    if a < b {
        a
    } else {
        b
    }
}

// ---------------------------------------------------------------------
// rectangles

/// A rectangle of terminal cells.
#[derive(Clone, Copy, Debug, PartialEq, Eq)]
pub struct Rect {
    pub x: u16,
    pub y: u16,
    pub width: u16,
    pub height: u16,
}

/// `r` is a `width` by `height` rectangle (cut to `area`'s size) centred in
/// `area`.
pub open spec fn is_centered(r: Rect, width: int, height: int, area: Rect) -> bool {
    &&& r.x == area.x + sat_sub(area.width as int, width) / 2
    &&& r.y == area.y + sat_sub(area.height as int, height) / 2
    &&& r.width == min_of(width, area.width as int)
    &&& r.height == min_of(height, area.height as int)
}

/// A `width` by `height` rectangle centred in `area`.
pub fn centered_rect(width: u16, height: u16, area: Rect) -> (r: Rect)
    requires
        area.x + sat_sub(area.width as int, width as int) / 2 <= u16::MAX,
        area.y + sat_sub(area.height as int, height as int) / 2 <= u16::MAX,
    ensures
        is_centered(r, width as int, height as int, area),
{
    let x = area.x + sat_sub_u16(area.width, width) / 2;
    let y = area.y + sat_sub_u16(area.height, height) / 2;
    Rect { x, y, width: min_u16(width, area.width), height: min_u16(height, area.height) }
}

/// Law: a centred rectangle lies inside the area it is centred in.
pub proof fn lemma_centered_fits(r: Rect, width: int, height: int, area: Rect)
    requires
        is_centered(r, width, height, area),
    ensures
        area.x <= r.x,
        r.x + r.width <= area.x + area.width,
        area.y <= r.y,
        r.y + r.height <= area.y + area.height,
{
}

/// The overlay's height in an area `h` rows high: four rows less, at least
/// three, at most `h`.
pub open spec fn popup_height(h: int) -> int {
    min_of(max_of(sat_sub(h, 4), 3), h)
}

/// The overlay's width in an area `w` columns wide: eight columns less, at
/// least twenty, at most `w`.
pub open spec fn popup_width(w: int) -> int {
    min_of(max_of(sat_sub(w, 8), 20), w)
}

// ---------------------------------------------------------------------
// the overlay

pub open spec fn is_approval_kind(kind: Seq<char>) -> bool {
    kind == "approval"@
}

/// The overlay's title: a fixed one for an approval request, the pager's
/// title with a space on each side otherwise.
pub open spec fn overlay_title_text(kind: Seq<char>, title: Seq<char>) -> Seq<char> {
    if is_approval_kind(kind) {
        " Approval Request "@
    } else {
        " "@ + title + " "@
    }
}

/// The overlay's key hint.
pub open spec fn overlay_hint_text(kind: Seq<char>) -> Seq<char> {
    if is_approval_kind(kind) {
        "a/Enter approve  d/Esc deny  Ctrl+C cancel"@
    } else {
        " j/k scroll  g/G top/bottom  q close "@
    }
}

/// The pager's position: the first shown line's number over the line count
/// (at least one).
pub open spec fn position_text(scroll: int, total: int) -> Seq<char> {
    " "@ + decimal((scroll + 1) as nat) + "/"@ + decimal(max_of(total, 1) as nat) + " "@
}

/// How the overlay is drawn: where, under which title and hint, and, for a
/// pager, the position shown beside the hint.
#[derive(Clone, Debug, PartialEq, Eq)]
pub struct OverlayPlan {
    pub approval: bool,
    pub popup: Rect,
    pub title: String,
    pub hint: String,
    pub position: Option<String>,
}

/// Plans the overlay in `area` (a rectangle within the terminal's
/// coordinates).
pub fn plan_overlay(area: Rect, overlay: &OverlayViewModel) -> (p: OverlayPlan)
    requires
        area.x + area.width <= u16::MAX,
        area.y + area.height <= u16::MAX,
        overlay.scroll < usize::MAX,
    ensures
        p.approval == is_approval_kind(overlay.kind@),
        is_centered(
            p.popup,
            popup_width(area.width as int),
            popup_height(area.height as int),
            area,
        ),
        p.title@ == overlay_title_text(overlay.kind@, overlay.title@),
        p.hint@ == overlay_hint_text(overlay.kind@),
        match p.position {
            Some(s) => !p.approval && s@ == position_text(
                overlay.scroll as int,
                overlay.lines@.len() as int,
            ),
            None => p.approval,
        },
{
    let kind = to_chars(overlay.kind.as_str());
    let approval_word = to_chars("approval");
    let approval = crate::text::chars_eq(kind.as_slice(), approval_word.as_slice());
    let h = min_u16(
        {
            let d = sat_sub_u16(area.height, 4);
            if d > 3 {
                d
            } else {
                3
            }
        },
        area.height,
    );
    let w = min_u16(
        {
            let d = sat_sub_u16(area.width, 8);
            if d > 20 {
                d
            } else {
                20
            }
        },
        area.width,
    );
    let popup = centered_rect(w, h, area);
    if approval {
        OverlayPlan {
            approval,
            popup,
            title: " Approval Request ".to_string(),
            hint: "a/Enter approve  d/Esc deny  Ctrl+C cancel".to_string(),
            position: None,
        }
    } else {
        let total = if overlay.lines.len() > 1 {
            overlay.lines.len()
        } else {
            1
        };
        let first = u64_to_decimal((overlay.scroll + 1) as u64);
        let count = u64_to_decimal(total as u64);
        let a = join3(" ", first.as_str(), "/");
        let position = join3(a.as_str(), count.as_str(), " ");
        OverlayPlan {
            approval,
            popup,
            title: join3(" ", overlay.title.as_str(), " "),
            hint: " j/k scroll  g/G top/bottom  q close ".to_string(),
            position: Some(position),
        }
    }
}

/// Rows of the overlay's inside that show lines: all of them for an
/// approval request, all but the hint row for a pager.
pub fn overlay_content_rows(inner_height: u16, approval: bool) -> (r: u16)
    ensures
        r == (if approval {
            inner_height as int
        } else {
            sat_sub(inner_height as int, 1)
        }),
{
    if approval {
        inner_height
    } else {
        sat_sub_u16(inner_height, 1)
    }
}

/// The lines shown: from line `scroll` on, at most `rows` of them.
pub open spec fn visible_window(lines: Seq<Seq<char>>, scroll: int, rows: int) -> Seq<Seq<char>> {
    if scroll >= lines.len() {
        Seq::empty()
    } else {
        lines.subrange(scroll, min_of(scroll + rows, lines.len() as int))
    }
}

pub fn overlay_visible_lines(lines: &Vec<String>, scroll: usize, rows: usize) -> (r: Vec<String>)
    ensures
        string_views(r@) == visible_window(string_views(lines@), scroll as int, rows as int),
{
    let mut r: Vec<String> = Vec::new();
    if scroll >= lines.len() {
        assert(string_views(r@) =~= Seq::<Seq<char>>::empty());
        return r;
    }
    let room = lines.len() - scroll;
    let end = if rows < room {
        scroll + rows
    } else {
        lines.len()
    };
    let mut i = scroll;
    while i < end
        invariant
            scroll <= i <= end <= lines@.len(),
            string_views(r@) == string_views(lines@).subrange(scroll as int, i as int),
        decreases end - i,
    {
        let ghost before = r@;
        let line = lines[i].clone();
        r.push(line);
        assert(string_views(r@) =~= string_views(before).push(line@));
        assert(string_views(r@) =~= string_views(lines@).subrange(scroll as int, i + 1));
        i = i + 1;
    }
    r
}

// ---------------------------------------------------------------------
// the status panel

/// A line of the status panel: a label (with its colon) and a value.
#[derive(Clone, Debug, PartialEq, Eq)]
pub struct LabeledLine {
    pub label: String,
    pub value: String,
}

pub open spec fn labeled_views(v: Seq<LabeledLine>) -> Seq<(Seq<char>, Seq<char>)> {
    v.map_values(|l: LabeledLine| (l.label@, l.value@))
}

pub open spec fn or_zero(o: Option<u64>) -> nat {
    match o {
        Some(n) => n as nat,
        None => 0,
    }
}

/// The token usage, or a dash before any was reported.
pub open spec fn usage_text(u: UsageViewModel) -> Seq<char> {
    if u.total_tokens > 0 {
        "in="@ + decimal(u.input_tokens as nat) + " out="@ + decimal(u.output_tokens as nat)
            + " cached="@ + decimal(u.cached_input_tokens as nat) + " total="@ + decimal(
            u.total_tokens as nat,
        )
    } else {
        "—"@
    }
}

/// The remaining requests and tokens over their limits (a missing number
/// shows as zero), or a dash when neither remainder was reported.
pub open spec fn rate_limit_text(r: RateLimitViewModel) -> Seq<char> {
    if r.remaining_requests is Some || r.remaining_tokens is Some {
        "req "@ + decimal(or_zero(r.remaining_requests)) + "/"@ + decimal(or_zero(r.limit_requests))
            + " · tok "@ + decimal(or_zero(r.remaining_tokens)) + "/"@ + decimal(
            or_zero(r.limit_tokens),
        )
    } else {
        "—"@
    }
}

/// The provider, or that none is configured when the summary is blank.
pub open spec fn provider_text(summary: Seq<char>) -> Seq<char> {
    if trim(summary).len() == 0 {
        "provider not configured"@
    } else {
        summary
    }
}

/// The status panel, line by line.
pub open spec fn status_panel_text(p: StatusPanelViewModel) -> Seq<(Seq<char>, Seq<char>)> {
    seq![
        ("Phase: "@, p.phase@),
        ("Objective: "@, p.objective@),
        ("Last: "@, p.last_outcome@),
        ("Pending approval: "@, if p.pending_approval {
            "yes"@
        } else {
            "no"@
        }),
        ("Compact count: "@, decimal(p.compact_count as nat)),
        ("Resume count: "@, decimal(p.resume_count as nat)),
        ("Provider: "@, provider_text(p.provider_summary@)),
        ("Model: "@, p.model_summary@),
        ("Tokens: "@, usage_text(p.usage)),
        ("Rate limit: "@, rate_limit_text(p.rate_limit)),
    ]
}

fn push_labeled(v: &mut Vec<LabeledLine>, label: &str, value: String)
    ensures
        labeled_views(final(v)@) == labeled_views(old(v)@).push((label@, value@)),
{
    v.push(LabeledLine { label: label.to_string(), value });
    assert(labeled_views(v@) =~= labeled_views(old(v)@).push((label@, value@)));
}

fn opt_or_zero(o: Option<u64>) -> (n: u64)
    ensures
        n == or_zero(o),
{
    match o {
        Some(n) => n,
        None => 0,
    }
}

fn usage_line(u: &UsageViewModel) -> (s: String)
    ensures
        s@ == usage_text(*u),
{
    if u.total_tokens > 0 {
        let a = join2("in=", u64_to_decimal(u.input_tokens).as_str());
        let b = join3(a.as_str(), " out=", u64_to_decimal(u.output_tokens).as_str());
        let c = join3(b.as_str(), " cached=", u64_to_decimal(u.cached_input_tokens).as_str());
        join3(c.as_str(), " total=", u64_to_decimal(u.total_tokens).as_str())
    } else {
        "—".to_string()
    }
}

fn rate_limit_line(r: &RateLimitViewModel) -> (s: String)
    ensures
        s@ == rate_limit_text(*r),
{
    if r.remaining_requests.is_some() || r.remaining_tokens.is_some() {
        let a = join2("req ", u64_to_decimal(opt_or_zero(r.remaining_requests)).as_str());
        let b = join3(a.as_str(), "/", u64_to_decimal(opt_or_zero(r.limit_requests)).as_str());
        let c = join3(b.as_str(), " · tok ", u64_to_decimal(opt_or_zero(r.remaining_tokens)).as_str());
        join3(c.as_str(), "/", u64_to_decimal(opt_or_zero(r.limit_tokens)).as_str())
    } else {
        "—".to_string()
    }
}

/// The status panel's lines.
pub fn status_panel_lines(p: &StatusPanelViewModel) -> (r: Vec<LabeledLine>)
    ensures
        labeled_views(r@) == status_panel_text(*p),
{
    let summary = to_chars(p.provider_summary.as_str());
    let provider = if trim_chars(summary.as_slice()).len() == 0 {
        "provider not configured".to_string()
    } else {
        p.provider_summary.clone()
    };
    let mut r: Vec<LabeledLine> = Vec::new();
    assert(labeled_views(r@) =~= Seq::<(Seq<char>, Seq<char>)>::empty());
    push_labeled(&mut r, "Phase: ", p.phase.clone());
    push_labeled(&mut r, "Objective: ", p.objective.clone());
    push_labeled(&mut r, "Last: ", p.last_outcome.clone());
    push_labeled(
        &mut r,
        "Pending approval: ",
        if p.pending_approval {
            "yes".to_string()
        } else {
            "no".to_string()
        },
    );
    push_labeled(&mut r, "Compact count: ", u64_to_decimal(p.compact_count as u64));
    push_labeled(&mut r, "Resume count: ", u64_to_decimal(p.resume_count as u64));
    push_labeled(&mut r, "Provider: ", provider);
    push_labeled(&mut r, "Model: ", p.model_summary.clone());
    push_labeled(&mut r, "Tokens: ", usage_line(&p.usage));
    push_labeled(&mut r, "Rate limit: ", rate_limit_line(&p.rate_limit));
    assert(labeled_views(r@) =~= status_panel_text(*p));
    r
}

// ---------------------------------------------------------------------
// the top bar

/// The top bar's pieces: the product's name padded by a space on each
/// side, then the session, phase, model, approval mode and cycle, set apart.
pub open spec fn top_bar_text(t: TopBarViewModel) -> Seq<Seq<char>> {
    seq![
        " "@ + t.product_name@ + " "@,
        "  "@,
        t.session_summary@,
        "  •  "@,
        t.phase@,
        "  •  "@,
        t.model@,
        "  •  "@,
        t.approval_mode@,
        "  •  "@,
        t.cycle_summary@,
    ]
}

fn push_piece(v: &mut Vec<String>, s: String)
    ensures
        string_views(final(v)@) == string_views(old(v)@).push(s@),
{
    v.push(s);
    assert(string_views(v@) =~= string_views(old(v)@).push(s@));
}

pub fn top_bar_pieces(t: &TopBarViewModel) -> (r: Vec<String>)
    ensures
        string_views(r@) == top_bar_text(*t),
{
    let mut r: Vec<String> = Vec::new();
    assert(string_views(r@) =~= Seq::<Seq<char>>::empty());
    push_piece(&mut r, join3(" ", t.product_name.as_str(), " "));
    push_piece(&mut r, "  ".to_string());
    push_piece(&mut r, t.session_summary.clone());
    push_piece(&mut r, "  •  ".to_string());
    push_piece(&mut r, t.phase.clone());
    push_piece(&mut r, "  •  ".to_string());
    push_piece(&mut r, t.model.clone());
    push_piece(&mut r, "  •  ".to_string());
    push_piece(&mut r, t.approval_mode.clone());
    push_piece(&mut r, "  •  ".to_string());
    push_piece(&mut r, t.cycle_summary.clone());
    assert(string_views(r@) =~= top_bar_text(*t));
    r
}

// ---------------------------------------------------------------------
// the composer

/// The composer's title, and whether Vim's normal-mode marker follows it.
pub fn composer_title(mode: ComposerMode) -> (r: (String, bool))
    ensures
        r.1 == (mode == ComposerMode::Normal),
        r.0@ == (if mode == ComposerMode::Normal {
            "Composer  "@
        } else {
            "Composer"@
        }),
{
    match mode {
        ComposerMode::Normal => ("Composer  ".to_string(), true),
        ComposerMode::Insert => ("Composer".to_string(), false),
    }
}

/// A line of the composer: the prompt marker or indentation, and the text.
#[derive(Clone, Debug, PartialEq, Eq)]
pub struct ComposerLine {
    pub prefix: String,
    pub text: String,
}

/// The composer shows each line of its text, the first behind `> `, the
/// others indented by two spaces.
pub open spec fn composer_line_ok(l: ComposerLine, text: Seq<char>, i: int) -> bool {
    &&& l.text@ == split_on(text, '\n')[i]
    &&& l.prefix@ == (if i == 0 {
        "> "@
    } else {
        "  "@
    })
}

pub fn composer_lines(text: &str) -> (r: Vec<ComposerLine>)
    ensures
        r@.len() == split_on(text@, '\n').len(),
        forall|i: int| 0 <= i < r@.len() ==> composer_line_ok(#[trigger] r@[i], text@, i),
{
    let chars = to_chars(text);
    let pieces = split_chars_on(chars.as_slice(), '\n');
    let mut r: Vec<ComposerLine> = Vec::new();
    let mut i: usize = 0;
    while i < pieces.len()
        invariant
            i <= pieces@.len(),
            r@.len() == i,
            views(pieces@) == split_on(text@, '\n'),
            forall|k: int| 0 <= k < i ==> composer_line_ok(#[trigger] r@[k], text@, k),
        decreases pieces.len() - i,
    {
        let prefix = if i == 0 {
            "> ".to_string()
        } else {
            "  ".to_string()
        };
        let line = from_chars(pieces[i].as_slice());
        assert(line@ == views(pieces@)[i as int]);
        r.push(ComposerLine { prefix, text: line });
        i = i + 1;
    }
    r
}

// ---------------------------------------------------------------------
// transcript items

/// How a transcript item is drawn: its role marker and the marker's style;
/// an assistant's reply is rendered as Markdown, any other item line by
/// line; a blank row follows.
#[derive(Clone, Debug, PartialEq, Eq)]
pub struct TranscriptItemPlan {
    pub marker: String,
    pub marker_style: StyleSpec,
    pub markdown: bool,
    pub lines: Vec<String>,
}

pub fn plan_transcript_item(item: &TranscriptItemViewModel) -> (p: TranscriptItemPlan)
    ensures
        p.marker@ == "["@ + item.role_label@ + "]"@,
        p.marker_style == role_style(item.role_label@),
        p.markdown == (item.role_label@ == "ASSISTANT"@),
        string_views(p.lines@) == (if p.markdown {
            Seq::empty()
        } else {
            split_on(item.content@, '\n')
        }),
{
    let role = to_chars(item.role_label.as_str());
    let assistant = to_chars("ASSISTANT");
    let markdown = crate::text::chars_eq(role.as_slice(), assistant.as_slice());
    let mut lines: Vec<String> = Vec::new();
    if !markdown {
        let content = to_chars(item.content.as_str());
        let pieces = split_chars_on(content.as_slice(), '\n');
        let mut i: usize = 0;
        while i < pieces.len()
            invariant
                i <= pieces@.len(),
                views(pieces@) == split_on(item.content@, '\n'),
                string_views(lines@) == views(pieces@).take(i as int),
            decreases pieces.len() - i,
        {
            let ghost before = lines@;
            let line = from_chars(pieces[i].as_slice());
            lines.push(line);
            assert(string_views(lines@) =~= string_views(before).push(line@));
            assert(views(pieces@)[i as int] == pieces@[i as int]@);
            assert(string_views(lines@) =~= views(pieces@).take(i + 1));
            i = i + 1;
        }
        assert(views(pieces@).take(pieces@.len() as int) =~= views(pieces@));
    } else {
        assert(string_views(lines@) =~= Seq::<Seq<char>>::empty());
    }
    TranscriptItemPlan {
        marker: join3("[", item.role_label.as_str(), "]"),
        marker_style: transcript_role(item.role_label.as_str()),
        markdown,
        lines,
    }
}

/// What the transcript pane shows when there is nothing in it.
pub fn transcript_placeholder(items: &[TranscriptItemViewModel]) -> (p: Option<&'static str>)
    ensures
        match p {
            Some(t) => items@.len() == 0 && t@ == "No messages yet. Start with a prompt or slash command."@,
            None => items@.len() > 0,
        },
{
    if items.len() == 0 {
        Some("No messages yet. Start with a prompt or slash command.")
    } else {
        None
    }
}

// ---------------------------------------------------------------------
// the footer

/// The spinner's frame at `now_ms`: it turns every 200 ms.
pub open spec fn spinner_text(now_ms: u64) -> Seq<char> {
    let k = (now_ms / 200) % 4;
    if k == 0 {
        "|"@
    } else if k == 1 {
        "/"@
    } else if k == 2 {
        "-"@
    } else {
        "\\"@
    }
}

/// The status badge: the spinner and the status while thinking, busy or
/// waiting for approval, a dot and `idle` otherwise.
pub open spec fn badge_text(badge: Seq<char>, spinner: Seq<char>) -> Seq<char> {
    if badge == "thinking"@ || badge == "busy"@ || badge == "approval"@ {
        " "@ + spinner + " "@ + badge
    } else {
        " ● idle"@
    }
}

/// The hint shown when the view gives none.
pub open spec fn default_footer_hint() -> Seq<char> {
    "enter: send · esc: cancel · ctrl-c: exit · ?: commands"@
}

/// The text at the footer's right: a notification when one is showing,
/// else the hint.
pub open spec fn footer_right_source(hint: Seq<char>, notification: Option<Seq<char>>) -> Seq<char> {
    match notification {
        Some(n) => n,
        None => if hint.len() == 0 {
            default_footer_hint()
        } else {
            hint
        },
    }
}

/// The last chars of `s` that fit a footer `width` columns wide, twelve
/// columns being kept for the badge.
pub open spec fn footer_tail(s: Seq<char>, width: int) -> Seq<char> {
    s.skip(s.len() - min_of(s.len() as int, sat_sub(width, 12)))
}

/// Law: the footer's right-hand text never takes more than the footer's
/// width less the twelve columns kept for the badge, and it is the end of
/// the text it was cut from.
pub proof fn lemma_footer_tail_fits(s: Seq<char>, width: int)
    ensures
        footer_tail(s, width).len() <= sat_sub(width, 12),
        s.len() <= sat_sub(width, 12) ==> footer_tail(s, width) == s,
        s == s.take(s.len() - footer_tail(s, width).len()) + footer_tail(s, width),
{
    assert(s =~= s.take(s.len() - footer_tail(s, width).len()) + footer_tail(s, width));
    if s.len() <= sat_sub(width, 12) {
        assert(footer_tail(s, width) =~= s);
    }
}

/// The footer's parts: the badge and its style, the token summary when
/// there is one, and the right-hand text, which is a notification or the
/// hint.
#[derive(Clone, Debug, PartialEq, Eq)]
pub struct FooterLine {
    pub badge: String,
    pub badge_style: StyleSpec,
    pub token_summary: Option<String>,
    pub right: String,
    pub notification: bool,
}

fn spinner_frame(now_ms: u64) -> (s: &'static str)
    ensures
        s@ == spinner_text(now_ms),
{
    let k = (now_ms / 200) % 4;
    if k == 0 {
        "|"
    } else if k == 1 {
        "/"
    } else if k == 2 {
        "-"
    } else {
        "\\"
    }
}

fn same_text(a: &str, b: &str) -> (r: bool)
    ensures
        r == (a@ == b@),
{
    let x = to_chars(a);
    let y = to_chars(b);
    crate::text::chars_eq(x.as_slice(), y.as_slice())
}

/// The footer at `now_ms` in a footer `width` columns wide, `notification`
/// being the one showing, if any.
pub fn footer_line(
    footer: &FooterViewModel,
    notification: Option<String>,
    now_ms: u64,
    width: u16,
) -> (l: FooterLine)
    ensures
        l.badge@ == badge_text(footer.status_badge@, spinner_text(now_ms)),
        l.badge_style == badge_style(footer.status_badge@),
        match l.token_summary {
            Some(t) => footer.token_summary@.len() > 0 && t@ == footer.token_summary@,
            None => footer.token_summary@.len() == 0,
        },
        l.notification == notification is Some,
        l.right@ == footer_tail(
            footer_right_source(
                footer.hint@,
                match notification {
                    Some(n) => Some(n@),
                    None => None,
                },
            ),
            width as int,
        ),
{
    let b = footer.status_badge.as_str();
    let badge = if same_text(b, "thinking") || same_text(b, "busy") || same_text(b, "approval") {
        let a = join3(" ", spinner_frame(now_ms), " ");
        join2(a.as_str(), b)
    } else {
        " ● idle".to_string()
    };
    let token_summary = if to_chars(footer.token_summary.as_str()).len() == 0 {
        None
    } else {
        Some(footer.token_summary.clone())
    };
    let shown = notification.is_some();
    let source = match notification {
        Some(n) => to_chars(n.as_str()),
        None => {
            let hint = to_chars(footer.hint.as_str());
            if hint.len() == 0 {
                to_chars("enter: send · esc: cancel · ctrl-c: exit · ?: commands")
            } else {
                hint
            }
        },
    };
    let room = sat_sub_u16(width, 12) as usize;
    let keep = if source.len() < room {
        source.len()
    } else {
        room
    };
    let tail = crate::text::sub_chars(source.as_slice(), source.len() - keep, source.len());
    assert(tail@ =~= source@.skip(source@.len() - keep));
    FooterLine {
        badge,
        badge_style: footer_badge_style(b),
        token_summary,
        right: from_chars(tail.as_slice()),
        notification: shown,
    }
}

} // verus!
