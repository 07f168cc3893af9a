//! Markdown in the transcript: a reply is parsed with pulldown-cmark, its
//! code blocks highlighted with syntect, and the parser's events become
//! styled lines.
//! Headings get their `#` marker, list items a bullet indented by depth,
//! quotes a `>` marker, code blocks a labelled border around their lines
//! (syntax colored where a highlighter colored them), and links show their
//! text as a terminal hyperlink followed by the visible address.
use vstd::prelude::*;

use pulldown_cmark::CodeBlockKind;
use pulldown_cmark::Event;
use pulldown_cmark::Parser;
use pulldown_cmark::Tag;
use pulldown_cmark::TagEnd;
use syntect::easy::HighlightLines;
use syntect::highlighting::ThemeSet;
use syntect::parsing::SyntaxSet;
use syntect::util::LinesWithEndings;

use crate::config_commands::join_with;
use crate::config_commands::joined;
use crate::text::from_chars;
use crate::text::join2;
use crate::text::join3;
use crate::text::lines;
use crate::text::split_lines;
use crate::text::to_chars;
use crate::text::trim_end_char;
use crate::text::trim_end_matching;
use crate::text::views;

verus! {

/// The parser events the renderer reads; the others are ignored.
#[derive(Clone, Debug, PartialEq, Eq)]
pub enum MdEvent {
    /// A heading of the given level (one to six) begins.
    StartHeading(u8),
    EndHeading,
    StartParagraph,
    EndParagraph,
    StartList,
    EndList,
    StartItem,
    EndItem,
    /// A code block begins; the language of a fenced block, empty for an
    /// indented one.
    StartCodeBlock(String),
    EndCodeBlock,
    StartQuote,
    EndQuote,
    StartEmphasis,
    StartStrong,
    /// A link to the given address begins.
    StartLink(String),
    EndLink,
    Text(String),
    Code(String),
    SoftBreak,
    HardBreak,
    Other,
}

/// What a span is drawn as; the renderer's theme picks the colors.
#[derive(Clone, Copy, Debug, PartialEq, Eq, Structural)]
pub enum MdStyle {
    Plain,
    HeadingMarker,
    Bullet,
    CodeBorder,
    CodeLabel,
    Code,
    QuoteMarker,
    Emphasis,
    Strong,
    LinkMark,
    LinkText,
    LinkUrl,
    InlineCode,
    /// A highlighted code token in the given color.
    Colored(u8, u8, u8),
}

#[derive(Clone, Debug, PartialEq, Eq)]
pub struct MdSpan {
    pub text: String,
    pub style: MdStyle,
}

#[derive(Clone, Debug, PartialEq, Eq)]
pub struct MdLine {
    pub spans: Vec<MdSpan>,
}

pub open spec fn span_view(s: MdSpan) -> (Seq<char>, MdStyle) {
    (s.text@, s.style)
}

pub open spec fn spans_view(v: Seq<MdSpan>) -> Seq<(Seq<char>, MdStyle)> {
    v.map_values(|s: MdSpan| span_view(s))
}

pub open spec fn line_view(l: MdLine) -> Seq<(Seq<char>, MdStyle)> {
    spans_view(l.spans@)
}

pub open spec fn lines_view(v: Seq<MdLine>) -> Seq<Seq<(Seq<char>, MdStyle)>> {
    v.map_values(|l: MdLine| line_view(l))
}

/// The colored lines a highlighter gave for one code block, if it did.
pub open spec fn highlight_view(h: Option<Vec<MdLine>>) -> Option<Seq<Seq<(Seq<char>, MdStyle)>>> {
    match h {
        Some(v) => Some(lines_view(v@)),
        None => None,
    }
}

/// Where the renderer is between two events.
pub struct MdState {
    pub lines: Seq<Seq<(Seq<char>, MdStyle)>>,
    pub current: Seq<(Seq<char>, MdStyle)>,
    pub depth: nat,
    pub in_code: bool,
    pub lang: Seq<char>,
    pub code: Seq<Seq<char>>,
    pub link: Option<Seq<char>>,
    pub link_text: Seq<char>,
    pub block: nat,
}

pub open spec fn start_state() -> MdState {
    MdState {
        lines: Seq::empty(),
        current: Seq::empty(),
        depth: 0,
        in_code: false,
        lang: Seq::empty(),
        code: Seq::empty(),
        link: None,
        link_text: Seq::empty(),
        block: 0,
    }
}

/// The line being built ends, unless it is empty.
pub open spec fn flush(s: MdState) -> MdState {
    if s.current.len() > 0 {
        MdState { lines: s.lines.push(s.current), current: Seq::empty(), ..s }
    } else {
        s
    }
}

pub open spec fn repeat(c: char, n: nat) -> Seq<char> {
    Seq::new(n, |i: int| c)
}

/// The text of a code block: its pieces without trailing line breaks,
/// joined by line breaks.
pub open spec fn code_text(code: Seq<Seq<char>>) -> Seq<char> {
    joined(code.map_values(|p: Seq<char>| trim_end_char(p, '\n')), "\n"@)
}

/// The terminal hyperlink to `url` showing `text`.
pub open spec fn hyperlink(url: Seq<char>, text: Seq<char>) -> Seq<char> {
    "\x1b]8;;"@ + url + "\x1b\\"@ + text + "\x1b]8;;\x1b\\"@
}

pub open spec fn bordered(l: Seq<(Seq<char>, MdStyle)>) -> Seq<(Seq<char>, MdStyle)> {
    seq![("│ "@, MdStyle::CodeBorder)] + l
}

pub open spec fn plain_code_line(l: Seq<char>) -> Seq<(Seq<char>, MdStyle)> {
    seq![("│ "@, MdStyle::CodeBorder), (l, MdStyle::Code)]
}

/// The lines a finished code block adds: the labelled top border, its lines
/// (as highlighted where a highlighting is given, else plain), the bottom
/// border and a blank line.
pub open spec fn code_block_lines(
    lang: Seq<char>,
    text: Seq<char>,
    hl: Option<Seq<Seq<(Seq<char>, MdStyle)>>>,
) -> Seq<Seq<(Seq<char>, MdStyle)>> {
    let label = if lang.len() == 0 {
        "code"@
    } else {
        lang
    };
    let top = seq![
        ("── "@, MdStyle::CodeBorder),
        (label, MdStyle::CodeLabel),
        (" "@, MdStyle::CodeBorder),
    ];
    let body = match hl {
        Some(h) => h.map_values(|l: Seq<(Seq<char>, MdStyle)>| bordered(l)),
        None => lines(text).map_values(|l: Seq<char>| plain_code_line(l)),
    };
    seq![top] + body + seq![seq![("──"@, MdStyle::CodeBorder)], Seq::empty()]
}

/// The highlighting given for the `k`th code block, if any.
pub open spec fn highlight_at(
    hl: Seq<Option<Seq<Seq<(Seq<char>, MdStyle)>>>>,
    k: nat,
) -> Option<Seq<Seq<(Seq<char>, MdStyle)>>> {
    if k < hl.len() {
        hl[k as int]
    } else {
        None
    }
}

/// One event's effect.
pub open spec fn md_step(
    s: MdState,
    e: MdEvent,
    hl: Seq<Option<Seq<Seq<(Seq<char>, MdStyle)>>>>,
) -> MdState {
    match e {
        MdEvent::StartHeading(level) => {
            let f = flush(s);
            let n: nat = if level <= 6 {
                level as nat
            } else {
                6
            };
            MdState {
                current: f.current.push((repeat('#', n) + " "@, MdStyle::HeadingMarker)),
                ..f
            }
        },
        MdEvent::EndHeading | MdEvent::EndParagraph | MdEvent::EndQuote => {
            let f = flush(s);
            MdState { lines: f.lines.push(Seq::empty()), ..f }
        },
        MdEvent::StartParagraph | MdEvent::EndItem => flush(s),
        MdEvent::StartList => MdState { depth: s.depth + 1, ..s },
        MdEvent::EndList => MdState {
            depth: if s.depth > 0 {
                (s.depth - 1) as nat
            } else {
                0
            },
            ..s
        },
        MdEvent::StartItem => {
            let f = flush(s);
            let indent = repeat(' ', 2 * (if f.depth > 0 { (f.depth - 1) as nat } else { 0 }));
            MdState { current: f.current.push((indent + "- "@, MdStyle::Bullet)), ..f }
        },
        MdEvent::StartCodeBlock(lang) => {
            let f = flush(s);
            MdState { in_code: true, code: Seq::empty(), lang: lang@, ..f }
        },
        MdEvent::EndCodeBlock => MdState {
            lines: s.lines + code_block_lines(
                s.lang,
                code_text(s.code),
                highlight_at(hl, s.block),
            ),
            in_code: false,
            lang: Seq::empty(),
            code: Seq::empty(),
            block: s.block + 1,
            ..s
        },
        MdEvent::StartQuote => {
            let f = flush(s);
            MdState { current: f.current.push(("> "@, MdStyle::QuoteMarker)), ..f }
        },
        MdEvent::StartEmphasis => MdState {
            current: s.current.push((Seq::empty(), MdStyle::Emphasis)),
            ..s
        },
        MdEvent::StartStrong => MdState {
            current: s.current.push((Seq::empty(), MdStyle::Strong)),
            ..s
        },
        MdEvent::StartLink(url) => MdState {
            link: Some(url@),
            link_text: Seq::empty(),
            current: s.current.push(("["@, MdStyle::LinkMark)),
            ..s
        },
        MdEvent::EndLink => {
            let url = match s.link {
                Some(u) => u,
                None => Seq::empty(),
            };
            MdState {
                link: None,
                link_text: Seq::empty(),
                current: s.current + seq![
                    (hyperlink(url, s.link_text), MdStyle::LinkText),
                    ("]("@, MdStyle::LinkMark),
                    (url, MdStyle::LinkUrl),
                    (")"@, MdStyle::LinkMark),
                ],
                ..s
            }
        },
        MdEvent::Text(t) => if s.in_code {
            MdState { code: s.code.push(t@), ..s }
        } else if s.link is Some {
            MdState { link_text: s.link_text + t@, ..s }
        } else {
            MdState { current: s.current.push((t@, MdStyle::Plain)), ..s }
        },
        MdEvent::Code(c) => if s.in_code {
            MdState { code: s.code.push(c@), ..s }
        } else if s.link is Some {
            MdState { link_text: s.link_text + c@, ..s }
        } else {
            MdState { current: s.current.push((c@, MdStyle::InlineCode)), ..s }
        },
        MdEvent::SoftBreak | MdEvent::HardBreak => if s.in_code {
            MdState { code: s.code.push(Seq::empty()), ..s }
        } else {
            flush(s)
        },
        MdEvent::Other => s,
    }
}

pub open spec fn md_fold(
    events: Seq<MdEvent>,
    hl: Seq<Option<Seq<Seq<(Seq<char>, MdStyle)>>>>,
) -> MdState
    decreases events.len(),
{
    if events.len() == 0 {
        start_state()
    } else {
        md_step(md_fold(events.drop_last(), hl), events.last(), hl)
    }
}

/// The lines a text renders to, given its parser events and the
/// highlighting of its code blocks in order: the lines the events build;
/// the whole text as one plain line where they build none.
pub open spec fn rendered(
    events: Seq<MdEvent>,
    text: Seq<char>,
    hl: Seq<Option<Seq<Seq<(Seq<char>, MdStyle)>>>>,
) -> Seq<Seq<(Seq<char>, MdStyle)>> {
    let done = flush(md_fold(events, hl));
    if done.lines.len() == 0 {
        seq![seq![(text, MdStyle::Plain)]]
    } else {
        done.lines
    }
}

// ---------------------------------------------------------------------
// the renderer

struct Renderer {
    lines: Vec<MdLine>,
    current: Vec<MdSpan>,
    depth: usize,
    in_code: bool,
    lang: String,
    code: Vec<String>,
    link: Option<String>,
    link_text: String,
    block: usize,
}

pub open spec fn opt_str(o: Option<String>) -> Option<Seq<char>> {
    match o {
        Some(s) => Some(s@),
        None => None,
    }
}

pub open spec fn str_views(v: Seq<String>) -> Seq<Seq<char>> {
    v.map_values(|s: String| s@)
}

pub open spec fn highlights_view(h: Seq<Option<Vec<MdLine>>>) -> Seq<
    Option<Seq<Seq<(Seq<char>, MdStyle)>>>,
> {
    h.map_values(|x: Option<Vec<MdLine>>| highlight_view(x))
}

impl Renderer {
    spec fn state(&self) -> MdState {
        MdState {
            lines: lines_view(self.lines@),
            current: spans_view(self.current@),
            depth: self.depth as nat,
            in_code: self.in_code,
            lang: self.lang@,
            code: str_views(self.code@),
            link: opt_str(self.link),
            link_text: self.link_text@,
            block: self.block as nat,
        }
    }

    fn flush(&mut self)
        ensures
            final(self).state() == flush(old(self).state()),
    {
        if self.current.len() > 0 {
            let mut taken: Vec<MdSpan> = Vec::new();
            std::mem::swap(&mut taken, &mut self.current);
            let ghost old_lines = self.lines@;
            self.lines.push(MdLine { spans: taken });
            proof {
                assert(lines_view(self.lines@) =~= lines_view(old_lines).push(spans_view(taken@)));
                assert(spans_view(self.current@) =~= Seq::<(Seq<char>, MdStyle)>::empty());
            }
        }
    }

    fn push_span(&mut self, text: String, style: MdStyle)
        ensures
            final(self).state() == (MdState {
                current: old(self).state().current.push((text@, style)),
                ..old(self).state()
            }),
    {
        let ghost old_current = self.current@;
        self.current.push(MdSpan { text, style });
        assert(spans_view(self.current@) =~= spans_view(old_current).push((text@, style)));
    }

    fn push_line(&mut self, line: Vec<MdSpan>)
        ensures
            final(self).state() == (MdState {
                lines: old(self).state().lines.push(spans_view(line@)),
                ..old(self).state()
            }),
    {
        let ghost old_lines = self.lines@;
        self.lines.push(MdLine { spans: line });
        assert(lines_view(self.lines@) =~= lines_view(old_lines).push(spans_view(line@)));
    }
}

fn repeat_text(c: char, n: usize) -> (r: String)
    ensures
        r@ == repeat(c, n as nat),
{
    let mut v: Vec<char> = Vec::new();
    let mut i: usize = 0;
    while i < n
        invariant
            i <= n,
            v@ == repeat(c, i as nat),
        decreases n - i,
    {
        v.push(c);
        assert(v@ =~= repeat(c, (i + 1) as nat));
        i = i + 1;
    }
    from_chars(v.as_slice())
}

/// Two spaces per level.
fn indent_text(levels: usize) -> (r: String)
    ensures
        r@ == repeat(' ', 2 * levels as nat),
{
    let mut v: Vec<char> = Vec::new();
    let mut i: usize = 0;
    while i < levels
        invariant
            i <= levels,
            v@ == repeat(' ', 2 * i as nat),
        decreases levels - i,
    {
        v.push(' ');
        v.push(' ');
        assert(v@ =~= repeat(' ', 2 * (i + 1) as nat));
        i = i + 1;
    }
    from_chars(v.as_slice())
}

fn append_lines(dst: &mut Vec<MdLine>, src: &Vec<Vec<MdSpan>>)
    ensures
        lines_view(final(dst)@) == lines_view(old(dst)@) + src@.map_values(
            |l: Vec<MdSpan>| spans_view(l@),
        ),
{
    let mut i: usize = 0;
    while i < src.len()
        invariant
            i <= src@.len(),
            lines_view(dst@) == lines_view(old(dst)@) + src@.take(i as int).map_values(
                |l: Vec<MdSpan>| spans_view(l@),
            ),
        decreases src.len() - i,
    {
        let mut line: Vec<MdSpan> = Vec::new();
        let from = &src[i];
        let mut j: usize = 0;
        while j < from.len()
            invariant
                i < src@.len(),
                j <= from@.len(),
                from@ == src@[i as int]@,
                spans_view(line@) == spans_view(from@.take(j as int)),
            decreases from.len() - j,
        {
            let ghost before = line@;
            let x = copy_span(&from[j]);
            line.push(x);
            proof {
                assert(from@.take(j + 1) =~= from@.take(j as int).push(from@[j as int]));
                assert(spans_view(from@.take(j + 1)) =~= spans_view(from@.take(j as int)).push(
                    span_view(from@[j as int]),
                ));
                assert(spans_view(line@) =~= spans_view(before).push(span_view(x)));
            }
            j = j + 1;
        }
        assert(from@.take(from@.len() as int) =~= from@);
        let ghost before_lines = dst@;
        dst.push(MdLine { spans: line });
        proof {
            assert(lines_view(dst@) =~= lines_view(before_lines).push(spans_view(line@)));
            assert(src@.take(i + 1).map_values(|l: Vec<MdSpan>| spans_view(l@)) =~= src@.take(
                i as int,
            ).map_values(|l: Vec<MdSpan>| spans_view(l@)).push(spans_view(src@[i as int]@)));
        }
        i = i + 1;
    }
    assert(src@.take(src@.len() as int) =~= src@);
}

fn copy_span(s: &MdSpan) -> (r: MdSpan)
    ensures
        r == *s,
{
    MdSpan { text: s.text.clone(), style: s.style }
}

fn span(text: &str, style: MdStyle) -> (r: MdSpan)
    ensures
        span_view(r) == (text@, style),
{
    MdSpan { text: text.to_string(), style }
}

/// The text of a code block from its pieces.
fn code_text_of(code: &Vec<String>) -> (r: String)
    ensures
        r@ == code_text(str_views(code@)),
{
    let mut pieces: Vec<String> = Vec::new();
    let mut i: usize = 0;
    while i < code.len()
        invariant
            i <= code@.len(),
            str_views(pieces@) == str_views(code@).take(i as int).map_values(
                |p: Seq<char>| trim_end_char(p, '\n'),
            ),
        decreases code.len() - i,
    {
        let chars = to_chars(code[i].as_str());
        let trimmed = trim_end_matching(chars.as_slice(), '\n');
        let piece = from_chars(trimmed.as_slice());
        let ghost old_pieces = pieces@;
        pieces.push(piece);
        proof {
            assert(str_views(pieces@) =~= str_views(old_pieces).push(piece@));
            assert(str_views(code@).take(i + 1).map_values(|p: Seq<char>| trim_end_char(p, '\n'))
                =~= str_views(code@).take(i as int).map_values(
                |p: Seq<char>| trim_end_char(p, '\n'),
            ).push(trim_end_char(code@[i as int]@, '\n')));
        }
        i = i + 1;
    }
    assert(str_views(code@).take(code@.len() as int) =~= str_views(code@));
    join_with(&pieces, "\n")
}

/// The lines of a finished code block.
fn code_block(lang: &String, text: &String, hl: Option<&Vec<MdLine>>) -> (r: Vec<Vec<MdSpan>>)
    ensures
        r@.map_values(|l: Vec<MdSpan>| spans_view(l@)) == code_block_lines(
            lang@,
            text@,
            match hl {
                Some(h) => Some(lines_view(h@)),
                None => None,
            },
        ),
{
    let ghost hlv = match hl {
        Some(h) => Some(lines_view(h@)),
        None => None,
    };
    let ghost expected = code_block_lines(lang@, text@, hlv);
    let ghost body = match hlv {
        Some(h) => h.map_values(|l: Seq<(Seq<char>, MdStyle)>| bordered(l)),
        None => lines(text@).map_values(|l: Seq<char>| plain_code_line(l)),
    };
    let label = if to_chars(lang.as_str()).len() == 0 {
        "code".to_string()
    } else {
        lang.clone()
    };
    let mut top: Vec<MdSpan> = Vec::new();
    top.push(span("── ", MdStyle::CodeBorder));
    top.push(MdSpan { text: label, style: MdStyle::CodeLabel });
    top.push(span(" ", MdStyle::CodeBorder));
    assert(spans_view(top@) =~= expected[0]);
    let mut r: Vec<Vec<MdSpan>> = Vec::new();
    r.push(top);
    match hl {
        Some(h) => {
            let mut i: usize = 0;
            while i < h.len()
                invariant
                    i <= h@.len(),
                    hlv == Some(lines_view(h@)),
                    body == lines_view(h@).map_values(|l: Seq<(Seq<char>, MdStyle)>| bordered(l)),
                    r@.len() == i + 1,
                    spans_view(r@[0]@) == expected[0],
                    forall|k: int| 1 <= k <= i ==> #[trigger] spans_view(r@[k]@) == body[k - 1],
                decreases h.len() - i,
            {
                let mut line: Vec<MdSpan> = Vec::new();
                line.push(span("│ ", MdStyle::CodeBorder));
                let src = &h[i].spans;
                let mut j: usize = 0;
                assert(spans_view(line@) =~= seq![("│ "@, MdStyle::CodeBorder)] + spans_view(
                    src@.take(0),
                ));
                while j < src.len()
                    invariant
                        i < h@.len(),
                        j <= src@.len(),
                        src@ == h@[i as int].spans@,
                        spans_view(line@) == seq![("│ "@, MdStyle::CodeBorder)] + spans_view(
                            src@.take(j as int),
                        ),
                    decreases src.len() - j,
                {
                    let ghost before = line@;
                    let x = copy_span(&src[j]);
                    line.push(x);
                    proof {
                        assert(src@.take(j + 1) =~= src@.take(j as int).push(src@[j as int]));
                        assert(spans_view(src@.take(j + 1)) =~= spans_view(src@.take(j as int)).push(
                            span_view(src@[j as int]),
                        ));
                        assert(spans_view(line@) =~= spans_view(before).push(span_view(x)));
                    }
                    j = j + 1;
                }
                assert(src@.take(src@.len() as int) =~= src@);
                assert(spans_view(line@) == body[i as int]);
                r.push(line);
                i = i + 1;
            }
        },
        None => {
            let chars = to_chars(text.as_str());
            let ls = split_lines(chars.as_slice());
            let mut i: usize = 0;
            while i < ls.len()
                invariant
                    i <= ls@.len(),
                    views(ls@) == lines(text@),
                    hlv is None,
                    body == lines(text@).map_values(|l: Seq<char>| plain_code_line(l)),
                    r@.len() == i + 1,
                    spans_view(r@[0]@) == expected[0],
                    forall|k: int| 1 <= k <= i ==> #[trigger] spans_view(r@[k]@) == body[k - 1],
                decreases ls.len() - i,
            {
                let mut line: Vec<MdSpan> = Vec::new();
                line.push(span("│ ", MdStyle::CodeBorder));
                line.push(MdSpan { text: from_chars(ls[i].as_slice()), style: MdStyle::Code });
                assert(views(ls@)[i as int] == ls@[i as int]@);
                assert(spans_view(line@) =~= body[i as int]);
                r.push(line);
                i = i + 1;
            }
        },
    }
    let mut bottom: Vec<MdSpan> = Vec::new();
    bottom.push(span("──", MdStyle::CodeBorder));
    assert(spans_view(bottom@) =~= seq![("──"@, MdStyle::CodeBorder)]);
    let ghost mid = r@;
    r.push(bottom);
    r.push(Vec::new());
    proof {
        assert(mid.len() == body.len() + 1);
        assert(spans_view(r@[r@.len() - 1]@) =~= Seq::<(Seq<char>, MdStyle)>::empty());
        assert(r@.map_values(|l: Vec<MdSpan>| spans_view(l@)) =~= expected);
    }
    r
}

impl Renderer {
    fn step(&mut self, e: &MdEvent, highlights: &[Option<Vec<MdLine>>])
        requires
            old(self).depth < usize::MAX,
            old(self).block < usize::MAX,
        ensures
            final(self).state() == md_step(old(self).state(), *e, highlights_view(highlights@)),
            final(self).depth <= old(self).depth + 1,
            final(self).block <= old(self).block + 1,
    {
        match e {
            MdEvent::StartHeading(level) => {
                self.flush();
                let n: usize = if *level <= 6 {
                    *level as usize
                } else {
                    6
                };
                let marker = join2(repeat_text('#', n).as_str(), " ");
                self.push_span(marker, MdStyle::HeadingMarker);
            },
            MdEvent::EndHeading | MdEvent::EndParagraph | MdEvent::EndQuote => {
                self.flush();
                let empty: Vec<MdSpan> = Vec::new();
                assert(spans_view(empty@) =~= Seq::<(Seq<char>, MdStyle)>::empty());
                self.push_line(empty);
            },
            MdEvent::StartParagraph | MdEvent::EndItem => {
                self.flush();
            },
            MdEvent::StartList => {
                self.depth = self.depth + 1;
            },
            MdEvent::EndList => {
                self.depth = if self.depth > 0 {
                    self.depth - 1
                } else {
                    0
                };
            },
            MdEvent::StartItem => {
                self.flush();
                let d = if self.depth > 0 {
                    self.depth - 1
                } else {
                    0
                };
                let indent = indent_text(d);
                self.push_span(join2(indent.as_str(), "- "), MdStyle::Bullet);
            },
            MdEvent::StartCodeBlock(lang) => {
                self.flush();
                self.in_code = true;
                self.code = Vec::new();
                self.lang = lang.clone();
                assert(str_views(self.code@) =~= Seq::<Seq<char>>::empty());
            },
            MdEvent::EndCodeBlock => {
                let text = code_text_of(&self.code);
                let hl: Option<&Vec<MdLine>> = if self.block < highlights.len() {
                    match &highlights[self.block] {
                        Some(h) => Some(h),
                        None => None,
                    }
                } else {
                    None
                };
                proof {
                    if (self.block as int) < highlights@.len() {
                        assert(highlights_view(highlights@)[self.block as int] == highlight_view(
                            highlights@[self.block as int],
                        ));
                    }
                }
                let block_lines = code_block(&self.lang, &text, hl);
                append_lines(&mut self.lines, &block_lines);
                self.in_code = false;
                self.lang = String::new();
                self.code = Vec::new();
                self.block = self.block + 1;
                assert(str_views(self.code@) =~= Seq::<Seq<char>>::empty());
            },
            MdEvent::StartQuote => {
                self.flush();
                self.push_span("> ".to_string(), MdStyle::QuoteMarker);
            },
            MdEvent::StartEmphasis => {
                self.push_span(String::new(), MdStyle::Emphasis);
            },
            MdEvent::StartStrong => {
                self.push_span(String::new(), MdStyle::Strong);
            },
            MdEvent::StartLink(url) => {
                self.link_text = String::new();
                self.link = Some(url.clone());
                self.push_span("[".to_string(), MdStyle::LinkMark);
            },
            MdEvent::EndLink => {
                let url = match &self.link {
                    Some(u) => u.clone(),
                    None => String::new(),
                };
                let text = self.link_text.clone();
                self.link = None;
                self.link_text = String::new();
                let a = join3("\x1b]8;;", url.as_str(), "\x1b\\");
                let b = join3(a.as_str(), text.as_str(), "\x1b]8;;\x1b\\");
                proof {
                    assert(b@ =~= hyperlink(url@, text@));
                }
                let ghost before = self.state();
                self.push_span(b, MdStyle::LinkText);
                self.push_span("](".to_string(), MdStyle::LinkMark);
                self.push_span(url, MdStyle::LinkUrl);
                self.push_span(")".to_string(), MdStyle::LinkMark);
                proof {
                    assert(self.state().current =~= before.current + seq![
                        (hyperlink(url@, text@), MdStyle::LinkText),
                        ("]("@, MdStyle::LinkMark),
                        (url@, MdStyle::LinkUrl),
                        (")"@, MdStyle::LinkMark),
                    ]);
                }
            },
            MdEvent::Text(t) | MdEvent::Code(t) => {
                if self.in_code {
                    let ghost old_code = self.code@;
                    self.code.push(t.clone());
                    assert(str_views(self.code@) =~= str_views(old_code).push(t@));
                } else if self.link.is_some() {
                    self.link_text = join2(self.link_text.as_str(), t.as_str());
                } else {
                    let style = match e {
                        MdEvent::Text(_) => MdStyle::Plain,
                        _ => MdStyle::InlineCode,
                    };
                    self.push_span(t.clone(), style);
                }
            },
            MdEvent::SoftBreak | MdEvent::HardBreak => {
                if self.in_code {
                    let ghost old_code = self.code@;
                    self.code.push(String::new());
                    assert(str_views(self.code@) =~= str_views(old_code).push(Seq::empty()));
                } else {
                    self.flush();
                }
            },
            MdEvent::Other => {},
        }
    }
}

/// Renders a text from its parser events; `highlights` holds, for each code
/// block in order, the colored lines a highlighter gave for it, if it gave
/// any.
pub fn render_markdown_events(
    text: &str,
    events: &[MdEvent],
    highlights: &[Option<Vec<MdLine>>],
) -> (r: Vec<MdLine>)
    ensures
        lines_view(r@) == rendered(events@, text@, highlights_view(highlights@)),
{
    let ghost hl = highlights_view(highlights@);
    let mut st = Renderer {
        lines: Vec::new(),
        current: Vec::new(),
        depth: 0,
        in_code: false,
        lang: String::new(),
        code: Vec::new(),
        link: None,
        link_text: String::new(),
        block: 0,
    };
    proof {
        assert(lines_view(st.lines@) =~= Seq::<Seq<(Seq<char>, MdStyle)>>::empty());
        assert(spans_view(st.current@) =~= Seq::<(Seq<char>, MdStyle)>::empty());
        assert(str_views(st.code@) =~= Seq::<Seq<char>>::empty());
        assert(events@.take(0) =~= Seq::<MdEvent>::empty());
    }
    let mut i: usize = 0;
    while i < events.len()
        invariant
            i <= events@.len(),
            hl == highlights_view(highlights@),
            st.state() == md_fold(events@.take(i as int), hl),
            st.depth <= i,
            st.block <= i,
        decreases events.len() - i,
    {
        st.step(&events[i], highlights);
        proof {
            assert(events@.take(i + 1).drop_last() =~= events@.take(i as int));
        }
        i = i + 1;
    }
    assert(events@.take(events@.len() as int) =~= events@);
    st.flush();
    if st.lines.len() == 0 {
        let mut only: Vec<MdSpan> = Vec::new();
        only.push(MdSpan { text: text.to_string(), style: MdStyle::Plain });
        assert(spans_view(only@) =~= seq![(text@, MdStyle::Plain)]);
        let mut r: Vec<MdLine> = Vec::new();
        r.push(MdLine { spans: only });
        proof {
            assert(lines_view(r@) =~= seq![seq![(text@, MdStyle::Plain)]]);
        }
        r
    } else {
        st.lines
    }
}

// ---------------------------------------------------------------------
// the code blocks to highlight

/// What the scan for code blocks keeps between two events.
pub struct BlockScan {
    pub in_code: bool,
    pub lang: Seq<char>,
    pub code: Seq<Seq<char>>,
    pub blocks: Seq<(Seq<char>, Seq<char>)>,
}

pub open spec fn scan_step(s: BlockScan, e: MdEvent) -> BlockScan {
    match e {
        MdEvent::StartCodeBlock(lang) => BlockScan {
            in_code: true,
            code: Seq::empty(),
            lang: lang@,
            ..s
        },
        MdEvent::EndCodeBlock => BlockScan {
            in_code: false,
            lang: Seq::empty(),
            code: Seq::empty(),
            blocks: s.blocks.push((s.lang, code_text(s.code))),
        },
        MdEvent::Text(t) | MdEvent::Code(t) => if s.in_code {
            BlockScan { code: s.code.push(t@), ..s }
        } else {
            s
        },
        MdEvent::SoftBreak | MdEvent::HardBreak => if s.in_code {
            BlockScan { code: s.code.push(Seq::empty()), ..s }
        } else {
            s
        },
        _ => s,
    }
}

pub open spec fn scan_fold(events: Seq<MdEvent>) -> BlockScan
    decreases events.len(),
{
    if events.len() == 0 {
        BlockScan { in_code: false, lang: Seq::empty(), code: Seq::empty(), blocks: Seq::empty() }
    } else {
        scan_step(scan_fold(events.drop_last()), events.last())
    }
}

/// The code blocks of a text, in order: each one's language (empty where
/// none is given) and its code.
pub open spec fn code_blocks(events: Seq<MdEvent>) -> Seq<(Seq<char>, Seq<char>)> {
    scan_fold(events).blocks
}

pub open spec fn pair_views(v: Seq<(String, String)>) -> Seq<(Seq<char>, Seq<char>)> {
    v.map_values(|p: (String, String)| (p.0@, p.1@))
}

/// The code blocks of a text from its parser events, for a highlighter.
pub fn markdown_code_blocks(events: &[MdEvent]) -> (r: Vec<(String, String)>)
    ensures
        pair_views(r@) == code_blocks(events@),
{
    let mut in_code = false;
    let mut lang = String::new();
    let mut code: Vec<String> = Vec::new();
    let mut blocks: Vec<(String, String)> = Vec::new();
    proof {
        assert(events@.take(0) =~= Seq::<MdEvent>::empty());
        assert(str_views(code@) =~= Seq::<Seq<char>>::empty());
        assert(pair_views(blocks@) =~= Seq::<(Seq<char>, Seq<char>)>::empty());
    }
    let mut i: usize = 0;
    while i < events.len()
        invariant
            i <= events@.len(),
            scan_fold(events@.take(i as int)) == (BlockScan {
                in_code,
                lang: lang@,
                code: str_views(code@),
                blocks: pair_views(blocks@),
            }),
        decreases events.len() - i,
    {
        proof {
            assert(events@.take(i + 1).drop_last() =~= events@.take(i as int));
        }
        match &events[i] {
            MdEvent::StartCodeBlock(l) => {
                in_code = true;
                code = Vec::new();
                lang = l.clone();
                assert(str_views(code@) =~= Seq::<Seq<char>>::empty());
            },
            MdEvent::EndCodeBlock => {
                let text = code_text_of(&code);
                let ghost old_blocks = blocks@;
                blocks.push((lang, text));
                assert(pair_views(blocks@) =~= pair_views(old_blocks).push((lang@, text@)));
                in_code = false;
                lang = String::new();
                code = Vec::new();
                assert(str_views(code@) =~= Seq::<Seq<char>>::empty());
            },
            MdEvent::Text(t) | MdEvent::Code(t) => {
                if in_code {
                    let ghost old_code = code@;
                    code.push(t.clone());
                    assert(str_views(code@) =~= str_views(old_code).push(t@));
                }
            },
            MdEvent::SoftBreak | MdEvent::HardBreak => {
                if in_code {
                    let ghost old_code = code@;
                    code.push(String::new());
                    assert(str_views(code@) =~= str_views(old_code).push(Seq::empty()));
                }
            },
            _ => {},
        }
        i = i + 1;
    }
    assert(events@.take(events@.len() as int) =~= events@);
    blocks
}

/// Law: the renderer and the code-block scan go through the same code
/// blocks: after any events, both are inside a code block or both are not,
/// with the same language and pieces, and the renderer has finished as many
/// blocks as the scan has found. So the `k`th highlighting handed to the
/// renderer is used for exactly the `k`th block `markdown_code_blocks` gives.
pub proof fn lemma_scan_matches_render(
    events: Seq<MdEvent>,
    hl: Seq<Option<Seq<Seq<(Seq<char>, MdStyle)>>>>,
)
    ensures
        md_fold(events, hl).in_code == scan_fold(events).in_code,
        md_fold(events, hl).lang == scan_fold(events).lang,
        md_fold(events, hl).code == scan_fold(events).code,
        md_fold(events, hl).block == scan_fold(events).blocks.len(),
    decreases events.len(),
{
    if events.len() > 0 {
        lemma_scan_matches_render(events.drop_last(), hl);
    }
}

// ---------------------------------------------------------------------
// from a reply's text

/// What pulldown-cmark's parser (`Parser::new`, no options) reports for a
/// text, each event read as the renderer's event; events the renderer does
/// not read are `Other`. It depends on the text alone.
pub uninterp spec fn markdown_events_of(text: Seq<char>) -> Seq<MdEvent>;

/// pulldown-cmark's opening tag, carried opaquely into the reading below.
#[verifier::external_type_specification]
#[verifier::external_body]
pub struct ExTag<'a>(Tag<'a>);

/// pulldown-cmark's closing tag, carried opaquely into the reading below.
#[verifier::external_type_specification]
#[verifier::external_body]
pub struct ExTagEnd(TagEnd);

/// Reads an opening tag of pulldown-cmark as the renderer's event, one arm
/// per tag, moving its heading level, fence language or link target.
#[verifier::external_body]
fn start_event(tag: Tag) -> MdEvent {
    match tag {
        Tag::Heading { level, .. } => MdEvent::StartHeading(level as u8),
        Tag::Paragraph => MdEvent::StartParagraph,
        Tag::List(_) => MdEvent::StartList,
        Tag::Item => MdEvent::StartItem,
        Tag::CodeBlock(CodeBlockKind::Indented) => MdEvent::StartCodeBlock(String::new()),
        Tag::CodeBlock(CodeBlockKind::Fenced(l)) => MdEvent::StartCodeBlock(l.to_string()),
        Tag::BlockQuote(_) => MdEvent::StartQuote,
        Tag::Emphasis => MdEvent::StartEmphasis,
        Tag::Strong => MdEvent::StartStrong,
        Tag::Link { dest_url, .. } => MdEvent::StartLink(dest_url.to_string()),
        _ => MdEvent::Other,
    }
}

/// Reads a closing tag of pulldown-cmark as the renderer's event, one arm
/// per tag.
#[verifier::external_body]
fn end_event(tag: TagEnd) -> MdEvent {
    match tag {
        TagEnd::Heading(_) => MdEvent::EndHeading,
        TagEnd::Paragraph => MdEvent::EndParagraph,
        TagEnd::List(_) => MdEvent::EndList,
        TagEnd::Item => MdEvent::EndItem,
        TagEnd::CodeBlock => MdEvent::EndCodeBlock,
        TagEnd::BlockQuote(_) => MdEvent::EndQuote,
        TagEnd::Link => MdEvent::EndLink,
        _ => MdEvent::Other,
    }
}

/// Parses `text` with `pulldown_cmark::Parser::new` and reads its events in
/// order, one for one.
#[verifier::external_body]
fn markdown_events(text: &str) -> (e: Vec<MdEvent>)
    ensures
        e@ == markdown_events_of(text@),
{
    Parser::new(text).map(|event| match event {
        Event::Start(tag) => start_event(tag),
        Event::End(tag) => end_event(tag),
        Event::Text(t) => MdEvent::Text(t.to_string()),
        Event::Code(c) => MdEvent::Code(c.to_string()),
        Event::SoftBreak => MdEvent::SoftBreak,
        Event::HardBreak => MdEvent::HardBreak,
        _ => MdEvent::Other,
    }).collect()
}

/// What syntect gives for a code block in `lang`, with its default syntaxes
/// and the `base16-ocean.dark` theme: each line as spans colored by their
/// foreground, or nothing when the language is not known or highlighting
/// fails. It depends on the language and the code alone.
pub uninterp spec fn code_highlight_of(lang: Seq<char>, code: Seq<char>) -> Option<
    Seq<Seq<(Seq<char>, MdStyle)>>,
>;

/// Highlights `code` with syntect (`SyntaxSet::load_defaults_newlines`,
/// `ThemeSet::load_defaults`, `find_syntax_by_token`, `HighlightLines`).
#[verifier::external_body]
fn highlight_code_block(lang: &str, code: &str) -> (r: Option<Vec<MdLine>>)
    ensures
        highlight_view(r) == code_highlight_of(lang@, code@),
{
    let syntaxes = SyntaxSet::load_defaults_newlines();
    let themes = ThemeSet::load_defaults();
    let syntax = syntaxes.find_syntax_by_token(lang)?;
    let mut hl = HighlightLines::new(syntax, themes.themes.get("base16-ocean.dark")?);
    let mut out = Vec::new();
    for line in LinesWithEndings::from(code) {
        let ranges = hl.highlight_line(line, &syntaxes).ok()?;
        let spans = ranges.into_iter().map(|(s, t)| colored_span(s.foreground, t));
        out.push(MdLine { spans: spans.collect() });
    }
    Some(out)
}

/// syntect's colour, carried opaquely into the reading below.
#[verifier::external_type_specification]
#[verifier::external_body]
pub struct ExColor(syntect::highlighting::Color);

/// A span of highlighted text in its foreground colour.
#[verifier::external_body]
fn colored_span(c: syntect::highlighting::Color, text: &str) -> MdSpan {
    MdSpan { text: text.to_string(), style: MdStyle::Colored(c.r, c.g, c.b) }
}

/// The highlighting of each code block, in order.
pub open spec fn block_highlights(blocks: Seq<(Seq<char>, Seq<char>)>) -> Seq<
    Option<Seq<Seq<(Seq<char>, MdStyle)>>>,
> {
    blocks.map_values(|b: (Seq<char>, Seq<char>)| code_highlight_of(b.0, b.1))
}

/// A reply's text as styled lines: its parser events laid out, each code
/// block colored by the highlighter where it could.
pub fn render_markdown(text: &str) -> (r: Vec<MdLine>)
    ensures
        lines_view(r@) == rendered(
            markdown_events_of(text@),
            text@,
            block_highlights(code_blocks(markdown_events_of(text@))),
        ),
{
    let events = markdown_events(text);
    let blocks = markdown_code_blocks(events.as_slice());
    let ghost want = block_highlights(pair_views(blocks@));
    let mut highlights: Vec<Option<Vec<MdLine>>> = Vec::new();
    let mut i: usize = 0;
    while i < blocks.len()
        invariant
            i <= blocks@.len(),
            want == block_highlights(pair_views(blocks@)),
            highlights_view(highlights@) == want.take(i as int),
        decreases blocks.len() - i,
    {
        let h = highlight_code_block(blocks[i].0.as_str(), blocks[i].1.as_str());
        let ghost before = highlights@;
        highlights.push(h);
        proof {
            assert(pair_views(blocks@)[i as int] == (blocks@[i as int].0@, blocks@[i as int].1@));
            assert(highlights_view(highlights@) =~= highlights_view(before).push(highlight_view(h)));
            assert(want.take(i + 1) =~= want.take(i as int).push(want[i as int]));
        }
        i = i + 1;
    }
    assert(want.take(blocks@.len() as int) =~= want);
    render_markdown_events(text, events.as_slice(), highlights.as_slice())
}

} // verus!
