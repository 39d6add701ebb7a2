//! Styled lines of text, as the picker hands them to the terminal.

use vstd::prelude::*;
use crate::text::{repeat_char, repeated};

verus! {

#[derive(Clone, Copy, Debug, PartialEq, Eq, Structural)]
pub enum Color {
    Black,
    Red,
    Green,
    Yellow,
    Magenta,
    Cyan,
    Gray,
    DarkGray,
    White,
    Indexed(u8),
    Rgb(u8, u8, u8),
}

#[derive(Clone, Copy, Debug, PartialEq, Eq, Structural)]
pub struct Style {
    pub fg: Option<Color>,
    pub bg: Option<Color>,
    pub bold: bool,
    pub dim: bool,
    pub italic: bool,
}

pub open spec fn plain_style() -> Style {
    Style { fg: None, bg: None, bold: false, dim: false, italic: false }
}

pub open spec fn dim_style() -> Style {
    Style { dim: true, ..plain_style() }
}

pub open spec fn bold_style() -> Style {
    Style { bold: true, ..plain_style() }
}

pub open spec fn dim_italic_style() -> Style {
    Style { dim: true, italic: true, ..plain_style() }
}

pub open spec fn fg_style(color: Color) -> Style {
    Style { fg: Some(color), ..plain_style() }
}

/// `over` laid over `under`: its colors win, the modifiers add up.
pub open spec fn patched(under: Style, over: Style) -> Style {
    Style {
        fg: if over.fg is Some {
            over.fg
        } else {
            under.fg
        },
        bg: if over.bg is Some {
            over.bg
        } else {
            under.bg
        },
        bold: under.bold || over.bold,
        dim: under.dim || over.dim,
        italic: under.italic || over.italic,
    }
}

impl Style {
    pub fn plain() -> (r: Style)
        ensures
            r == plain_style(),
    {
        Style { fg: None, bg: None, bold: false, dim: false, italic: false }
    }

    pub fn dim() -> (r: Style)
        ensures
            r == dim_style(),
    {
        Style { fg: None, bg: None, bold: false, dim: true, italic: false }
    }

    pub fn bold() -> (r: Style)
        ensures
            r == bold_style(),
    {
        Style { fg: None, bg: None, bold: true, dim: false, italic: false }
    }

    pub fn dim_italic() -> (r: Style)
        ensures
            r == dim_italic_style(),
    {
        Style { fg: None, bg: None, bold: false, dim: true, italic: true }
    }

    pub fn fg(color: Color) -> (r: Style)
        ensures
            r == fg_style(color),
    {
        Style { fg: Some(color), bg: None, bold: false, dim: false, italic: false }
    }

    /// `over` laid over this style: its colors win, the modifiers add up.
    pub fn patch(self, over: Style) -> (r: Style)
        ensures
            r == patched(self, over),
    {
        Style {
            fg: if over.fg.is_some() {
                over.fg
            } else {
                self.fg
            },
            bg: if over.bg.is_some() {
                over.bg
            } else {
                self.bg
            },
            bold: self.bold || over.bold,
            dim: self.dim || over.dim,
            italic: self.italic || over.italic,
        }
    }
}

/// A run of text in one style.
#[derive(Debug)]
pub struct Span {
    pub content: String,
    pub style: Style,
}

#[verifier::ext_equal]
pub struct SpanView {
    pub content: Seq<char>,
    pub style: Style,
}

impl View for Span {
    type V = SpanView;

    open spec fn view(&self) -> SpanView {
        SpanView { content: self.content@, style: self.style }
    }
}

impl Span {
    pub fn new(content: String, style: Style) -> (r: Span)
        ensures
            r@ == span_of(content@, style),
    {
        Span { content, style }
    }

    pub fn from_text(content: &str, style: Style) -> (r: Span)
        ensures
            r@ == span_of(content@, style),
    {
        Span { content: content.to_owned(), style }
    }

    /// `count` spaces in a style.
    pub fn spaces(count: usize, style: Style) -> (r: Span)
        ensures
            r@ == spaces_of(count as nat, style),
    {
        Span { content: repeat_char(' ', count), style }
    }
}

pub open spec fn span_of(content: Seq<char>, style: Style) -> SpanView {
    SpanView { content, style }
}

pub open spec fn spaces_of(count: nat, style: Style) -> SpanView {
    SpanView { content: repeated(' ', count), style }
}

/// A line of spans. The line's own style lies under those of its spans.
#[derive(Debug)]
pub struct Line {
    pub spans: Vec<Span>,
    pub style: Style,
}

#[verifier::ext_equal]
pub struct LineView {
    pub spans: Seq<SpanView>,
    pub style: Style,
}

pub open spec fn spans_view(spans: Seq<Span>) -> Seq<SpanView> {
    Seq::new(spans.len(), |i: int| spans[i]@)
}

impl View for Line {
    type V = LineView;

    open spec fn view(&self) -> LineView {
        LineView { spans: spans_view(self.spans@), style: self.style }
    }
}

/// The line of `spans` with no style of its own.
pub open spec fn line_of(spans: Seq<SpanView>) -> LineView {
    LineView { spans, style: plain_style() }
}

pub open spec fn lines_view(lines: Seq<Line>) -> Seq<LineView> {
    Seq::new(lines.len(), |i: int| lines[i]@)
}

pub broadcast proof fn lemma_spans_push(spans: Seq<Span>, span: Span)
    ensures
        #[trigger] spans_view(spans.push(span)) == spans_view(spans).push(span@),
{
    assert(spans_view(spans.push(span)) =~= spans_view(spans).push(span@));
}

pub broadcast proof fn lemma_spans_append(a: Seq<Span>, b: Seq<Span>)
    ensures
        #[trigger] spans_view(a + b) == spans_view(a) + spans_view(b),
{
    assert(spans_view(a + b) =~= spans_view(a) + spans_view(b));
}

pub broadcast proof fn lemma_spans_empty()
    ensures
        #[trigger] spans_view(Seq::<Span>::empty()) == Seq::<SpanView>::empty(),
{
    assert(spans_view(Seq::<Span>::empty()) =~= Seq::<SpanView>::empty());
}

pub broadcast proof fn lemma_lines_push(lines: Seq<Line>, line: Line)
    ensures
        #[trigger] lines_view(lines.push(line)) == lines_view(lines).push(line@),
{
    assert(lines_view(lines.push(line)) =~= lines_view(lines).push(line@));
}

pub broadcast proof fn lemma_lines_append(a: Seq<Line>, b: Seq<Line>)
    ensures
        #[trigger] lines_view(a + b) == lines_view(a) + lines_view(b),
{
    assert(lines_view(a + b) =~= lines_view(a) + lines_view(b));
}

pub broadcast proof fn lemma_lines_empty()
    ensures
        #[trigger] lines_view(Seq::<Line>::empty()) == Seq::<LineView>::empty(),
{
    assert(lines_view(Seq::<Line>::empty()) =~= Seq::<LineView>::empty());
}

pub broadcast group group_line_views {
    lemma_spans_push,
    lemma_spans_append,
    lemma_spans_empty,
    lemma_lines_push,
    lemma_lines_append,
    lemma_lines_empty,
}

impl Line {
    pub fn empty() -> (r: Line)
        ensures
            r@ == line_of(Seq::empty()),
    {
        broadcast use group_line_views;
        Line { spans: Vec::new(), style: Style::plain() }
    }

    pub fn from_spans(spans: Vec<Span>) -> (r: Line)
        ensures
            r@ == line_of(spans_view(spans@)),
    {
        Line { spans, style: Style::plain() }
    }

    pub fn one(span: Span) -> (r: Line)
        ensures
            r@ == line_of(seq![span@]),
    {
        broadcast use group_line_views;
        let mut spans: Vec<Span> = Vec::new();
        spans.push(span);
        proof {
            assert(spans_view(spans@) =~= seq![span@]);
        }
        Line { spans, style: Style::plain() }
    }

    pub fn two(first: Span, second: Span) -> (r: Line)
        ensures
            r@ == line_of(seq![first@, second@]),
    {
        broadcast use group_line_views;
        let mut spans: Vec<Span> = Vec::new();
        spans.push(first);
        spans.push(second);
        proof {
            assert(spans_view(spans@) =~= seq![first@, second@]);
        }
        Line { spans, style: Style::plain() }
    }
}

/// The columns that `UnicodeWidthStr::width` counts for a text.
pub uninterp spec fn display_width(text: Seq<char>) -> usize;

pub open spec fn is_printable_ascii(text: Seq<char>) -> bool {
    forall|i: int| 0 <= i < text.len() ==> ' ' <= #[trigger] text[i] && text[i] <= '~'
}

/// `unicode_width::UnicodeWidthStr::width`: the columns that a text takes on a terminal. A text of
/// printable ASCII characters takes one column for each.
#[verifier::external_body]
pub(crate) fn text_width(text: &str) -> (r: usize)
    ensures
        r == display_width(text@),
        is_printable_ascii(text@) ==> r == text@.len(),
{
    unicode_width::UnicodeWidthStr::width(text)
}

/// The columns of some spans, one behind the other.
pub open spec fn spans_width(spans: Seq<SpanView>) -> int
    decreases spans.len(),
{
    if spans.len() == 0 {
        0
    } else {
        spans_width(spans.drop_last()) + display_width(spans.last().content)
    }
}

/// `value`, or `usize::MAX` where it is larger.
pub open spec fn at_most_usize(value: int) -> int {
    if value > usize::MAX {
        usize::MAX as int
    } else {
        value
    }
}

pub proof fn lemma_spans_width_nonnegative(spans: Seq<SpanView>)
    ensures
        spans_width(spans) >= 0,
    decreases spans.len(),
{
    if spans.len() > 0 {
        lemma_spans_width_nonnegative(spans.drop_last());
    }
}

/// The columns of a line, at most `usize::MAX`.
pub fn line_width(line: &Line) -> (r: usize)
    ensures
        r == at_most_usize(spans_width(line@.spans)),
{
    let mut total: usize = 0;
    let mut i: usize = 0;
    while i < line.spans.len()
        invariant
            i <= line.spans.len(),
            total == at_most_usize(spans_width(line@.spans.take(i as int))),
        decreases line.spans.len() - i,
    {
        let width: usize = text_width(line.spans[i].content.as_str());
        proof {
            let part = line@.spans.take(i + 1);
            assert(part.drop_last() =~= line@.spans.take(i as int));
            assert(part.last() == line.spans@[i as int]@);
            lemma_spans_width_nonnegative(line@.spans.take(i as int));
        }
        total = total.saturating_add(width);
        i += 1;
    }
    proof {
        assert(line@.spans.take(line.spans@.len() as int) =~= line@.spans);
    }
    total
}

} // verus!
