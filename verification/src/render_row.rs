//! How a session is shown in the list.

use vstd::prelude::*;
use vstd::string::StringExecFns;
use crate::dashboard::DashboardStatus;
use crate::metadata::at_least_zero;
use crate::session::{TranscriptPreviewLine, TranscriptPreviewSpeaker, TranscriptPreviewState};
use crate::style::{
    dim_italic_style, dim_style, display_width, fg_style, group_line_views, line_width, lines_view,
    patched, plain_style, span_of, spaces_of, spans_view, spans_width, text_width, Color, Line,
    LineView, Span, SpanView, Style,
};
use crate::text::{repeat_char, repeated};

verus! {

broadcast use group_line_views;

pub const DASHBOARD_STATUS_COLUMN_WIDTH: usize = 14;

/// The colors that depend on the terminal's background.
#[derive(Clone, Copy, Debug, PartialEq, Eq, Structural)]
pub struct Palette {
    /// The background is known and light.
    pub light: bool,
    /// The background of every other row, where the terminal's is known.
    pub zebra_background: Option<Color>,
    /// The background of the selected row, where the terminal's is known.
    pub selected_background: Option<Color>,
    /// The background of a message over the list, where the terminal's is known.
    pub overlay_background: Option<Color>,
    /// The color of the title on a light background.
    pub light_title: Color,
}

/// A background that stands out from the terminal's own.
#[derive(Clone, Copy, Debug, PartialEq, Eq, Structural)]
pub enum Backdrop {
    ZebraRow,
    SelectedRow,
    Overlay,
}

/// A color that is laid over the terminal's background, and how much of it shows, in thousandths.
#[derive(Clone, Copy, Debug, PartialEq, Eq)]
pub struct Blend {
    pub overlay: (u8, u8, u8),
    pub alpha: u16,
}

/// What makes a backdrop: some black over a light background, some white over a dark one.
pub open spec fn blend_for(backdrop: Backdrop, light: bool) -> Blend {
    Blend {
        overlay: if light {
            (0, 0, 0)
        } else {
            (255, 255, 255)
        },
        alpha: match backdrop {
            Backdrop::SelectedRow => 120,
            Backdrop::ZebraRow => if light {
                40
            } else {
                55
            },
            Backdrop::Overlay => if light {
                80
            } else {
                140
            },
        },
    }
}

pub fn backdrop_blend(backdrop: Backdrop, light: bool) -> (r: Blend)
    ensures
        r == blend_for(backdrop, light),
{
    let alpha: u16 = match backdrop {
        Backdrop::SelectedRow => 120,
        Backdrop::ZebraRow => if light {
            40
        } else {
            55
        },
        Backdrop::Overlay => if light {
            80
        } else {
            140
        },
    };
    Blend {
        overlay: if light {
            (0, 0, 0)
        } else {
            (255, 255, 255)
        },
        alpha,
    }
}

impl Palette {
    /// Nothing is known of the terminal: it counts as dark, and no background can be blended.
    pub open spec fn is_unknown(self) -> bool {
        &&& !self.light
        &&& self.zebra_background is None
        &&& self.selected_background is None
        &&& self.overlay_background is None
        &&& self.light_title is Green
    }

    /// The colors where nothing is known of the terminal.
    pub fn unknown() -> (r: Palette)
        ensures
            r.is_unknown(),
    {
        Palette {
            light: false,
            zebra_background: None,
            selected_background: None,
            overlay_background: None,
            light_title: Color::Green,
        }
    }

    pub open spec fn row_text(self, is_selected: bool) -> Style {
        if is_selected {
            fg_style(
                if self.light {
                    Color::Black
                } else {
                    Color::White
                },
            )
        } else {
            dim_style()
        }
    }

    pub open spec fn selected(self) -> Style {
        fg_style(
            if self.light {
                Color::Magenta
            } else {
                Color::Yellow
            },
        )
    }

    pub open spec fn row_background(self, is_selected: bool) -> Style {
        Style {
            bg: if is_selected {
                self.selected_background
            } else {
                self.zebra_background
            },
            ..plain_style()
        }
    }

    pub open spec fn selected_row(self) -> Style {
        patched(self.selected(), self.row_background(true))
    }

    pub open spec fn conversation(self, speaker: TranscriptPreviewSpeaker) -> Style {
        match speaker {
            TranscriptPreviewSpeaker::User => Style {
                italic: true,
                ..fg_style(
                    if self.light {
                        Color::DarkGray
                    } else {
                        Color::Gray
                    },
                )
            },
            TranscriptPreviewSpeaker::Assistant => fg_style(
                if self.light {
                    Color::Gray
                } else {
                    Color::DarkGray
                },
            ),
        }
    }
}

pub fn dashboard_row_text_style(palette: Palette, is_selected: bool) -> (r: Style)
    ensures
        r == palette.row_text(is_selected),
{
    if is_selected {
        Style::fg(
            if palette.light {
                Color::Black
            } else {
                Color::White
            },
        )
    } else {
        Style::dim()
    }
}

pub fn selected_session_style(palette: Palette) -> (r: Style)
    ensures
        r == palette.selected(),
{
    Style::fg(
        if palette.light {
            Color::Magenta
        } else {
            Color::Yellow
        },
    )
}

pub fn dense_row_background_style(palette: Palette, selected: bool) -> (r: Style)
    ensures
        r == palette.row_background(selected),
{
    let mut style = Style::plain();
    style.bg = if selected {
        palette.selected_background
    } else {
        palette.zebra_background
    };
    style
}

pub fn dense_zebra_style(palette: Palette) -> (r: Style)
    ensures
        r == palette.row_background(false),
{
    dense_row_background_style(palette, false)
}

pub fn dense_selected_style(palette: Palette) -> (r: Style)
    ensures
        r == palette.selected_row(),
{
    selected_session_style(palette).patch(dense_row_background_style(palette, true))
}

pub open spec fn marker_text(is_selected: bool, is_expanded: bool) -> Seq<char> {
    if is_selected && is_expanded {
        "⌄ "@
    } else if is_selected {
        "❯ "@
    } else {
        "  "@
    }
}

fn marker_str(is_selected: bool, is_expanded: bool) -> (r: &'static str)
    ensures
        r@ == marker_text(is_selected, is_expanded),
{
    if is_selected && is_expanded {
        "⌄ "
    } else if is_selected {
        "❯ "
    } else {
        "  "
    }
}

/// The marker before a title: on the dashboard in the color of the row, elsewhere that of a
/// selection.
pub open spec fn marker_span(
    palette: Palette,
    dashboard: bool,
    is_selected: bool,
    is_expanded: bool,
) -> SpanView {
    span_of(
        marker_text(is_selected, is_expanded),
        if dashboard {
            palette.row_text(is_selected)
        } else if is_selected {
            Style { bold: true, ..palette.selected() }
        } else {
            plain_style()
        },
    )
}

pub fn dashboard_selection_marker(palette: Palette, is_selected: bool, is_expanded: bool) -> (r:
    Span)
    ensures
        r@ == marker_span(palette, true, is_selected, is_expanded),
{
    Span::from_text(
        marker_str(is_selected, is_expanded),
        dashboard_row_text_style(palette, is_selected),
    )
}

pub fn selection_marker(palette: Palette, is_selected: bool, is_expanded: bool) -> (r: Span)
    ensures
        r@ == marker_span(palette, false, is_selected, is_expanded),
{
    let style = if is_selected {
        let mut style = selected_session_style(palette);
        style.bold = true;
        style
    } else {
        Style::plain()
    };
    Span::from_text(marker_str(is_selected, is_expanded), style)
}

pub open spec fn status_style(status: DashboardStatus) -> Style {
    match status {
        DashboardStatus::NeedsInput => Style { bold: true, ..fg_style(Color::Red) },
        DashboardStatus::Working => fg_style(Color::Cyan),
        DashboardStatus::Idle => fg_style(Color::Green),
        DashboardStatus::Done => dim_style(),
    }
}

/// The state of an agent in brackets, in its column.
pub open spec fn status_column(status: Option<DashboardStatus>) -> SpanView {
    match status {
        None => spaces_of(DASHBOARD_STATUS_COLUMN_WIDTH as nat, dim_style()),
        Some(status) => {
            let label = "["@ + status.name() + "]"@;
            span_of(
                label + repeated(
                    ' ',
                    at_least_zero(DASHBOARD_STATUS_COLUMN_WIDTH - display_width(label)) as nat,
                ),
                status_style(status),
            )
        },
    }
}

pub fn dashboard_status_column(status: Option<DashboardStatus>) -> (r: Span)
    ensures
        r@ == status_column(status),
{
    let status = match status {
        Some(status) => status,
        None => {
            return Span::spaces(DASHBOARD_STATUS_COLUMN_WIDTH, Style::dim());
        },
    };
    let mut label = "[".to_owned();
    label.append(status.label());
    label.append("]");
    let padding: usize = DASHBOARD_STATUS_COLUMN_WIDTH.saturating_sub(text_width(label.as_str()));
    label.append(repeat_char(' ', padding).as_str());
    let style = match status {
        DashboardStatus::NeedsInput => {
            let mut style = Style::fg(Color::Red);
            style.bold = true;
            style
        },
        DashboardStatus::Working => Style::fg(Color::Cyan),
        DashboardStatus::Idle => Style::fg(Color::Green),
        DashboardStatus::Done => Style::dim(),
    };
    Span::new(label, style)
}

/// The last of `lines` that the assistant said.
pub open spec fn last_answer(lines: Seq<TranscriptPreviewLine>) -> Option<Seq<char>>
    decreases lines.len(),
{
    if lines.len() == 0 {
        None
    } else if lines.last().speaker is Assistant {
        Some(lines.last().text@)
    } else {
        last_answer(lines.drop_last())
    }
}

/// What is said of a session's recent activity: the assistant's last line or, without one, the
/// last line.
pub open spec fn subtitle_of(preview: Option<TranscriptPreviewState>) -> Option<SpanView> {
    match preview {
        Some(TranscriptPreviewState::Loading) => Some(
            span_of("Loading recent activity…"@, dim_italic_style()),
        ),
        Some(TranscriptPreviewState::Loaded(lines)) => match last_answer(lines@) {
            Some(text) => Some(span_of(text, dim_style())),
            None => if lines@.len() > 0 {
                Some(span_of(lines@.last().text@, dim_style()))
            } else {
                None
            },
        },
        Some(TranscriptPreviewState::Failed) => None,
        None => None,
    }
}

pub open spec fn optional_span(span: Option<Span>) -> Option<SpanView> {
    match span {
        Some(span) => Some(span@),
        None => None,
    }
}

pub open spec fn deref_optional<T>(value: Option<&T>) -> Option<T> {
    match value {
        Some(value) => Some(*value),
        None => None,
    }
}

pub fn dashboard_subtitle(preview: Option<&TranscriptPreviewState>) -> (r: Option<Span>)
    ensures
        optional_span(r) == subtitle_of(deref_optional(preview)),
{
    match preview {
        Some(TranscriptPreviewState::Loading) => Some(
            Span::from_text("Loading recent activity…", Style::dim_italic()),
        ),
        Some(TranscriptPreviewState::Loaded(lines)) => {
            let mut i: usize = lines.len();
            proof {
                assert(lines@.take(i as int) =~= lines@);
            }
            while i > 0
                invariant
                    i <= lines.len(),
                    last_answer(lines@) == last_answer(lines@.take(i as int)),
                    preview == Some(&TranscriptPreviewState::Loaded(*lines)),
                decreases i,
            {
                proof {
                    let part = lines@.take(i as int);
                    assert(part.last() == lines@[i - 1]);
                    assert(part.drop_last() =~= lines@.take(i - 1));
                }
                match lines[i - 1].speaker {
                    TranscriptPreviewSpeaker::Assistant => {
                        return Some(Span::from_text(lines[i - 1].text.as_str(), Style::dim()));
                    },
                    TranscriptPreviewSpeaker::User => {},
                }
                i -= 1;
            }
            if lines.len() > 0 {
                Some(Span::from_text(lines[lines.len() - 1].text.as_str(), Style::dim()))
            } else {
                None
            }
        },
        Some(TranscriptPreviewState::Failed) => None,
        None => None,
    }
}

/// `spans`, with `style` laid over each of them.
pub open spec fn spans_patched(spans: Seq<SpanView>, style: Style) -> Seq<SpanView> {
    Seq::new(spans.len(), |i: int| span_of(spans[i].content, patched(spans[i].style, style)))
}

/// The line with `style` laid over it and its spans.
pub open spec fn line_patched(line: LineView, style: Style) -> LineView {
    LineView { spans: spans_patched(line.spans, style), style: patched(line.style, style) }
}

/// A copy of `line` with `style` laid over it and its spans.
pub fn conversation_content_line(line: &Line, style: Style) -> (r: Line)
    ensures
        r@ == line_patched(line@, style),
{
    let mut spans: Vec<Span> = Vec::new();
    let mut i: usize = 0;
    while i < line.spans.len()
        invariant
            i <= line.spans.len(),
            spans_view(spans@) == spans_patched(line@.spans, style).take(i as int),
        decreases line.spans.len() - i,
    {
        let span = &line.spans[i];
        spans.push(Span { content: span.content.clone(), style: span.style.patch(style) });
        proof {
            let all = spans_patched(line@.spans, style);
            assert(all.take(i + 1) =~= all.take(i as int).push(all[i as int]));
        }
        i += 1;
    }
    proof {
        let all = spans_patched(line@.spans, style);
        assert(all.take(all.len() as int) =~= all);
    }
    Line { spans, style: line.style.patch(style) }
}

/// The line in the color of a dashboard's row: a selected row has one color throughout, another is
/// dimmed.
pub open spec fn row_styled(palette: Palette, line: LineView, is_selected: bool) -> LineView {
    let style = palette.row_text(is_selected);
    LineView {
        spans: Seq::new(
            line.spans.len(),
            |i: int|
                span_of(
                    line.spans[i].content,
                    if is_selected {
                        style
                    } else {
                        patched(line.spans[i].style, style)
                    },
                ),
        ),
        style: line.style,
    }
}

pub fn apply_dashboard_text_style(palette: Palette, line: Line, is_selected: bool) -> (r: Line)
    ensures
        r@ == row_styled(palette, line@, is_selected),
{
    let style = dashboard_row_text_style(palette, is_selected);
    let ghost all = row_styled(palette, line@, is_selected).spans;
    let mut spans: Vec<Span> = Vec::new();
    let mut i: usize = 0;
    while i < line.spans.len()
        invariant
            i <= line.spans.len(),
            style == palette.row_text(is_selected),
            all == row_styled(palette, line@, is_selected).spans,
            spans_view(spans@) == all.take(i as int),
        decreases line.spans.len() - i,
    {
        let span = &line.spans[i];
        spans.push(
            Span {
                content: span.content.clone(),
                style: if is_selected {
                    style
                } else {
                    span.style.patch(style)
                },
            },
        );
        proof {
            assert(all.take(i + 1) =~= all.take(i as int).push(all[i as int]));
        }
        i += 1;
    }
    proof {
        assert(all.take(all.len() as int) =~= all);
    }
    Line { spans, style: line.style }
}

pub open spec fn rows_styled(
    palette: Palette,
    lines: Seq<LineView>,
    is_selected: bool,
) -> Seq<LineView> {
    Seq::new(lines.len(), |i: int| row_styled(palette, lines[i], is_selected))
}

pub fn style_lines(palette: Palette, lines: Vec<Line>, is_selected: bool) -> (r: Vec<Line>)
    ensures
        lines_view(r@) == rows_styled(palette, lines_view(lines@), is_selected),
{
    let ghost all = rows_styled(palette, lines_view(lines@), is_selected);
    let mut r: Vec<Line> = Vec::new();
    let mut i: usize = 0;
    while i < lines.len()
        invariant
            i <= lines.len(),
            all == rows_styled(palette, lines_view(lines@), is_selected),
            lines_view(r@) == all.take(i as int),
        decreases lines.len() - i,
    {
        let line = copy_line(&lines[i]);
        r.push(apply_dashboard_text_style(palette, line, is_selected));
        proof {
            assert(all.take(i + 1) =~= all.take(i as int).push(all[i as int]));
        }
        i += 1;
    }
    proof {
        assert(all.take(all.len() as int) =~= all);
    }
    r
}

/// A copy of a line.
pub fn copy_line(line: &Line) -> (r: Line)
    ensures
        r@ == line@,
{
    let mut spans: Vec<Span> = Vec::new();
    let mut i: usize = 0;
    while i < line.spans.len()
        invariant
            i <= line.spans.len(),
            spans_view(spans@) == line@.spans.take(i as int),
        decreases line.spans.len() - i,
    {
        let span = &line.spans[i];
        spans.push(Span { content: span.content.clone(), style: span.style });
        proof {
            assert(line@.spans.take(i + 1) =~= line@.spans.take(i as int).push(
                line@.spans[i as int],
            ));
        }
        i += 1;
    }
    proof {
        assert(line@.spans.take(line@.spans.len() as int) =~= line@.spans);
    }
    Line { spans, style: line.style }
}

/// The line filled to `width` columns, with `style` laid over all of it.
pub open spec fn with_background(line: LineView, style: Style, width: int) -> LineView {
    let padding = at_least_zero(width - spans_width(line.spans));
    line_patched(
        LineView {
            spans: if padding > 0 {
                line.spans.push(spaces_of(padding as nat, style))
            } else {
                line.spans
            },
            style: line.style,
        },
        style,
    )
}

pub fn apply_line_background(line: Line, style: Style, width: u16) -> (r: Line)
    ensures
        r@ == with_background(line@, style, width as int),
{
    let mut line = line;
    let ghost before = line@;
    let padding: usize = (width as usize).saturating_sub(line_width(&line));
    if padding > 0 {
        line.spans.push(Span::spaces(padding, style));
    }
    conversation_content_line(&line, style)
}

pub open spec fn with_backgrounds(
    lines: Seq<LineView>,
    style: Style,
    width: int,
) -> Seq<LineView> {
    Seq::new(lines.len(), |i: int| with_background(lines[i], style, width))
}

pub fn apply_session_row_background(lines: Vec<Line>, style: Style, width: u16) -> (r: Vec<Line>)
    ensures
        lines_view(r@) == with_backgrounds(lines_view(lines@), style, width as int),
{
    let ghost all = with_backgrounds(lines_view(lines@), style, width as int);
    let mut r: Vec<Line> = Vec::new();
    let mut i: usize = 0;
    while i < lines.len()
        invariant
            i <= lines.len(),
            all == with_backgrounds(lines_view(lines@), style, width as int),
            lines_view(r@) == all.take(i as int),
        decreases lines.len() - i,
    {
        let line = copy_line(&lines[i]);
        r.push(apply_line_background(line, style, width));
        proof {
            assert(all.take(i + 1) =~= all.take(i as int).push(all[i as int]));
        }
        i += 1;
    }
    proof {
        assert(all.take(all.len() as int) =~= all);
    }
    r
}

} // verus!
