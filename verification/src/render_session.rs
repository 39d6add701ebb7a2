//! The lines of one session: its title, its metadata and, where it is expanded, its details and
//! the newest lines of its conversation.

use vstd::prelude::*;
use vstd::string::{StrSliceExecFns, StringExecFns};
use crate::ids::uuid_text;
use crate::metadata::{at_least_zero, larger};
use crate::picker::{PickerState, PreviewLayout};
use crate::render_row::{
    conversation_content_line, copy_line, deref_optional, line_patched, Palette,
};
use crate::row::Row;
use crate::session::{TranscriptPreviewLine, TranscriptPreviewSpeaker, TranscriptPreviewState};
use crate::style::{
    dim_italic_style, dim_style, fg_style, group_line_views, line_of, lines_view, patched,
    plain_style, span_of, spans_view, Color, Line, LineView, Span, Style,
};
use crate::text::{repeat_char, repeated, trim, trimmed, truncate_text, truncated};
use crate::time::{
    date_time_text, elapsed, format_relative_time_long, format_timestamp, relative_words, Timestamp,
};

verus! {

broadcast use group_line_views;

pub const DETAIL_LABEL_WIDTH: usize = 10;

/// A detail of an expanded session: its label in a column and as much of its value as fits.
pub open spec fn detail_line(label: Seq<char>, value: Seq<char>, width: int) -> LineView {
    line_of(
        seq![
            span_of("  │ "@, dim_style()),
            span_of(
                label + repeated(' ', at_least_zero(DETAIL_LABEL_WIDTH - label.len()) as nat),
                dim_style(),
            ),
            span_of("  "@, dim_style()),
            span_of(truncated(value, larger(width - 16, 1) as nat), plain_style()),
        ],
    )
}

pub fn expanded_detail_line(label: &'static str, value: &str, width: u16) -> (r: Line)
    ensures
        r@ == detail_line(label@, value@, width as int),
{
    let room: usize = (width as usize).saturating_sub(4 + DETAIL_LABEL_WIDTH + 2);
    let value_width: usize = if room < 1 {
        1
    } else {
        room
    };
    let mut padded = label.to_owned();
    let padding: usize = DETAIL_LABEL_WIDTH.saturating_sub(label.unicode_len());
    padded.append(repeat_char(' ', padding).as_str());
    let mut spans: Vec<Span> = Vec::new();
    spans.push(Span::from_text("  │ ", Style::dim()));
    spans.push(Span::new(padded, Style::dim()));
    spans.push(Span::from_text("  ", Style::dim()));
    spans.push(Span::new(truncate_text(value, value_width), Style::plain()));
    proof {
        assert(spans_view(spans@) =~= detail_line(label@, value@, width as int).spans);
    }
    Line::from_spans(spans)
}

/// An instant as a detail: how long ago it was, and when.
pub open spec fn instant_text(reference: Timestamp, ts: Option<Timestamp>) -> Seq<char> {
    match ts {
        Some(ts) => relative_words(elapsed(reference, ts)) + " · "@ + date_time_text(
            ts.seconds(),
            ts.nanos(),
        ),
        None => "-"@,
    }
}

pub fn expanded_time_detail_line(
    label: &'static str,
    reference: Timestamp,
    ts: Option<Timestamp>,
    width: u16,
) -> (r: Line)
    ensures
        r@ == detail_line(label@, instant_text(reference, ts), width as int),
{
    let instant = match ts {
        Some(instant) => instant,
        None => {
            return expanded_detail_line(label, "-", width);
        },
    };
    let mut value = format_relative_time_long(reference, instant);
    value.append(" · ");
    value.append(format_timestamp(instant).as_str());
    expanded_detail_line(label, value.as_str(), width)
}

/// The name and the identifier of a session, as far as it has them.
pub open spec fn session_name(row: Row) -> Seq<char> {
    match (row.thread_name, row.thread_id) {
        (Some(name), Some(thread_id)) => name@ + " ("@ + uuid_text(thread_id.bits) + ")"@,
        (Some(name), None) => name@,
        (None, Some(thread_id)) => uuid_text(thread_id.bits),
        (None, None) => "-"@,
    }
}

fn session_name_text(row: &Row) -> (r: String)
    ensures
        r@ == session_name(*row),
{
    match (&row.thread_name, row.thread_id) {
        (Some(name), Some(thread_id)) => {
            let mut text = name.clone();
            text.append(" (");
            text.append(thread_id.text().as_str());
            text.append(")");
            text
        },
        (Some(name), None) => name.clone(),
        (None, Some(thread_id)) => thread_id.text(),
        (None, None) => "-".to_owned(),
    }
}

/// The instant that the list tells times by.
pub open spec fn time_reference(state: PickerState) -> Timestamp {
    match state.relative_time_reference {
        Some(reference) => reference,
        None => state.current_time,
    }
}

pub fn reference_time(state: &PickerState) -> (r: Timestamp)
    ensures
        r == time_reference(*state),
{
    match state.relative_time_reference {
        Some(reference) => reference,
        None => state.current_time,
    }
}

/// The details of an expanded session.
pub open spec fn session_details(row: Row, reference: Timestamp, width: int) -> Seq<LineView> {
    seq![
        detail_line("Session:"@, session_name(row), width),
        detail_line("Created:"@, instant_text(reference, row.created_at), width),
        detail_line("Updated:"@, instant_text(reference, row.last_active()), width),
        detail_line(
            "Directory:"@,
            match row.cwd {
                Some(cwd) => cwd.label@,
                None => "-"@,
            },
            width,
        ),
        detail_line(
            "Branch:"@,
            match row.git_branch {
                Some(branch) => "\u{e0a0} "@ + branch@,
                None => "\u{e0a0} no branch"@,
            },
            width,
        ),
        line_of(seq![span_of("  │"@, dim_style())]),
        line_of(seq![span_of("  │ "@, dim_style()), span_of("Conversation:"@, dim_style())]),
    ]
}

pub fn render_expanded_session_details(row: &Row, state: &PickerState, width: u16) -> (r: Vec<Line>)
    ensures
        lines_view(r@) == session_details(*row, time_reference(*state), width as int),
{
    let reference = reference_time(state);
    let session = session_name_text(row);
    let directory = match &row.cwd {
        Some(path) => path.label.clone(),
        None => "-".to_owned(),
    };
    let branch = match &row.git_branch {
        Some(branch) => {
            let mut text = "\u{e0a0} ".to_owned();
            text.append(branch.as_str());
            text
        },
        None => "\u{e0a0} no branch".to_owned(),
    };
    let mut lines: Vec<Line> = Vec::new();
    lines.push(expanded_detail_line("Session:", session.as_str(), width));
    lines.push(expanded_time_detail_line("Created:", reference, row.created_at, width));
    lines.push(expanded_time_detail_line("Updated:", reference, row.last_activity(), width));
    lines.push(expanded_detail_line("Directory:", directory.as_str(), width));
    lines.push(expanded_detail_line("Branch:", branch.as_str(), width));
    lines.push(Line::one(Span::from_text("  │", Style::dim())));
    lines.push(
        Line::two(
            Span::from_text("  │ ", Style::dim()),
            Span::from_text("Conversation:", Style::dim()),
        ),
    );
    proof {
        assert(lines_view(lines@) =~= session_details(*row, time_reference(*state), width as int));
    }
    lines
}

/// The colors of the first span that shows something.
pub open spec fn prefix_style(line: LineView, at: int) -> Style
    decreases line.spans.len() - at,
{
    if 0 <= at < line.spans.len() {
        if trimmed(line.spans[at].content).len() > 0 {
            connector(patched(line.style, line.spans[at].style))
        } else {
            prefix_style(line, at + 1)
        }
    } else {
        connector(line.style)
    }
}

/// The colors of a style, without its modifiers.
pub open spec fn connector(style: Style) -> Style {
    Style { fg: style.fg, bg: style.bg, ..plain_style() }
}

pub fn connector_style_from_content(style: Style) -> (r: Style)
    ensures
        r == connector(style),
{
    Style { fg: style.fg, bg: style.bg, bold: false, dim: false, italic: false }
}

pub fn transcript_prefix_style(line: &Line) -> (r: Style)
    ensures
        r == prefix_style(line@, 0),
{
    let mut i: usize = 0;
    while i < line.spans.len()
        invariant
            i <= line.spans.len(),
            prefix_style(line@, 0) == prefix_style(line@, i as int),
        decreases line.spans.len() - i,
    {
        let shown = trim(line.spans[i].content.as_str());
        if !shown.as_str().is_empty() {
            return connector_style_from_content(line.style.patch(line.spans[i].style));
        }
        i += 1;
    }
    connector_style_from_content(line.style)
}

/// The line behind a connector in its colors.
pub open spec fn prefixed(prefix: Seq<char>, line: LineView) -> LineView {
    LineView {
        spans: seq![span_of(prefix, prefix_style(line, 0))] + line.spans,
        style: line.style,
    }
}

pub fn prefix_transcript_line(prefix: &'static str, line: Line) -> (r: Line)
    ensures
        r@ == prefixed(prefix@, line@),
{
    let mut spans: Vec<Span> = Vec::new();
    spans.push(Span::from_text(prefix, transcript_prefix_style(&line)));
    let style = line.style;
    let mut rest = line.spans;
    let ghost behind = spans_view(rest@);
    proof {
        assert(spans_view(spans@) =~= seq![span_of(prefix@, prefix_style(line@, 0))]);
    }
    spans.append(&mut rest);
    Line { spans, style }
}

/// The screen lines of one line of a conversation: those that were laid out for it or, without
/// them, its text on one line.
pub open spec fn content_lines(
    palette: Palette,
    line: TranscriptPreviewLine,
    laid_out: Option<Seq<Line>>,
) -> Seq<LineView> {
    let style = palette.conversation(line.speaker);
    match laid_out {
        Some(lines) => Seq::new(lines.len(), |i: int| line_patched(lines[i]@, style)),
        None => seq![line_patched(line_of(seq![span_of(line.text@, plain_style())]), style)],
    }
}

pub fn conversation_style(palette: Palette, speaker: TranscriptPreviewSpeaker) -> (r: Style)
    ensures
        r == palette.conversation(speaker),
{
    match speaker {
        TranscriptPreviewSpeaker::User => {
            let mut style = Style::fg(
                if palette.light {
                    Color::DarkGray
                } else {
                    Color::Gray
                },
            );
            style.italic = true;
            style
        },
        TranscriptPreviewSpeaker::Assistant => Style::fg(
            if palette.light {
                Color::Gray
            } else {
                Color::DarkGray
            },
        ),
    }
}

pub open spec fn optional_lines(lines: Option<&Vec<Line>>) -> Option<Seq<Line>> {
    match lines {
        Some(lines) => Some(lines@),
        None => None,
    }
}

pub fn render_transcript_content_lines(
    palette: Palette,
    line: &TranscriptPreviewLine,
    laid_out: Option<&Vec<Line>>,
) -> (r: Vec<Line>)
    ensures
        lines_view(r@) == content_lines(palette, *line, optional_lines(laid_out)),
{
    let style = conversation_style(palette, line.speaker);
    let mut r: Vec<Line> = Vec::new();
    match laid_out {
        Some(lines) => {
            let ghost all = content_lines(palette, *line, Some(lines@));
            let mut i: usize = 0;
            while i < lines.len()
                invariant
                    i <= lines.len(),
                    style == palette.conversation(line.speaker),
                    all == content_lines(palette, *line, Some(lines@)),
                    lines_view(r@) == all.take(i as int),
                decreases lines.len() - i,
            {
                r.push(conversation_content_line(&lines[i], style));
                proof {
                    assert(all.take(i + 1) =~= all.take(i as int).push(all[i as int]));
                }
                i += 1;
            }
            proof {
                assert(all.take(all.len() as int) =~= all);
            }
        },
        None => {
            let plain = Line::one(Span::from_text(line.text.as_str(), Style::plain()));
            r.push(conversation_content_line(&plain, style));
            proof {
                assert(lines_view(r@) =~= content_lines(palette, *line, None));
            }
        },
    }
    r
}

/// The layout of a conversation of `count` lines holds for `width`.
pub open spec fn layout_fits(layout: Option<PreviewLayout>, count: nat, width: int) -> bool {
    layout is Some && layout->0.width == width && layout->0.content@.len() == count
}

/// The lines laid out for line `at` of a conversation, where the layout holds.
pub open spec fn laid_out_line(
    layout: Option<PreviewLayout>,
    count: nat,
    width: int,
    at: int,
) -> Option<Seq<Line>> {
    if layout_fits(layout, count, width) {
        Some(layout->0.content@[at]@)
    } else {
        None
    }
}

/// The screen lines of the first `count` lines of a conversation.
pub open spec fn conversation_to(
    palette: Palette,
    lines: Seq<TranscriptPreviewLine>,
    layout: Option<PreviewLayout>,
    width: int,
    count: nat,
) -> Seq<LineView>
    decreases count,
{
    if count == 0 {
        Seq::empty()
    } else {
        conversation_to(palette, lines, layout, width, (count - 1) as nat) + content_lines(
            palette,
            lines[count - 1],
            laid_out_line(layout, lines.len(), width, count - 1),
        )
    }
}

/// The lines behind a connector, which turns at the last of them.
pub open spec fn connected(lines: Seq<LineView>) -> Seq<LineView> {
    Seq::new(
        lines.len(),
        |i: int|
            prefixed(
                if i + 1 == lines.len() {
                    "  └ "@
                } else {
                    "  │ "@
                },
                lines[i],
            ),
    )
}

/// The newest lines of a conversation under an expanded session.
pub open spec fn conversation_lines(
    palette: Palette,
    lines: Seq<TranscriptPreviewLine>,
    layout: Option<PreviewLayout>,
    width: int,
) -> Seq<LineView> {
    if lines.len() == 0 {
        seq![
            line_of(
                seq![
                    span_of("  └ "@, dim_style()),
                    span_of("No transcript preview available"@, dim_italic_style()),
                ],
            ),
        ]
    } else {
        connected(conversation_to(palette, lines, layout, width, lines.len()))
    }
}

pub fn render_conversation_preview_lines(
    palette: Palette,
    lines: &Vec<TranscriptPreviewLine>,
    layout: Option<&PreviewLayout>,
    width: u16,
) -> (r: Vec<Line>)
    ensures
        lines_view(r@) == conversation_lines(
            palette,
            lines@,
            deref_optional(layout),
            width as int,
        ),
{
    let mut r: Vec<Line> = Vec::new();
    if lines.len() == 0 {
        r.push(
            Line::two(
                Span::from_text("  └ ", Style::dim()),
                Span::from_text("No transcript preview available", Style::dim_italic()),
            ),
        );
        proof {
            assert(lines_view(r@) =~= conversation_lines(
                palette,
                lines@,
                deref_optional(layout),
                width as int,
            ));
        }
        return r;
    }
    let fits = match layout {
        Some(layout) => layout.width == width && layout.content.len() == lines.len(),
        None => false,
    };
    let mut rendered: Vec<Line> = Vec::new();
    let mut i: usize = 0;
    while i < lines.len()
        invariant
            i <= lines.len(),
            fits == layout_fits(deref_optional(layout), lines@.len(), width as int),
            lines_view(rendered@) == conversation_to(
                palette,
                lines@,
                deref_optional(layout),
                width as int,
                i as nat,
            ),
        decreases lines.len() - i,
    {
        let laid_out: Option<&Vec<Line>> = match layout {
            Some(layout) => if fits {
                Some(&layout.content[i])
            } else {
                None
            },
            None => None,
        };
        let mut content = render_transcript_content_lines(palette, &lines[i], laid_out);
        rendered.append(&mut content);
        i += 1;
    }
    let ghost all = connected(lines_view(rendered@));
    let mut k: usize = 0;
    while k < rendered.len()
        invariant
            k <= rendered.len(),
            all == connected(lines_view(rendered@)),
            lines_view(r@) == all.take(k as int),
        decreases rendered.len() - k,
    {
        let prefix = if k == rendered.len() - 1 {
            "  └ "
        } else {
            "  │ "
        };
        let line = copy_line(&rendered[k]);
        r.push(prefix_transcript_line(prefix, line));
        proof {
            assert(all.take(k + 1) =~= all.take(k as int).push(all[k as int]));
        }
        k += 1;
    }
    proof {
        assert(all.take(all.len() as int) =~= all);
    }
    r
}

/// What is known of a session's conversation.
pub open spec fn preview_of(state: PickerState, row: Row) -> Option<TranscriptPreviewState> {
    match row.thread_id {
        Some(thread_id) => state.transcript_previews@.get(thread_id.bits),
        None => None,
    }
}

pub open spec fn failure_style() -> Style {
    Style { italic: true, ..fg_style(Color::Red) }
}

/// The details of an expanded session and the newest lines of its conversation.
pub open spec fn expanded_lines(row: Row, state: PickerState, width: int) -> Seq<LineView> {
    session_details(row, time_reference(state), width) + (match preview_of(state, row) {
        Some(TranscriptPreviewState::Loading) => seq![
            line_of(
                seq![
                    span_of("  │ "@, dim_style()),
                    span_of("Loading recent transcript..."@, dim_italic_style()),
                ],
            ),
        ],
        Some(TranscriptPreviewState::Failed) => seq![
            line_of(
                seq![
                    span_of("  │ "@, dim_style()),
                    span_of("Could not load transcript preview"@, failure_style()),
                ],
            ),
        ],
        Some(TranscriptPreviewState::Loaded(lines)) => conversation_lines(
            state.palette,
            lines@,
            state.preview_layouts@.get(row.thread_id->0.bits),
            width,
        ),
        None => Seq::empty(),
    })
}

pub fn render_transcript_preview_lines(row: &Row, state: &PickerState, width: u16) -> (r: Vec<Line>)
    ensures
        lines_view(r@) == expanded_lines(*row, *state, width as int),
{
    broadcast use vstd::std_specs::hash::group_hash_axioms;

    let mut details = render_expanded_session_details(row, state, width);
    let ghost before = lines_view(details@);
    let thread_id = match row.thread_id {
        Some(thread_id) => thread_id,
        None => {
            proof {
                assert(before + Seq::<LineView>::empty() =~= before);
            }
            return details;
        },
    };
    let found = state.transcript_previews.get(&thread_id.bits);
    proof {
        assert(deref_optional(found) == preview_of(*state, *row));
    }
    match found {
        Some(TranscriptPreviewState::Loading) => {
            details.push(
                Line::two(
                    Span::from_text("  │ ", Style::dim()),
                    Span::from_text("Loading recent transcript...", Style::dim_italic()),
                ),
            );
            proof {
                assert(lines_view(details@) =~= expanded_lines(*row, *state, width as int));
            }
        },
        Some(TranscriptPreviewState::Failed) => {
            let mut style = Style::fg(Color::Red);
            style.italic = true;
            proof {
                assert(style == failure_style());
            }
            details.push(
                Line::two(
                    Span::from_text("  │ ", Style::dim()),
                    Span::from_text("Could not load transcript preview", style),
                ),
            );
            proof {
                assert(lines_view(details@) =~= expanded_lines(*row, *state, width as int));
            }
        },
        Some(TranscriptPreviewState::Loaded(lines)) => {
            let layout = state.preview_layouts.get(&thread_id.bits);
            let mut conversation = render_conversation_preview_lines(
                state.palette,
                lines,
                layout,
                width,
            );
            proof {
                assert(deref_optional(layout) == state.preview_layouts@.get(thread_id.bits));
            }
            details.append(&mut conversation);
            proof {
                assert(lines_view(details@) =~= expanded_lines(*row, *state, width as int));
            }
        },
        None => {
            proof {
                assert(lines_view(details@) =~= expanded_lines(*row, *state, width as int));
            }
        },
    }
    details
}

} // verus!
