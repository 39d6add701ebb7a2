//! A session in the list: as a card of several lines or as one dense line.

use vstd::prelude::*;
use crate::dashboard::{DashboardGroupMode, DashboardStatus};
use crate::metadata::{
    at_least_zero, footer_lines, render_footer_lines, sort_date, SESSION_META_DATE_WIDTH,
};
use crate::picker::PickerState;
use crate::protocol::ThreadSortKey;
use crate::render_row::{
    apply_dashboard_text_style, apply_session_row_background, dashboard_row_text_style,
    dashboard_selection_marker, dashboard_status_column, dashboard_subtitle, deref_optional,
    dense_selected_style, dense_zebra_style, marker_span, optional_span, row_styled, rows_styled,
    selected_session_style, selection_marker, status_column, style_lines, subtitle_of,
    with_backgrounds, Palette, DASHBOARD_STATUS_COLUMN_WIDTH,
};
use crate::render_session::{
    expanded_lines, preview_of, reference_time, render_transcript_preview_lines, time_reference,
};
use crate::row::Row;
use crate::session::{SessionFilterMode, SessionListDensity};
use crate::style::{
    dim_style, display_width, fg_style, group_line_views, line_of, line_width, lines_view,
    plain_style, span_of, spaces_of, spans_view, spans_width, text_width, Color, Line, LineView,
    Span, SpanView, Style,
};
use crate::text::{optional_view, repeat_char, repeated, truncate_text, truncated};
use crate::time::{format_relative_time, relative_time_text};
use vstd::string::StringExecFns;

verus! {

broadcast use group_line_views;

/// The columns of a dense line.
#[derive(Clone, Copy, Debug, PartialEq, Eq, Structural)]
pub struct DenseColumns {
    pub date_width: usize,
    pub title_width: usize,
}

/// The title gets what the date leaves.
pub fn dense_columns(width: usize) -> (r: DenseColumns)
    ensures
        r.date_width == SESSION_META_DATE_WIDTH,
        r.title_width == at_least_zero(width - SESSION_META_DATE_WIDTH),
{
    DenseColumns {
        date_width: SESSION_META_DATE_WIDTH,
        title_width: width.saturating_sub(SESSION_META_DATE_WIDTH),
    }
}

/// The text in a column of `width`, cut so that a space stays behind it.
pub open spec fn column_text(text: Seq<char>, width: int) -> Seq<char> {
    let cut = truncated(text, at_least_zero(width - 1) as nat);
    cut + repeated(' ', at_least_zero(width - display_width(cut)) as nat)
}

pub fn dense_column_text(text: &str, width: usize) -> (r: String)
    ensures
        r@ == column_text(text@, width as int),
{
    let mut cut = truncate_text(text, width.saturating_sub(1));
    let padding: usize = width.saturating_sub(text_width(cut.as_str()));
    cut.append(repeat_char(' ', padding).as_str());
    cut
}

/// What a dense line shows.
pub struct DenseSummaryInput<'a> {
    pub palette: Palette,
    pub marker: Span,
    pub date: &'a str,
    pub title: &'a str,
    pub dashboard_status: Option<DashboardStatus>,
    pub is_dashboard: bool,
    pub is_selected: bool,
    pub is_zebra: bool,
    pub width: u16,
}

/// The spans of a dense line: the marker, the date, on the dashboard the state, and the title.
pub open spec fn dense_spans(
    palette: Palette,
    marker: SpanView,
    date: Seq<char>,
    title: Seq<char>,
    status: Option<DashboardStatus>,
    is_dashboard: bool,
    is_selected: bool,
    width: int,
) -> Seq<SpanView> {
    let available = at_least_zero(width - display_width(marker.content));
    let status_width = if is_dashboard {
        DASHBOARD_STATUS_COLUMN_WIDTH as int
    } else {
        0
    };
    let title_width = at_least_zero(
        at_least_zero(available - status_width) - SESSION_META_DATE_WIDTH,
    );
    if is_dashboard {
        seq![
            marker,
            span_of(
                column_text(date, SESSION_META_DATE_WIDTH as int),
                palette.row_text(is_selected),
            ),
            status_column(status),
            span_of(truncated(title, title_width as nat), palette.row_text(is_selected)),
        ]
    } else {
        seq![
            marker,
            span_of(column_text(date, SESSION_META_DATE_WIDTH as int), dim_style()),
            span_of(
                column_text(title, title_width),
                if is_selected {
                    palette.selected()
                } else {
                    plain_style()
                },
            ),
        ]
    }
}

/// The background of a row outside the dashboard, if it has one.
pub open spec fn row_style(
    palette: Palette,
    dashboard: bool,
    is_selected: bool,
    is_zebra: bool,
) -> Option<Style> {
    if dashboard {
        None
    } else if is_selected {
        Some(palette.selected_row())
    } else if is_zebra {
        Some(palette.row_background(false))
    } else {
        None
    }
}

/// The line in `style`, filled to `width` columns.
pub open spec fn filled(spans: Seq<SpanView>, style: Option<Style>, width: int) -> LineView {
    match style {
        Some(style) => {
            let padding = at_least_zero(width - spans_width(spans));
            LineView {
                spans: if padding > 0 {
                    spans.push(spaces_of(padding as nat, style))
                } else {
                    spans
                },
                style,
            }
        },
        None => line_of(spans),
    }
}

pub fn dense_summary_line(input: DenseSummaryInput) -> (r: Line)
    ensures
        r@ == filled(
            dense_spans(
                input.palette,
                input.marker@,
                input.date@,
                input.title@,
                input.dashboard_status,
                input.is_dashboard,
                input.is_selected,
                input.width as int,
            ),
            row_style(input.palette, input.is_dashboard, input.is_selected, input.is_zebra),
            input.width as int,
        ),
{
    let palette = input.palette;
    let is_dashboard = input.is_dashboard;
    let is_selected = input.is_selected;
    let width: usize = input.width as usize;
    let available: usize = width.saturating_sub(text_width(input.marker.content.as_str()));
    let status_width: usize = if is_dashboard {
        DASHBOARD_STATUS_COLUMN_WIDTH
    } else {
        0
    };
    let columns = dense_columns(available.saturating_sub(status_width));
    let title = if is_dashboard {
        Span::new(
            truncate_text(input.title, columns.title_width),
            dashboard_row_text_style(palette, is_selected),
        )
    } else if is_selected {
        Span::new(
            dense_column_text(input.title, columns.title_width),
            selected_session_style(palette),
        )
    } else {
        Span::new(dense_column_text(input.title, columns.title_width), Style::plain())
    };
    let date = Span::new(
        dense_column_text(input.date, columns.date_width),
        if is_dashboard {
            dashboard_row_text_style(palette, is_selected)
        } else {
            Style::dim()
        },
    );
    let ghost wanted = dense_spans(
        palette,
        input.marker@,
        input.date@,
        input.title@,
        input.dashboard_status,
        is_dashboard,
        is_selected,
        input.width as int,
    );
    let mut spans: Vec<Span> = Vec::new();
    spans.push(input.marker);
    spans.push(date);
    if is_dashboard {
        spans.push(dashboard_status_column(input.dashboard_status));
    }
    spans.push(title);
    proof {
        assert(spans_view(spans@) =~= wanted);
    }
    let mut line = Line::from_spans(spans);
    if !is_dashboard && (is_selected || input.is_zebra) {
        let style = if is_selected {
            dense_selected_style(palette)
        } else {
            dense_zebra_style(palette)
        };
        let padding: usize = width.saturating_sub(line_width(&line));
        if padding > 0 {
            line.spans.push(Span::spaces(padding, style));
        }
        line.style = style;
    }
    line
}

/// The marker of a row.
pub open spec fn row_marker(state: PickerState, is_selected: bool, is_expanded: bool) -> SpanView {
    marker_span(state.palette, state.is_dashboard(), is_selected, is_expanded)
}

fn marker_of(state: &PickerState, is_selected: bool, is_expanded: bool) -> (r: Span)
    ensures
        r@ == row_marker(*state, is_selected, is_expanded),
{
    if state.is_agents_dashboard() {
        dashboard_selection_marker(state.palette, is_selected, is_expanded)
    } else {
        selection_marker(state.palette, is_selected, is_expanded)
    }
}

/// The date of a row by what the list is sorted by.
pub open spec fn row_date(state: PickerState, row: Row) -> Seq<char> {
    sort_date(
        state.sort_key,
        relative_time_text(time_reference(state), row.created_at),
        relative_time_text(time_reference(state), row.last_active()),
    )
}

/// What an expanded row shows below its title.
pub open spec fn row_expansion(
    state: PickerState,
    row: Row,
    is_selected: bool,
    width: int,
) -> Seq<LineView> {
    if state.is_dashboard() {
        rows_styled(state.palette, expanded_lines(row, state, width), is_selected)
    } else {
        expanded_lines(row, state, width)
    }
}

fn expansion_of(state: &PickerState, row: &Row, is_selected: bool, width: u16) -> (r: Vec<Line>)
    ensures
        lines_view(r@) == row_expansion(*state, *row, is_selected, width as int),
{
    let lines = render_transcript_preview_lines(row, state, width);
    if state.is_agents_dashboard() {
        style_lines(state.palette, lines, is_selected)
    } else {
        lines
    }
}

pub open spec fn dense_lines(
    row: Row,
    state: PickerState,
    is_selected: bool,
    is_expanded: bool,
    is_zebra: bool,
    width: int,
) -> Seq<LineView> {
    let summary = filled(
        dense_spans(
            state.palette,
            row_marker(state, is_selected, is_expanded),
            row_date(state, row),
            row.title(),
            row.dashboard_status,
            state.is_dashboard(),
            is_selected,
            width,
        ),
        row_style(state.palette, state.is_dashboard(), is_selected, is_zebra),
        width,
    );
    seq![summary] + (if is_expanded {
        row_expansion(state, row, is_selected, width)
    } else {
        Seq::empty()
    })
}

pub fn render_dense_session_lines(
    row: &Row,
    state: &PickerState,
    is_selected: bool,
    is_expanded: bool,
    is_zebra: bool,
    width: u16,
) -> (r: Vec<Line>)
    ensures
        lines_view(r@) == dense_lines(
            *row,
            *state,
            is_selected,
            is_expanded,
            is_zebra,
            width as int,
        ),
{
    let marker = marker_of(state, is_selected, is_expanded);
    let reference = reference_time(state);
    let created = format_relative_time(reference, row.created_at);
    let updated = format_relative_time(reference, row.last_activity());
    let date = match state.sort_key {
        ThreadSortKey::CreatedAt => created,
        ThreadSortKey::UpdatedAt | ThreadSortKey::RecencyAt | ThreadSortKey::SectionPosition => {
            updated
        },
    };
    let mut lines: Vec<Line> = Vec::new();
    lines.push(
        dense_summary_line(
            DenseSummaryInput {
                palette: state.palette,
                marker,
                date: date.as_str(),
                title: row.display_preview(),
                dashboard_status: row.dashboard_status,
                is_dashboard: state.is_agents_dashboard(),
                is_selected,
                is_zebra,
                width,
            },
        ),
    );
    if is_expanded {
        let mut expansion = expansion_of(state, row, is_selected, width);
        lines.append(&mut expansion);
    }
    proof {
        assert(lines_view(lines@) =~= dense_lines(
            *row,
            *state,
            is_selected,
            is_expanded,
            is_zebra,
            width as int,
        ));
    }
    lines
}

/// The line with the title of a card.
pub open spec fn title_line(
    row: Row,
    state: PickerState,
    is_selected: bool,
    is_expanded: bool,
    width: int,
) -> LineView {
    let dashboard = state.is_dashboard();
    let status_width = if dashboard {
        DASHBOARD_STATUS_COLUMN_WIDTH as int
    } else {
        0
    };
    let title = span_of(
        truncated(row.title(), at_least_zero(at_least_zero(width - 2) - status_width) as nat),
        if dashboard {
            state.palette.row_text(is_selected)
        } else if is_selected {
            state.palette.selected()
        } else {
            plain_style()
        },
    );
    line_of(
        if dashboard {
            seq![
                row_marker(state, is_selected, is_expanded),
                status_column(row.dashboard_status),
                title,
            ]
        } else {
            seq![row_marker(state, is_selected, is_expanded), title]
        },
    )
}

fn render_title_line(
    row: &Row,
    state: &PickerState,
    is_selected: bool,
    is_expanded: bool,
    width: u16,
) -> (r: Line)
    ensures
        r@ == title_line(*row, *state, is_selected, is_expanded, width as int),
{
    let dashboard = state.is_agents_dashboard();
    let status_width: usize = if dashboard {
        DASHBOARD_STATUS_COLUMN_WIDTH
    } else {
        0
    };
    let room: usize = (width as usize).saturating_sub(2).saturating_sub(status_width);
    let style = if dashboard {
        dashboard_row_text_style(state.palette, is_selected)
    } else if is_selected {
        selected_session_style(state.palette)
    } else {
        Style::plain()
    };
    let title = Span::new(truncate_text(row.display_preview(), room), style);
    let mut spans: Vec<Span> = Vec::new();
    spans.push(marker_of(state, is_selected, is_expanded));
    if dashboard {
        spans.push(dashboard_status_column(row.dashboard_status));
    }
    spans.push(title);
    proof {
        assert(spans_view(spans@) =~= title_line(
            *row,
            *state,
            is_selected,
            is_expanded,
            width as int,
        ).spans);
    }
    Line::from_spans(spans)
}

/// What a dashboard card says of a session's recent activity.
pub open spec fn card_subtitle(row: Row, state: PickerState) -> Option<SpanView> {
    if row.thread_id is Some {
        if state.dashboard_system_errors@.contains(row.thread_id->0.bits) {
            Some(span_of("Thread stopped because of a system error"@, fg_style(Color::Red)))
        } else {
            subtitle_of(preview_of(state, row))
        }
    } else {
        None
    }
}

fn subtitle_span(row: &Row, state: &PickerState) -> (r: Option<Span>)
    ensures
        optional_span(r) == card_subtitle(*row, *state),
{
    broadcast use vstd::std_specs::hash::group_hash_axioms;

    let thread_id = match row.thread_id {
        Some(thread_id) => thread_id,
        None => {
            return None;
        },
    };
    if state.dashboard_system_errors.contains(&thread_id.bits) {
        return Some(
            Span::from_text("Thread stopped because of a system error", Style::fg(Color::Red)),
        );
    }
    let found = state.transcript_previews.get(&thread_id.bits);
    proof {
        assert(deref_optional(found) == preview_of(*state, *row));
    }
    dashboard_subtitle(found)
}

/// The directory is shown in the metadata: sessions of all directories are listed, and they are
/// not grouped by it.
pub open spec fn shows_cwd(state: PickerState) -> bool {
    state.filter_mode is All && !(state.is_dashboard() && state.dashboard_group_mode is Project)
}

/// The metadata of a card.
pub open spec fn card_metadata(row: Row, state: PickerState, width: int) -> Seq<LineView> {
    footer_lines(
        row_date(state, row),
        optional_view(row.git_branch),
        match row.cwd {
            Some(cwd) => Some(cwd.label@),
            None => None,
        },
        shows_cwd(state),
        width,
    )
}

fn metadata_of(row: &Row, state: &PickerState, width: u16) -> (r: Vec<Line>)
    ensures
        lines_view(r@) == card_metadata(*row, *state, width as int),
{
    let reference = reference_time(state);
    let created = format_relative_time(reference, row.created_at);
    let updated = format_relative_time(reference, row.last_activity());
    let cwd: Option<&str> = match &row.cwd {
        Some(cwd) => Some(cwd.label.as_str()),
        None => None,
    };
    render_footer_lines(
        state.sort_key,
        created.as_str(),
        updated.as_str(),
        &row.git_branch,
        cwd,
        state.filter_mode == SessionFilterMode::All && !(state.is_agents_dashboard()
            && state.dashboard_group_mode == DashboardGroupMode::Project),
        width,
    )
}

pub open spec fn backed(lines: Seq<LineView>, style: Option<Style>, width: int) -> Seq<LineView> {
    match style {
        Some(style) => with_backgrounds(lines, style, width),
        None => lines,
    }
}

/// The first lines of a card: its title and, on the dashboard, its recent activity.
pub open spec fn card_head(
    row: Row,
    state: PickerState,
    is_selected: bool,
    is_expanded: bool,
    width: int,
) -> Seq<LineView> {
    seq![title_line(row, state, is_selected, is_expanded, width)] + (if state.is_dashboard()
        && !is_expanded && card_subtitle(row, state) is Some {
        seq![
            row_styled(
                state.palette,
                line_of(
                    seq![span_of("  "@, plain_style()), card_subtitle(row, state)->0],
                ),
                is_selected,
            ),
        ]
    } else {
        Seq::empty()
    })
}

/// A session as a card: its title, then its metadata or, where it is expanded, its details.
pub open spec fn comfortable_lines(
    row: Row,
    state: PickerState,
    is_selected: bool,
    is_expanded: bool,
    is_zebra: bool,
    width: int,
) -> Seq<LineView> {
    let style = row_style(state.palette, state.is_dashboard(), is_selected, is_zebra);
    backed(card_head(row, state, is_selected, is_expanded, width), style, width) + (
    if is_expanded {
        row_expansion(state, row, is_selected, width)
    } else if state.is_dashboard() {
        rows_styled(state.palette, card_metadata(row, state, width), is_selected)
    } else {
        backed(card_metadata(row, state, width), style, width)
    })
}

pub fn render_comfortable_session_lines(
    row: &Row,
    state: &PickerState,
    is_selected: bool,
    is_expanded: bool,
    is_zebra: bool,
    width: u16,
) -> (r: Vec<Line>)
    ensures
        lines_view(r@) == comfortable_lines(
            *row,
            *state,
            is_selected,
            is_expanded,
            is_zebra,
            width as int,
        ),
{
    let dashboard = state.is_agents_dashboard();
    let mut lines: Vec<Line> = Vec::new();
    lines.push(render_title_line(row, state, is_selected, is_expanded, width));
    if dashboard && !is_expanded {
        if let Some(subtitle) = subtitle_span(row, state) {
            let line = Line::two(Span::from_text("  ", Style::plain()), subtitle);
            lines.push(apply_dashboard_text_style(state.palette, line, is_selected));
        }
    }
    proof {
        assert(lines_view(lines@) =~= card_head(
            *row,
            *state,
            is_selected,
            is_expanded,
            width as int,
        ));
    }
    let style = if dashboard {
        None
    } else if is_selected {
        Some(dense_selected_style(state.palette))
    } else if is_zebra {
        Some(dense_zebra_style(state.palette))
    } else {
        None
    };
    if let Some(style) = style {
        lines = apply_session_row_background(lines, style, width);
    }
    if is_expanded {
        let mut expansion = expansion_of(state, row, is_selected, width);
        lines.append(&mut expansion);
        return lines;
    }
    let metadata = metadata_of(row, state, width);
    let mut shown = if dashboard {
        style_lines(state.palette, metadata, is_selected)
    } else if let Some(style) = style {
        apply_session_row_background(metadata, style, width)
    } else {
        metadata
    };
    lines.append(&mut shown);
    lines
}

/// The lines of a session in the list.
pub open spec fn session_lines(
    row: Row,
    state: PickerState,
    is_selected: bool,
    is_expanded: bool,
    is_zebra: bool,
    width: int,
) -> Seq<LineView> {
    match state.density {
        SessionListDensity::Comfortable => comfortable_lines(
            row,
            state,
            is_selected,
            is_expanded,
            is_zebra,
            width,
        ),
        SessionListDensity::Dense => dense_lines(
            row,
            state,
            is_selected,
            is_expanded,
            is_zebra,
            width,
        ),
    }
}

pub fn render_session_lines(
    row: &Row,
    state: &PickerState,
    is_selected: bool,
    is_expanded: bool,
    is_zebra: bool,
    width: u16,
) -> (r: Vec<Line>)
    ensures
        lines_view(r@) == session_lines(
            *row,
            *state,
            is_selected,
            is_expanded,
            is_zebra,
            width as int,
        ),
{
    match state.density {
        SessionListDensity::Comfortable => render_comfortable_session_lines(
            row,
            state,
            is_selected,
            is_expanded,
            is_zebra,
            width,
        ),
        SessionListDensity::Dense => render_dense_session_lines(
            row,
            state,
            is_selected,
            is_expanded,
            is_zebra,
            width,
        ),
    }
}

} // verus!
