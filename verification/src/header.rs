//! The line above the list: the search on the left and the controls on the right.

use vstd::prelude::*;
use vstd::string::StringExecFns;
use crate::metadata::{at_least_zero, larger};
use crate::picker::PickerState;
use crate::protocol::ThreadSortKey;
use crate::session::{SessionFilterMode, SessionPickerAction, SessionStatus, ToolbarControl};
use crate::style::{
    at_most_usize, dim_style, display_width, fg_style, group_line_views,
    lemma_spans_width_nonnegative, line_of, line_width, plain_style, spaces_of, span_of, spans_view,
    spans_width, text_width, Color, Line, LineView, Span, SpanView, Style,
};
use crate::text::{truncate_text, truncated};
use crate::toolbar::{sort_key_label, sort_key_name};

verus! {

broadcast use group_line_views;

pub open spec fn filter_mode_name(filter_mode: SessionFilterMode) -> Seq<char> {
    match filter_mode {
        SessionFilterMode::Cwd => "Cwd"@,
        SessionFilterMode::All => "All"@,
    }
}

pub fn filter_mode_label(filter_mode: SessionFilterMode) -> (r: &'static str)
    ensures
        r@ == filter_mode_name(filter_mode),
{
    match filter_mode {
        SessionFilterMode::Cwd => "Cwd",
        SessionFilterMode::All => "All",
    }
}

/// A value of a control: the one in force in brackets, and colored where the control is focused.
pub open spec fn value_span(label: Seq<char>, active: bool, focused: bool) -> SpanView {
    if active {
        span_of(
            "["@ + label + "]"@,
            if focused {
                fg_style(Color::Magenta)
            } else {
                plain_style()
            },
        )
    } else {
        span_of(" "@ + label + " "@, dim_style())
    }
}

pub fn toolbar_value(label: &'static str, active: bool, focused: bool) -> (r: Span)
    ensures
        r@ == value_span(label@, active, focused),
{
    let mut value = (if active { "[" } else { " " }).to_owned();
    value.append(label);
    value.append(if active { "]" } else { " " });
    let style = if !active {
        Style::dim()
    } else if focused {
        Style::fg(Color::Magenta)
    } else {
        Style::plain()
    };
    Span::new(value, style)
}

pub open spec fn filter_spans(state: PickerState, compact: bool) -> Seq<SpanView> {
    let focused = state.toolbar_focus is Filter;
    if compact || state.filter_cwd is None {
        seq![
            span_of("Filter:"@, dim_style()),
            value_span(filter_mode_name(state.filter_mode), true, focused),
        ]
    } else {
        seq![
            span_of("Filter: "@, dim_style()),
            value_span("Cwd"@, state.filter_mode is Cwd, focused),
            value_span("All"@, state.filter_mode is All, focused),
        ]
    }
}

pub fn filter_control_spans(state: &PickerState, compact: bool) -> (r: Vec<Span>)
    ensures
        spans_view(r@) == filter_spans(*state, compact),
{
    let focused = state.toolbar_focus == ToolbarControl::Filter;
    let mut spans: Vec<Span> = Vec::new();
    if compact || state.filter_cwd.is_none() {
        spans.push(Span::from_text("Filter:", Style::dim()));
        spans.push(toolbar_value(filter_mode_label(state.filter_mode), true, focused));
    } else {
        spans.push(Span::from_text("Filter: ", Style::dim()));
        spans.push(
            toolbar_value(
                filter_mode_label(SessionFilterMode::Cwd),
                state.filter_mode == SessionFilterMode::Cwd,
                focused,
            ),
        );
        spans.push(
            toolbar_value(
                filter_mode_label(SessionFilterMode::All),
                state.filter_mode == SessionFilterMode::All,
                focused,
            ),
        );
    }
    proof {
        assert(spans_view(spans@) =~= filter_spans(*state, compact));
    }
    spans
}

pub open spec fn sort_spans(state: PickerState, compact: bool) -> Seq<SpanView> {
    let focused = state.toolbar_focus is Sort;
    if compact {
        seq![
            span_of("Sort:"@, dim_style()),
            value_span(sort_key_name(state.sort_key), true, focused),
        ]
    } else {
        seq![
            span_of("Sort: "@, dim_style()),
            value_span("Updated"@, state.sort_key is UpdatedAt, focused),
            value_span("Created"@, state.sort_key is CreatedAt, focused),
        ]
    }
}

pub fn sort_control_spans(state: &PickerState, compact: bool) -> (r: Vec<Span>)
    ensures
        spans_view(r@) == sort_spans(*state, compact),
{
    let focused = state.toolbar_focus == ToolbarControl::Sort;
    let mut spans: Vec<Span> = Vec::new();
    if compact {
        spans.push(Span::from_text("Sort:", Style::dim()));
        spans.push(toolbar_value(sort_key_label(state.sort_key), true, focused));
    } else {
        spans.push(Span::from_text("Sort: ", Style::dim()));
        spans.push(
            toolbar_value(
                sort_key_label(ThreadSortKey::UpdatedAt),
                state.sort_key == ThreadSortKey::UpdatedAt,
                focused,
            ),
        );
        spans.push(
            toolbar_value(
                sort_key_label(ThreadSortKey::CreatedAt),
                state.sort_key == ThreadSortKey::CreatedAt,
                focused,
            ),
        );
    }
    proof {
        assert(spans_view(spans@) =~= sort_spans(*state, compact));
    }
    spans
}

/// The control for the status of the sessions. Only where these are resumed is there one.
pub open spec fn status_spans(state: PickerState, compact: bool) -> Seq<SpanView> {
    let focused = state.toolbar_focus is Status;
    if compact {
        seq![
            value_span(
                if state.status is Active {
                    "Active"@
                } else {
                    "Archived"@
                },
                true,
                focused,
            ),
        ]
    } else {
        seq![
            span_of("Status: "@, dim_style()),
            value_span("Active"@, state.status is Active, focused),
            value_span("Archived"@, state.status is Archived, focused),
        ]
    }
}

fn status_control_spans(state: &PickerState, compact: bool) -> (r: Vec<Span>)
    ensures
        spans_view(r@) == status_spans(*state, compact),
{
    let focused = state.toolbar_focus == ToolbarControl::Status;
    let active = state.status == SessionStatus::Active;
    let mut spans: Vec<Span> = Vec::new();
    if compact {
        spans.push(toolbar_value(if active { "Active" } else { "Archived" }, true, focused));
    } else {
        spans.push(Span::from_text("Status: ", Style::dim()));
        spans.push(toolbar_value("Active", active, focused));
        spans.push(toolbar_value("Archived", !active, focused));
    }
    proof {
        assert(spans_view(spans@) =~= status_spans(*state, compact));
    }
    spans
}

/// The controls, in a long and a compact form. The dashboard shows how it groups sessions.
pub open spec fn toolbar_spans(state: PickerState, compact: bool) -> Seq<SpanView> {
    let separator = span_of(
        if compact && state.action is Resume {
            " "@
        } else {
            "   "@
        },
        dim_style(),
    );
    if state.is_dashboard() {
        seq![
            span_of("Group: "@, dim_style()),
            value_span(state.dashboard_group_mode.name(), true, false),
        ]
    } else {
        filter_spans(state, compact) + seq![separator] + (if state.action is Resume {
            status_spans(state, compact) + seq![separator]
        } else {
            Seq::empty()
        }) + sort_spans(state, compact)
    }
}

pub fn toolbar_line(state: &PickerState, compact: bool) -> (r: Line)
    ensures
        r@ == line_of(toolbar_spans(*state, compact)),
{
    if state.is_agents_dashboard() {
        return Line::two(
            Span::from_text("Group: ", Style::dim()),
            toolbar_value(state.dashboard_group_mode.label(), true, false),
        );
    }
    let resume = state.action == SessionPickerAction::Resume;
    let separator = if compact && resume {
        " "
    } else {
        "   "
    };
    let mut spans = filter_control_spans(state, compact);
    spans.push(Span::from_text(separator, Style::dim()));
    if resume {
        let mut status = status_control_spans(state, compact);
        spans.append(&mut status);
        spans.push(Span::from_text(separator, Style::dim()));
    }
    let mut sort = sort_control_spans(state, compact);
    spans.append(&mut sort);
    proof {
        assert(spans_view(spans@) =~= toolbar_spans(*state, compact));
    }
    Line::from_spans(spans)
}

/// What stands on the left: an invitation to search, or the query.
pub open spec fn search_span(state: PickerState) -> SpanView {
    if state.is_dashboard() && !state.dashboard_search_active {
        span_of("Ctrl+F search sessions"@, dim_style())
    } else if state.query@.len() == 0 {
        span_of("Type to search"@, dim_style())
    } else {
        span_of("Search: "@ + state.query@, plain_style())
    }
}

fn make_search_span(state: &PickerState) -> (r: Span)
    ensures
        r@ == search_span(*state),
{
    if state.is_agents_dashboard() && !state.dashboard_search_active {
        return Span::from_text("Ctrl+F search sessions", Style::dim());
    }
    if state.query.as_str().is_empty() {
        return Span::from_text("Type to search", Style::dim());
    }
    let mut text = "Search: ".to_owned();
    text.append(state.query.as_str());
    Span::new(text, Style::plain())
}

/// A number of columns, as a terminal counts them.
pub open spec fn columns(width: int) -> int {
    at_most_usize(width) % 65536
}

/// The controls in the form that fits beside the search.
pub open spec fn fitting_toolbar(state: PickerState, width: int) -> Seq<SpanView> {
    let search_width = display_width(search_span(state).content);
    if at_most_usize(search_width + at_most_usize(spans_width(toolbar_spans(state, false))))
        > at_least_zero(width - 2) {
        toolbar_spans(state, true)
    } else {
        toolbar_spans(state, false)
    }
}

/// The columns between the search and the controls, at least two.
pub open spec fn spacer_width(state: PickerState, width: int) -> int {
    let search_width = display_width(search_span(state).content);
    let toolbar_width = at_most_usize(spans_width(fitting_toolbar(state, width)));
    larger(at_least_zero(width - columns(search_width + toolbar_width)), 2)
}

/// The columns left for the search.
pub open spec fn search_room(state: PickerState, width: int) -> int {
    let toolbar_width = spans_width(fitting_toolbar(state, width));
    at_least_zero(at_least_zero(width - columns(toolbar_width)) - spacer_width(state, width))
}

/// The line above the list. An error takes the place of everything else.
pub open spec fn search_line_view(state: PickerState, width: int) -> LineView {
    match state.inline_error {
        Some(error) => line_of(seq![span_of(error@, fg_style(Color::Red))]),
        None => {
            let search = search_span(state);
            let room = search_room(state, width);
            let shown = if display_width(search.content) > room {
                span_of(
                    truncated(search.content, room as nat),
                    if state.query@.len() == 0 {
                        dim_style()
                    } else {
                        plain_style()
                    },
                )
            } else {
                search
            };
            line_of(
                seq![shown, spaces_of(spacer_width(state, width) as nat, plain_style())]
                    + fitting_toolbar(state, width),
            )
        },
    }
}

/// The low 16 bits of a number of columns.
pub fn count_columns(width: usize) -> (r: u16)
    ensures
        r == width as int % 65536,
{
    (width % 65536) as u16
}

pub fn search_line(state: &PickerState, width: u16) -> (r: Line)
    ensures
        r@ == search_line_view(*state, width as int),
{
    if let Some(error) = &state.inline_error {
        return Line::one(Span::from_text(error.as_str(), Style::fg(Color::Red)));
    }
    let search = make_search_span(state);
    let search_width: usize = text_width(search.content.as_str());
    let mut toolbar = toolbar_line(state, false);
    if search_width.saturating_add(line_width(&toolbar)) > width.saturating_sub(2) as usize {
        toolbar = toolbar_line(state, true);
    }
    let toolbar_width: usize = line_width(&toolbar);
    let left: u16 = width.saturating_sub(
        count_columns(search_width.saturating_add(toolbar_width)),
    );
    let spacer: u16 = if left < 2 {
        2
    } else {
        left
    };
    let room: u16 = width.saturating_sub(count_columns(toolbar_width)).saturating_sub(spacer);
    proof {
        lemma_spans_width_nonnegative(toolbar@.spans);
    }
    let shown = if search_width > room as usize {
        let cut = truncate_text(search.content.as_str(), room as usize);
        if state.query.as_str().is_empty() {
            Span::new(cut, Style::dim())
        } else {
            Span::new(cut, Style::plain())
        }
    } else {
        search
    };
    let mut spans: Vec<Span> = Vec::new();
    spans.push(shown);
    spans.push(Span::spaces(spacer as usize, Style::plain()));
    let mut rest = toolbar.spans;
    spans.append(&mut rest);
    proof {
        assert(spans_view(spans@) =~= search_line_view(*state, width as int).spans);
    }
    Line::from_spans(spans)
}

} // verus!
