//! What the picker promises of what it shows: titles, states, dates, headings, hints and progress.

use vstd::prelude::*;
use crate::dashboard::DashboardStatus;
use crate::draw::{DrawView, Rect};
use crate::frame::{
    dashboard_lines_to, empty_text, frame_ops, list_ops, overlay_ops, rows_drawn, title_view,
};
use crate::header::{search_line_view, search_span, toolbar_spans};
use crate::hints::{cancel_labels, first_hints, second_hints, HintView};
use crate::layout::PickerAreas;
use crate::metadata::{footer_line_to, footer_line_view, packed_to, PartView};
use crate::picker::PickerState;
use crate::progress::{
    first_narrower, footer_progress, position_of, progress_labels, scroll_progress, total_text,
    ScrollProgress,
};
use crate::render_card::{
    backed, card_head, card_metadata, card_subtitle, column_text, comfortable_lines, dense_spans,
    filled, row_date, row_marker, row_style, session_lines, shows_cwd, title_line,
};
use crate::render_row::{
    last_answer, marker_text, status_column, status_style, with_background,
};
use crate::render_session::{conversation_to, expanded_lines, session_details, time_reference};
use crate::row::Row;
use crate::scroll::{group_label, is_expanded_at, starts_group};
use crate::session::{TranscriptPreviewLine, TranscriptPreviewState};
use crate::style::{LineView, SpanView, Style};
use crate::text::{decimal, truncated};
use crate::time::relative_time_text;

verus! {

/// One of the spans of a line is `text`.
pub open spec fn says(line: LineView, text: Seq<char>) -> bool {
    exists|i: int| 0 <= i < line.spans.len() && (#[trigger] line.spans[i]).content == text
}

/// The states are told apart by their labels.
pub proof fn lemma_states_are_told_apart(a: DashboardStatus, b: DashboardStatus)
    ensures
        a.name() == b.name() <==> a == b,
        DashboardStatus::NeedsInput.name() == "Needs Input"@,
        DashboardStatus::Working.name() == "Working"@,
        DashboardStatus::Idle.name() == "Idle"@,
        DashboardStatus::Done.name() == "Done"@,
        a != b ==> status_style(a) != status_style(b),
{
    reveal_strlit("Needs Input");
    reveal_strlit("Working");
    reveal_strlit("Idle");
    reveal_strlit("Done");
    assert("Idle"@[0] != "Done"@[0]);
    assert("Needs Input"@.len() == 11);
    assert("Working"@.len() == 7);
}

/// A session shows the time by which the list is sorted: that of its start where it is sorted by
/// that, else that of its last activity; both as they were when the listing was loaded.
pub proof fn lemma_row_shows_the_time_it_is_sorted_by(state: PickerState, row: Row)
    ensures
        state.sort_key is CreatedAt && state.relative_time_reference is Some ==> row_date(
            state,
            row,
        ) == relative_time_text(state.relative_time_reference->0, row.created_at),
        state.sort_key is UpdatedAt && state.relative_time_reference is Some && row.updated_at
            is Some ==> row_date(state, row) == relative_time_text(
            state.relative_time_reference->0,
            row.updated_at,
        ),
        state.sort_key is UpdatedAt && state.relative_time_reference is Some && row.updated_at
            is None ==> row_date(state, row) == relative_time_text(
            state.relative_time_reference->0,
            row.created_at,
        ),
        state.relative_time_reference is None && state.sort_key is CreatedAt ==> row_date(
            state,
            row,
        ) == relative_time_text(state.current_time, row.created_at),
{
}

proof fn lemma_backed_line_says(line: LineView, style: Style, width: int, text: Seq<char>)
    requires
        says(line, text),
    ensures
        says(with_background(line, style, width), text),
{
    let i = choose|i: int| 0 <= i < line.spans.len() && (#[trigger] line.spans[i]).content == text;
    assert(with_background(line, style, width).spans[i].content == text);
}

proof fn lemma_backed_says(lines: Seq<LineView>, style: Option<Style>, width: int, text: Seq<char>)
    requires
        lines.len() > 0,
        says(lines[0], text),
    ensures
        backed(lines, style, width).len() == lines.len(),
        says(backed(lines, style, width)[0], text),
{
    if let Some(style) = style {
        lemma_backed_line_says(lines[0], style, width, text);
        assert(backed(lines, Some(style), width)[0] == with_background(lines[0], style, width));
    }
}

/// A card begins with the marker of the selected row and the title of its session; on the dashboard
/// its state stands between them. The title is whole where there is room for it.
pub proof fn lemma_card_shows_its_title(
    row: Row,
    state: PickerState,
    is_selected: bool,
    is_expanded: bool,
    is_zebra: bool,
    width: int,
)
    requires
        state.density is Comfortable,
        row.title().len() + 2 + (if state.launch_context is AgentsDashboard {
            14int
        } else {
            0int
        }) <= width,
    ensures
        session_lines(row, state, is_selected, is_expanded, is_zebra, width).len() > 0,
        says(
            session_lines(row, state, is_selected, is_expanded, is_zebra, width)[0],
            row.title(),
        ),
        is_selected && !is_expanded ==> says(
            session_lines(row, state, is_selected, is_expanded, is_zebra, width)[0],
            "❯ "@,
        ),
        is_selected && is_expanded ==> says(
            session_lines(row, state, is_selected, is_expanded, is_zebra, width)[0],
            "⌄ "@,
        ),
        !is_selected ==> says(
            session_lines(row, state, is_selected, is_expanded, is_zebra, width)[0],
            "  "@,
        ),
        state.launch_context is AgentsDashboard ==> says(
            session_lines(row, state, is_selected, is_expanded, is_zebra, width)[0],
            status_column(row.dashboard_status).content,
        ),
{
    let title = title_line(row, state, is_selected, is_expanded, width);
    let head = card_head(row, state, is_selected, is_expanded, width);
    let style = row_style(state.palette, state.is_dashboard(), is_selected, is_zebra);
    assert(head[0] == title);
    assert(title.spans[0].content == marker_text(is_selected, is_expanded));
    let marker = marker_text(is_selected, is_expanded);
    assert(says(title, marker));
    lemma_backed_says(head, style, width, marker);
    if state.is_dashboard() {
        assert(title.spans[1] == status_column(row.dashboard_status));
        assert(title.spans[2].content == row.title());
        assert(says(title, status_column(row.dashboard_status).content));
        lemma_backed_says(head, style, width, status_column(row.dashboard_status).content);
    } else {
        assert(title.spans[1].content == row.title());
    }
    assert(says(title, row.title()));
    lemma_backed_says(head, style, width, row.title());
    let all = comfortable_lines(row, state, is_selected, is_expanded, is_zebra, width);
    assert(all[0] == backed(head, style, width)[0]);
}

proof fn lemma_filled_says(spans: Seq<SpanView>, style: Option<Style>, width: int, i: int)
    requires
        0 <= i < spans.len(),
    ensures
        says(filled(spans, style, width), spans[i].content),
{
    assert(filled(spans, style, width).spans[i].content == spans[i].content);
}

/// A dense line shows the marker, the time and the title of its session; on the dashboard its state
/// too.
pub proof fn lemma_dense_line_shows_its_title(
    row: Row,
    state: PickerState,
    is_selected: bool,
    is_expanded: bool,
    is_zebra: bool,
    width: int,
)
    requires
        state.density is Dense,
    ensures
        ({
            let lines = session_lines(row, state, is_selected, is_expanded, is_zebra, width);
            &&& lines.len() > 0
            &&& !is_expanded ==> lines.len() == 1
            &&& says(lines[0], marker_text(is_selected, is_expanded))
            &&& says(lines[0], column_text(row_date(state, row), 12))
            &&& state.launch_context is AgentsDashboard ==> says(
                lines[0],
                status_column(row.dashboard_status).content,
            )
            &&& exists|room: int|
                0 <= room && (state.launch_context is AgentsDashboard ==> says(
                    lines[0],
                    truncated(row.title(), room as nat),
                )) && (!(state.launch_context is AgentsDashboard) ==> says(
                    lines[0],
                    #[trigger] column_text(row.title(), room),
                ))
        }),
{
    let marker = row_marker(state, is_selected, is_expanded);
    let spans = dense_spans(
        state.palette,
        marker,
        row_date(state, row),
        row.title(),
        row.dashboard_status,
        state.is_dashboard(),
        is_selected,
        width,
    );
    let style = row_style(state.palette, state.is_dashboard(), is_selected, is_zebra);
    lemma_filled_says(spans, style, width, 0);
    lemma_filled_says(spans, style, width, 1);
    lemma_filled_says(spans, style, width, 2);
    let available = crate::metadata::at_least_zero(
        width - crate::style::display_width(marker.content),
    );
    let status: int = if state.is_dashboard() {
        14
    } else {
        0
    };
    let room = crate::metadata::at_least_zero(
        crate::metadata::at_least_zero(available - status) - 12,
    );
    if state.is_dashboard() {
        lemma_filled_says(spans, style, width, 3);
        assert(spans[3].content == truncated(row.title(), room as nat));
    } else {
        assert(spans[2].content == column_text(row.title(), room));
    }
    let lines = session_lines(row, state, is_selected, is_expanded, is_zebra, width);
    assert(lines[0] == filled(spans, style, width));
    assert(room >= 0 && column_text(row.title(), room) == column_text(row.title(), room));
}

/// Only the selected row is marked.
pub proof fn lemma_only_the_selected_row_is_marked(is_expanded: bool, other: bool)
    ensures
        marker_text(true, is_expanded) != marker_text(false, other),
        marker_text(false, is_expanded) == "  "@,
        marker_text(true, true) != marker_text(true, false),
{
    reveal_strlit("  ");
    reveal_strlit("❯ ");
    reveal_strlit("⌄ ");
    assert("  "@[0] == ' ');
    assert("❯ "@[0] == '❯');
    assert("⌄ "@[0] == '⌄');
}

/// The dashboard's column tells a session's state by its label, and by nothing where there is none.
pub proof fn lemma_column_tells_the_state(status: DashboardStatus)
    ensures
        status_column(Some(status)).content.len() >= status.name().len() + 2,
        status_column(Some(status)).content[0] == '[',
        status_column(Some(status)).content.subrange(1, 1 + status.name().len() as int)
            == status.name(),
        forall|i: int|
            0 <= i < status_column(None).content.len() ==> #[trigger] status_column(
                None,
            ).content[i] == ' ',
{
    reveal_strlit("[");
    reveal_strlit("]");
    assert(status_column(Some(status)).content.subrange(1, 1 + status.name().len() as int)
        =~= status.name());
}

/// What a dashboard card says of the recent activity of a session: that it failed, where it did;
/// else the last line of the assistant or, where there is none, the last line.
pub proof fn lemma_card_tells_the_last_answer(
    row: Row,
    state: PickerState,
    lines: Vec<TranscriptPreviewLine>,
    at: int,
)
    requires
        row.thread_id is Some,
    ensures
        state.dashboard_system_errors@.contains(row.thread_id->0.bits) ==> card_subtitle(
            row,
            state,
        ) is Some && card_subtitle(row, state)->0.content
            == "Thread stopped because of a system error"@,
        !state.dashboard_system_errors@.contains(row.thread_id->0.bits)
            && state.transcript_previews@.contains_key(row.thread_id->0.bits)
            && state.transcript_previews@[row.thread_id->0.bits]
            == TranscriptPreviewState::Loaded(lines) && 0 <= at < lines@.len()
            && lines@[at].speaker is Assistant && (forall|i: int|
            at < i < lines@.len() ==> (#[trigger] lines@[i]).speaker is User) ==> card_subtitle(
            row,
            state,
        ) is Some && card_subtitle(row, state)->0.content == lines@[at].text@,
        !state.dashboard_system_errors@.contains(row.thread_id->0.bits)
            && state.transcript_previews@.contains_key(row.thread_id->0.bits)
            && state.transcript_previews@[row.thread_id->0.bits]
            == TranscriptPreviewState::Loaded(lines) && lines@.len() > 0 && (forall|i: int|
            0 <= i < lines@.len() ==> (#[trigger] lines@[i]).speaker is User) ==> card_subtitle(
            row,
            state,
        ) is Some && card_subtitle(row, state)->0.content == lines@.last().text@,
{
    if 0 <= at < lines@.len() && lines@[at].speaker is Assistant && (forall|i: int|
        at < i < lines@.len() ==> (#[trigger] lines@[i]).speaker is User) {
        lemma_last_answer(lines@, at);
    }
    if forall|i: int| 0 <= i < lines@.len() ==> (#[trigger] lines@[i]).speaker is User {
        lemma_no_answer(lines@);
    }
}

proof fn lemma_last_answer(lines: Seq<TranscriptPreviewLine>, at: int)
    requires
        0 <= at < lines.len(),
        lines[at].speaker is Assistant,
        forall|i: int| at < i < lines.len() ==> (#[trigger] lines[i]).speaker is User,
    ensures
        last_answer(lines) == Some(lines[at].text@),
    decreases lines.len(),
{
    if at < lines.len() - 1 {
        assert(lines[lines.len() - 1].speaker is User);
        let less = lines.drop_last();
        assert forall|i: int| at < i < less.len() implies (#[trigger] less[i]).speaker is User by {
            assert(lines[i].speaker is User);
        }
        lemma_last_answer(less, at);
    }
}

proof fn lemma_no_answer(lines: Seq<TranscriptPreviewLine>)
    requires
        forall|i: int| 0 <= i < lines.len() ==> (#[trigger] lines[i]).speaker is User,
    ensures
        last_answer(lines) is None,
    decreases lines.len(),
{
    if lines.len() > 0 {
        assert(lines[lines.len() - 1].speaker is User);
        let less = lines.drop_last();
        assert forall|i: int| 0 <= i < less.len() implies (#[trigger] less[i]).speaker is User by {
            assert(lines[i].speaker is User);
        }
        lemma_no_answer(less);
    }
}

/// Rows of one group stand under one heading: a heading stands above the first row in view, and
/// above each row whose group is not that of the row above it. Groups are named by the directory or
/// by the state.
pub proof fn lemma_headings_stand_where_groups_begin(state: PickerState, index: int, first: int)
    requires
        0 <= first <= index < state.filtered_rows@.len(),
    ensures
        !(state.launch_context is AgentsDashboard) ==> !starts_group(state, index, first),
        state.launch_context is AgentsDashboard && index == first ==> starts_group(
            state,
            index,
            first,
        ),
        state.launch_context is AgentsDashboard && index > first && state.dashboard_group_mode
            is Project && state.filtered_rows@[index].cwd is Some && state.filtered_rows@[index
            - 1].cwd is Some ==> (starts_group(state, index, first)
            <==> state.filtered_rows@[index].cwd->0.label@ != state.filtered_rows@[index
            - 1].cwd->0.label@),
        state.launch_context is AgentsDashboard && index > first && state.dashboard_group_mode
            is Status && state.filtered_rows@[index].dashboard_status is Some
            && state.filtered_rows@[index - 1].dashboard_status is Some ==> (starts_group(
            state,
            index,
            first,
        ) <==> state.filtered_rows@[index].dashboard_status != state.filtered_rows@[index
            - 1].dashboard_status),
        state.dashboard_group_mode is Project && state.filtered_rows@[index].cwd is Some
            ==> group_label(state.dashboard_group_mode, state.filtered_rows@[index])
            == state.filtered_rows@[index].cwd->0.label@,
        state.dashboard_group_mode is Status && state.filtered_rows@[index].dashboard_status is Some
            ==> group_label(state.dashboard_group_mode, state.filtered_rows@[index])
            == state.filtered_rows@[index].dashboard_status->0.name(),
{
    if index > first && state.filtered_rows@[index].dashboard_status is Some
        && state.filtered_rows@[index - 1].dashboard_status is Some {
        lemma_states_are_told_apart(
            state.filtered_rows@[index].dashboard_status->0,
            state.filtered_rows@[index - 1].dashboard_status->0,
        );
    }
}

/// An empty list tells why it is empty: something is searched for or loading, nothing was found, or
/// there is nothing.
pub proof fn lemma_empty_list_tells_why(state: PickerState)
    ensures
        state.query@.len() > 0 && state.search_state is Active ==> empty_text(state)
            == "Searching…"@,
        state.query@.len() > 0 && state.search_state is Idle && state.pagination.pending is None
            && !state.pagination.reached_scan_cap ==> empty_text(state)
            == "No results for your search"@,
        state.query@.len() > 0 && state.search_state is Idle && state.pagination.pending is None
            && state.pagination.reached_scan_cap ==> empty_text(state) == "Search scanned first "@
            + decimal(state.pagination.num_scanned_files as nat) + " sessions; more may exist"@,
        state.query@.len() == 0 && state.pagination.pending is None ==> empty_text(state)
            == "No sessions yet"@,
        state.query@.len() == 0 && state.pagination.pending is Some && state.all_rows@.len() == 0
            && state.pagination.num_scanned_files == 0 ==> empty_text(state)
            == "Loading sessions…"@,
        state.query@.len() == 0 && state.pagination.pending is Some && state.all_rows@.len() > 0
            ==> empty_text(state) == "Loading older sessions…"@,
{
}

/// A list with rows is drawn from its area's top: first the hint that there is more above, where it
/// is scrolled, then the rows; an empty one shows one line.
pub proof fn lemma_list_is_drawn_from_the_top(state: PickerState, area: Rect)
    requires
        area.height > 0,
    ensures
        list_ops(state, area).len() > 0,
        list_ops(state, area)[0] == (DrawView::Clear { area }),
        state.filtered_rows@.len() == 0 ==> list_ops(state, area).len() == 2 && (list_ops(
            state,
            area,
        )[1] matches DrawView::Text { line, .. } && says(line, empty_text(state))),
        state.filtered_rows@.len() > 0 && !(state.launch_context is AgentsDashboard)
            && state.scroll_top > 0 ==> list_ops(state, area).len() > 1 && (list_ops(
            state,
            area,
        )[1] matches DrawView::Text { line, .. } && says(line, "↑ more"@)),
{
    if state.filtered_rows@.len() == 0 {
        let line = crate::frame::empty_line_view(state);
        assert(line.spans[0].content == empty_text(state));
    } else if !state.is_dashboard() && state.scroll_top > 0 {
        let line = crate::frame::more_line_view("↑ more"@);
        assert(line.spans[0].content == "↑ more"@);
    }
}

/// The first row that is drawn in a picker is the one that it is scrolled to, with its first line at
/// the top; the selected row is drawn as selected.
pub proof fn lemma_rows_are_drawn_from_the_first_in_view(
    state: PickerState,
    area: Rect,
    bottom: int,
    index: int,
    y: int,
)
    requires
        0 <= index < state.filtered_rows@.len(),
        y < bottom,
    ensures
        ({
            let lines = session_lines(
                state.filtered_rows@[index],
                state,
                index == state.selected,
                is_expanded_at(state, index),
                index % 2 == 0,
                area.width as int,
            );
            lines.len() > 0 ==> {
                &&& rows_drawn(state, area, bottom, index, y).0.len() > 0
                &&& rows_drawn(state, area, bottom, index, y).0[0] == crate::draw::text_at(
                    area.x as int,
                    y,
                    area.width as int,
                    lines[0],
                )
            }
        }),
{
}

/// The search line shows the query; an error takes its place.
pub proof fn lemma_search_line_shows_query_or_error(state: PickerState, width: int)
    ensures
        state.inline_error matches Some(error) ==> says(search_line_view(state, width), error@),
        !(state.launch_context is AgentsDashboard) && state.query@.len() > 0 ==> search_span(
            state,
        ).content == "Search: "@ + state.query@,
        !(state.launch_context is AgentsDashboard) && state.query@.len() == 0 ==> search_span(
            state,
        ).content == "Type to search"@,
        state.launch_context is AgentsDashboard && state.dashboard_search_active
            && state.query@.len() > 0 ==> search_span(state).content == "Search: "@
            + state.query@,
{
    if let Some(error) = state.inline_error {
        assert(search_line_view(state, width).spans[0].content == error@);
    }
}

/// Some span of a line of spans is `text`.
pub open spec fn shown_in(spans: Seq<SpanView>, text: Seq<char>) -> bool {
    exists|i: int| 0 <= i < spans.len() && (#[trigger] spans[i]).content == text
}

/// The toolbar shows in brackets what is in force: the filter, the order and, where sessions are
/// resumed, their status; on the dashboard the grouping.
pub proof fn lemma_toolbar_shows_what_is_in_force(state: PickerState)
    requires
        state.filter_cwd is Some,
    ensures
        state.launch_context is AgentsDashboard && state.dashboard_group_mode is Project
            ==> shown_in(toolbar_spans(state, false), "["@ + "project"@ + "]"@),
        state.launch_context is AgentsDashboard && state.dashboard_group_mode is Status
            ==> shown_in(toolbar_spans(state, false), "["@ + "status"@ + "]"@),
        !(state.launch_context is AgentsDashboard) && state.filter_mode is Cwd ==> shown_in(
            toolbar_spans(state, false),
            "["@ + "Cwd"@ + "]"@,
        ) && shown_in(toolbar_spans(state, false), " "@ + "All"@ + " "@),
        !(state.launch_context is AgentsDashboard) && state.filter_mode is All ==> shown_in(
            toolbar_spans(state, false),
            "["@ + "All"@ + "]"@,
        ) && shown_in(toolbar_spans(state, false), " "@ + "Cwd"@ + " "@),
        !(state.launch_context is AgentsDashboard) && state.sort_key is UpdatedAt ==> shown_in(
            toolbar_spans(state, false),
            "["@ + "Updated"@ + "]"@,
        ),
        !(state.launch_context is AgentsDashboard) && state.sort_key is CreatedAt ==> shown_in(
            toolbar_spans(state, false),
            "["@ + "Created"@ + "]"@,
        ),
        !(state.launch_context is AgentsDashboard) && state.action is Resume && state.status
            is Active ==> shown_in(toolbar_spans(state, false), "["@ + "Active"@ + "]"@),
        !(state.launch_context is AgentsDashboard) && state.action is Resume && state.status
            is Archived ==> shown_in(toolbar_spans(state, false), "["@ + "Archived"@ + "]"@),
{
    let spans = toolbar_spans(state, false);
    if state.is_dashboard() {
        assert(spans[1].content == "["@ + state.dashboard_group_mode.name() + "]"@);
    } else {
        let filter = crate::header::filter_spans(state, false);
        let status = crate::header::status_spans(state, false);
        let sort = crate::header::sort_spans(state, false);
        assert(spans[1] == filter[1]);
        assert(spans[2] == filter[2]);
        if state.action is Resume {
            assert(spans[5] == status[1]);
            assert(spans[6] == status[2]);
            assert(spans[9] == sort[1]);
            assert(spans[10] == sort[2]);
        } else {
            assert(spans[5] == sort[1]);
            assert(spans[6] == sort[2]);
        }
    }
}

/// The title tells what the picker is for.
pub proof fn lemma_title_tells_what_is_chosen(state: PickerState)
    ensures
        state.launch_context is AgentsDashboard ==> says(title_view(state), "Codex Agents"@),
        !(state.launch_context is AgentsDashboard) && state.action is Resume ==> says(
            title_view(state),
            "Resume a previous session"@,
        ),
        !(state.launch_context is AgentsDashboard) && state.action is Fork ==> says(
            title_view(state),
            "Fork a previous session"@,
        ),
{
    assert(says(title_view(state), title_view(state).spans[0].content));
}

/// Progress is at its end where everything fits or the last row is in view, and else it is the share
/// of the lines above the view in those that can be scrolled past: never more than all of them.
pub proof fn lemma_progress_is_a_share(state: PickerState, height: int)
    requires
        height >= 0,
        height <= usize::MAX,
    ensures
        state.filtered_rows@.len() == 0 ==> scroll_progress(state, height)
            == ScrollProgress::Percent(100),
        scroll_progress(state, height) matches ScrollProgress::Share { skipped, max }
            ==> skipped <= max && max > 0,
        scroll_progress(state, height) is Share && state.scroll_top == 0 ==> scroll_progress(
            state,
            height,
        )->skipped == 0,
        state.pagination.pending is None ==> footer_progress(state, height) == scroll_progress(
            state,
            height,
        ),
        state.pagination.pending is Some && state.frozen_footer_percent is Some
            ==> footer_progress(state, height) == state.frozen_footer_percent->0,
{
    let last = state.filtered_rows@.len() - 1;
    if last >= 0 {
        crate::scroll::lemma_rows_height_nonnegative(state, 0, (last + 1) as nat);
        if state.scroll_top > 0 {
            crate::scroll::lemma_rows_height_nonnegative(state, 0, state.scroll_top as nat);
        }
    }
}

/// The footer counts from one, and counts the rows that are listed.
pub proof fn lemma_position_counts_from_one(state: PickerState)
    ensures
        state.selected < state.filtered_rows@.len() ==> position_of(state) == state.selected + 1,
        state.filtered_rows@.len() == 0 ==> position_of(state) == 0,
        state.pagination.pending is None ==> total_text(state) == decimal(
            state.filtered_rows@.len(),
        ),
        state.pagination.pending is Some ==> total_text(state) == decimal(
            state.filtered_rows@.len(),
        ) + "…"@,
{
    reveal_strlit("");
    assert(state.filtered_rows@.len() == state.filtered_rows.len());
    assert(decimal(state.filtered_rows@.len()) + ""@ =~= decimal(state.filtered_rows@.len()));
}

/// The directory is shown where sessions of all directories are listed, and they are not grouped by
/// it.
pub proof fn lemma_directory_is_shown_where_it_tells_something(state: PickerState)
    ensures
        state.filter_mode is Cwd ==> !shows_cwd(state),
        state.launch_context is AgentsDashboard && state.dashboard_group_mode is Project
            ==> !shows_cwd(state),
        state.filter_mode is All && !(state.launch_context is AgentsDashboard) ==> shows_cwd(state),
        state.filter_mode is All && state.dashboard_group_mode is Status ==> shows_cwd(state),
{
}

/// The hint for the key that cancels tells what it does: it clears a query, leaves for the session
/// that the picker was opened over, or starts a new one.
pub proof fn lemma_cancel_hint_tells_what_it_does(state: PickerState)
    ensures
        state.query@.len() > 0 ==> cancel_labels(state).0 == "clear search"@,
        state.query@.len() == 0 && state.launch_context is ExistingSession ==> cancel_labels(
            state,
        ).0 == "exit"@,
        state.query@.len() == 0 && !(state.launch_context is ExistingSession) ==> cancel_labels(
            state,
        ).0 == "start new"@,
        state.status is Archived ==> crate::hints::accept_label(state) == "restore"@,
        state.status is Active && state.action is Resume ==> crate::hints::accept_label(state)
            == "resume"@,
        state.status is Active && state.action is Fork ==> crate::hints::accept_label(state)
            == "fork"@,
{
}

/// The details of an expanded session tell its name and identifier, when it started and was last
/// active, its directory and its branch, in this order; its conversation follows.
pub proof fn lemma_details_tell_of_the_session(row: Row, state: PickerState, width: int)
    requires
        state.relative_time_reference is Some,
    ensures
        expanded_lines(row, state, width).len() >= 7,
        row.thread_name is Some && row.thread_id is None && row.thread_name->0@.len() + 16 <= width
            ==> says(expanded_lines(row, state, width)[0], row.thread_name->0@),
        row.thread_name is None && row.thread_id is Some && crate::ids::uuid_text(
            row.thread_id->0.bits,
        ).len() + 16 <= width ==> says(
            expanded_lines(row, state, width)[0],
            crate::ids::uuid_text(row.thread_id->0.bits),
        ),
        row.cwd is Some && row.cwd->0.label@.len() + 16 <= width ==> says(
            expanded_lines(row, state, width)[3],
            row.cwd->0.label@,
        ),
        row.git_branch is Some && row.git_branch->0@.len() + 18 <= width ==> says(
            expanded_lines(row, state, width)[4],
            "\u{e0a0} "@ + row.git_branch->0@,
        ),
        says(expanded_lines(row, state, width)[6], "Conversation:"@),
        row.thread_id is Some && state.transcript_previews@.contains_key(row.thread_id->0.bits)
            && state.transcript_previews@[row.thread_id->0.bits] is Failed ==> expanded_lines(
            row,
            state,
            width,
        ).len() == 8 && says(
            expanded_lines(row, state, width)[7],
            "Could not load transcript preview"@,
        ),
        row.thread_id is Some && state.transcript_previews@.contains_key(row.thread_id->0.bits)
            && state.transcript_previews@[row.thread_id->0.bits] is Loading ==> expanded_lines(
            row,
            state,
            width,
        ).len() == 8 && says(
            expanded_lines(row, state, width)[7],
            "Loading recent transcript..."@,
        ),
{
    let lines = expanded_lines(row, state, width);
    let details = session_details(row, time_reference(state), width);
    assert(details.len() == 7);
    assert(lines[0] == details[0] && lines[3] == details[3] && lines[4] == details[4]
        && lines[6] == details[6]);
    assert(says(lines[0], lines[0].spans[3].content));
    assert(says(lines[3], lines[3].spans[3].content));
    assert(says(lines[4], lines[4].spans[3].content));
    assert(says(lines[6], lines[6].spans[1].content));
    reveal_strlit("\u{e0a0} ");
    if row.thread_id is Some && state.transcript_previews@.contains_key(row.thread_id->0.bits) {
        if state.transcript_previews@[row.thread_id->0.bits] is Failed {
            assert(lines[7].spans[1].content == "Could not load transcript preview"@);
        }
        if state.transcript_previews@[row.thread_id->0.bits] is Loading {
            assert(lines[7].spans[1].content == "Loading recent transcript..."@);
        }
    }
}

/// A frame shows the title and the search first; the dashboard's composer stands at the bottom and
/// has the focus unless sessions are searched.
pub proof fn lemma_frame_shows_title_search_and_bottom(
    state: PickerState,
    areas: PickerAreas,
    percent: int,
)
    ensures
        frame_ops(state, areas, percent).len() >= 2,
        frame_ops(state, areas, percent)[0] matches DrawView::Text { line, .. } && line
            == title_view(state),
        frame_ops(state, areas, percent)[1] is Text,
        state.dashboard_composer is Some ==> frame_ops(state, areas, percent).last() == (
        DrawView::Composer { area: areas.bottom, focused: !state.dashboard_search_active }),
{
}

/// The position is told in the longest form that is narrower than the footer, with as many numbers
/// as there is room for.
pub proof fn lemma_longest_label_that_fits_is_shown(
    labels: Seq<Seq<char>>,
    width: int,
    at: int,
)
    requires
        0 <= at <= labels.len(),
    ensures
        first_narrower(labels, width, 0).len() > 0 ==> labels.contains(
            first_narrower(labels, width, 0),
        ) && crate::style::display_width(first_narrower(labels, width, 0)) < width,
        at < labels.len() && crate::style::display_width(labels[at]) < width && (forall|i: int|
            0 <= i < at ==> crate::style::display_width(#[trigger] labels[i]) >= width)
            ==> first_narrower(labels, width, 0) == labels[at],
{
    lemma_first_narrower(labels, width, 0);
    if at < labels.len() && crate::style::display_width(labels[at]) < width && (forall|i: int|
        0 <= i < at ==> crate::style::display_width(#[trigger] labels[i]) >= width) {
        lemma_narrower_at(labels, width, 0, at);
    }
}

proof fn lemma_first_narrower(labels: Seq<Seq<char>>, width: int, at: int)
    requires
        0 <= at <= labels.len(),
    ensures
        first_narrower(labels, width, at).len() > 0 ==> labels.contains(
            first_narrower(labels, width, at),
        ) && crate::style::display_width(first_narrower(labels, width, at)) < width,
    decreases labels.len() - at,
{
    if at < labels.len() {
        lemma_first_narrower(labels, width, at + 1);
        assert(labels.contains(labels[at]));
    }
}

proof fn lemma_narrower_at(labels: Seq<Seq<char>>, width: int, from: int, at: int)
    requires
        0 <= from <= at < labels.len(),
        crate::style::display_width(labels[at]) < width,
        forall|i: int|
            from <= i < at ==> crate::style::display_width(#[trigger] labels[i]) >= width,
    ensures
        first_narrower(labels, width, from) == labels[at],
    decreases at - from,
{
    if from < at {
        assert(crate::style::display_width(labels[from]) >= width);
        lemma_narrower_at(labels, width, from + 1, at);
    }
}

/// The footer's label names the selected row's number, the number of rows and the percentage; the
/// shortest names the percentage alone.
pub proof fn lemma_footer_names_position_and_progress(state: PickerState, percent: int)
    requires
        state.selected < state.filtered_rows@.len(),
        state.pagination.pending is None,
        percent >= 0,
    ensures
        progress_labels(state, percent).len() == 3,
        progress_labels(state, percent)[0] == " "@ + decimal((state.selected + 1) as nat) + " / "@
            + decimal(state.filtered_rows@.len()) + " · "@ + (decimal(percent as nat) + "% "@),
        progress_labels(state, percent)[1] == " "@ + decimal((state.selected + 1) as nat) + "/"@
            + decimal(state.filtered_rows@.len()) + " · "@ + (decimal(percent as nat) + "% "@),
        progress_labels(state, percent)[2] == " "@ + (decimal(percent as nat) + "% "@),
{
    lemma_position_counts_from_one(state);
}

/// Some hint names `key` with `label`.
pub open spec fn hints_at(hints: Seq<HintView>, key: Seq<char>, label: Seq<char>) -> bool {
    exists|i: int|
        0 <= i < hints.len() && (#[trigger] hints[i]).key == key && hints[i].wide_label == label
}

/// The footer hints at the archive exactly where a session can be archived.
pub proof fn lemma_archive_is_hinted_at_where_it_works(state: PickerState)
    ensures
        state.filtered_rows@.len() > 0 && state.action is Resume && state.status is Active
            && state.archive_state is Idle ==> hints_at(first_hints(state), "ctrl+a"@, "archive"@),
        state.launch_context is AgentsDashboard ==> hints_at(
            first_hints(state),
            "ctrl+g"@,
            "change grouping"@,
        ),
        !(state.launch_context is AgentsDashboard) ==> hints_at(
            first_hints(state),
            "tab"@,
            "focus sort/filter"@,
        ),
{
    let keymap = state.list_keymap;
    let hints = first_hints(state);
    let accept: int = if keymap.hint(crate::keys::ListAction::Accept) is Some {
        1
    } else {
        0
    };
    let archive: int = if state.filtered_rows@.len() > 0 && crate::archive::can_archive(state) {
        1
    } else {
        0
    };
    let cancel: int = if keymap.hint(crate::keys::ListAction::Cancel) is Some {
        1
    } else {
        0
    };
    if archive == 1 {
        assert(hints[accept].key == "ctrl+a"@);
    }
    if state.is_dashboard() {
        assert(hints[accept + archive + cancel].key == "ctrl+g"@);
    } else {
        assert(hints[accept + archive + cancel + 1].key == "tab"@);
    }
}

proof fn lemma_packed_start(parts: Seq<PartView>, count: nat, width: int, cwd_width: int)
    requires
        0 < count <= parts.len(),
    ensures
        packed_to(parts, count, width, cwd_width).0.len() == 0 ==> packed_to(
            parts,
            count,
            width,
            cwd_width,
        ).1 == 0,
        0 <= packed_to(parts, count, width, cwd_width).1 < count,
        packed_to(parts, count, width, cwd_width).0.len() > 0 ==> exists|end: int|
            0 < end <= count && packed_to(parts, count, width, cwd_width).0[0]
                == #[trigger] footer_line_view(parts.subrange(0, end), width, cwd_width),
    decreases count,
{
    if count > 1 {
        lemma_packed_start(parts, (count - 1) as nat, width, cwd_width);
        let (lines, start) = packed_to(parts, (count - 1) as nat, width, cwd_width);
        if lines.len() == 0 {
            if packed_to(parts, count, width, cwd_width).0.len() > 0 {
                assert(packed_to(parts, count, width, cwd_width).0[0] == footer_line_view(
                    parts.subrange(0, count - 1),
                    width,
                    cwd_width,
                ));
            }
        } else {
            let end = choose|end: int|
                0 < end <= count - 1 && lines[0] == #[trigger] footer_line_view(
                    parts.subrange(0, end),
                    width,
                    cwd_width,
                );
            assert(packed_to(parts, count, width, cwd_width).0[0] == footer_line_view(
                parts.subrange(0, end),
                width,
                cwd_width,
            ));
        }
    } else {
        reveal_with_fuel(packed_to, 2);
    }
}

proof fn lemma_footer_line_says_first(
    parts: Seq<PartView>,
    count: nat,
    width: int,
    cwd_width: int,
    date: Seq<char>,
)
    requires
        0 < count <= parts.len(),
        parts[0] == PartView::Date(date),
        date.len() + 2 <= width,
    ensures
        footer_line_to(parts, count, width, cwd_width).0.len() > 1,
        footer_line_to(parts, count, width, cwd_width).0[1].content == date,
    decreases count,
{
    if count == 1 {
        reveal_with_fuel(footer_line_to, 2);
    } else {
        lemma_footer_line_says_first(parts, (count - 1) as nat, width, cwd_width, date);
    }
}

/// The metadata of a card begins with the time that the list is sorted by.
pub proof fn lemma_card_metadata_begins_with_the_time(row: Row, state: PickerState, width: int)
    requires
        row_date(state, row).len() + 2 < width,
    ensures
        card_metadata(row, state, width).len() > 0,
        says(card_metadata(row, state, width)[0], row_date(state, row)),
{
    let date = row_date(state, row);
    let cwd = match row.cwd {
        Some(cwd) => Some(cwd.label@),
        None => None,
    };
    let branch = crate::text::optional_view(row.git_branch);
    let parts = if shows_cwd(state) {
        seq![PartView::Date(date), PartView::Cwd(cwd), PartView::Branch(branch)]
    } else {
        seq![PartView::Date(date), PartView::Branch(branch)]
    };
    let cwd_width = crate::metadata::cwd_column(width);
    let lines = card_metadata(row, state, width);
    if crate::metadata::parts_width(parts, cwd_width) <= width {
        lemma_footer_line_says_first(parts, parts.len(), width, cwd_width, date);
        assert(lines[0].spans[1].content == date);
    } else {
        lemma_packed_start(parts, parts.len(), width, cwd_width);
        let (packed, start) = packed_to(parts, parts.len(), width, cwd_width);
        if packed.len() > 0 {
            let end = choose|end: int|
                0 < end <= parts.len() && packed[0] == #[trigger] footer_line_view(
                    parts.subrange(0, end),
                    width,
                    cwd_width,
                );
            let some = parts.subrange(0, end);
            lemma_footer_line_says_first(some, some.len(), width, cwd_width, date);
            assert(lines[0] == packed[0]);
            assert(lines[0].spans[1].content == date);
        } else {
            let some = parts.subrange(0, parts.len() as int);
            lemma_footer_line_says_first(some, some.len(), width, cwd_width, date);
            assert(lines[0] == footer_line_view(some, width, cwd_width));
            assert(lines[0].spans[1].content == date);
        }
    }
}

/// A list behind which there is another page hints at it in its last line, and tells where that is
/// loading.
pub proof fn lemma_more_pages_are_hinted_at(state: PickerState, area: Rect)
    requires
        area.height > 0,
        state.filtered_rows@.len() > 0,
        state.pagination.next_cursor is Some,
    ensures
        state.pagination.pending is None ==> (list_ops(state, area).last() matches DrawView::Text {
            line,
            ..
        } && says(line, "↓ more"@)),
        state.pagination.pending is Some ==> (list_ops(state, area).last() matches DrawView::Text {
            line,
            ..
        } && says(line, "↓ loading more"@)),
{
    let label = if state.pagination.pending is Some {
        "↓ loading more"@
    } else {
        "↓ more"@
    };
    assert(crate::frame::more_line_view(label).spans[0].content == label);
    let hint = crate::frame::more_below_ops(state, area);
    assert(hint.len() == 1);
    assert(list_ops(state, area).last() == hint[0]);
}

/// The rows of a dashboard stand one below the other, each group under its heading: behind the rows
/// above it, a row that begins a group shows the group's name, and another one begins with its own
/// first line.
pub proof fn lemma_dashboard_rows_stand_under_their_headings(
    state: PickerState,
    width: int,
    index: int,
)
    requires
        0 <= index < state.filtered_rows@.len(),
    ensures
        ({
            let above = dashboard_lines_to(state, width, index as nat);
            let lines = dashboard_lines_to(state, width, (index + 1) as nat);
            let own = session_lines(
                state.filtered_rows@[index],
                state,
                index == state.selected,
                is_expanded_at(state, index),
                false,
                width,
            );
            &&& lines.len() >= above.len() + own.len()
            &&& lines.take(above.len() as int) == above
            &&& starts_group(state, index, 0) ==> says(
                lines[above.len() as int],
                group_label(state.dashboard_group_mode, state.filtered_rows@[index]),
            )
            &&& starts_group(state, index, 0) && own.len() > 0 ==> lines[above.len() as int + 1]
                == own[0]
            &&& !starts_group(state, index, 0) && own.len() > 0 ==> lines[above.len() as int]
                == own[0]
        }),
{
    let above = dashboard_lines_to(state, width, index as nat);
    let lines = dashboard_lines_to(state, width, (index + 1) as nat);
    assert(lines.take(above.len() as int) =~= above);
    let label = group_label(state.dashboard_group_mode, state.filtered_rows@[index]);
    assert(crate::frame::heading_line(label).spans[0].content == label);
    if starts_group(state, index, 0) {
        assert(lines[above.len() as int] == crate::frame::heading_line(label));
    }
}

proof fn lemma_conversation_line(
    palette: crate::render_row::Palette,
    lines: Seq<TranscriptPreviewLine>,
    width: int,
    count: nat,
    i: int,
)
    requires
        0 <= i < count <= lines.len(),
    ensures
        conversation_to(palette, lines, None, width, count).len() == count,
        conversation_to(palette, lines, None, width, count)[i].spans.len() == 1,
        conversation_to(palette, lines, None, width, count)[i].spans[0].content == lines[i].text@,
    decreases count,
{
    if i < count - 1 {
        lemma_conversation_line(palette, lines, width, (count - 1) as nat, i);
    } else if count > 1 {
        lemma_conversation_line(palette, lines, width, (count - 1) as nat, 0);
    } else {
        reveal_with_fuel(conversation_to, 2);
    }
}

/// The conversation of an expanded session is told below its details, one line below the other in
/// their order; a conversation without lines is told to be missing.
pub proof fn lemma_expanded_session_tells_its_conversation(
    row: Row,
    state: PickerState,
    width: int,
    lines: Vec<TranscriptPreviewLine>,
    i: int,
)
    requires
        row.thread_id is Some,
        state.transcript_previews@.contains_key(row.thread_id->0.bits),
        state.transcript_previews@[row.thread_id->0.bits] == TranscriptPreviewState::Loaded(lines),
        !state.preview_layouts@.contains_key(row.thread_id->0.bits),
    ensures
        lines@.len() == 0 ==> expanded_lines(row, state, width).len() == 8 && says(
            expanded_lines(row, state, width)[7],
            "No transcript preview available"@,
        ),
        0 <= i < lines@.len() ==> expanded_lines(row, state, width).len() == 7 + lines@.len()
            && says(expanded_lines(row, state, width)[7 + i], lines@[i].text@),
{
    let shown = expanded_lines(row, state, width);
    let details = session_details(row, time_reference(state), width);
    assert(details.len() == 7);
    if lines@.len() == 0 {
        assert(shown[7].spans[1].content == "No transcript preview available"@);
    }
    if 0 <= i < lines@.len() {
        lemma_conversation_line(state.palette, lines@, width, lines@.len(), i);
        let told = conversation_to(state.palette, lines@, None, width, lines@.len());
        assert(shown[7 + i].spans[1] == told[i].spans[0]);
    }
}

/// The compact toolbar shows what is in force too.
pub proof fn lemma_compact_toolbar_shows_what_is_in_force(state: PickerState)
    requires
        !(state.launch_context is AgentsDashboard),
    ensures
        state.filter_mode is Cwd ==> shown_in(toolbar_spans(state, true), "["@ + "Cwd"@ + "]"@),
        state.filter_mode is All ==> shown_in(toolbar_spans(state, true), "["@ + "All"@ + "]"@),
        state.sort_key is UpdatedAt ==> shown_in(
            toolbar_spans(state, true),
            "["@ + "Updated"@ + "]"@,
        ),
        state.sort_key is CreatedAt ==> shown_in(
            toolbar_spans(state, true),
            "["@ + "Created"@ + "]"@,
        ),
        state.action is Resume && state.status is Active ==> shown_in(
            toolbar_spans(state, true),
            "["@ + "Active"@ + "]"@,
        ),
        state.action is Resume && state.status is Archived ==> shown_in(
            toolbar_spans(state, true),
            "["@ + "Archived"@ + "]"@,
        ),
{
    let spans = toolbar_spans(state, true);
    let filter = crate::header::filter_spans(state, true);
    let status = crate::header::status_spans(state, true);
    let sort = crate::header::sort_spans(state, true);
    assert(spans[1] == filter[1]);
    if state.action is Resume {
        assert(spans[3] == status[0]);
        assert(spans[6] == sort[1]);
    } else {
        assert(spans[4] == sort[1]);
    }
}

/// The search line begins with the query where there is room for it.
pub proof fn lemma_search_line_begins_with_the_query(state: PickerState, width: int)
    requires
        state.inline_error is None,
        !(state.launch_context is AgentsDashboard),
        state.query@.len() > 0,
        crate::style::display_width("Search: "@ + state.query@) <= crate::header::search_room(
            state,
            width,
        ),
    ensures
        search_line_view(state, width).spans.len() > 2,
        search_line_view(state, width).spans[0].content == "Search: "@ + state.query@,
{
}

/// The second line of hints names the other density, the transcript and the details.
pub proof fn lemma_second_hints_name_the_other_density(state: PickerState)
    ensures
        state.density is Comfortable ==> hints_at(second_hints(state), "ctrl+o"@, "dense view"@),
        state.density is Dense ==> hints_at(second_hints(state), "ctrl+o"@, "comfortable view"@),
        hints_at(second_hints(state), "ctrl+t"@, "transcript"@),
        hints_at(second_hints(state), "ctrl+e"@, "expand"@),
{
    let hints = second_hints(state);
    assert(hints[0].key == "ctrl+o"@);
    assert(hints[1].key == "ctrl+t"@);
    assert(hints[2].key == "ctrl+e"@);
}

/// While a transcript is waited for, a message in the middle of the list says so.
pub proof fn lemma_wait_for_a_transcript_is_shown(
    palette: crate::render_row::Palette,
    area: Rect,
)
    requires
        area.width > 0,
        area.height > 0,
    ensures
        overlay_ops(palette, area).len() == 2,
        overlay_ops(palette, area)[0] is Fill,
        overlay_ops(palette, area)[1] matches DrawView::Text { line, .. } && exists|room: nat|
            says(line, #[trigger] truncated("Loading transcript…"@, room)),
{
    let message = "Loading transcript…"@;
    let overlay = crate::frame::overlay_area(
        area,
        crate::header::columns(crate::style::display_width(message) as int),
    );
    let op = crate::frame::message_op(overlay, message);
    assert(overlay_ops(palette, area)[1] == op);
    let shown = truncated(message, overlay.width as nat);
    let line = crate::style::line_of(
        seq![crate::style::span_of(shown, crate::style::bold_style())],
    );
    assert(line.spans[0].content == shown);
    assert(says(line, shown));
}

/// The selected row of a dashboard stands out by its text; rows of a picker by their background.
pub proof fn lemma_selected_row_stands_out(state: PickerState, is_zebra: bool)
    ensures
        state.palette.row_text(true) != state.palette.row_text(false),
        row_style(state.palette, false, true, is_zebra) is Some,
        row_style(state.palette, false, true, is_zebra)->0.bg == state.palette.selected_background,
        row_style(state.palette, false, false, true) is Some,
        row_style(state.palette, false, false, true)->0.bg == state.palette.zebra_background,
        row_style(state.palette, false, false, false) is None,
        row_style(state.palette, true, true, is_zebra) is None,
{
}

/// What the user wrote and what the assistant answered are told apart by their styles.
pub proof fn lemma_speakers_are_told_apart(palette: crate::render_row::Palette)
    ensures
        palette.conversation(crate::session::TranscriptPreviewSpeaker::User).italic,
        !palette.conversation(crate::session::TranscriptPreviewSpeaker::Assistant).italic,
{
}

/// The details tell when a session started and when it was last active: how long ago, and the date
/// and time.
pub proof fn lemma_details_tell_the_times(row: Row, state: PickerState, width: int)
    requires
        state.relative_time_reference is Some,
        width >= 200,
    ensures
        row.created_at is None ==> says(expanded_lines(row, state, width)[1], "-"@),
        row.created_at matches Some(ts) ==> ({
            let text = crate::time::relative_words(
                crate::time::elapsed(state.relative_time_reference->0, ts),
            ) + " · "@ + crate::time::date_time_text(ts.seconds(), ts.nanos());
            text.len() + 16 <= width ==> says(expanded_lines(row, state, width)[1], text)
        }),
        row.updated_at matches Some(ts) ==> ({
            let text = crate::time::relative_words(
                crate::time::elapsed(state.relative_time_reference->0, ts),
            ) + " · "@ + crate::time::date_time_text(ts.seconds(), ts.nanos());
            text.len() + 16 <= width ==> says(expanded_lines(row, state, width)[2], text)
        }),
{
    let lines = expanded_lines(row, state, width);
    let details = session_details(row, time_reference(state), width);
    assert(details.len() == 7);
    assert(lines[1] == details[1] && lines[2] == details[2]);
    reveal_strlit("-");
    assert(says(lines[1], lines[1].spans[3].content));
    assert(says(lines[2], lines[2].spans[3].content));
}

} // verus!
