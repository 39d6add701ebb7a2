//! What the picker promises of scrolling: the view follows the selected row, and no further than it
//! has to.

use vstd::prelude::*;
use crate::layout::{list_margin, list_width};
use crate::picker::PickerState;
use crate::progress::scroll_progress;
use crate::scroll::{
    content_rows, content_rows_of, dashboard_offset, first_row_past, height_between, more_above,
    more_behind, more_below, row_height, rows_height, scroll_target, scrolled_down, selected_end,
    selected_start, shown, viewport,
};
use crate::style::at_most_usize;

verus! {

/// Rows stand one below the other: each adds its own lines and, in a comfortable list, an empty one
/// above it.
pub proof fn lemma_rows_add_up(state: PickerState, first: int, last: int)
    requires
        0 <= first <= last < state.filtered_rows@.len(),
    ensures
        height_between(state, first, first) == row_height(state, first, first),
        first < last && state.density is Dense ==> height_between(state, first, last)
            == height_between(state, first, last - 1) + row_height(state, last, first),
        first < last && state.density is Comfortable ==> height_between(state, first, last)
            == height_between(state, first, last - 1) + 1 + row_height(state, last, first),
{
    reveal_with_fuel(rows_height, 2);
    assert(first + (last - first + 1) as nat - 1 == last);
    if first < last {
        assert((last - first + 1) as nat - 1 == (last - 1 - first + 1) as nat);
    }
}

/// Each hint that there is more takes a line of the view from the rows; one line is always left.
pub proof fn lemma_hints_take_lines_from_the_rows(height: int, above: bool, behind: bool)
    requires
        height >= 3,
    ensures
        content_rows(height, false, false) == height,
        content_rows(height, true, false) == height - 1,
        content_rows(height, false, true) == height - 1,
        content_rows(height, true, true) == height - 2,
        content_rows(0, above, behind) == 1,
        content_rows(1, above, behind) == 1,
{
}

/// There is more above where the view does not begin with the first line, and behind where another
/// page or another row follows the selected one.
pub proof fn lemma_more_is_where_something_is_hidden(state: PickerState, height: int)
    ensures
        !(state.launch_context is AgentsDashboard) ==> (more_above(state) <==> state.scroll_top > 0),
        state.launch_context is AgentsDashboard ==> (more_above(state)
            <==> state.dashboard_scroll_offset > 0),
        state.pagination.next_cursor is Some ==> more_behind(state),
        state.selected + 1 < state.filtered_rows@.len() ==> more_behind(state),
        state.pagination.next_cursor is None && state.selected + 1 >= state.filtered_rows@.len()
            ==> !more_behind(state),
        state.filtered_rows@.len() > 0 && state.pagination.next_cursor is Some ==> more_below(
            state,
            height,
        ),
        state.filtered_rows@.len() == 0 ==> !more_below(state, height),
{
}

/// A selected row above the view moves the view up to it; one that is in view leaves it as it is; one
/// below moves it down.
pub proof fn lemma_view_follows_the_selected_row(state: PickerState)
    requires
        state.selected < state.filtered_rows@.len(),
        !(state.launch_context is AgentsDashboard),
    ensures
        state.selected <= state.scroll_top ==> shown(state).scroll_top == state.selected,
        state.scroll_top <= state.selected && at_most_usize(
            height_between(state, state.scroll_top as int, state.selected as int),
        ) <= content_rows(viewport(state), state.scroll_top > 0, more_behind(state)) ==> shown(
            state,
        ).scroll_top == state.scroll_top,
        state.scroll_top <= shown(state).scroll_top || shown(state).scroll_top == state.selected,
        shown(state).scroll_top <= state.selected,
        shown(state).selected == state.selected,
        shown(state).filtered_rows == state.filtered_rows,
{
    reveal(scroll_target);
    let top = crate::metadata::smaller(state.scroll_top as int, state.selected as int);
    lemma_scrolled_between(state, top);
}

proof fn lemma_scrolled_between(state: PickerState, top: int)
    requires
        0 <= top <= state.selected,
    ensures
        top <= scrolled_down(state, top) <= state.selected,
    decreases state.selected - top,
{
    if top < state.selected {
        lemma_scrolled_between(state, top + 1);
    }
}

/// The view of a dashboard moves only where the selected row is not in it: up to its first line, or
/// down to its last.
pub proof fn lemma_dashboard_view_follows_the_selected_row(state: PickerState)
    requires
        state.selected < state.filtered_rows@.len(),
        state.launch_context is AgentsDashboard,
        state.dashboard_scroll_offset + viewport(state) <= usize::MAX,
    ensures
        ({
            let offset = state.dashboard_scroll_offset as int;
            let room = content_rows(viewport(state), offset > 0, more_behind(state));
            &&& selected_start(state) < offset ==> dashboard_offset(state) == selected_start(state)
            &&& offset <= selected_start(state) && selected_end(state) <= offset + room
                ==> dashboard_offset(state) == offset
            &&& offset <= selected_start(state) && selected_end(state) > offset + room
                ==> dashboard_offset(state) + room == selected_end(state)
            &&& state.selected == 0 ==> selected_start(state) == 0
        }),
        shown(state).dashboard_scroll_offset == dashboard_offset(state),
        shown(state).selected == state.selected,
        shown(state).filtered_rows == state.filtered_rows,
{
    reveal(scroll_target);
    crate::scroll::lemma_rows_height_nonnegative(state, 0, (state.selected + 1) as nat);
    if state.selected > 0 {
        crate::scroll::lemma_rows_height_nonnegative(state, 0, state.selected as nat);
    }
}

/// The first row in view of a dashboard is the first that ends behind the lines that are scrolled
/// past.
pub proof fn lemma_first_row_in_view_ends_in_it(state: PickerState, offset: int, at: int, row: int)
    requires
        0 <= at <= row < state.filtered_rows@.len(),
        at_most_usize(height_between(state, 0, row)) > offset,
        forall|i: int|
            at <= i < row ==> at_most_usize(#[trigger] height_between(state, 0, i)) <= offset,
    ensures
        first_row_past(state, offset, at) == row,
    decreases row - at,
{
    if at < row {
        assert(at_most_usize(height_between(state, 0, at)) <= offset);
        lemma_first_row_in_view_ends_in_it(state, offset, at + 1, row);
    }
}

/// Progress is the share of the lines above the first row in view in those that do not fit.
pub proof fn lemma_progress_counts_the_lines_above(state: PickerState, height: int)
    requires
        state.filtered_rows@.len() > 0,
        0 <= height <= usize::MAX,
        state.scroll_top > 0,
        state.scroll_top < state.filtered_rows@.len(),
        height_between(state, 0, state.filtered_rows@.len() - 1) <= usize::MAX,
    ensures
        ({
            let last = state.filtered_rows@.len() - 1;
            let total = height_between(state, 0, last);
            let room = content_rows_of(state, height);
            let above = height_between(state, 0, state.scroll_top - 1);
            &&& total <= room ==> scroll_progress(state, height)
                == crate::progress::ScrollProgress::Percent(100)
            &&& total > room && height_between(state, state.scroll_top as int, last) > room
                && above <= total - room && height_between(state, state.scroll_top as int, last)
                <= usize::MAX ==> scroll_progress(state, height) == (
            crate::progress::ScrollProgress::Share {
                skipped: above as usize,
                max: (total - room) as usize,
            })
        }),
{
    let last = state.filtered_rows@.len() - 1;
    crate::scroll::lemma_height_grows(state, 0, state.scroll_top - 1, last);
}

/// The dashboard's list leaves a column free on each side, that of another picker two.
pub proof fn lemma_list_has_margins(state: PickerState, width: int)
    requires
        width >= 4,
    ensures
        state.launch_context is AgentsDashboard ==> list_width(state, width) == width - 2
            && list_margin(state) == 1,
        !(state.launch_context is AgentsDashboard) ==> list_width(state, width) == width - 4
            && list_margin(state) == 2,
{
}

} // verus!
