//! Where the list is scrolled to: heights of rows, and what of them is in view.

use vstd::prelude::*;
use crate::dashboard::DashboardGroupMode;
use crate::ids::ThreadId;
use crate::metadata::{at_least_zero, larger, smaller};
use crate::picker::PickerState;
use crate::render_card::{render_session_lines, session_lines};
use crate::row::Row;
use crate::session::SessionListDensity;
use crate::style::{at_most_usize, lines_view};

verus! {

/// The heading that a row stands under on the dashboard.
pub open spec fn group_label(mode: DashboardGroupMode, row: Row) -> Seq<char> {
    match mode {
        DashboardGroupMode::Project => match row.cwd {
            Some(cwd) => cwd.label@,
            None => "Unknown project"@,
        },
        DashboardGroupMode::Status => match row.dashboard_status {
            Some(status) => status.name(),
            None => "Done"@,
        },
    }
}

/// A heading stands above row `index`, in a view that begins with row `first`.
pub open spec fn starts_group(state: PickerState, index: int, first: int) -> bool {
    state.is_dashboard() && (index == first || group_label(
        state.dashboard_group_mode,
        state.filtered_rows@[index - 1],
    ) != group_label(state.dashboard_group_mode, state.filtered_rows@[index]))
}

/// Row `index` is the selected one and shows its details.
pub open spec fn is_expanded_at(state: PickerState, index: int) -> bool {
    let row = state.filtered_rows@[index];
    index == state.selected && row.thread_id is Some && state.expanded_thread_id == row.thread_id
}

/// The width that the list was last drawn with.
pub open spec fn width_in_use(state: PickerState) -> u16 {
    match state.view_width {
        Some(width) => width,
        None => u16::MAX,
    }
}

/// The lines of row `index` with the heading above it, in a view that begins with row `first`.
pub open spec fn row_height(state: PickerState, index: int, first: int) -> int {
    session_lines(
        state.filtered_rows@[index],
        state,
        index == state.selected,
        is_expanded_at(state, index),
        false,
        width_in_use(state) as int,
    ).len() + (if starts_group(state, index, first) {
        1int
    } else {
        0int
    })
}

/// The lines of `count` rows from row `first` on, without what stands between them.
pub open spec fn rows_height(state: PickerState, first: int, count: nat) -> int
    decreases count,
{
    if count == 0 {
        0
    } else {
        rows_height(state, first, (count - 1) as nat) + row_height(
            state,
            first + count - 1,
            first,
        )
    }
}

/// The lines between two rows.
pub open spec fn separator(state: PickerState) -> int {
    match state.density {
        SessionListDensity::Comfortable => 1,
        SessionListDensity::Dense => 0,
    }
}

/// The lines from row `first` to row `last`; where there are no such rows, only what would
/// stand between them.
pub open spec fn height_between(state: PickerState, first: int, last: int) -> int {
    (if first <= last < state.filtered_rows@.len() {
        rows_height(state, first, (last - first + 1) as nat)
    } else {
        0
    }) + separator(state) * at_least_zero(last - first)
}

pub proof fn lemma_rows_height_nonnegative(state: PickerState, first: int, count: nat)
    ensures
        rows_height(state, first, count) >= 0,
    decreases count,
{
    if count > 0 {
        lemma_rows_height_nonnegative(state, first, (count - 1) as nat);
    }
}

/// More rows make no view lower.
pub proof fn lemma_height_grows(state: PickerState, first: int, last: int, further: int)
    requires
        0 <= first <= last <= further < state.filtered_rows@.len(),
    ensures
        0 <= height_between(state, first, last) <= height_between(state, first, further),
    decreases further - last,
{
    lemma_rows_height_nonnegative(state, first, (last - first + 1) as nat);
    if last < further {
        lemma_height_grows(state, first, last, further - 1);
    }
}

/// There is something above the view.
pub open spec fn more_above(state: PickerState) -> bool {
    if state.is_dashboard() {
        state.dashboard_scroll_offset > 0
    } else {
        state.scroll_top > 0
    }
}

/// There is something behind the selected row.
pub open spec fn more_behind(state: PickerState) -> bool {
    state.pagination.next_cursor is Some || state.selected + 1 < state.filtered_rows@.len()
}

/// The lines for rows in a view of `height` lines, with a line for each hint that there is more.
pub open spec fn content_rows(height: int, above: bool, behind: bool) -> int {
    larger(
        at_least_zero(
            at_least_zero(height - (if above {
                1int
            } else {
                0int
            })) - (if behind {
                1int
            } else {
                0int
            }),
        ),
        1,
    )
}

pub open spec fn content_rows_of(state: PickerState, height: int) -> int {
    content_rows(height, more_above(state), more_behind(state))
}

fn count_content_rows(height: usize, above: bool, behind: bool) -> (r: usize)
    ensures
        r == content_rows(height as int, above, behind),
{
    let r: usize = height.saturating_sub(if above { 1 } else { 0 }).saturating_sub(
        if behind { 1 } else { 0 },
    );
    if r < 1 {
        1
    } else {
        r
    }
}

/// The height of the view, without bound where none is known.
pub open spec fn viewport(state: PickerState) -> int {
    match state.view_rows {
        Some(rows) => larger(rows as int, 1),
        None => usize::MAX as int,
    }
}

/// The first row from `at` on that ends behind line `offset`; the last row where none does.
pub open spec fn first_row_past(state: PickerState, offset: int, at: int) -> int
    decreases state.filtered_rows@.len() - at,
{
    if at >= state.filtered_rows@.len() {
        state.filtered_rows@.len() - 1
    } else if at_most_usize(height_between(state, 0, at)) > offset {
        at
    } else {
        first_row_past(state, offset, at + 1)
    }
}

/// The first row from `top` on from which the selected row fits into the view; the selected row
/// where there is none.
pub open spec fn scrolled_down(state: PickerState, top: int) -> int
    decreases state.selected - top,
{
    if top < state.selected && at_most_usize(height_between(state, top, state.selected as int))
        > content_rows(viewport(state), top > 0, more_behind(state)) {
        scrolled_down(state, top + 1)
    } else {
        top
    }
}

/// The line at which the selected row of a dashboard begins.
pub open spec fn selected_start(state: PickerState) -> int {
    if state.selected == 0 {
        0
    } else {
        at_most_usize(
            at_most_usize(height_between(state, 0, state.selected - 1)) + separator(state),
        )
    }
}

/// The line behind the selected row of a dashboard.
pub open spec fn selected_end(state: PickerState) -> int {
    at_most_usize(height_between(state, 0, state.selected as int))
}

/// The first line in view on a dashboard: moved only as far as the selected row asks for it.
pub open spec fn dashboard_offset(state: PickerState) -> int {
    let offset = state.dashboard_scroll_offset as int;
    let available = content_rows(viewport(state), offset > 0, more_behind(state));
    if selected_start(state) < offset {
        selected_start(state)
    } else if selected_end(state) > at_most_usize(offset + available) {
        at_least_zero(selected_end(state) - available)
    } else {
        offset
    }
}

/// The first row in view and the first line in view.
#[verifier::opaque]
pub open spec fn scroll_target(state: PickerState) -> (int, int) {
    if state.filtered_rows@.len() == 0 {
        (0, 0)
    } else if state.is_dashboard() {
        (first_row_past(state, dashboard_offset(state), 0), dashboard_offset(state))
    } else {
        (
            scrolled_down(state, smaller(state.scroll_top as int, state.selected as int)),
            state.dashboard_scroll_offset as int,
        )
    }
}

/// The state with the selected row in view.
pub open spec fn shown(state: PickerState) -> PickerState {
    PickerState {
        scroll_top: scroll_target(state).0 as usize,
        dashboard_scroll_offset: scroll_target(state).1 as usize,
        ..state
    }
}

proof fn lemma_first_row_past(state: PickerState, offset: int, at: int)
    requires
        0 <= at <= state.filtered_rows@.len(),
        state.filtered_rows@.len() > 0,
    ensures
        0 <= first_row_past(state, offset, at) < state.filtered_rows@.len(),
    decreases state.filtered_rows@.len() - at,
{
    if at < state.filtered_rows@.len() && at_most_usize(height_between(state, 0, at)) <= offset {
        lemma_first_row_past(state, offset, at + 1);
    }
}

proof fn lemma_scrolled_down(state: PickerState, top: int)
    requires
        0 <= top <= state.selected,
    ensures
        top <= scrolled_down(state, top) <= state.selected,
        scrolled_down(state, top) == state.selected || at_most_usize(
            height_between(state, scrolled_down(state, top), state.selected as int),
        ) <= content_rows(viewport(state), scrolled_down(state, top) > 0, more_behind(state)),
    decreases state.selected - top,
{
    if top < state.selected && at_most_usize(height_between(state, top, state.selected as int))
        > content_rows(viewport(state), top > 0, more_behind(state)) {
        lemma_scrolled_down(state, top + 1);
    }
}

/// Scrolling to the selected row leaves a row of the list at the top of the view; in the picker, one
/// that is not below the selected row.
pub proof fn lemma_shown(state: PickerState)
    requires
        state.filtered_rows@.len() > 0,
    ensures
        state.is_dashboard() ==> shown(state).scroll_top < state.filtered_rows@.len(),
        !state.is_dashboard() ==> shown(state).scroll_top <= state.selected,
        state.selected < state.filtered_rows@.len() ==> shown(state).scroll_top
            < state.filtered_rows@.len(),
{
    reveal(scroll_target);
    if state.is_dashboard() {
        lemma_first_row_past(state, dashboard_offset(state), 0);
    } else {
        lemma_scrolled_down(state, smaller(state.scroll_top as int, state.selected as int));
    }
}

/// After scrolling, the picker's selected row is in view: the rows from the top of the view to it
/// fit between the hints that there is more, or it stands at the top itself.
pub proof fn lemma_selected_in_view(state: PickerState)
    requires
        state.filtered_rows@.len() > 0,
        !state.is_dashboard(),
    ensures
        shown(state).scroll_top == state.selected || at_most_usize(
            height_between(state, shown(state).scroll_top as int, state.selected as int),
        ) <= content_rows(viewport(state), shown(state).scroll_top > 0, more_behind(state)),
{
    reveal(scroll_target);
    lemma_scrolled_down(state, smaller(state.scroll_top as int, state.selected as int));
}

/// After scrolling, the dashboard's selected row is in view: it begins with the first line, or ends
/// above the last.
pub proof fn lemma_dashboard_row_in_view(state: PickerState)
    requires
        state.selected < state.filtered_rows@.len(),
        state.is_dashboard(),
    ensures
        shown(state).dashboard_scroll_offset == selected_start(state) || selected_end(state)
            <= at_most_usize(
            shown(state).dashboard_scroll_offset + content_rows(
                viewport(state),
                state.dashboard_scroll_offset > 0,
                more_behind(state),
            ),
        ),
{
    reveal(scroll_target);
    lemma_rows_height_nonnegative(state, 0, (state.selected + 1) as nat);
    if state.selected > 0 {
        lemma_rows_height_nonnegative(state, 0, state.selected as nat);
    }
}

/// What stands below the view can be told: the view begins within the rows, where that matters.
pub open spec fn can_look_below(state: PickerState) -> bool {
    state.filtered_rows@.len() > 0 && state.pagination.next_cursor is None && !state.is_dashboard()
        ==> state.scroll_top <= state.filtered_rows@.len()
}

fn same_thread(a: Option<ThreadId>, b: Option<ThreadId>) -> (r: bool)
    ensures
        r == (a == b),
{
    match (a, b) {
        (Some(a), Some(b)) => a == b,
        (None, None) => true,
        _ => false,
    }
}

impl PickerState {
    pub fn dashboard_group_label<'a>(&self, row: &'a Row) -> (r: &'a str)
        ensures
            r@ == group_label(self.dashboard_group_mode, *row),
    {
        match self.dashboard_group_mode {
            DashboardGroupMode::Project => match &row.cwd {
                Some(cwd) => cwd.label.as_str(),
                None => "Unknown project",
            },
            DashboardGroupMode::Status => match row.dashboard_status {
                Some(status) => status.label(),
                None => "Done",
            },
        }
    }

    pub fn starts_dashboard_group(&self, row_index: usize, viewport_start: usize) -> (r: bool)
        requires
            row_index < self.filtered_rows@.len(),
            viewport_start <= row_index,
        ensures
            r == starts_group(*self, row_index as int, viewport_start as int),
    {
        if !self.is_agents_dashboard() {
            return false;
        }
        if row_index == viewport_start {
            return true;
        }
        let before = self.dashboard_group_label(&self.filtered_rows[row_index - 1]).to_owned();
        let here = self.dashboard_group_label(&self.filtered_rows[row_index]).to_owned();
        before != here
    }

    pub fn is_expanded_row(&self, index: usize) -> (r: bool)
        requires
            index < self.filtered_rows@.len(),
        ensures
            r == is_expanded_at(*self, index as int),
    {
        let row = &self.filtered_rows[index];
        index == self.selected && row.thread_id.is_some() && same_thread(
            self.expanded_thread_id,
            row.thread_id,
        )
    }

    fn measured_height(&self, index: usize, first: usize) -> (r: usize)
        requires
            first <= index < self.filtered_rows@.len(),
        ensures
            r == at_most_usize(row_height(*self, index as int, first as int)),
    {
        let width: u16 = match self.view_width {
            Some(width) => width,
            None => u16::MAX,
        };
        let expanded = self.is_expanded_row(index);
        let lines = render_session_lines(
            &self.filtered_rows[index],
            self,
            index == self.selected,
            expanded,
            false,
            width,
        );
        proof {
            assert(lines_view(lines@).len() == lines@.len());
        }
        let heading: usize = if self.starts_dashboard_group(index, first) {
            1
        } else {
            0
        };
        lines.len().saturating_add(heading)
    }

    pub fn row_separator_height(&self) -> (r: usize)
        ensures
            r == separator(*self),
            r <= 1,
    {
        match self.density {
            SessionListDensity::Comfortable => 1,
            SessionListDensity::Dense => 0,
        }
    }

    /// The lines from one row to another, at most `usize::MAX`.
    pub fn rendered_height_between(&self, start: usize, end_inclusive: usize) -> (r: usize)
        ensures
            r == at_most_usize(height_between(*self, start as int, end_inclusive as int)),
    {
        let gap: usize = end_inclusive.saturating_sub(start);
        let separators: usize = if self.row_separator_height() == 1 {
            gap
        } else {
            0
        };
        if !(start <= end_inclusive && end_inclusive < self.filtered_rows.len()) {
            return separators;
        }
        let count: usize = gap + 1;
        let mut total: usize = 0;
        let mut i: usize = 0;
        while i < count
            invariant
                i <= count,
                count == end_inclusive - start + 1,
                start <= end_inclusive < self.filtered_rows@.len(),
                rows_height(*self, start as int, i as nat) >= 0,
                total == at_most_usize(rows_height(*self, start as int, i as nat)),
            decreases count - i,
        {
            let height: usize = self.measured_height(start + i, start);
            proof {
                lemma_rows_height_nonnegative(*self, start as int, (i + 1) as nat);
            }
            total = total.saturating_add(height);
            i += 1;
        }
        total.saturating_add(separators)
    }

    pub fn has_more_above(&self) -> (r: bool)
        ensures
            r == more_above(*self),
    {
        if self.is_agents_dashboard() {
            self.dashboard_scroll_offset > 0
        } else {
            self.scroll_top > 0
        }
    }

    fn has_more_behind(&self) -> (r: bool)
        ensures
            r == more_behind(*self),
    {
        self.pagination.next_cursor.is_some() || (self.filtered_rows.len() > 0 && self.selected
            < self.filtered_rows.len() - 1)
    }

    pub fn available_content_rows(&self, viewport_height: usize) -> (r: usize)
        ensures
            r == content_rows_of(*self, viewport_height as int),
    {
        count_content_rows(viewport_height, self.has_more_above(), self.has_more_behind())
    }

    fn viewport_height(&self) -> (r: usize)
        ensures
            r == viewport(*self),
    {
        match self.view_rows {
            Some(rows) => if rows < 1 {
                1
            } else {
                rows
            },
            None => usize::MAX,
        }
    }

    fn next_dashboard_offset(&self) -> (r: usize)
        ensures
            r == dashboard_offset(*self),
    {
        let end: usize = self.rendered_height_between(0, self.selected);
        let start: usize = if self.selected == 0 {
            0
        } else {
            self.rendered_height_between(0, self.selected - 1).saturating_add(
                self.row_separator_height(),
            )
        };
        let offset: usize = self.dashboard_scroll_offset;
        let available: usize = count_content_rows(
            self.viewport_height(),
            offset > 0,
            self.has_more_behind(),
        );
        proof {
            if self.selected > 0 {
                if self.selected <= self.filtered_rows@.len() {
                    lemma_rows_height_nonnegative(*self, 0, self.selected as nat);
                }
            }
        }
        if start < offset {
            start
        } else if end > offset.saturating_add(available) {
            end.saturating_sub(available)
        } else {
            offset
        }
    }

    /// Scrolls so that the selected row is in view, and no further.
    pub fn ensure_selected_visible(&mut self)
        ensures
            *final(self) == shown(*old(self)),
    {
        proof {
            reveal(scroll_target);
        }
        if self.filtered_rows.len() == 0 {
            self.scroll_top = 0;
            self.dashboard_scroll_offset = 0;
            return;
        }
        if self.is_agents_dashboard() {
            let offset: usize = self.next_dashboard_offset();
            let mut row: usize = 0;
            while row < self.filtered_rows.len() && self.rendered_height_between(0, row) <= offset
                invariant
                    row <= self.filtered_rows@.len(),
                    self.filtered_rows@.len() > 0,
                    *self == *old(self),
                    first_row_past(*self, offset as int, 0) == first_row_past(
                        *self,
                        offset as int,
                        row as int,
                    ),
                decreases self.filtered_rows@.len() - row,
            {
                row += 1;
            }
            if row == self.filtered_rows.len() {
                row = self.filtered_rows.len() - 1;
            }
            self.scroll_top = row;
            self.dashboard_scroll_offset = offset;
            return;
        }
        let height: usize = self.viewport_height();
        let behind = self.has_more_behind();
        let mut top: usize = if self.scroll_top < self.selected {
            self.scroll_top
        } else {
            self.selected
        };
        let ghost first = top as int;
        while top < self.selected && self.rendered_height_between(top, self.selected)
            > count_content_rows(height, top > 0, behind)
            invariant
                first <= top <= self.selected,
                *self == *old(self),
                height == viewport(*self),
                behind == more_behind(*self),
                scrolled_down(*self, first) == scrolled_down(*self, top as int),
            decreases self.selected - top,
        {
            top += 1;
        }
        self.scroll_top = top;
    }

    /// Whether there is something below a view of `viewport_height` lines.
    pub fn has_more_below(&self, viewport_height: usize) -> (r: bool)
        requires
            can_look_below(*self),
        ensures
            r == more_below(*self, viewport_height as int),
    {
        if self.filtered_rows.len() == 0 {
            return false;
        }
        if self.pagination.next_cursor.is_some() {
            return true;
        }
        let last: usize = self.filtered_rows.len() - 1;
        if self.is_agents_dashboard() {
            let total: usize = self.rendered_height_between(0, last);
            let available: usize = count_content_rows(viewport_height, self.has_more_above(), false);
            return total > self.dashboard_scroll_offset.saturating_add(available);
        }
        if self.scroll_top > last {
            return false;
        }
        self.rendered_height_between(self.scroll_top, last) > self.available_content_rows(
            viewport_height,
        )
    }
}

/// There is something below a view of `height` lines: another page, or rows that do not fit.
pub open spec fn more_below(state: PickerState, height: int) -> bool {
    let last = state.filtered_rows@.len() - 1;
    if last < 0 {
        false
    } else if state.pagination.next_cursor is Some {
        true
    } else if state.is_dashboard() {
        at_most_usize(height_between(state, 0, last)) > at_most_usize(
            state.dashboard_scroll_offset + content_rows(height, more_above(state), false),
        )
    } else {
        state.scroll_top <= last && at_most_usize(
            height_between(state, state.scroll_top as int, last),
        ) > content_rows_of(state, height)
    }
}

} // verus!
