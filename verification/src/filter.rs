//! Which sessions the list shows, in which order, and which of them is selected.

use vstd::prelude::*;
use crate::ids::ThreadId;
use crate::paths::{path_matches, paths_match, SessionPath};
use crate::picker::PickerState;
use crate::row::{row_has_text, same_key, Row, SeenRowKey};
use crate::scroll::shown;
use crate::session::SessionFilterMode;
use crate::sort::{rows_sorted, sort_rows};
use crate::text::{lowercase_of, to_lowercase};

verus! {

/// The row belongs to the directory that the list is filtered by.
pub open spec fn passes_filter(state: PickerState, row: Row) -> bool {
    ||| state.filter_mode is All
    ||| state.local_filter_cwd is None
    ||| row.cwd is Some && path_matches(row.cwd->0, state.local_filter_cwd->0)
}

/// The row is shown: it passes the filter and holds the query, if there is one.
pub open spec fn is_shown(state: PickerState) -> spec_fn(Row) -> bool {
    |row: Row|
        passes_filter(state, row) && (state.query@.len() == 0 || row_has_text(
            row,
            lowercase_of(state.query@),
        ))
}

pub open spec fn by_thread(thread_id: ThreadId) -> spec_fn(Row) -> bool {
    |row: Row| row.thread_id == Some(thread_id)
}

pub open spec fn by_path(cwd: SessionPath) -> spec_fn(Row) -> bool {
    |row: Row| row.cwd is Some && path_matches(row.cwd->0, cwd)
}

pub open spec fn by_key(key: SeenRowKey) -> spec_fn(Row) -> bool {
    |row: Row| row.key() is Some && same_key(row.key()->0, key)
}

/// The first of `rows` from `at` on that is `wanted`.
pub open spec fn first_from(rows: Seq<Row>, wanted: spec_fn(Row) -> bool, at: int) -> Option<int>
    decreases rows.len() - at,
{
    if 0 <= at < rows.len() {
        if wanted(rows[at]) {
            Some(at)
        } else {
            first_from(rows, wanted, at + 1)
        }
    } else {
        None
    }
}

/// The first of `rows` that is `wanted`.
pub open spec fn first_of(rows: Seq<Row>, wanted: spec_fn(Row) -> bool) -> Option<int> {
    first_from(rows, wanted, 0)
}

pub proof fn lemma_first_from(rows: Seq<Row>, wanted: spec_fn(Row) -> bool, at: int)
    requires
        0 <= at <= rows.len(),
    ensures
        match first_from(rows, wanted, at) {
            Some(index) => at <= index < rows.len() && wanted(rows[index]) && forall|i: int|
                at <= i < index ==> !wanted(#[trigger] rows[i]),
            None => forall|i: int| at <= i < rows.len() ==> !wanted(#[trigger] rows[i]),
        },
    decreases rows.len() - at,
{
    if at < rows.len() && !wanted(rows[at]) {
        lemma_first_from(rows, wanted, at + 1);
    }
}

pub open spec fn optional_index(index: Option<usize>) -> Option<int> {
    match index {
        Some(index) => Some(index as int),
        None => None,
    }
}

pub fn find_thread(rows: &Vec<Row>, thread_id: ThreadId) -> (r: Option<usize>)
    ensures
        optional_index(r) == first_of(rows@, by_thread(thread_id)),
{
    let mut i: usize = 0;
    while i < rows.len()
        invariant
            i <= rows.len(),
            first_of(rows@, by_thread(thread_id)) == first_from(
                rows@,
                by_thread(thread_id),
                i as int,
            ),
        decreases rows.len() - i,
    {
        if let Some(found) = rows[i].thread_id {
            if found == thread_id {
                return Some(i);
            }
        }
        i += 1;
    }
    None
}

pub fn find_path(rows: &Vec<Row>, cwd: &SessionPath) -> (r: Option<usize>)
    ensures
        optional_index(r) == first_of(rows@, by_path(*cwd)),
{
    let mut i: usize = 0;
    while i < rows.len()
        invariant
            i <= rows.len(),
            first_of(rows@, by_path(*cwd)) == first_from(rows@, by_path(*cwd), i as int),
        decreases rows.len() - i,
    {
        if let Some(found) = &rows[i].cwd {
            if paths_match(found, cwd) {
                return Some(i);
            }
        }
        i += 1;
    }
    None
}

pub fn find_key(rows: &Vec<Row>, key: &SeenRowKey) -> (r: Option<usize>)
    ensures
        optional_index(r) == first_of(rows@, by_key(*key)),
{
    let mut i: usize = 0;
    while i < rows.len()
        invariant
            i <= rows.len(),
            first_of(rows@, by_key(*key)) == first_from(rows@, by_key(*key), i as int),
        decreases rows.len() - i,
    {
        if let Some(found) = rows[i].seen_key() {
            if found.is_same(key) {
                return Some(i);
            }
        }
        i += 1;
    }
    None
}

/// The row that stands for the directory the dashboard was opened in.
pub open spec fn is_fallback_row(row: Row, cwd: SessionPath) -> bool {
    &&& row.path is None
    &&& row.preview@ == "Start a new agent"@
    &&& row.thread_id is None
    &&& row.thread_name is None
    &&& row.created_at is None
    &&& row.updated_at is None
    &&& row.cwd == Some(cwd)
    &&& row.git_branch is None
    &&& row.dashboard_status is None
}

/// The dashboard adds a row for the directory it was opened in: nothing is searched for, and no
/// session shown belongs to it.
pub open spec fn needs_fallback(state: PickerState) -> bool {
    &&& state.is_dashboard()
    &&& state.dashboard_fallback_cwd is Some
    &&& state.query@.len() == 0
    &&& first_of(
        state.all_rows@.filter(is_shown(state)),
        by_path(state.dashboard_fallback_cwd->0),
    ) is None
}

/// `list` holds the rows to show, in the order in which they were loaded.
pub open spec fn is_listing(state: PickerState, list: Seq<Row>) -> bool {
    let kept = state.all_rows@.filter(is_shown(state));
    if needs_fallback(state) {
        &&& list.len() == kept.len() + 1
        &&& list.drop_last() == kept
        &&& is_fallback_row(list.last(), state.dashboard_fallback_cwd->0)
    } else {
        list == kept
    }
}

/// `list` in the order in which the picker shows it.
pub open spec fn arranged(state: PickerState, list: Seq<Row>) -> Seq<Row> {
    if state.is_dashboard() {
        rows_sorted(state.dashboard_group_mode, list)
    } else {
        list
    }
}

/// The row that the dashboard is to come back to is found by its thread.
pub open spec fn restores_thread(state: PickerState, rows: Seq<Row>) -> Option<int> {
    match state.dashboard_restore_thread_id {
        Some(thread_id) => first_of(rows, by_thread(thread_id)),
        None => None,
    }
}

/// The row that the dashboard is to come back to is found by its directory.
pub open spec fn restores_cwd(state: PickerState, rows: Seq<Row>) -> Option<int> {
    match state.dashboard_restore_cwd {
        Some(cwd) => first_of(rows, by_path(cwd)),
        None => None,
    }
}

/// The key of the selected row.
pub open spec fn selected_key(state: PickerState) -> Option<SeenRowKey> {
    if state.selected < state.filtered_rows@.len() {
        state.filtered_rows@[state.selected as int].key()
    } else {
        None
    }
}

/// Where a session with the key stands in `rows`.
pub open spec fn found_by_key(key: Option<SeenRowKey>, rows: Seq<Row>) -> Option<int> {
    match key {
        Some(key) => first_of(rows, by_key(key)),
        None => None,
    }
}

/// An index of `rows` near `index`.
pub open spec fn index_within(index: int, rows: Seq<Row>) -> int {
    if index < rows.len() {
        index
    } else if rows.len() > 0 {
        rows.len() - 1
    } else {
        0
    }
}

/// The row that is selected once `rows` are shown: the one that was selected before, else the one
/// that the dashboard is to come back to, else the one in its place.
pub open spec fn selection_in(state: PickerState, rows: Seq<Row>) -> int {
    index_within(
        match found_by_key(selected_key(state), rows) {
            Some(index) => index,
            None => match restores_thread(state, rows) {
                Some(index) => index,
                None => match restores_cwd(state, rows) {
                    Some(index) => index,
                    None => state.selected as int,
                },
            },
        },
        rows,
    )
}

/// `state` with `rows` shown.
pub open spec fn showing(state: PickerState, rows: Vec<Row>) -> PickerState {
    let restored = restores_thread(state, rows@) is Some;
    PickerState {
        filtered_rows: rows,
        selected: selection_in(state, rows@) as usize,
        dashboard_restore_thread_id: if restored {
            None
        } else {
            state.dashboard_restore_thread_id
        },
        dashboard_restore_cwd: if restored {
            None
        } else {
            state.dashboard_restore_cwd
        },
        scroll_top: if rows@.len() == 0 {
            0
        } else {
            state.scroll_top
        },
        ..state
    }
}

/// `after` is `before` with its rows filtered, arranged and shown anew.
pub open spec fn refiltered(before: PickerState, after: PickerState) -> bool {
    &&& exists|list: Seq<Row>| #[trigger]
        is_listing(before, list) && after.filtered_rows@ == arranged(before, list)
    &&& after == PickerState {
        frame_requested: true,
        ..shown(showing(before, after.filtered_rows))
    }
}

pub proof fn lemma_selection_in(state: PickerState, rows: Seq<Row>)
    ensures
        0 <= selection_in(state, rows),
        rows.len() > 0 ==> selection_in(state, rows) < rows.len(),
        rows.len() == 0 ==> selection_in(state, rows) == 0,
        state.selected <= usize::MAX,
        match found_by_key(selected_key(state), rows) {
            Some(index) => selection_in(state, rows) == index,
            None => true,
        },
{
    if let Some(key) = selected_key(state) {
        lemma_first_from(rows, by_key(key), 0);
    }
    if let Some(thread_id) = state.dashboard_restore_thread_id {
        lemma_first_from(rows, by_thread(thread_id), 0);
    }
    if let Some(cwd) = state.dashboard_restore_cwd {
        lemma_first_from(rows, by_path(cwd), 0);
    }
}

impl PickerState {
    pub fn row_matches_filter(&self, row: &Row) -> (r: bool)
        ensures
            r == passes_filter(*self, *row),
    {
        if self.filter_mode == SessionFilterMode::All {
            return true;
        }
        let filter_cwd = match &self.local_filter_cwd {
            Some(filter_cwd) => filter_cwd,
            None => {
                return true;
            },
        };
        match &row.cwd {
            Some(row_cwd) => paths_match(row_cwd, filter_cwd),
            None => false,
        }
    }

    fn rows_to_show(&self) -> (r: Vec<Row>)
        ensures
            r@ == self.all_rows@.filter(is_shown(*self)),
    {
        let lower = to_lowercase(self.query.as_str());
        let no_query = self.query.as_str().is_empty();
        let mut r: Vec<Row> = Vec::new();
        let mut i: usize = 0;
        proof {
            reveal(Seq::filter);
            assert(self.all_rows@.take(0).filter(is_shown(*self)) =~= Seq::<Row>::empty());
        }
        while i < self.all_rows.len()
            invariant
                i <= self.all_rows.len(),
                lower@ == lowercase_of(self.query@),
                no_query == (self.query@.len() == 0),
                r@ == self.all_rows@.take(i as int).filter(is_shown(*self)),
            decreases self.all_rows.len() - i,
        {
            proof {
                reveal(Seq::filter);
                let part = self.all_rows@.take(i + 1);
                assert(part.drop_last() =~= self.all_rows@.take(i as int));
                assert(part.last() == self.all_rows@[i as int]);
            }
            let row = &self.all_rows[i];
            if self.row_matches_filter(row) && (no_query || row.matches_query(lower.as_str())) {
                r.push(row.clone());
            }
            i += 1;
        }
        proof {
            assert(self.all_rows@.take(self.all_rows@.len() as int) =~= self.all_rows@);
        }
        r
    }

    fn listing(&self) -> (r: Vec<Row>)
        ensures
            is_listing(*self, r@),
    {
        let mut rows = self.rows_to_show();
        if self.is_agents_dashboard() && self.query.as_str().is_empty() {
            if let Some(cwd) = &self.dashboard_fallback_cwd {
                if find_path(&rows, cwd).is_none() {
                    let ghost kept = rows@;
                    rows.push(
                        Row {
                            path: None,
                            preview: "Start a new agent".to_owned(),
                            thread_id: None,
                            thread_name: None,
                            created_at: None,
                            updated_at: None,
                            cwd: Some(cwd.clone()),
                            git_branch: None,
                            dashboard_status: None,
                        },
                    );
                    proof {
                        assert(rows@.drop_last() =~= kept);
                    }
                }
            }
        }
        rows
    }

    pub fn key_of_selected(&self) -> (r: Option<SeenRowKey>)
        ensures
            r == selected_key(*self),
    {
        if self.selected < self.filtered_rows.len() {
            self.filtered_rows[self.selected].seen_key()
        } else {
            None
        }
    }

    /// Puts the rows of the dashboard in their order.
    pub fn sort_dashboard_rows(&mut self)
        ensures
            *final(self) == (PickerState { filtered_rows: final(self).filtered_rows, ..*old(self) }),
            final(self).filtered_rows@ == arranged(*old(self), old(self).filtered_rows@),
    {
        if !self.is_agents_dashboard() {
            return;
        }
        self.filtered_rows = sort_rows(self.dashboard_group_mode, &self.filtered_rows);
    }

    /// The row to select once `rows` are shown, and whether it is the thread to come back to.
    fn next_selection(&self, rows: &Vec<Row>) -> (r: (usize, bool))
        ensures
            r.0 == selection_in(*self, rows@),
            r.1 == (restores_thread(*self, rows@) is Some),
    {
        let by_id: Option<usize> = match self.dashboard_restore_thread_id {
            Some(thread_id) => find_thread(rows, thread_id),
            None => None,
        };
        let by_cwd: Option<usize> = match &self.dashboard_restore_cwd {
            Some(cwd) => find_path(rows, cwd),
            None => None,
        };
        let by_key: Option<usize> = match self.key_of_selected() {
            Some(key) => find_key(rows, &key),
            None => None,
        };
        let index: usize = match by_key {
            Some(index) => index,
            None => match by_id {
                Some(index) => index,
                None => match by_cwd {
                    Some(index) => index,
                    None => self.selected,
                },
            },
        };
        let within: usize = if index >= rows.len() {
            rows.len().saturating_sub(1)
        } else {
            index
        };
        (within, by_id.is_some())
    }

    /// Shows `rows`.
    fn show_rows(&mut self, rows: Vec<Row>)
        ensures
            *final(self) == (PickerState {
                frame_requested: true,
                ..shown(showing(*old(self), rows))
            }),
    {
        let (selected, restored) = self.next_selection(&rows);
        if rows.len() == 0 {
            self.scroll_top = 0;
        }
        self.filtered_rows = rows;
        self.selected = selected;
        if restored {
            self.dashboard_restore_thread_id = None;
            self.dashboard_restore_cwd = None;
        }
        proof {
            assert(*self == showing(*old(self), rows));
        }
        self.ensure_selected_visible();
        self.request_frame();
    }

    /// Filters, arranges and shows the rows anew.
    pub fn apply_filter(&mut self)
        ensures
            refiltered(*old(self), *final(self)),
    {
        let list = self.listing();
        let ghost listed = list@;
        let rows = if self.is_agents_dashboard() {
            sort_rows(self.dashboard_group_mode, &list)
        } else {
            list
        };
        proof {
            assert(is_listing(*self, listed) && rows@ == arranged(*self, listed));
        }
        self.show_rows(rows);
    }
}

} // verus!
