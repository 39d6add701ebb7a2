//! Searching the list, and taking in the pages that it loads.

use vstd::prelude::*;
use crate::filter::{find_key, found_by_key, optional_index, refiltered, selected_key};
use crate::ids::ThreadId;
use crate::loading::{next_page_asked, scroll_page_asked, token_after};
use crate::metadata::smaller;
use crate::pagination::PaginationState;
use crate::picker::PickerState;
use crate::row::{contains_key, key_in, Row, SeenRowKey};
use crate::scroll::shown;
use crate::session::{LoadTrigger, PageCursor, SearchState};
use crate::style::at_most_usize;

verus! {

/// A page of the listing.
#[derive(Debug)]
pub struct PickerPage {
    pub rows: Vec<Row>,
    /// The threads of the page that stopped because of a system error.
    pub dashboard_system_errors: Vec<ThreadId>,
    pub next_cursor: Option<PageCursor>,
    pub num_scanned_files: usize,
    pub reached_scan_cap: bool,
}

/// Nothing more is to be searched: something was found, or there is nothing left to scan.
pub open spec fn search_is_over(state: PickerState) -> bool {
    state.filtered_rows@.len() > 0 || state.pagination.reached_scan_cap
        || state.pagination.next_cursor is None
}

/// `after` is `found`, in which a new query was applied, with a search through further pages
/// begun where the query finds nothing and there are any.
pub open spec fn search_begun(found: PickerState, after: PickerState) -> bool {
    if found.query@.len() == 0 || search_is_over(found) {
        after == PickerState { search_state: SearchState::Idle, ..found }
    } else {
        let token = found.next_search_token;
        &&& next_page_asked(
            PickerState {
                next_search_token: token_after(token),
                search_state: SearchState::Active { token },
                ..found
            },
            after,
            LoadTrigger::Search { token },
        )
        &&& after.frame_requested
    }
}

/// `after` is `before` with a new query. The list is filtered by it from the top.
pub open spec fn query_replaced(before: PickerState, after: PickerState) -> bool {
    exists|found: PickerState|
        #![trigger search_begun(found, after)]
        refiltered(PickerState { query: after.query, selected: 0, ..before }, found)
            && search_begun(found, after)
}

/// `after` is `before` with the query `query`; where that is the query already, nothing changes.
pub open spec fn query_set(before: PickerState, after: PickerState, query: Seq<char>) -> bool {
    if before.query@ == query {
        after == before
    } else {
        after.query@ == query && query_replaced(before, after)
    }
}

/// `after` is `cleared`, from which the query was taken, with the session `key` selected.
pub open spec fn reselected(
    cleared: PickerState,
    after: PickerState,
    key: Option<SeenRowKey>,
) -> bool {
    match found_by_key(key, cleared.filtered_rows@) {
        Some(index) => after == PickerState {
            frame_requested: true,
            ..shown(PickerState { selected: index as usize, ..cleared })
        },
        None => after == cleared,
    }
}

/// `after` is `before` without a query; the selected session stays selected.
pub open spec fn query_cleared(before: PickerState, after: PickerState) -> bool {
    exists|cleared: PickerState|
        #![trigger reselected(cleared, after, selected_key(before))]
        refiltered(
            PickerState { query: after.query, search_state: SearchState::Idle, ..before },
            cleared,
        ) && after.query@.len() == 0 && reselected(cleared, after, selected_key(before))
}

/// `after` is `before` with an active search ended or carried on.
pub open spec fn search_continued(before: PickerState, after: PickerState) -> bool {
    match before.search_state {
        SearchState::Idle => after == before,
        SearchState::Active { token } => if search_is_over(before) {
            after == PickerState { search_state: SearchState::Idle, ..before }
        } else {
            &&& next_page_asked(before, after, LoadTrigger::Search { token })
            &&& after.frame_requested == (before.frame_requested
                || before.pagination.can_load_more())
        },
    }
}

/// The page that came belongs to another search than the active one.
pub open spec fn is_other_search(state: PickerState, completed: Option<usize>) -> bool {
    completed is Some && state.search_state.token() is Some && completed
        != state.search_state.token()
}

/// The rows and their keys once the first `count` of `rows` are taken in: of sessions that were
/// seen before, nothing is added.
pub open spec fn merged_to(
    all: Seq<Row>,
    seen: Seq<SeenRowKey>,
    rows: Seq<Row>,
    count: nat,
) -> (Seq<Row>, Seq<SeenRowKey>)
    decreases count,
{
    if count == 0 {
        (all, seen)
    } else {
        let (all, seen) = merged_to(all, seen, rows, (count - 1) as nat);
        let row = rows[count - 1];
        match row.key() {
            None => (all.push(row), seen),
            Some(key) => if key_in(seen, key) {
                (all, seen)
            } else {
                (all.push(row), seen.push(key))
            },
        }
    }
}

/// The bits of some identifiers.
pub open spec fn id_bits(ids: Seq<ThreadId>) -> Set<u128> {
    Set::new(|bits: u128| exists|i: int| 0 <= i < ids.len() && (#[trigger] ids[i]).bits == bits)
}

/// `after` is `before` with what a page holds, before it is shown.
pub open spec fn page_merged(before: PickerState, after: PickerState, page: PickerPage) -> bool {
    let merged = merged_to(
        before.all_rows@,
        before.seen_rows@,
        page.rows@,
        page.rows@.len(),
    );
    &&& after == PickerState {
        pagination: PaginationState {
            next_cursor: page.next_cursor,
            num_scanned_files: at_most_usize(
                before.pagination.num_scanned_files + page.num_scanned_files,
            ) as usize,
            reached_scan_cap: before.pagination.reached_scan_cap || page.reached_scan_cap,
            ..before.pagination
        },
        all_rows: after.all_rows,
        seen_rows: after.seen_rows,
        dashboard_system_errors: after.dashboard_system_errors,
        ..before
    }
    &&& after.all_rows@ == merged.0
    &&& after.seen_rows@ == merged.1
    &&& after.dashboard_system_errors@ == before.dashboard_system_errors@.union(
        id_bits(page.dashboard_system_errors@),
    )
}

/// `after` is `before` with a page taken in and shown.
pub open spec fn page_ingested(before: PickerState, after: PickerState, page: PickerPage) -> bool {
    exists|merged: PickerState|
        #![trigger refiltered(merged, after)]
        page_merged(before, merged, page) && refiltered(merged, after)
}

/// `after` is `before` with a jump down a page, which waited for rows, carried out or carried on.
pub open spec fn page_down_completed(before: PickerState, after: PickerState) -> bool {
    let last = before.filtered_rows@.len() - 1;
    match before.pending_page_down_target {
        Some(target) => if last < 0 {
            after == before
        } else if target > last && before.pagination.next_cursor is Some {
            &&& next_page_asked(before, after, LoadTrigger::Scroll)
            &&& after.frame_requested == (before.frame_requested
                || before.pagination.can_load_more())
        } else {
            &&& scroll_page_asked(
                shown(
                    PickerState {
                        pending_page_down_target: None,
                        selected: smaller(target as int, last) as usize,
                        ..before
                    },
                ),
                after,
            )
            &&& after.frame_requested
        },
        None => after == before,
    }
}

impl PickerState {
    fn end_or_begin_search(&mut self)
        ensures
            old(self).frame_requested ==> search_begun(*old(self), *final(self)),
            final(self).query == old(self).query,
    {
        if self.query.as_str().is_empty() || self.filtered_rows.len() > 0
            || self.pagination.reached_scan_cap || self.pagination.next_cursor.is_none() {
            self.search_state = SearchState::Idle;
            return;
        }
        let token: usize = self.allocate_search_token();
        self.search_state = SearchState::Active { token };
        self.load_more_if_needed(LoadTrigger::Search { token });
    }

    /// Replaces the query.
    pub fn set_query(&mut self, new_query: String)
        ensures
            query_set(*old(self), *final(self), new_query@),
    {
        if self.query == new_query {
            return;
        }
        self.query = new_query;
        self.selected = 0;
        let ghost begun = *self;
        self.apply_filter();
        let ghost found = *self;
        self.end_or_begin_search();
        proof {
            assert(search_begun(found, *self));
            assert(begun == PickerState { query: self.query, selected: 0, ..*old(self) });
        }
    }

    /// Drops the query; the selected session stays selected.
    pub fn clear_query_preserving_selection(&mut self)
        ensures
            query_cleared(*old(self), *final(self)),
    {
        let key = self.key_of_selected();
        self.query = String::new();
        self.search_state = SearchState::Idle;
        let ghost begun = *self;
        self.apply_filter();
        let ghost cleared = *self;
        let found: Option<usize> = match &key {
            Some(key) => find_key(&self.filtered_rows, key),
            None => None,
        };
        proof {
            assert(optional_index(found) == found_by_key(
                selected_key(*old(self)),
                cleared.filtered_rows@,
            ));
        }
        if let Some(index) = found {
            self.selected = index;
            self.ensure_selected_visible();
            self.request_frame();
        }
        proof {
            assert(reselected(cleared, *self, selected_key(*old(self))));
            assert(begun == PickerState {
                query: self.query,
                search_state: SearchState::Idle,
                ..*old(self)
            });
        }
    }

    pub fn continue_search_if_needed(&mut self)
        ensures
            search_continued(*old(self), *final(self)),
    {
        let token: usize = match self.search_state.active_token() {
            Some(token) => token,
            None => {
                return;
            },
        };
        if self.filtered_rows.len() > 0 || self.pagination.reached_scan_cap
            || self.pagination.next_cursor.is_none() {
            self.search_state = SearchState::Idle;
            return;
        }
        self.load_more_if_needed(LoadTrigger::Search { token });
    }

    /// Carries an active search on once a page has come, unless that was asked for by another.
    pub fn continue_search_if_token_matches(&mut self, completed_token: Option<usize>)
        ensures
            if is_other_search(*old(self), completed_token) {
                *final(self) == *old(self)
            } else {
                search_continued(*old(self), *final(self))
            },
    {
        let active: usize = match self.search_state.active_token() {
            Some(active) => active,
            None => {
                return;
            },
        };
        if let Some(token) = completed_token {
            if token != active {
                return;
            }
        }
        self.continue_search_if_needed();
    }

    fn merge_rows(&mut self, rows: &Vec<Row>)
        ensures
            *final(self) == (PickerState {
                all_rows: final(self).all_rows,
                seen_rows: final(self).seen_rows,
                ..*old(self)
            }),
            (final(self).all_rows@, final(self).seen_rows@) == merged_to(
                old(self).all_rows@,
                old(self).seen_rows@,
                rows@,
                rows@.len(),
            ),
    {
        let mut i: usize = 0;
        while i < rows.len()
            invariant
                i <= rows.len(),
                *self == (PickerState {
                    all_rows: self.all_rows,
                    seen_rows: self.seen_rows,
                    ..*old(self)
                }),
                (self.all_rows@, self.seen_rows@) == merged_to(
                    old(self).all_rows@,
                    old(self).seen_rows@,
                    rows@,
                    i as nat,
                ),
            decreases rows.len() - i,
        {
            match rows[i].seen_key() {
                Some(key) => {
                    if !contains_key(&self.seen_rows, &key) {
                        self.seen_rows.push(key);
                        self.all_rows.push(rows[i].clone());
                    }
                },
                None => {
                    self.all_rows.push(rows[i].clone());
                },
            }
            i += 1;
        }
    }

    fn note_system_errors(&mut self, ids: &Vec<ThreadId>)
        ensures
            *final(self) == (PickerState {
                dashboard_system_errors: final(self).dashboard_system_errors,
                ..*old(self)
            }),
            final(self).dashboard_system_errors@ == old(self).dashboard_system_errors@.union(
                id_bits(ids@),
            ),
    {
        broadcast use vstd::std_specs::hash::group_hash_axioms;

        let ghost before = self.dashboard_system_errors@;
        let mut i: usize = 0;
        proof {
            assert(before.union(id_bits(ids@.take(0))) =~= before);
        }
        while i < ids.len()
            invariant
                i <= ids.len(),
                before == old(self).dashboard_system_errors@,
                *self == (PickerState {
                    dashboard_system_errors: self.dashboard_system_errors,
                    ..*old(self)
                }),
                self.dashboard_system_errors@ == before.union(id_bits(ids@.take(i as int))),
            decreases ids.len() - i,
        {
            self.dashboard_system_errors.insert(ids[i].bits);
            proof {
                let less = ids@.take(i as int);
                let more = ids@.take(i + 1);
                assert forall|bits: u128| id_bits(more).contains(bits) <==> (id_bits(
                    less,
                ).contains(bits) || bits == ids@[i as int].bits) by {
                    if id_bits(more).contains(bits) {
                        let k = choose|k: int|
                            0 <= k < more.len() && (#[trigger] more[k]).bits == bits;
                        if k < i {
                            assert(less[k].bits == bits);
                        }
                    }
                    if id_bits(less).contains(bits) {
                        let k = choose|k: int|
                            0 <= k < less.len() && (#[trigger] less[k]).bits == bits;
                        assert(more[k].bits == bits);
                    }
                    assert(more[i as int].bits == ids@[i as int].bits);
                }
                assert(before.union(id_bits(less)).insert(ids@[i as int].bits) =~= before.union(
                    id_bits(more),
                ));
            }
            i += 1;
        }
        proof {
            assert(ids@.take(ids@.len() as int) =~= ids@);
        }
    }

    /// Takes in a page: sessions that were seen before are left out.
    pub fn ingest_page(&mut self, page: PickerPage)
        ensures
            page_ingested(*old(self), *final(self), page),
    {
        let ghost whole = page;
        let PickerPage {
            rows,
            dashboard_system_errors,
            next_cursor,
            num_scanned_files,
            reached_scan_cap,
        } = page;
        self.pagination.complete_page(next_cursor, num_scanned_files, reached_scan_cap);
        self.note_system_errors(&dashboard_system_errors);
        self.merge_rows(&rows);
        let ghost merged = *self;
        proof {
            assert(page_merged(*old(self), merged, whole));
        }
        self.apply_filter();
    }

    /// Carries out a jump down a page that waited for rows, or waits on.
    pub fn complete_pending_page_down(&mut self)
        ensures
            page_down_completed(*old(self), *final(self)),
    {
        let target: usize = match self.pending_page_down_target {
            Some(target) => target,
            None => {
                return;
            },
        };
        if self.filtered_rows.len() == 0 {
            return;
        }
        let last: usize = self.filtered_rows.len() - 1;
        if target > last && self.pagination.next_cursor.is_some() {
            self.load_more_if_needed(LoadTrigger::Scroll);
            return;
        }
        self.pending_page_down_target = None;
        self.selected = if target < last {
            target
        } else {
            last
        };
        self.ensure_selected_visible();
        self.maybe_load_more_for_scroll();
        self.request_frame();
    }
}

} // verus!
