//! Asking the loader for pages of the listing.

use vstd::prelude::*;
use crate::metadata::smaller;
use crate::pagination::{PaginationState, PendingPage};
use crate::paths::{clone_optional_path, SessionPath};
use crate::picker::PickerState;
use crate::progress::{picker_footer_scroll_percent, scroll_progress};
use crate::scroll::{content_rows_of, height_between};
use crate::session::{
    LoadTrigger, PageCursor, PageLoadRequest, PickerLoadRequest, SearchState, SessionFilterMode,
};
use crate::style::at_most_usize;

verus! {

pub const PAGE_SIZE: usize = 25;

pub const LOAD_NEAR_THRESHOLD: usize = 5;

/// The token behind `token`, round the end.
pub open spec fn token_after(token: usize) -> usize {
    if token == usize::MAX {
        0
    } else {
        (token + 1) as usize
    }
}

/// The directory that the listing is asked for.
pub open spec fn cwd_in_force(state: PickerState) -> Option<SessionPath> {
    match state.filter_mode {
        SessionFilterMode::Cwd => state.filter_cwd,
        SessionFilterMode::All => None,
    }
}

/// The request for a page as the picker is set.
pub open spec fn page_request(
    state: PickerState,
    cursor: Option<PageCursor>,
    pending: PendingPage,
) -> PickerLoadRequest {
    PickerLoadRequest::Page(
        PageLoadRequest {
            cursor,
            request_token: pending.request_token,
            search_token: pending.search_token,
            mode: pending.mode,
            cwd_filter: cwd_in_force(state),
            status: state.status,
            provider_filter: state.provider_filter,
            sort_key: state.sort_key,
        },
    )
}

/// The height of the view, as far as the footer knows it.
pub open spec fn footer_height(state: PickerState) -> int {
    match state.view_rows {
        Some(rows) => smaller(rows as int, u16::MAX as int),
        None => 0,
    }
}

/// `after` is `before` with the next page asked for, where there is one and none is awaited; else
/// it is `before`. Whether a frame is asked for is left open.
pub open spec fn next_page_asked(
    before: PickerState,
    after: PickerState,
    trigger: LoadTrigger,
) -> bool {
    if before.pagination.can_load_more() {
        let pending = PendingPage {
            request_token: before.next_request_token,
            search_token: trigger.token(),
            mode: before.pagination.mode,
        };
        &&& after == PickerState {
            frame_requested: after.frame_requested,
            frozen_footer_percent: Some(scroll_progress(before, footer_height(before))),
            next_request_token: token_after(before.next_request_token),
            pagination: PaginationState { pending: Some(pending), ..before.pagination },
            requests: after.requests,
            ..before
        }
        &&& after.requests@ == before.requests@.push(
            page_request(before, before.pagination.next_cursor, pending),
        )
    } else {
        after == PickerState { frame_requested: after.frame_requested, ..before }
    }
}

/// The selected row is near the end of what is loaded, and more can be.
pub open spec fn is_near_end(state: PickerState) -> bool {
    state.pagination.can_load_more() && state.filtered_rows@.len() > 0
        && state.filtered_rows@.len() - (state.selected + 1) <= LOAD_NEAR_THRESHOLD
}

/// `after` is `before` with the next page asked for where the selected row is near the end.
pub open spec fn scroll_page_asked(before: PickerState, after: PickerState) -> bool {
    if is_near_end(before) {
        next_page_asked(before, after, LoadTrigger::Scroll)
    } else {
        after == PickerState { frame_requested: after.frame_requested, ..before }
    }
}

/// `after` is `before` with everything loaded dropped and the first page asked for.
pub open spec fn reloaded(before: PickerState, after: PickerState) -> bool {
    let searching = before.query@.len() > 0;
    let search_token = if searching {
        Some(before.next_search_token)
    } else {
        None
    };
    let pending = PendingPage {
        request_token: before.next_request_token,
        search_token,
        mode: before.initial_page_mode,
    };
    &&& after == PickerState {
        relative_time_reference: Some(before.current_time),
        pagination: PaginationState {
            next_cursor: None,
            num_scanned_files: 0,
            reached_scan_cap: false,
            pending: Some(pending),
            mode: before.initial_page_mode,
        },
        all_rows: after.all_rows,
        filtered_rows: after.filtered_rows,
        seen_rows: after.seen_rows,
        selected: 0,
        pending_page_down_target: None,
        frozen_footer_percent: None,
        search_state: if searching {
            SearchState::Active { token: before.next_search_token }
        } else {
            SearchState::Idle
        },
        next_search_token: if searching {
            token_after(before.next_search_token)
        } else {
            before.next_search_token
        },
        next_request_token: token_after(before.next_request_token),
        frame_requested: true,
        requests: after.requests,
        ..before
    }
    &&& after.all_rows@.len() == 0
    &&& after.filtered_rows@.len() == 0
    &&& after.seen_rows@.len() == 0
    &&& after.requests@ == before.requests@.push(page_request(before, None, pending))
}

impl PickerState {
    pub fn allocate_request_token(&mut self) -> (r: usize)
        ensures
            r == old(self).next_request_token,
            *final(self) == (PickerState {
                next_request_token: token_after(old(self).next_request_token),
                ..*old(self)
            }),
    {
        let token: usize = self.next_request_token;
        self.next_request_token = self.next_request_token.wrapping_add(1);
        token
    }

    pub fn allocate_search_token(&mut self) -> (r: usize)
        ensures
            r == old(self).next_search_token,
            *final(self) == (PickerState {
                next_search_token: token_after(old(self).next_search_token),
                ..*old(self)
            }),
    {
        let token: usize = self.next_search_token;
        self.next_search_token = self.next_search_token.wrapping_add(1);
        token
    }

    pub fn active_cwd_filter(&self) -> (r: Option<SessionPath>)
        ensures
            r == cwd_in_force(*self),
    {
        match self.filter_mode {
            SessionFilterMode::Cwd => clone_optional_path(&self.filter_cwd),
            SessionFilterMode::All => None,
        }
    }

    /// Queues the request for a page.
    pub fn ask_for_page(&mut self, cursor: Option<PageCursor>, pending: PendingPage)
        ensures
            *final(self) == (PickerState { requests: final(self).requests, ..*old(self) }),
            final(self).requests@ == old(self).requests@.push(
                page_request(*old(self), cursor, pending),
            ),
    {
        let request = PageLoadRequest {
            cursor,
            request_token: pending.request_token,
            search_token: pending.search_token,
            mode: pending.mode,
            cwd_filter: self.active_cwd_filter(),
            status: self.status,
            provider_filter: self.provider_filter.clone(),
            sort_key: self.sort_key,
        };
        self.requests.push(PickerLoadRequest::Page(request));
    }

    pub fn reset_pagination(&mut self)
        ensures
            *final(self) == (PickerState {
                pagination: final(self).pagination,
                frozen_footer_percent: None,
                ..*old(self)
            }),
            final(self).pagination.is_fresh(),
            final(self).pagination.mode == old(self).pagination.mode,
    {
        self.pagination.reset();
        self.frozen_footer_percent = None;
    }

    /// Drops everything that is loaded and asks for the first page.
    pub fn start_initial_load(&mut self)
        ensures
            reloaded(*old(self), *final(self)),
    {
        self.relative_time_reference = Some(self.current_time);
        self.reset_pagination();
        self.all_rows.clear();
        self.filtered_rows.clear();
        self.seen_rows.clear();
        self.selected = 0;
        self.pending_page_down_target = None;
        self.frozen_footer_percent = None;
        let search_token: Option<usize> = if self.query.as_str().is_empty() {
            self.search_state = SearchState::Idle;
            None
        } else {
            let token: usize = self.allocate_search_token();
            self.search_state = SearchState::Active { token };
            Some(token)
        };
        let request_token: usize = self.allocate_request_token();
        let mode = self.initial_page_mode;
        self.pagination.start_load(request_token, search_token, mode);
        self.request_frame();
        self.ask_for_page(None, PendingPage { request_token, search_token, mode });
    }

    pub fn freeze_footer_percent(&mut self)
        ensures
            *final(self) == (PickerState {
                frozen_footer_percent: Some(scroll_progress(*old(self), footer_height(*old(self)))),
                ..*old(self)
            }),
    {
        let list_height: u16 = match self.view_rows {
            Some(rows) => if rows < u16::MAX as usize {
                rows as u16
            } else {
                u16::MAX
            },
            None => 0,
        };
        self.frozen_footer_percent = Some(picker_footer_scroll_percent(self, list_height));
    }

    /// Asks for the next page, where there is one and none is awaited.
    pub fn load_more_if_needed(&mut self, trigger: LoadTrigger)
        ensures
            next_page_asked(*old(self), *final(self), trigger),
            final(self).frame_requested == (old(self).frame_requested
                || old(self).pagination.can_load_more()),
    {
        let (cursor, mode) = match self.pagination.next_page() {
            Some(next) => next,
            None => {
                return;
            },
        };
        self.freeze_footer_percent();
        let request_token: usize = self.allocate_request_token();
        let search_token: Option<usize> = match trigger {
            LoadTrigger::Scroll => None,
            LoadTrigger::Search { token } => Some(token),
        };
        self.pagination.start_load(request_token, search_token, mode);
        self.request_frame();
        self.ask_for_page(Some(cursor), PendingPage { request_token, search_token, mode });
    }

    pub fn maybe_load_more_for_scroll(&mut self)
        ensures
            scroll_page_asked(*old(self), *final(self)),
            final(self).frame_requested == (old(self).frame_requested || is_near_end(*old(self))),
    {
        if self.pagination.is_loading() || self.pagination.next_cursor.is_none() {
            return;
        }
        if self.filtered_rows.len() == 0 {
            return;
        }
        let remaining: usize = self.filtered_rows.len().saturating_sub(
            self.selected.saturating_add(1),
        );
        if remaining <= LOAD_NEAR_THRESHOLD {
            self.load_more_if_needed(LoadTrigger::Scroll);
        }
    }

    /// Asks for the next page where what is loaded does not fill a view of `minimum_rows` lines.
    pub fn ensure_minimum_rows_for_view(&mut self, minimum_rows: usize)
        ensures
            minimum_rows_asked(*old(self), *final(self), minimum_rows as int),
    {
        if minimum_rows == 0 {
            return;
        }
        if self.pagination.is_loading() || self.pagination.next_cursor.is_none() {
            return;
        }
        let rendered: usize = if self.filtered_rows.len() == 0 {
            0
        } else {
            self.rendered_height_between(0, self.filtered_rows.len() - 1)
        };
        if rendered >= self.available_content_rows(minimum_rows) {
            return;
        }
        match self.search_state.active_token() {
            Some(token) => self.load_more_if_needed(LoadTrigger::Search { token }),
            None => self.load_more_if_needed(LoadTrigger::Scroll),
        }
    }
}

/// What is loaded does not fill a view of `height` lines, and more can be loaded.
pub open spec fn is_underfilled(state: PickerState, height: int) -> bool {
    &&& height > 0
    &&& state.pagination.can_load_more()
    &&& (if state.filtered_rows@.len() == 0 {
        0
    } else {
        at_most_usize(height_between(state, 0, state.filtered_rows@.len() - 1))
    }) < content_rows_of(state, height)
}

/// `after` is `before` with the next page asked for where what is loaded does not fill a view of
/// `height` lines.
pub open spec fn minimum_rows_asked(before: PickerState, after: PickerState, height: int) -> bool {
    if is_underfilled(before, height) {
        &&& next_page_asked(
            before,
            after,
            match before.search_state {
                SearchState::Active { token } => LoadTrigger::Search { token },
                SearchState::Idle => LoadTrigger::Scroll,
            },
        )
        &&& after.frame_requested
    } else {
        after == before
    }
}

} // verus!
