//! Cursor-based loading of a listing, one page at a time.

use vstd::prelude::*;
use crate::session::{PageCursor, PageLoadMode};
use crate::style::at_most_usize;

verus! {

/// A page that was asked for and has not come yet.
#[derive(Clone, Copy, Debug, PartialEq, Eq, Structural)]
pub struct PendingPage {
    pub request_token: usize,
    pub search_token: Option<usize>,
    pub mode: PageLoadMode,
}

/// How far a listing has been loaded.
#[derive(Debug)]
pub struct PaginationState {
    pub next_cursor: Option<PageCursor>,
    pub num_scanned_files: usize,
    pub reached_scan_cap: bool,
    pub pending: Option<PendingPage>,
    /// The listing that the cursor belongs to.
    pub mode: PageLoadMode,
}

impl PaginationState {
    /// Nothing has been loaded or asked for.
    pub open spec fn is_fresh(self) -> bool {
        &&& self.next_cursor is None
        &&& self.num_scanned_files == 0
        &&& !self.reached_scan_cap
        &&& self.pending is None
    }

    pub fn new() -> (r: Self)
        ensures
            r.is_fresh(),
            r.mode == PageLoadMode::StoreDefault,
    {
        PaginationState {
            next_cursor: None,
            num_scanned_files: 0,
            reached_scan_cap: false,
            pending: None,
            mode: PageLoadMode::StoreDefault,
        }
    }

    pub fn reset(&mut self)
        ensures
            final(self).is_fresh(),
            final(self).mode == old(self).mode,
    {
        self.next_cursor = None;
        self.num_scanned_files = 0;
        self.reached_scan_cap = false;
        self.pending = None;
    }

    /// Notes that a page was asked for.
    pub fn start_load(
        &mut self,
        request_token: usize,
        search_token: Option<usize>,
        mode: PageLoadMode,
    )
        ensures
            *final(self) == (PaginationState {
                pending: Some(PendingPage { request_token, search_token, mode }),
                mode,
                ..*old(self)
            }),
    {
        self.pending = Some(PendingPage { request_token, search_token, mode });
        self.mode = mode;
    }

    /// Ends the wait for the page with `request_token`. Another page leaves the wait as it is.
    pub fn finish_load(&mut self, request_token: usize) -> (r: Option<PendingPage>)
        ensures
            match old(self).pending {
                Some(pending) if pending.request_token == request_token => {
                    &&& r == Some(pending)
                    &&& *final(self) == (PaginationState { pending: None, ..*old(self) })
                },
                _ => r is None && *final(self) == *old(self),
            },
    {
        match self.pending {
            Some(pending) => {
                if pending.request_token == request_token {
                    self.pending = None;
                    Some(pending)
                } else {
                    None
                }
            },
            None => None,
        }
    }

    /// Takes in where a page ends and what was scanned for it.
    pub fn complete_page(
        &mut self,
        next_cursor: Option<PageCursor>,
        num_scanned_files: usize,
        reached_scan_cap: bool,
    )
        ensures
            *final(self) == (PaginationState {
                next_cursor,
                num_scanned_files: final(self).num_scanned_files,
                reached_scan_cap: old(self).reached_scan_cap || reached_scan_cap,
                ..*old(self)
            }),
            final(self).num_scanned_files == at_most_usize(
                old(self).num_scanned_files + num_scanned_files,
            ),
    {
        self.next_cursor = next_cursor;
        self.num_scanned_files = self.num_scanned_files.saturating_add(num_scanned_files);
        if reached_scan_cap {
            self.reached_scan_cap = true;
        }
    }

    pub fn is_loading(&self) -> (r: bool)
        ensures
            r == (self.pending is Some),
    {
        self.pending.is_some()
    }

    /// The next page can be asked for: there is one, and none is awaited.
    pub open spec fn can_load_more(self) -> bool {
        self.pending is None && self.next_cursor is Some
    }

    pub fn next_page(&self) -> (r: Option<(PageCursor, PageLoadMode)>)
        ensures
            r is Some <==> self.can_load_more(),
            r is Some ==> (r->0).0 == self.next_cursor->0 && (r->0).1 == self.mode,
    {
        if self.pending.is_some() {
            return None;
        }
        match &self.next_cursor {
            Some(cursor) => Some((cursor.clone(), self.mode)),
            None => None,
        }
    }
}

} // verus!
