//! What comes to the picker from elsewhere: loaded pages and conversations, archive results,
//! events of the app server, and pasted text.

use vstd::prelude::*;
use vstd::string::StringExecFns;
use crate::agents::{
    composer_queued, inventory_asked, is_project_cwd, is_resume_state,
};
use crate::archive::{archive_handled, unarchive_handled};
use crate::composer::{ComposerEdit, Inventory};
use crate::ids::ThreadId;
use crate::live_rows::server_event_handled;
use crate::loading::{page_request, token_after};
use crate::pagination::{PaginationState, PendingPage};
use crate::paths::{path_matches, paths_match, SessionPath};
use crate::picker::PickerState;
use crate::protocol::AppServerEvent;
use crate::search::{
    is_other_search, page_down_completed, page_ingested, query_set, search_continued, PickerPage,
};
use crate::session::{
    PageLoadMode, SessionSelection, SessionTarget, SessionTranscriptState, TranscriptCells,
    TranscriptPreviewLine, TranscriptPreviewState,
};
use crate::text::{is_space, is_whitespace, join_words, optional_view, to_chars, words_joined};
use crate::transcript::opened_if_ready;

verus! {

/// Something that was loaded or happened elsewhere.
#[derive(Debug)]
pub enum BackgroundEvent {
    Page {
        request_token: usize,
        search_token: Option<usize>,
        page: Result<PickerPage, String>,
    },
    Preview { thread_id: ThreadId, preview: Result<Vec<TranscriptPreviewLine>, String> },
    Transcript { thread_id: ThreadId, transcript: Result<TranscriptCells, String> },
    Archive { thread_id: ThreadId, result: Result<(), String> },
    Unarchive { thread_id: ThreadId, result: Result<SessionTarget, String> },
    AppServer(AppServerEvent),
    /// The skills, plugins and connectors of the project in `cwd` are loaded.
    DashboardComposerInventory { cwd: SessionPath, inventory: Inventory },
}

pub open spec fn either_token(first: Option<usize>, second: Option<usize>) -> Option<usize> {
    if first is Some {
        first
    } else {
        second
    }
}

fn first_token(first: Option<usize>, second: Option<usize>) -> (r: Option<usize>)
    ensures
        r == either_token(first, second),
{
    match first {
        Some(token) => Some(token),
        None => second,
    }
}

/// The first page of the database's listing is of no use: it failed or holds no rows, and nothing
/// is loaded.
pub open spec fn needs_store(
    state: PickerState,
    pending: PendingPage,
    page: Result<PickerPage, String>,
) -> bool {
    pending.mode is StateDbOnly && state.all_rows@.len() == 0 && !(page is Ok
        && page->Ok_0.rows@.len() > 0)
}

/// `after` is `before` with the first page of the store's listing asked for.
pub open spec fn store_asked(
    before: PickerState,
    after: PickerState,
    search_token: Option<usize>,
) -> bool {
    let pending = PendingPage {
        request_token: before.next_request_token,
        search_token,
        mode: PageLoadMode::StoreDefault,
    };
    &&& after == PickerState {
        next_request_token: token_after(before.next_request_token),
        pagination: PaginationState {
            next_cursor: None,
            num_scanned_files: 0,
            reached_scan_cap: false,
            pending: Some(pending),
            mode: PageLoadMode::StoreDefault,
        },
        requests: after.requests,
        ..before
    }
    &&& after.requests@ == before.requests@.push(page_request(before, None, pending))
}

/// `after` is `ingested`, which took in a page, with what waited for it carried on.
pub open spec fn page_followed(
    ingested: PickerState,
    after: PickerState,
    completed: Option<usize>,
) -> bool {
    exists|informed: PickerState, jumped: PickerState|
        #![trigger inventory_asked(ingested, informed), page_down_completed(informed, jumped)]
        inventory_asked(ingested, informed) && page_down_completed(informed, jumped) && if
            is_other_search(jumped, completed) {
            after == jumped
        } else {
            search_continued(jumped, after)
        }
}

/// `after` is `before` with a page that came. One that is not waited for changes nothing.
pub open spec fn page_handled(
    before: PickerState,
    after: PickerState,
    request_token: usize,
    search_token: Option<usize>,
    page: Result<PickerPage, String>,
    outcome: Result<(), String>,
) -> bool {
    match before.pagination.pending {
        Some(pending) if pending.request_token == request_token => {
            let waited = PickerState {
                pagination: PaginationState { pending: None, ..before.pagination },
                ..before
            };
            let completed = either_token(pending.search_token, search_token);
            if needs_store(before, pending, page) {
                store_asked(waited, after, completed) && outcome is Ok
            } else {
                match page {
                    Err(error) => after == waited && outcome == Err::<(), String>(error),
                    Ok(page) => {
                        &&& outcome is Ok
                        &&& exists|ingested: PickerState|
                            #![trigger page_ingested(waited, ingested, page)]
                            page_ingested(waited, ingested, page) && page_followed(
                                ingested,
                                after,
                                completed,
                            )
                    },
                }
            }
        },
        _ => after == before && outcome is Ok,
    }
}

/// `after` is `before` with a conversation that was loaded, or could not be.
pub open spec fn preview_handled(
    before: PickerState,
    after: PickerState,
    thread_id: ThreadId,
    preview: Result<Vec<TranscriptPreviewLine>, String>,
) -> bool {
    &&& after == PickerState {
        transcript_previews: after.transcript_previews,
        preview_layouts: after.preview_layouts,
        frame_requested: true,
        ..before
    }
    &&& after.transcript_previews@ == before.transcript_previews@.insert(
        thread_id.bits,
        match preview {
            Ok(lines) => TranscriptPreviewState::Loaded(lines),
            Err(_) => TranscriptPreviewState::Failed,
        },
    )
    &&& after.preview_layouts@ == before.preview_layouts@.remove(thread_id.bits)
}

/// `after` is `before` with a transcript that was loaded, or could not be. Where it is waited for,
/// it opens or an error is told.
pub open spec fn transcript_handled(
    before: PickerState,
    after: PickerState,
    thread_id: ThreadId,
    transcript: Result<TranscriptCells, String>,
) -> bool {
    let waited = before.pending_transcript_open == Some(thread_id);
    &&& after.transcript_cells@ == before.transcript_cells@.insert(
        thread_id.bits,
        match transcript {
            Ok(cells) => SessionTranscriptState::Loaded(cells),
            Err(_) => SessionTranscriptState::Failed,
        },
    )
    &&& match transcript {
        Ok(_) => {
            let known = PickerState { transcript_cells: after.transcript_cells, ..before };
            after == PickerState {
                frame_requested: true,
                ..if waited {
                    opened_if_ready(PickerState { pending_transcript_cancellation: None, ..known })
                } else {
                    known
                }
            }
        },
        Err(_) => if waited {
            &&& after == PickerState {
                transcript_cells: after.transcript_cells,
                pending_transcript_cancellation: None,
                pending_transcript_open: None,
                transcript_loading_frame_shown: false,
                inline_error: after.inline_error,
                frame_requested: true,
                ..before
            }
            &&& optional_view(after.inline_error) == Some("Could not load transcript preview"@)
        } else {
            after == PickerState {
                transcript_cells: after.transcript_cells,
                frame_requested: true,
                ..before
            }
        },
    }
}

/// `after` is `before` with the composer told of an inventory, where it is that of the selected
/// project.
pub open spec fn inventory_handled(
    before: PickerState,
    after: PickerState,
    cwd: SessionPath,
    inventory: Inventory,
) -> bool {
    exists|project: SessionPath| #[trigger]
        is_project_cwd(before, project) && if path_matches(cwd, project)
            && before.dashboard_composer is Some {
            &&& after == PickerState {
                dashboard_composer: after.dashboard_composer,
                frame_requested: true,
                ..before
            }
            &&& composer_queued(
                before.dashboard_composer,
                after.dashboard_composer,
                ComposerEdit::SetInventory(inventory),
            )
        } else {
            after == before
        }
}

/// `after` is `before` with an event handled.
pub open spec fn background_handled(
    before: PickerState,
    after: PickerState,
    event: BackgroundEvent,
    outcome: Result<Option<SessionSelection>, String>,
) -> bool {
    match event {
        BackgroundEvent::Page { request_token, search_token, page } => match outcome {
            Ok(chosen) => chosen is None && page_handled(
                before,
                after,
                request_token,
                search_token,
                page,
                Ok(()),
            ),
            Err(error) => page_handled(
                before,
                after,
                request_token,
                search_token,
                page,
                Err(error),
            ),
        },
        BackgroundEvent::Preview { thread_id, preview } => preview_handled(
            before,
            after,
            thread_id,
            preview,
        ) && outcome == Ok::<Option<SessionSelection>, String>(None),
        BackgroundEvent::Transcript { thread_id, transcript } => transcript_handled(
            before,
            after,
            thread_id,
            transcript,
        ) && outcome == Ok::<Option<SessionSelection>, String>(None),
        BackgroundEvent::Archive { thread_id, result } => archive_handled(
            before,
            after,
            thread_id,
            result,
        ) && outcome == Ok::<Option<SessionSelection>, String>(None),
        BackgroundEvent::Unarchive { result, .. } => outcome is Ok && unarchive_handled(
            before,
            after,
            result,
            outcome->Ok_0,
        ),
        BackgroundEvent::AppServer(event) => match outcome {
            Ok(None) => server_event_handled(before, after, event, false),
            Ok(Some(SessionSelection::ReconnectDashboard(resume))) => server_event_handled(
                before,
                after,
                event,
                true,
            ) && is_resume_state(resume, after),
            _ => false,
        },
        BackgroundEvent::DashboardComposerInventory { cwd, inventory } => inventory_handled(
            before,
            after,
            cwd,
            inventory,
        ) && outcome == Ok::<Option<SessionSelection>, String>(None),
    }
}

/// The query with a pasted text behind it, parted by a space.
pub open spec fn query_with(query: Seq<char>, pasted: Seq<char>) -> Seq<char> {
    (if query.len() > 0 && !is_space(query.last()) {
        query.push(' ')
    } else {
        query
    }) + pasted
}

/// `after` is `before` with a text pasted: into the composer of the dashboard, or behind the query.
pub open spec fn pasted_into(before: PickerState, after: PickerState, pasted: String) -> bool {
    if before.pending_transcript_open is Some {
        after == before
    } else if before.dashboard_composer is Some && !before.dashboard_search_active {
        &&& after == PickerState {
            dashboard_composer: after.dashboard_composer,
            frame_requested: true,
            ..before
        }
        &&& composer_queued(
            before.dashboard_composer,
            after.dashboard_composer,
            ComposerEdit::Paste(pasted),
        )
    } else if words_joined(pasted@).len() == 0 {
        after == before
    } else {
        query_set(before, after, query_with(before.query@, words_joined(pasted@)))
    }
}

/// The words of a pasted text, parted by single spaces; none where it has none.
pub fn normalize_pasted_search_query(pasted: &str) -> (r: Option<String>)
    ensures
        optional_view(r) == if words_joined(pasted@).len() == 0 {
            None
        } else {
            Some(words_joined(pasted@))
        },
{
    let words = join_words(pasted);
    if words.as_str().is_empty() {
        None
    } else {
        Some(words)
    }
}

impl PickerState {
    fn restart_from_store(&mut self, search_token: Option<usize>)
        ensures
            store_asked(*old(self), *final(self), search_token),
    {
        let request_token: usize = self.allocate_request_token();
        self.pagination.reset();
        let mode = PageLoadMode::StoreDefault;
        self.pagination.start_load(request_token, search_token, mode);
        self.ask_for_page(None, PendingPage { request_token, search_token, mode });
    }

    fn follow_page(&mut self, completed: Option<usize>)
        ensures
            page_followed(*old(self), *final(self), completed),
    {
        self.load_dashboard_composer_inventory();
        let ghost informed = *self;
        self.complete_pending_page_down();
        let ghost jumped = *self;
        self.continue_search_if_token_matches(completed);
        proof {
            assert(inventory_asked(*old(self), informed));
            assert(page_down_completed(informed, jumped));
        }
    }

    fn take_page(
        &mut self,
        request_token: usize,
        search_token: Option<usize>,
        page: Result<PickerPage, String>,
    ) -> (r: Result<(), String>)
        ensures
            page_handled(*old(self), *final(self), request_token, search_token, page, r),
    {
        let pending = match self.pagination.finish_load(request_token) {
            Some(pending) => pending,
            None => {
                return Ok(());
            },
        };
        let page_has_rows = match &page {
            Ok(page) => page.rows.len() > 0,
            Err(_) => false,
        };
        let completed: Option<usize> = first_token(pending.search_token, search_token);
        let from_db = match pending.mode {
            PageLoadMode::StateDbOnly => true,
            PageLoadMode::StoreDefault => false,
        };
        if from_db && self.all_rows.len() == 0 && !page_has_rows {
            self.restart_from_store(completed);
            return Ok(());
        }
        let ghost waited = *self;
        match page {
            Ok(page) => {
                self.ingest_page(page);
                let ghost ingested = *self;
                self.follow_page(completed);
                proof {
                    assert(page_ingested(waited, ingested, page));
                }
                Ok(())
            },
            Err(error) => Err(error),
        }
    }

    fn take_preview(
        &mut self,
        thread_id: ThreadId,
        preview: Result<Vec<TranscriptPreviewLine>, String>,
    )
        ensures
            preview_handled(*old(self), *final(self), thread_id, preview),
    {
        broadcast use vstd::std_specs::hash::group_hash_axioms;

        let known = match preview {
            Ok(lines) => TranscriptPreviewState::Loaded(lines),
            Err(_) => TranscriptPreviewState::Failed,
        };
        self.transcript_previews.insert(thread_id.bits, known);
        self.preview_layouts.remove(&thread_id.bits);
        self.request_frame();
    }

    fn note_transcript(&mut self, thread_id: ThreadId, known: SessionTranscriptState)
        ensures
            *final(self) == (PickerState {
                transcript_cells: final(self).transcript_cells,
                ..*old(self)
            }),
            final(self).transcript_cells@ == old(self).transcript_cells@.insert(
                thread_id.bits,
                known,
            ),
    {
        broadcast use vstd::std_specs::hash::group_hash_axioms;

        self.transcript_cells.insert(thread_id.bits, known);
    }

    fn take_transcript(&mut self, thread_id: ThreadId, transcript: Result<TranscriptCells, String>)
        ensures
            transcript_handled(*old(self), *final(self), thread_id, transcript),
    {
        let waited = match self.pending_transcript_open {
            Some(pending) => pending == thread_id,
            None => false,
        };
        match transcript {
            Ok(cells) => {
                self.note_transcript(thread_id, SessionTranscriptState::Loaded(cells));
                if waited {
                    self.pending_transcript_cancellation = None;
                    self.open_pending_transcript_if_ready();
                }
                self.request_frame();
            },
            Err(_) => {
                self.note_transcript(thread_id, SessionTranscriptState::Failed);
                if waited {
                    self.pending_transcript_cancellation = None;
                    self.pending_transcript_open = None;
                    self.transcript_loading_frame_shown = false;
                    self.inline_error = Some("Could not load transcript preview".to_owned());
                }
                self.request_frame();
            },
        }
    }

    fn take_inventory(&mut self, cwd: &SessionPath, inventory: Inventory)
        ensures
            inventory_handled(*old(self), *final(self), *cwd, inventory),
    {
        let project = self.dashboard_project_cwd();
        proof {
            assert(is_project_cwd(*self, project));
        }
        if paths_match(cwd, &project) && self.dashboard_composer.is_some() {
            self.queue_edit(ComposerEdit::SetInventory(inventory));
            self.request_frame();
        }
    }

    /// Handles what was loaded or happened elsewhere.
    pub fn handle_background_event(&mut self, event: BackgroundEvent) -> (r: Result<
        Option<SessionSelection>,
        String,
    >)
        ensures
            background_handled(*old(self), *final(self), event, r),
    {
        match event {
            BackgroundEvent::Page { request_token, search_token, page } => {
                match self.take_page(request_token, search_token, page) {
                    Ok(_) => Ok(None),
                    Err(error) => Err(error),
                }
            },
            BackgroundEvent::Preview { thread_id, preview } => {
                self.take_preview(thread_id, preview);
                Ok(None)
            },
            BackgroundEvent::Transcript { thread_id, transcript } => {
                self.take_transcript(thread_id, transcript);
                Ok(None)
            },
            BackgroundEvent::Archive { thread_id, result } => {
                self.handle_archive_result(thread_id, result);
                Ok(None)
            },
            BackgroundEvent::Unarchive { thread_id: _, result } => Ok(
                self.handle_unarchive_result(result),
            ),
            BackgroundEvent::AppServer(event) => {
                if self.handle_app_server_event(event) {
                    Ok(Some(SessionSelection::ReconnectDashboard(self.dashboard_resume_state())))
                } else {
                    Ok(None)
                }
            },
            BackgroundEvent::DashboardComposerInventory { cwd, inventory } => {
                self.take_inventory(&cwd, inventory);
                Ok(None)
            },
        }
    }

    fn query_with_pasted(&self, words: &str) -> (r: String)
        ensures
            r@ == query_with(self.query@, words@),
    {
        let mut longer = self.query.clone();
        let chars = to_chars(self.query.as_str());
        if chars.len() > 0 && !is_whitespace(chars[chars.len() - 1]) {
            longer.push(' ');
        }
        longer.append(words);
        longer
    }

    /// Takes up a pasted text.
    pub fn handle_paste(&mut self, pasted: String)
        ensures
            pasted_into(*old(self), *final(self), pasted),
    {
        if self.is_transcript_loading() {
            return;
        }
        if self.dashboard_composer.is_some() && !self.dashboard_search_active {
            self.queue_edit(ComposerEdit::Paste(pasted));
            self.request_frame();
            return;
        }
        if let Some(words) = normalize_pasted_search_query(pasted.as_str()) {
            let query = self.query_with_pasted(words.as_str());
            self.set_query(query);
        }
    }
}

} // verus!
