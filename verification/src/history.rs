//! The history of prompts and the files that the dashboard's composer asks for.

use vstd::prelude::*;
use crate::agents::is_project_cwd;
use crate::ids::ThreadId;
use crate::paths::SessionPath;
use crate::picker::PickerState;

verus! {

/// A place in the history of prompts; the place itself is kept by number.
#[derive(Clone, Copy, Debug, PartialEq, Eq, Structural)]
pub struct HistoryCursor {
    pub handle: u64,
}

/// A prompt of the history.
#[derive(Debug)]
pub struct HistoryRecord {
    pub text: String,
}

/// An entry of a batch; it has no prompt where that could not be read.
#[derive(Debug)]
pub struct HistoryBatchEntry {
    pub offset: usize,
    pub entry: Option<HistoryRecord>,
}

/// Some entries of the history, and where to go on.
#[derive(Debug)]
pub struct HistoryBatch {
    pub entries: Vec<HistoryBatchEntry>,
    pub next_older_cursor: Option<HistoryCursor>,
}

/// An entry as the composer takes it.
#[derive(Debug)]
pub struct HistoryBatchEntryResponse {
    pub offset: usize,
    pub entry: Option<String>,
}

/// What came of a look into the history.
#[derive(Debug)]
pub enum HistoryLookupResponse {
    Entry { offset: usize, log_id: u64, entry: Option<String> },
    Batch {
        cursor: HistoryCursor,
        log_id: u64,
        entries: Vec<HistoryBatchEntryResponse>,
        next_older_cursor: Option<HistoryCursor>,
    },
    BatchError { cursor: HistoryCursor, log_id: u64 },
}

/// What the composer or its helpers ask of the dashboard.
#[derive(Debug)]
pub enum DashboardAppEvent {
    StartFileSearch { query: String },
    /// Files that were found; they are kept by number.
    FileSearchResult { query: String, matches: u64 },
    LookupMessageHistoryEntry { thread_id: ThreadId, offset: usize, log_id: u64 },
    LookupMessageHistoryBatch { thread_id: ThreadId, cursor: HistoryCursor, log_id: u64 },
    ThreadHistoryEntryResponse { thread_id: ThreadId, event: HistoryLookupResponse },
    Other,
}

/// What is done about it.
#[derive(Debug)]
pub enum DashboardAppAction {
    SearchFiles { cwd: SessionPath, query: String },
    ShowFiles { query: String, matches: u64 },
    LookUpEntry { thread_id: ThreadId, offset: usize, log_id: u64 },
    LookUpBatch { thread_id: ThreadId, cursor: HistoryCursor, log_id: u64 },
    /// The composer takes the response; whether that changes it is told afterwards.
    TellComposer { response: HistoryLookupResponse },
    Nothing,
}

/// `after` and `action` are what becomes of `event`. Nothing is done without a composer, no file is
/// searched without a file search, and no prompt without a history.
pub open spec fn app_event_handled(
    before: PickerState,
    after: PickerState,
    event: DashboardAppEvent,
    has_file_search: bool,
    has_history: bool,
    action: DashboardAppAction,
) -> bool {
    if before.dashboard_composer is None {
        after == before && action is Nothing
    } else {
        match event {
            DashboardAppEvent::StartFileSearch { query } => {
                &&& after == before
                &&& if has_file_search {
                    action matches DashboardAppAction::SearchFiles { cwd, query: asked } && asked
                        == query && is_project_cwd(before, cwd)
                } else {
                    action is Nothing
                }
            },
            DashboardAppEvent::FileSearchResult { query, matches } => {
                &&& after == PickerState { frame_requested: true, ..before }
                &&& action == DashboardAppAction::ShowFiles { query, matches }
            },
            DashboardAppEvent::LookupMessageHistoryEntry { thread_id, offset, log_id } => {
                &&& after == before
                &&& action == if has_history {
                    DashboardAppAction::LookUpEntry { thread_id, offset, log_id }
                } else {
                    DashboardAppAction::Nothing
                }
            },
            DashboardAppEvent::LookupMessageHistoryBatch { thread_id, cursor, log_id } => {
                &&& after == before
                &&& action == if has_history {
                    DashboardAppAction::LookUpBatch { thread_id, cursor, log_id }
                } else {
                    DashboardAppAction::Nothing
                }
            },
            DashboardAppEvent::ThreadHistoryEntryResponse { event, .. } => {
                &&& after == before
                &&& action == if has_history {
                    DashboardAppAction::TellComposer { response: event }
                } else {
                    DashboardAppAction::Nothing
                }
            },
            DashboardAppEvent::Other => after == before && action is Nothing,
        }
    }
}

impl PickerState {
    /// Handles what the composer or its helpers ask for.
    pub fn handle_dashboard_app_event(
        &mut self,
        event: DashboardAppEvent,
        has_file_search: bool,
        has_history: bool,
    ) -> (r: DashboardAppAction)
        ensures
            app_event_handled(*old(self), *final(self), event, has_file_search, has_history, r),
    {
        if self.dashboard_composer.is_none() {
            return DashboardAppAction::Nothing;
        }
        match event {
            DashboardAppEvent::StartFileSearch { query } => {
                if has_file_search {
                    let cwd = self.dashboard_project_cwd();
                    DashboardAppAction::SearchFiles { cwd, query }
                } else {
                    DashboardAppAction::Nothing
                }
            },
            DashboardAppEvent::FileSearchResult { query, matches } => {
                self.request_frame();
                DashboardAppAction::ShowFiles { query, matches }
            },
            DashboardAppEvent::LookupMessageHistoryEntry { thread_id, offset, log_id } => {
                if has_history {
                    DashboardAppAction::LookUpEntry { thread_id, offset, log_id }
                } else {
                    DashboardAppAction::Nothing
                }
            },
            DashboardAppEvent::LookupMessageHistoryBatch { thread_id, cursor, log_id } => {
                if has_history {
                    DashboardAppAction::LookUpBatch { thread_id, cursor, log_id }
                } else {
                    DashboardAppAction::Nothing
                }
            },
            DashboardAppEvent::ThreadHistoryEntryResponse { event, .. } => {
                if has_history {
                    DashboardAppAction::TellComposer { response: event }
                } else {
                    DashboardAppAction::Nothing
                }
            },
            DashboardAppEvent::Other => DashboardAppAction::Nothing,
        }
    }

    /// Takes note of whether a response changed the composer.
    pub fn finish_history_response(&mut self, updated: bool)
        ensures
            *final(self) == (PickerState {
                frame_requested: old(self).frame_requested || updated,
                ..*old(self)
            }),
    {
        if updated {
            self.request_frame();
        }
    }
}

/// `response` is what becomes of a look for one prompt.
pub open spec fn is_entry_response(
    response: DashboardAppEvent,
    thread_id: ThreadId,
    offset: usize,
    log_id: u64,
    found: Option<HistoryRecord>,
) -> bool {
    response == (DashboardAppEvent::ThreadHistoryEntryResponse {
        thread_id,
        event: HistoryLookupResponse::Entry {
            offset,
            log_id,
            entry: match found {
                Some(record) => Some(record.text),
                None => None,
            },
        },
    })
}

/// The response to a look for one prompt. A look that failed finds none.
pub fn entry_response(
    thread_id: ThreadId,
    offset: usize,
    log_id: u64,
    found: Option<HistoryRecord>,
) -> (r: DashboardAppEvent)
    ensures
        is_entry_response(r, thread_id, offset, log_id, found),
{
    let entry = match found {
        Some(record) => Some(record.text),
        None => None,
    };
    DashboardAppEvent::ThreadHistoryEntryResponse {
        thread_id,
        event: HistoryLookupResponse::Entry { offset, log_id, entry },
    }
}

/// `responses` are `entries`, each with the text of its prompt.
pub open spec fn are_responses_for(
    responses: Seq<HistoryBatchEntryResponse>,
    entries: Seq<HistoryBatchEntry>,
) -> bool {
    &&& responses.len() == entries.len()
    &&& forall|i: int|
        0 <= i < responses.len() ==> (#[trigger] responses[i]) == HistoryBatchEntryResponse {
            offset: entries[i].offset,
            entry: match entries[i].entry {
                Some(record) => Some(record.text),
                None => None,
            },
        }
}

fn entry_responses(entries: Vec<HistoryBatchEntry>) -> (r: Vec<HistoryBatchEntryResponse>)
    ensures
        are_responses_for(r@, entries@),
{
    let ghost all = entries@;
    let mut left = entries;
    let mut responses: Vec<HistoryBatchEntryResponse> = Vec::new();
    while left.len() > 0
        invariant
            responses@.len() + left@.len() == all.len(),
            left@ == all.skip(responses@.len() as int),
            are_responses_for(responses@, all.take(responses@.len() as int)),
        decreases left.len(),
    {
        let entry = left.remove(0);
        let ghost at = responses@.len() as int;
        proof {
            assert(entry == all[at]);
            assert(all.skip(at).remove(0) =~= all.skip(at + 1));
        }
        responses.push(
            HistoryBatchEntryResponse {
                offset: entry.offset,
                entry: match entry.entry {
                    Some(record) => Some(record.text),
                    None => None,
                },
            },
        );
        proof {
            assert forall|i: int| 0 <= i < responses@.len() implies (#[trigger] responses@[i])
                == (HistoryBatchEntryResponse {
                offset: all.take(at + 1)[i].offset,
                entry: match all.take(at + 1)[i].entry {
                    Some(record) => Some(record.text),
                    None => None,
                },
            }) by {
                if i < at {
                    assert(all.take(at)[i] == all.take(at + 1)[i]);
                }
            }
        }
    }
    proof {
        assert(all.take(all.len() as int) =~= all);
    }
    responses
}

/// `response` is what becomes of a look for a batch of prompts.
pub open spec fn is_batch_response(
    response: DashboardAppEvent,
    thread_id: ThreadId,
    cursor: HistoryCursor,
    log_id: u64,
    found: Option<HistoryBatch>,
) -> bool {
    &&& response is ThreadHistoryEntryResponse
    &&& response->ThreadHistoryEntryResponse_thread_id == thread_id
    &&& match found {
        None => response->event == (HistoryLookupResponse::BatchError { cursor, log_id }),
        Some(batch) => {
            &&& response->event is Batch
            &&& response->event->Batch_cursor == cursor
            &&& response->event->Batch_log_id == log_id
            &&& are_responses_for(response->event->entries@, batch.entries@)
            &&& response->event->next_older_cursor == batch.next_older_cursor
        },
    }
}

/// The response to a look for a batch of prompts; an error where the look failed.
pub fn batch_response(
    thread_id: ThreadId,
    cursor: HistoryCursor,
    log_id: u64,
    found: Option<HistoryBatch>,
) -> (r: DashboardAppEvent)
    ensures
        is_batch_response(r, thread_id, cursor, log_id, found),
{
    let event = match found {
        None => HistoryLookupResponse::BatchError { cursor, log_id },
        Some(batch) => HistoryLookupResponse::Batch {
            cursor,
            log_id,
            entries: entry_responses(batch.entries),
            next_older_cursor: batch.next_older_cursor,
        },
    };
    DashboardAppEvent::ThreadHistoryEntryResponse { thread_id, event }
}

} // verus!
