//! Whatever happens, no session is listed twice.

use vstd::prelude::*;
use crate::agents::{dashboard_moved, inventory_asked, submission_taken};
use crate::archive::{not_thread, ArchiveState};
use crate::composer_keys::{composer_acted, ComposerAction};
use crate::dashboard::status_of;
use crate::distinct_rows::{
    lemma_added_row_is_distinct, lemma_archived_rows_are_distinct, lemma_page_keeps_rows_distinct,
    lemma_reloaded_rows_are_distinct, lemma_removal_keeps_rows_distinct,
    lemma_update_keeps_rows_distinct, rows_are_distinct,
};
use crate::events::{
    background_handled, either_token, needs_store, page_followed, page_handled, query_with,
    BackgroundEvent,
};
use crate::filter::{by_thread, first_of, lemma_first_from, refiltered};
use crate::ids::{thread_id_of, ThreadId};
use crate::keyboard::{
    effective_key, key_action, key_handled, moved, quietly_acted, ready_for, shortened, KeyAction,
    KeyOutcome,
};
use crate::keys::KeyEvent;
use crate::live_rows::{
    failure_noted, notified, row_added, row_removed, row_updated, rows_shown_again,
    selected_other, status_noted, thread_forgotten, thread_started, updated_row, RowUpdate,
};
use crate::pagination::PaginationState;
use crate::picker::{routed, PickerState};
use crate::protocol::{AppServerEvent, ServerNotification, Thread};
use crate::row::{is_row_of, Row};
use crate::run::{made_ready, terminal_handled, Screen, TerminalEvent, TerminalOutcome};
use crate::search::{
    is_other_search, page_down_completed, page_ingested, query_cleared, query_set, search_begun,
    search_continued, PickerPage,
};
use crate::session::SessionSelection;
use crate::text::words_joined;
use crate::transcript::selected_thread;

verus! {

/// The loaded rows are the same, and so are the sessions that are known.
spec fn same_rows(a: PickerState, b: PickerState) -> bool {
    a.all_rows == b.all_rows && a.seen_rows == b.seen_rows
}

proof fn lemma_same_query_set(before: PickerState, after: PickerState, query: Seq<char>)
    requires
        query_set(before, after, query),
    ensures
        same_rows(before, after),
{
    if before.query@ != query {
        let begun = PickerState { query: after.query, selected: 0, ..before };
        let found = choose|found: PickerState|
            #![trigger search_begun(found, after)]
            refiltered(begun, found) && search_begun(found, after);
        assert(same_rows(begun, found));
    }
}

proof fn lemma_same_query_cleared(before: PickerState, after: PickerState)
    requires
        query_cleared(before, after),
    ensures
        same_rows(before, after),
{
}

proof fn lemma_same_dashboard_moved(before: PickerState, after: PickerState, down: bool)
    requires
        dashboard_moved(before, after, down),
    ensures
        same_rows(before, after),
{
}

proof fn lemma_same_composed(before: PickerState, after: PickerState, action: ComposerAction)
    requires
        composer_acted(before, after, action),
    ensures
        same_rows(before, after),
{
    if let ComposerAction::Move { down } = action {
        lemma_same_dashboard_moved(before, after, down);
    }
}

/// Only a change of the toolbar's options touches the loaded rows: it drops them.
proof fn lemma_rows_after_quiet_action(before: PickerState, after: PickerState, action: KeyAction)
    requires
        rows_are_distinct(before),
        quietly_acted(before, after, action),
    ensures
        rows_are_distinct(after),
{
    match action {
        KeyAction::ClearDraft => {},
        KeyAction::ToggleSearch => {
            if before.dashboard_search_active {
                lemma_same_query_cleared(
                    PickerState { dashboard_search_active: false, ..before },
                    after,
                );
            }
        },
        KeyAction::LeaveSearch => {
            lemma_same_query_cleared(
                PickerState { dashboard_search_active: false, ..before },
                after,
            );
        },
        KeyAction::MoveDashboard { down } => {
            lemma_same_dashboard_moved(before, after, down);
        },
        KeyAction::Backspace => {
            lemma_same_query_set(before, after, shortened(before.query@));
        },
        KeyAction::Type { ch } => {
            lemma_same_query_set(before, after, before.query@.push(ch));
        },
        KeyAction::ToggleGrouping => {},
        KeyAction::OpenTranscript => {},
        KeyAction::ToggleExpansion => {},
        KeyAction::FocusNext => {},
        KeyAction::FocusPrevious => {},
        KeyAction::ChangeOption => {},
        KeyAction::Archive => {},
        KeyAction::Nothing => {},
        _ => {
            lemma_same_moved(before, after, action);
        },
    }
}

proof fn lemma_same_moved(before: PickerState, after: PickerState, action: KeyAction)
    requires
        moved(before, after, action),
    ensures
        same_rows(before, after),
{
}

/// No key lists a session twice.
pub proof fn lemma_key_keeps_rows_distinct(
    before: PickerState,
    after: PickerState,
    key: KeyEvent,
    outcome: KeyOutcome,
)
    requires
        rows_are_distinct(before),
        key_handled(before, after, key, outcome),
    ensures
        rows_are_distinct(after),
{
    if before.pending_transcript_open is None {
        let ready = ready_for(before, key);
        let action = key_action(ready, effective_key(before, key));
        assert(same_rows(before, ready));
        match action {
            KeyAction::Exit => {},
            KeyAction::ConfirmExit => {},
            KeyAction::Compose { action } => {
                let composed = choose|composed: PickerState|
                    #![trigger composer_acted(ready, composed, action)]
                    composer_acted(ready, composed, action) && match outcome {
                        KeyOutcome::Continue => submission_taken(composed, after, None),
                        KeyOutcome::Selected(chosen) => submission_taken(
                            composed,
                            after,
                            Some(chosen),
                        ),
                        _ => false,
                    };
                lemma_same_composed(ready, composed, action);
            },
            KeyAction::Cancel => {
                if ready.query@.len() > 0 {
                    lemma_same_query_cleared(ready, after);
                }
            },
            KeyAction::ToggleDensity => {},
            KeyAction::Accept => {},
            _ => {
                lemma_rows_after_quiet_action(ready, after, action);
            },
        }
    }
}

proof fn lemma_same_inventory(before: PickerState, after: PickerState)
    requires
        inventory_asked(before, after),
    ensures
        same_rows(before, after),
{
}

proof fn lemma_same_page_down(before: PickerState, after: PickerState)
    requires
        page_down_completed(before, after),
    ensures
        same_rows(before, after),
{
}

proof fn lemma_same_search_continued(before: PickerState, after: PickerState)
    requires
        search_continued(before, after),
    ensures
        same_rows(before, after),
{
}

proof fn lemma_same_followed(
    ingested: PickerState,
    after: PickerState,
    completed: Option<usize>,
)
    requires
        page_followed(ingested, after, completed),
    ensures
        same_rows(ingested, after),
{
    let (informed, jumped) = choose|informed: PickerState, jumped: PickerState|
        #![trigger inventory_asked(ingested, informed), page_down_completed(informed, jumped)]
        inventory_asked(ingested, informed) && page_down_completed(informed, jumped) && if
            is_other_search(jumped, completed) {
            after == jumped
        } else {
            search_continued(jumped, after)
        };
    lemma_same_inventory(ingested, informed);
    lemma_same_page_down(informed, jumped);
    if !is_other_search(jumped, completed) {
        lemma_same_search_continued(jumped, after);
    }
}

proof fn lemma_rows_after_page(
    before: PickerState,
    after: PickerState,
    request_token: usize,
    search_token: Option<usize>,
    page: Result<PickerPage, String>,
    outcome: Result<(), String>,
)
    requires
        rows_are_distinct(before),
        page_handled(before, after, request_token, search_token, page, outcome),
    ensures
        rows_are_distinct(after),
{
    if let Some(pending) = before.pagination.pending {
        if pending.request_token == request_token && !needs_store(before, pending, page) {
            let waited = PickerState {
                pagination: PaginationState { pending: None, ..before.pagination },
                ..before
            };
            let completed = either_token(pending.search_token, search_token);
            if let Ok(page) = page {
                let ingested = choose|ingested: PickerState|
                    #![trigger page_ingested(waited, ingested, page)]
                    page_ingested(waited, ingested, page) && page_followed(
                        ingested,
                        after,
                        completed,
                    );
                lemma_page_keeps_rows_distinct(waited, ingested, page);
                lemma_same_followed(ingested, after, completed);
            }
        }
    }
}

proof fn lemma_same_shown_again(
    changed: PickerState,
    after: PickerState,
    selected: Option<ThreadId>,
)
    requires
        rows_shown_again(changed, after, selected),
    ensures
        same_rows(changed, after),
{
}

proof fn lemma_rows_after_update(
    before: PickerState,
    after: PickerState,
    thread_id: Seq<char>,
    update: RowUpdate,
)
    requires
        rows_are_distinct(before),
        row_updated(before, after, thread_id, update),
    ensures
        rows_are_distinct(after),
{
    if let Some(id) = thread_id_of(thread_id) {
        if let Some(index) = first_of(before.all_rows@, by_thread(id)) {
            lemma_first_from(before.all_rows@, by_thread(id), 0);
            let changed = choose|changed: PickerState|
                #![trigger rows_shown_again(changed, after, selected_thread(before))]
                changed == (PickerState { all_rows: changed.all_rows, ..before })
                    && changed.all_rows@ == before.all_rows@.update(
                    index,
                    updated_row(before.all_rows@[index], update, before.current_time),
                ) && rows_shown_again(changed, after, selected_thread(before));
            lemma_update_keeps_rows_distinct(
                before.all_rows@,
                before.seen_rows@,
                index,
                update,
                before.current_time,
            );
            lemma_same_shown_again(changed, after, selected_thread(before));
        }
    }
}

proof fn lemma_rows_after_removal(before: PickerState, after: PickerState, thread_id: Seq<char>)
    requires
        rows_are_distinct(before),
        row_removed(before, after, thread_id),
    ensures
        rows_are_distinct(after),
{
    if let Some(id) = thread_id_of(thread_id) {
        let forgotten = choose|forgotten: PickerState|
            #![trigger thread_forgotten(before, forgotten, id)]
            thread_forgotten(before, forgotten, id) && rows_shown_again(
                forgotten,
                after,
                selected_other(before, thread_id),
            );
        lemma_removal_keeps_rows_distinct(before, forgotten, id);
        lemma_same_shown_again(forgotten, after, selected_other(before, thread_id));
    }
}

proof fn lemma_rows_after_start(before: PickerState, after: PickerState, thread: Thread)
    requires
        rows_are_distinct(before),
        thread_started(before, after, thread),
    ensures
        rows_are_distinct(after),
{
    if thread.parent_thread_id is None && thread_id_of(thread.id@) is Some {
        let id = thread_id_of(thread.id@)->0;
        let failed = thread.status is SystemError;
        let (noted, row) = choose|noted: PickerState, row: Row|
            #![trigger failure_noted(before, noted, id, failed), is_row_of(row, thread, id, true)]
            failure_noted(before, noted, id, failed) && is_row_of(row, thread, id, true)
                && row_added(noted, after, row);
        assert(same_rows(before, noted));
        lemma_added_row_is_distinct(noted, after, row);
    }
}

proof fn lemma_rows_after_notification(
    before: PickerState,
    after: PickerState,
    notification: ServerNotification,
)
    requires
        rows_are_distinct(before),
        notified(before, after, notification),
    ensures
        rows_are_distinct(after),
{
    match notification {
        ServerNotification::ThreadStatusChanged { thread_id, status } => {
            if let Some(id) = thread_id_of(thread_id@) {
                let update = RowUpdate::Status(status_of(status));
                let noted = choose|noted: PickerState|
                    #![trigger status_noted(before, noted, id, status is SystemError)]
                    status_noted(before, noted, id, status is SystemError) && row_updated(
                        noted,
                        after,
                        thread_id@,
                        RowUpdate::Status(status_of(status)),
                    );
                assert(same_rows(before, noted));
                lemma_rows_after_update(noted, after, thread_id@, update);
            }
        },
        ServerNotification::ThreadNameUpdated { thread_id, thread_name } => {
            lemma_rows_after_update(before, after, thread_id@, RowUpdate::Name(thread_name));
        },
        ServerNotification::ThreadArchived { thread_id } => {
            lemma_rows_after_removal(before, after, thread_id@);
        },
        ServerNotification::ThreadDeleted { thread_id } => {
            lemma_rows_after_removal(before, after, thread_id@);
        },
        ServerNotification::ThreadStarted { thread } => {
            lemma_rows_after_start(before, after, thread);
        },
        ServerNotification::ThreadUnarchived { .. } => {
            lemma_reloaded_rows_are_distinct(before, after);
        },
        ServerNotification::Other => {},
    }
}

/// Nothing that happens elsewhere lists a session twice.
pub proof fn lemma_background_keeps_rows_distinct(
    before: PickerState,
    after: PickerState,
    event: BackgroundEvent,
    outcome: Result<Option<SessionSelection>, String>,
)
    requires
        rows_are_distinct(before),
        background_handled(before, after, event, outcome),
    ensures
        rows_are_distinct(after),
{
    match event {
        BackgroundEvent::Page { request_token, search_token, page } => {
            let told = match outcome {
                Ok(_) => Ok::<(), String>(()),
                Err(error) => Err::<(), String>(error),
            };
            lemma_rows_after_page(before, after, request_token, search_token, page, told);
        },
        BackgroundEvent::Archive { thread_id, result } => {
            if result is Ok {
                let left = choose|left: PickerState|
                    #![trigger refiltered(left, after)]
                    left == (PickerState {
                        archive_state: ArchiveState::Idle,
                        all_rows: left.all_rows,
                        ..before
                    }) && left.all_rows@ == before.all_rows@.filter(not_thread(thread_id))
                        && refiltered(left, after);
                lemma_archived_rows_are_distinct(before.all_rows@, before.seen_rows@, thread_id);
                assert(same_rows(left, after));
            }
        },
        BackgroundEvent::AppServer(event) => {
            match event {
                AppServerEvent::Notification(notification) => {
                    lemma_rows_after_notification(before, after, notification);
                },
                AppServerEvent::Lagged => {
                    lemma_reloaded_rows_are_distinct(before, after);
                },
                _ => {},
            }
        },
        _ => {},
    }
}

/// No event of the terminal lists a session twice.
pub proof fn lemma_terminal_keeps_rows_distinct(
    before: PickerState,
    after: PickerState,
    event: TerminalEvent,
    outcome: TerminalOutcome,
)
    requires
        rows_are_distinct(before),
        terminal_handled(before, after, event, outcome),
    ensures
        rows_are_distinct(after),
{
    match event {
        TerminalEvent::Key { key, matched } => {
            if let Some(key) = routed(key, matched) {
                if before.overlay is None && !(key.kind is Release) {
                    lemma_key_keeps_rows_distinct(before, after, key, outcome->Key_0);
                }
            }
        },
        TerminalEvent::Paste(pasted) => {
            if before.overlay is None && before.pending_transcript_open is None && !(
            before.dashboard_composer is Some && !before.dashboard_search_active)
                && words_joined(pasted@).len() > 0 {
                lemma_same_query_set(
                    before,
                    after,
                    query_with(before.query@, words_joined(pasted@)),
                );
            }
        },
        TerminalEvent::Draw(screen) => {
            if before.overlay is None {
                lemma_same_made_ready(before, after, screen);
            }
        },
    }
}

proof fn lemma_same_made_ready(before: PickerState, after: PickerState, screen: Screen)
    requires
        made_ready(before, after, screen),
    ensures
        same_rows(before, after),
{
}

} // verus!
