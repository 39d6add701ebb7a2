//! What holds of a picker whatever happens to it.

use vstd::prelude::*;
use crate::agents::{
    dashboard_moved, exit_wait_expired, group_command, inventory_asked, inventory_of_asked, is_project_cwd, regrouped,
    selection_followed, selection_moved, submission_taken,
};
use crate::archive::{not_thread, ArchiveState};
use crate::composer_keys::{composer_acted, ComposerAction};
use crate::dashboard::{status_of, DashboardGroupMode};
use crate::events::{
    background_handled, either_token, needs_store, page_followed, page_handled, query_with,
    BackgroundEvent,
};
use crate::filter::{
    by_key, by_thread, first_of, found_by_key, index_within, lemma_first_from, lemma_selection_in,
    refiltered, selected_key, showing,
};
use crate::ids::{thread_id_of, ThreadId};
use crate::keyboard::{
    accepted, acted, effective_key, key_action, key_handled, moved, option_changed, page_step,
    quietly_acted, ready_for, shortened, KeyAction, KeyOutcome,
};
use crate::keys::{KeyEvent, ListKeymap};
use crate::launch::{is_opened, SessionPickerRunOptions};
use crate::layout::list_width;
use crate::live_rows::{
    failure_noted, notified, row_added, row_removed, row_updated, rows_shown_again, selected_other,
    selection_restored, status_noted, thread_forgotten, thread_started, updated_row, RowUpdate,
};
use crate::loading::{minimum_rows_asked, next_page_asked, scroll_page_asked};
use crate::metadata::{at_least_zero, smaller};
use crate::pagination::PaginationState;
use crate::paths::SessionPath;
use crate::picker::{routed, PickerState};
use crate::protocol::{AppServerEvent, ServerNotification, Thread};
use crate::render_row::Palette;
use crate::row::{is_row_of, key_in, Row};
use crate::run::{
    burst_noted, list_height, made_ready, terminal_handled, Screen, TerminalEvent, TerminalOutcome,
};
use crate::scroll::{can_look_below, lemma_shown, shown};
use crate::search::{
    is_other_search, page_down_completed, page_ingested, page_merged, query_cleared, query_set,
    reselected, search_begun, search_continued, PickerPage,
};
use crate::session::{LoadTrigger, SearchState, SessionSelection};
use crate::sort::lemma_rows_sorted;
use crate::style::at_most_usize;
use crate::text::words_joined;
use crate::time::Timestamp;
use crate::transcript::{selected_thread, visible_previews_asked, with_view};

verus! {

/// A row is selected and a row is at the top of the view, where there are rows.
pub open spec fn list_is_sound(state: PickerState) -> bool {
    state.filtered_rows@.len() > 0 ==> {
        &&& state.selected < state.filtered_rows@.len()
        &&& state.scroll_top < state.filtered_rows@.len()
    }
}

/// A sound list can be drawn.
pub proof fn lemma_sound_list_can_be_drawn(state: PickerState)
    requires
        list_is_sound(state),
    ensures
        can_look_below(state),
{
}

proof fn lemma_sound_when_shown(state: PickerState)
    requires
        state.filtered_rows@.len() > 0 ==> state.selected < state.filtered_rows@.len(),
    ensures
        list_is_sound(shown(state)),
{
    if state.filtered_rows@.len() > 0 {
        lemma_shown(state);
    }
}

proof fn lemma_sound_refiltered(before: PickerState, after: PickerState)
    requires
        refiltered(before, after),
    ensures
        list_is_sound(after),
{
    lemma_selection_in(before, after.filtered_rows@);
    assert(after.filtered_rows@.len() == after.filtered_rows.len());
    lemma_sound_when_shown(showing(before, after.filtered_rows));
}

proof fn lemma_sound_page_asked(before: PickerState, after: PickerState, trigger: LoadTrigger)
    requires
        list_is_sound(before),
        next_page_asked(before, after, trigger),
    ensures
        list_is_sound(after),
        after.filtered_rows == before.filtered_rows,
        after.selected == before.selected,
{
}

proof fn lemma_sound_scroll_asked(before: PickerState, after: PickerState)
    requires
        scroll_page_asked(before, after),
    ensures
        after.filtered_rows == before.filtered_rows,
        after.selected == before.selected,
        after.scroll_top == before.scroll_top,
{
}

proof fn lemma_sound_query_set(before: PickerState, after: PickerState, query: Seq<char>)
    requires
        list_is_sound(before),
        query_set(before, after, query),
    ensures
        list_is_sound(after),
{
    if before.query@ != query {
        let begun = PickerState { query: after.query, selected: 0, ..before };
        let found = choose|found: PickerState|
            #![trigger search_begun(found, after)]
            refiltered(begun, found) && search_begun(found, after);
        lemma_sound_refiltered(begun, found);
    }
}

proof fn lemma_sound_query_cleared(before: PickerState, after: PickerState)
    requires
        query_cleared(before, after),
    ensures
        list_is_sound(after),
{
    let begun = PickerState {
        query: after.query,
        search_state: SearchState::Idle,
        ..before
    };
    let key = selected_key(before);
    let cleared = choose|cleared: PickerState|
        #![trigger reselected(cleared, after, selected_key(before))]
        refiltered(begun, cleared) && after.query@.len() == 0 && reselected(
            cleared,
            after,
            selected_key(before),
        );
    lemma_sound_refiltered(begun, cleared);
    if let Some(index) = found_by_key(key, cleared.filtered_rows@) {
        lemma_first_from(cleared.filtered_rows@, by_key(key->0), 0);
        assert(cleared.filtered_rows@.len() == cleared.filtered_rows.len());
        lemma_sound_when_shown(PickerState { selected: index as usize, ..cleared });
    }
}

proof fn lemma_sound_regrouped(
    before: PickerState,
    after: PickerState,
    mode: DashboardGroupMode,
)
    requires
        list_is_sound(before),
        regrouped(before, after, mode),
    ensures
        list_is_sound(after),
{
    let rows = after.filtered_rows@;
    if before.is_dashboard() && before.filtered_rows@.len() > 0 {
        lemma_rows_sorted(mode, before.filtered_rows@, before.filtered_rows@[0]);
    } else if before.is_dashboard() {
        let any = arbitrary::<Row>();
        lemma_rows_sorted(mode, before.filtered_rows@, any);
    }
    assert(rows.len() == before.filtered_rows@.len());
    let selected = match found_by_key(selected_key(before), rows) {
        Some(index) => index as usize,
        None => before.selected,
    };
    if let Some(key) = selected_key(before) {
        lemma_first_from(rows, by_key(key), 0);
        assert(rows.len() == after.filtered_rows.len());
    }
    lemma_sound_when_shown(
        PickerState {
            dashboard_group_mode: mode,
            filtered_rows: after.filtered_rows,
            selected,
            scroll_top: selected,
            ..before
        },
    );
}

proof fn lemma_sound_inventory(before: PickerState, after: PickerState)
    requires
        inventory_asked(before, after),
    ensures
        after.filtered_rows == before.filtered_rows,
        after.selected == before.selected,
        after.scroll_top == before.scroll_top,
{
    let cwd = choose|cwd: SessionPath| #[trigger]
        is_project_cwd(before, cwd) && inventory_of_asked(before, after, cwd);
    assert(inventory_of_asked(before, after, cwd));
}

proof fn lemma_sound_dashboard_moved(before: PickerState, after: PickerState, down: bool)
    requires
        list_is_sound(before),
        dashboard_moved(before, after, down),
    ensures
        list_is_sound(after),
{
    let moved = choose|moved: PickerState|
        #![trigger selection_followed(moved, after)]
        selection_followed(moved, after) && if down {
            scroll_page_asked(selection_moved(before, true), moved)
        } else {
            moved == selection_moved(before, false)
        };
    lemma_sound_when_shown(moved);
    lemma_sound_inventory(PickerState { frame_requested: true, ..shown(moved) }, after);
}

proof fn lemma_sound_submission(
    before: PickerState,
    after: PickerState,
    chosen: Option<SessionSelection>,
)
    requires
        list_is_sound(before),
        submission_taken(before, after, chosen),
    ensures
        list_is_sound(after),
{
    if let Some(message) = before.pending_dashboard_submission {
        let rest = PickerState { pending_dashboard_submission: None, ..before };
        if let Some(mode) = group_command(message.text@) {
            lemma_sound_regrouped(rest, after, mode);
        }
    }
}

proof fn lemma_sound_composed(before: PickerState, after: PickerState, action: ComposerAction)
    requires
        list_is_sound(before),
        composer_acted(before, after, action),
    ensures
        list_is_sound(after),
{
    match action {
        ComposerAction::Move { down } => {
            lemma_sound_dashboard_moved(before, after, down);
        },
        ComposerAction::Group { mode } => {
            lemma_sound_regrouped(
                PickerState { dashboard_composer: after.dashboard_composer, ..before },
                after,
                mode,
            );
        },
        _ => {},
    }
}

proof fn lemma_sound_moved(before: PickerState, after: PickerState, action: KeyAction)
    requires
        list_is_sound(before),
        moved(before, after, action),
        action is JumpTop || action is JumpBottom || action is PageDown ==> before.filtered_rows@.len()
            > 0,
    ensures
        list_is_sound(after),
{
    let last = before.filtered_rows@.len() - 1;
    assert(before.filtered_rows@.len() == before.filtered_rows.len());
    let target = at_most_usize(
        before.selected + page_step(before),
    );
    if before.filtered_rows@.len() > 0 {
        if before.selected > 0 {
            lemma_sound_when_shown(
                PickerState { selected: (before.selected - 1) as usize, ..before },
            );
        }
        if before.selected < last {
            lemma_sound_when_shown(
                PickerState { selected: (before.selected + 1) as usize, ..before },
            );
        }
        let up = at_least_zero(
            before.selected - page_step(before),
        );
        lemma_sound_when_shown(PickerState { selected: up as usize, ..before });
        lemma_sound_when_shown(PickerState { selected: 0, ..before });
        lemma_sound_when_shown(PickerState { selected: last as usize, ..before });
        lemma_sound_when_shown(
            PickerState {
                selected: smaller(target, last) as usize,
                ..before
            },
        );
    } else {
        if before.selected > 0 {
            lemma_sound_when_shown(
                PickerState { selected: (before.selected - 1) as usize, ..before },
            );
        }
    }
}

proof fn lemma_sound_option(before: PickerState, after: PickerState)
    requires
        list_is_sound(before),
        option_changed(before, after),
    ensures
        list_is_sound(after),
{
}

proof fn lemma_sound_quietly(before: PickerState, after: PickerState, action: KeyAction)
    requires
        list_is_sound(before),
        quietly_acted(before, after, action),
        action is JumpTop || action is JumpBottom || action is PageDown ==> before.filtered_rows@.len()
            > 0,
    ensures
        list_is_sound(after),
{
    match action {
        KeyAction::ClearDraft => {},
        KeyAction::ToggleSearch => {
            if before.dashboard_search_active {
                lemma_sound_query_cleared(
                    PickerState { dashboard_search_active: false, ..before },
                    after,
                );
            }
        },
        KeyAction::LeaveSearch => {
            lemma_sound_query_cleared(
                PickerState { dashboard_search_active: false, ..before },
                after,
            );
        },
        KeyAction::ToggleGrouping => {
            lemma_sound_regrouped(before, after, before.dashboard_group_mode.other());
        },
        KeyAction::MoveDashboard { down } => {
            lemma_sound_dashboard_moved(before, after, down);
        },
        KeyAction::OpenTranscript => {},
        KeyAction::ToggleExpansion => {},
        KeyAction::FocusNext => {},
        KeyAction::FocusPrevious => {},
        KeyAction::ChangeOption => {
            lemma_sound_option(before, after);
        },
        KeyAction::Backspace => {
            lemma_sound_query_set(
                before,
                after,
                shortened(before.query@),
            );
        },
        KeyAction::Archive => {},
        KeyAction::Type { ch } => {
            lemma_sound_query_set(before, after, before.query@.push(ch));
        },
        KeyAction::Nothing => {},
        _ => {
            lemma_sound_moved(before, after, action);
        },
    }
}

proof fn lemma_sound_accepted(before: PickerState, after: PickerState, outcome: KeyOutcome)
    requires
        list_is_sound(before),
        accepted(before, after, outcome),
    ensures
        list_is_sound(after),
{
    if before.is_dashboard() && group_command(before.query@) is Some {
        lemma_sound_regrouped(
            PickerState {
                query: after.query,
                search_state: SearchState::Idle,
                ..before
            },
            after,
            group_command(before.query@)->0,
        );
    }
}

proof fn lemma_sound_acted(
    before: PickerState,
    after: PickerState,
    action: KeyAction,
    outcome: KeyOutcome,
)
    requires
        list_is_sound(before),
        acted(before, after, action, outcome),
        action is JumpTop || action is JumpBottom || action is PageDown ==> before.filtered_rows@.len()
            > 0,
    ensures
        list_is_sound(after),
{
    match action {
        KeyAction::Exit => {},
        KeyAction::ConfirmExit => {},
        KeyAction::Compose { action } => {
            let acted = choose|acted: PickerState|
                #![trigger composer_acted(before, acted, action)]
                composer_acted(before, acted, action) && match outcome {
                    KeyOutcome::Continue => submission_taken(acted, after, None),
                    KeyOutcome::Selected(chosen) => submission_taken(acted, after, Some(chosen)),
                    _ => false,
                };
            lemma_sound_composed(before, acted, action);
            match outcome {
                KeyOutcome::Selected(chosen) => {
                    lemma_sound_submission(acted, after, Some(chosen));
                },
                _ => {
                    lemma_sound_submission(acted, after, None);
                },
            }
        },
        KeyAction::Cancel => {
            if before.query@.len() > 0 {
                lemma_sound_query_cleared(before, after);
            }
        },
        KeyAction::ToggleDensity => {
            lemma_sound_when_shown(PickerState { density: before.density.other(), ..before });
        },
        KeyAction::Accept => {
            lemma_sound_accepted(before, after, outcome);
        },
        _ => {
            lemma_sound_quietly(before, after, action);
        },
    }
}

/// No key leaves the selection or the view outside the list.
pub proof fn lemma_key_keeps_list_sound(
    before: PickerState,
    after: PickerState,
    key: KeyEvent,
    outcome: KeyOutcome,
)
    requires
        list_is_sound(before),
        key_handled(before, after, key, outcome),
    ensures
        list_is_sound(after),
{
    if before.pending_transcript_open is None {
        let ready = ready_for(before, key);
        let effective = effective_key(before, key);
        lemma_sound_acted(ready, after, key_action(ready, effective), outcome);
    }
}

proof fn lemma_sound_page(
    before: PickerState,
    after: PickerState,
    request_token: usize,
    search_token: Option<usize>,
    page: Result<PickerPage, String>,
    outcome: Result<(), String>,
)
    requires
        list_is_sound(before),
        page_handled(before, after, request_token, search_token, page, outcome),
    ensures
        list_is_sound(after),
{
    if let Some(pending) = before.pagination.pending {
        if pending.request_token == request_token && !needs_store(
            before,
            pending,
            page,
        ) {
            let waited = PickerState {
                pagination: PaginationState {
                    pending: None,
                    ..before.pagination
                },
                ..before
            };
            let completed = either_token(pending.search_token, search_token);
            if let Ok(page) = page {
                let ingested = choose|ingested: PickerState|
                    #![trigger page_ingested(waited, ingested, page)]
                    page_ingested(waited, ingested, page) && page_followed(
                        ingested,
                        after,
                        completed,
                    );
                let merged = choose|merged: PickerState|
                    #![trigger refiltered(merged, ingested)]
                    page_merged(waited, merged, page) && refiltered(merged, ingested);
                lemma_sound_refiltered(merged, ingested);
                lemma_sound_followed(ingested, after, completed);
            }
        }
    }
}

proof fn lemma_sound_followed(
    ingested: PickerState,
    after: PickerState,
    completed: Option<usize>,
)
    requires
        list_is_sound(ingested),
        page_followed(ingested, after, completed),
    ensures
        list_is_sound(after),
{
    let (informed, jumped) = choose|informed: PickerState, jumped: PickerState|
        #![trigger inventory_asked(ingested, informed), page_down_completed(informed, jumped)]
        inventory_asked(ingested, informed) && page_down_completed(informed, jumped) && if
            is_other_search(jumped, completed) {
            after == jumped
        } else {
            search_continued(jumped, after)
        };
    lemma_sound_inventory(ingested, informed);
    lemma_sound_page_down(informed, jumped);
    if !is_other_search(jumped, completed) {
        lemma_sound_search_continued(jumped, after);
    }
}

proof fn lemma_sound_page_down(before: PickerState, after: PickerState)
    requires
        list_is_sound(before),
        page_down_completed(before, after),
    ensures
        list_is_sound(after),
{
    let last = before.filtered_rows@.len() - 1;
    assert(before.filtered_rows@.len() == before.filtered_rows.len());
    if let Some(target) = before.pending_page_down_target {
        if last >= 0 {
            if target > last && before.pagination.next_cursor is Some {
                lemma_sound_page_asked(before, after, LoadTrigger::Scroll);
            } else {
                let landed = PickerState {
                    pending_page_down_target: None,
                    selected: smaller(target as int, last) as usize,
                    ..before
                };
                lemma_sound_when_shown(landed);
                lemma_sound_scroll_asked(shown(landed), after);
            }
        }
    }
}

proof fn lemma_sound_search_continued(before: PickerState, after: PickerState)
    requires
        list_is_sound(before),
        search_continued(before, after),
    ensures
        list_is_sound(after),
{
}

proof fn lemma_sound_shown_again(
    changed: PickerState,
    after: PickerState,
    selected: Option<ThreadId>,
)
    requires
        rows_shown_again(changed, after, selected),
    ensures
        list_is_sound(after),
{
    let filtered = choose|filtered: PickerState|
        #![trigger refiltered(changed, filtered)]
        refiltered(changed, filtered) && after == selection_restored(filtered, selected);
    lemma_sound_refiltered(changed, filtered);
    let rows = filtered.filtered_rows@;
    assert(rows.len() == filtered.filtered_rows.len());
    if let Some(thread_id) = selected {
        lemma_first_from(rows, by_thread(thread_id), 0);
    }
    let index = match selected {
        Some(thread_id) => match first_of(rows, by_thread(thread_id)) {
            Some(index) => index,
            None => filtered.selected as int,
        },
        None => filtered.selected as int,
    };
    lemma_sound_when_shown(
        PickerState { selected: index_within(index, rows) as usize, ..filtered },
    );
}

proof fn lemma_sound_row_updated(
    before: PickerState,
    after: PickerState,
    thread_id: Seq<char>,
    update: RowUpdate,
)
    requires
        list_is_sound(before),
        row_updated(before, after, thread_id, update),
    ensures
        list_is_sound(after),
{
    let found = match thread_id_of(thread_id) {
        Some(thread_id) => first_of(before.all_rows@, by_thread(thread_id)),
        None => None,
    };
    if let Some(index) = found {
        let selected = selected_thread(before);
        let changed = choose|changed: PickerState|
            #![trigger rows_shown_again(changed, after, selected_thread(before))]
            changed == (PickerState { all_rows: changed.all_rows, ..before })
                && changed.all_rows@ == before.all_rows@.update(
                index,
                updated_row(before.all_rows@[index], update, before.current_time),
            ) && rows_shown_again(changed, after, selected_thread(before));
        lemma_sound_shown_again(changed, after, selected);
    }
}

proof fn lemma_sound_notified(
    before: PickerState,
    after: PickerState,
    notification: ServerNotification,
)
    requires
        list_is_sound(before),
        notified(before, after, notification),
    ensures
        list_is_sound(after),
{
    match notification {
        ServerNotification::ThreadStatusChanged { thread_id, status } => {
            if let Some(id) = thread_id_of(thread_id@) {
                let noted = choose|noted: PickerState|
                    #![trigger status_noted(before, noted, id, status is SystemError)]
                    status_noted(before, noted, id, status is SystemError)
                        && row_updated(
                        noted,
                        after,
                        thread_id@,
                        RowUpdate::Status(status_of(status)),
                    );
                lemma_sound_row_updated(
                    noted,
                    after,
                    thread_id@,
                    RowUpdate::Status(status_of(status)),
                );
            }
        },
        ServerNotification::ThreadNameUpdated { thread_id, thread_name } => {
            lemma_sound_row_updated(
                before,
                after,
                thread_id@,
                RowUpdate::Name(thread_name),
            );
        },
        ServerNotification::ThreadArchived { thread_id } => {
            lemma_sound_row_removed(before, after, thread_id@);
        },
        ServerNotification::ThreadDeleted { thread_id } => {
            lemma_sound_row_removed(before, after, thread_id@);
        },
        ServerNotification::ThreadStarted { thread } => {
            lemma_sound_started(before, after, thread);
        },
        _ => {},
    }
}

proof fn lemma_sound_row_removed(before: PickerState, after: PickerState, thread_id: Seq<char>)
    requires
        list_is_sound(before),
        row_removed(before, after, thread_id),
    ensures
        list_is_sound(after),
{
    if let Some(id) = thread_id_of(thread_id) {
        let selected = selected_other(before, thread_id);
        let forgotten = choose|forgotten: PickerState|
            #![trigger thread_forgotten(before, forgotten, id)]
            thread_forgotten(before, forgotten, id) && rows_shown_again(
                forgotten,
                after,
                selected_other(before, thread_id),
            );
        lemma_sound_shown_again(forgotten, after, selected);
    }
}

proof fn lemma_sound_started(
    before: PickerState,
    after: PickerState,
    thread: Thread,
)
    requires
        list_is_sound(before),
        thread_started(before, after, thread),
    ensures
        list_is_sound(after),
{
    if thread.parent_thread_id is None && thread_id_of(thread.id@) is Some {
        let id = thread_id_of(thread.id@)->0;
        let failed = thread.status is SystemError;
        let (noted, row) = choose|noted: PickerState, row: Row|
            #![trigger failure_noted(before, noted, id, failed), is_row_of(row, thread, id, true)]
            failure_noted(before, noted, id, failed) && is_row_of(
                row,
                thread,
                id,
                true,
            ) && row_added(noted, after, row);
        if !(row.key() is Some && key_in(noted.seen_rows@, row.key()->0)) {
            let added = choose|added: PickerState|
                #![trigger refiltered(added, after)]
                added == (PickerState {
                    all_rows: added.all_rows,
                    seen_rows: added.seen_rows,
                    ..noted
                }) && added.all_rows@ == noted.all_rows@.push(row) && added.seen_rows@ == (
                match row.key() {
                    Some(key) => noted.seen_rows@.push(key),
                    None => noted.seen_rows@,
                }) && refiltered(added, after);
            lemma_sound_refiltered(added, after);
        }
    }
}

/// Nothing that happens elsewhere leaves the selection or the view outside the list.
pub proof fn lemma_background_keeps_list_sound(
    before: PickerState,
    after: PickerState,
    event: BackgroundEvent,
    outcome: Result<Option<SessionSelection>, String>,
)
    requires
        list_is_sound(before),
        background_handled(before, after, event, outcome),
    ensures
        list_is_sound(after),
{
    match event {
        BackgroundEvent::Page { request_token, search_token, page } => {
            let told = match outcome {
                Ok(_) => Ok::<(), String>(()),
                Err(error) => Err::<(), String>(error),
            };
            lemma_sound_page(before, after, request_token, search_token, page, told);
        },
        BackgroundEvent::Archive { thread_id, result } => {
            if result is Ok {
                let left = choose|left: PickerState|
                    #![trigger refiltered(left, after)]
                    left == (PickerState {
                        archive_state: ArchiveState::Idle,
                        all_rows: left.all_rows,
                        ..before
                    }) && left.all_rows@ == before.all_rows@.filter(
                        not_thread(thread_id),
                    ) && refiltered(left, after);
                lemma_sound_refiltered(left, after);
            }
        },
        BackgroundEvent::AppServer(event) => {
            if let AppServerEvent::Notification(notification) = event {
                lemma_sound_notified(before, after, notification);
            }
        },
        _ => {},
    }
}

proof fn lemma_sound_made_ready(
    before: PickerState,
    after: PickerState,
    screen: Screen,
)
    requires
        list_is_sound(before),
        made_ready(before, after, screen),
    ensures
        list_is_sound(after),
{
    let (rested, noted, viewed) = choose|
        rested: PickerState,
        noted: PickerState,
        viewed: PickerState,
    |
        #![trigger exit_wait_expired(before, rested, before.clock_millis), burst_noted(rested, noted, screen.paste_burst), minimum_rows_asked(viewed, after, list_height(screen))]
        {
            &&& exit_wait_expired(before, rested, before.clock_millis)
            &&& burst_noted(rested, noted, screen.paste_burst)
            &&& visible_previews_asked(
                shown(
                    with_view(
                        noted,
                        list_height(screen) as usize,
                        list_width(before, screen.width as int) as u16,
                    ),
                ),
                viewed,
            )
            &&& minimum_rows_asked(viewed, after, list_height(screen))
        };
    lemma_sound_when_shown(
        with_view(
            noted,
            list_height(screen) as usize,
            list_width(before, screen.width as int) as u16,
        ),
    );
}

/// No event of the terminal leaves the selection or the view outside the list.
pub proof fn lemma_terminal_keeps_list_sound(
    before: PickerState,
    after: PickerState,
    event: TerminalEvent,
    outcome: TerminalOutcome,
)
    requires
        list_is_sound(before),
        terminal_handled(before, after, event, outcome),
    ensures
        list_is_sound(after),
{
    match event {
        TerminalEvent::Key { key, matched } => {
            if let Some(key) = routed(key, matched) {
                if before.overlay is None && !(key.kind is Release) {
                    lemma_key_keeps_list_sound(before, after, key, outcome->Key_0);
                }
            }
        },
        TerminalEvent::Paste(pasted) => {
            if before.overlay is None && before.pending_transcript_open is None && !(
            before.dashboard_composer is Some && !before.dashboard_search_active)
                && words_joined(pasted@).len() > 0 {
                lemma_sound_query_set(
                    before,
                    after,
                    query_with(
                        before.query@,
                        words_joined(pasted@),
                    ),
                );
            }
        },
        TerminalEvent::Draw(screen) => {
            if before.overlay is None {
                lemma_sound_made_ready(before, after, screen);
            }
        },
    }
}

/// A picker that was just opened has a sound list.
pub proof fn lemma_opened_list_is_sound(
    state: PickerState,
    options: SessionPickerRunOptions,
    list_keymap: ListKeymap,
    now: Timestamp,
    palette: Palette,
)
    requires
        is_opened(state, options, list_keymap, now, palette),
    ensures
        list_is_sound(state),
{
}

} // verus!
