//! What the picker promises of its operations taken together.

use vstd::prelude::*;
use crate::agents::{
    composer_given, confirms_exit, dashboard_moved, dashboard_restored, inventory_asked,
    is_resume_state, regrouped, submission_taken, EXIT_CONFIRMATION_TIMEOUT,
};
use crate::composer::ComposerEdit;
use crate::composer_keys::{composer_acted, ComposerAction};
use crate::dashboard::{status_of, DashboardGroupMode};
use crate::distinct_rows::same_session;
use crate::events::{
    background_handled, either_token, page_followed, page_handled, transcript_handled,
    BackgroundEvent,
};
use crate::filter::{
    arranged, by_key, by_thread, first_of, is_fallback_row, is_listing, is_shown, lemma_first_from,
    lemma_selection_in, needs_fallback, refiltered, selected_key,
};
use crate::ids::{thread_id_of, ThreadId};
use crate::keyboard::{
    composed, effective_key, has_draft, key_action, key_handled, moved, option_changed,
    quietly_acted, ready_for, shortened, KeyAction, KeyOutcome,
};
use crate::keys::{is_control_char, pressed, KeyEvent, ListKeymap};
use crate::launch::{is_opened, SessionPickerRunOptions};
use crate::live_rows::{notified, row_updated, status_noted, RowUpdate};
use crate::pagination::PaginationState;
use crate::paths::SessionPath;
use crate::picker::PickerState;
use crate::protocol::{ServerNotification, ThreadStatus};
use crate::render_row::Palette;
use crate::row::{same_key, Row, SeenRowKey};
use crate::run::{made_ready, Screen};
use crate::search::{
    is_other_search, page_down_completed, page_ingested, query_cleared, query_set, reselected,
    search_begun, search_continued, search_is_over, PickerPage,
};
use crate::session::{
    DashboardResumeState, SearchState, SessionFilterMode, SessionListDensity, SessionPickerAction,
    SessionPickerViewMode, SessionSelection, SessionStatus, ToolbarControl, TranscriptCells,
    TranscriptPreviewState,
};
use crate::sort::{lemma_rows_sorted, rows_sorted};
use crate::time::Timestamp;
use crate::toolbar::density_toggled;
use crate::transcript::{
    expansion_toggled, on_their_way, opened_if_ready, selected_thread, unknown_threads, view_end,
    visible_previews_asked,
};

verus! {

/// Pressing a toggle twice leaves things as they were.
pub proof fn lemma_toggles_undo_themselves(
    mode: DashboardGroupMode,
    density: SessionListDensity,
    status: SessionStatus,
    filter: SessionFilterMode,
)
    ensures
        mode.other().other() == mode,
        mode.other() != mode,
        density.other().other() == density,
        density.other() != density,
        status.other().other() == status,
        status.other() != status,
        filter.other(true).other(true) == filter,
        filter.other(true) != filter,
        filter.other(false) is All,
{
}

/// The density is kept and found again as it was.
pub proof fn lemma_density_is_kept(density: SessionListDensity, mode: SessionPickerViewMode)
    ensures
        SessionListDensity::of_view_mode(density.view_mode()) == density,
        SessionListDensity::of_view_mode(mode).view_mode() == mode,
{
}

/// The focus comes back from where it was moved. Where sessions are forked there is no control for
/// their status.
pub proof fn lemma_focus_comes_back(control: ToolbarControl, action: SessionPickerAction)
    requires
        action is Resume || !(control is Status),
    ensures
        control.after(action).before(action) == control,
        control.before(action).after(action) == control,
        action is Fork ==> !(control.after(action) is Status) && !(control.before(
            action,
        ) is Status),
{
}

/// Control and C leave the picker and end the wait for a transcript; only the dashboard asks
/// first.
pub proof fn lemma_control_c_exits(
    before: PickerState,
    after: PickerState,
    key: KeyEvent,
    outcome: KeyOutcome,
)
    requires
        key_handled(before, after, key, outcome),
        is_control_char(key, 'c'),
        !before.is_dashboard() || before.pending_transcript_open is Some,
    ensures
        outcome == KeyOutcome::Selected(SessionSelection::Exit),
{
}

/// No single key exits the dashboard: it exits only on control and C without a draft, and only
/// where a press before asked for that and its time is not over.
pub proof fn lemma_one_press_stays_on_dashboard(
    before: PickerState,
    after: PickerState,
    key: KeyEvent,
    outcome: KeyOutcome,
)
    requires
        key_handled(before, after, key, outcome),
        before.is_dashboard(),
        before.pending_transcript_open is None,
    ensures
        outcome == KeyOutcome::Selected(SessionSelection::Exit) ==> is_control_char(key, 'c')
            && !has_draft(before) && confirms_exit(before, before.clock_millis),
{
    let ready = ready_for(before, key);
    if let KeyAction::Compose { action } = key_action(ready, effective_key(before, key)) {
        let acted = choose|acted: PickerState|
            #![trigger composer_acted(ready, acted, action)]
            composer_acted(ready, acted, action) && match outcome {
                KeyOutcome::Continue => submission_taken(acted, after, None),
                KeyOutcome::Selected(chosen) => submission_taken(acted, after, Some(chosen)),
                _ => false,
            };
        assert(composer_acted(ready, acted, action));
    }
}

/// Control and C drop the draft of the dashboard and leave everything else as it is.
pub proof fn lemma_control_c_drops_draft(
    before: PickerState,
    after: PickerState,
    key: KeyEvent,
    outcome: KeyOutcome,
)
    requires
        key_handled(before, after, key, outcome),
        before.is_dashboard(),
        before.pending_transcript_open is None,
        is_control_char(key, 'c'),
        has_draft(before),
    ensures
        outcome is Continue,
        !has_draft(after),
        after.dashboard_composer is Some,
        after.dashboard_composer->0.text@.len() == 0,
        after.dashboard_composer->0.edits@.last() matches ComposerEdit::SetText(text)
            && text@.len() == 0,
        after.dashboard_exit_confirmation_expires_at
            == before.dashboard_exit_confirmation_expires_at,
{
    reveal_strlit("");
}

/// The dashboard takes `key` as it is, and nothing is drafted.
pub open spec fn waits_for_exit_key(state: PickerState, key: KeyEvent) -> bool {
    &&& state.is_dashboard()
    &&& state.pending_transcript_open is None
    &&& !has_draft(state)
    &&& effective_key(state, key) == key
}

/// Two presses of control and C without a draft exit the dashboard where the second comes within
/// three seconds, and no later one does. Of what happens between them only the wait matters. A key
/// that is bound to open the selected session does that instead.
pub proof fn lemma_two_presses_exit_dashboard(
    first: PickerState,
    asked: PickerState,
    second: PickerState,
    left: PickerState,
    key: KeyEvent,
    first_outcome: KeyOutcome,
    second_outcome: KeyOutcome,
)
    requires
        key_handled(first, asked, key, first_outcome),
        key_handled(second, left, key, second_outcome),
        is_control_char(key, 'c'),
        waits_for_exit_key(first, key),
        waits_for_exit_key(second, key),
        !confirms_exit(first, first.clock_millis),
        second.dashboard_exit_confirmation_expires_at
            == asked.dashboard_exit_confirmation_expires_at,
        first.clock_millis <= second.clock_millis,
        first.clock_millis + EXIT_CONFIRMATION_TIMEOUT <= u64::MAX,
    ensures
        first_outcome is Continue,
        second_outcome == KeyOutcome::Selected(SessionSelection::Exit) <==> second.clock_millis
            - first.clock_millis < 3000,
        second_outcome is Continue <==> second.clock_millis - first.clock_millis >= 3000,
{
}

/// A frame keeps the wait for a second press exactly as long as it is not over.
pub proof fn lemma_frame_keeps_exit_wait(before: PickerState, after: PickerState, screen: Screen)
    requires
        made_ready(before, after, screen),
    ensures
        after.clock_millis == before.clock_millis,
        after.dashboard_exit_confirmation_expires_at == if confirms_exit(
            before,
            before.clock_millis,
        ) {
            before.dashboard_exit_confirmation_expires_at
        } else {
            None
        },
{
}

/// The wait for a second press of the exit key, and the clock, are the same in both states.
pub open spec fn same_exit_wait(before: PickerState, after: PickerState) -> bool {
    &&& after.dashboard_exit_confirmation_expires_at
        == before.dashboard_exit_confirmation_expires_at
    &&& after.clock_millis == before.clock_millis
}

proof fn lemma_wait_after_move(before: PickerState, after: PickerState, action: KeyAction)
    requires
        moved(before, after, action),
    ensures
        same_exit_wait(before, after),
{
}

proof fn lemma_wait_after_option(before: PickerState, after: PickerState)
    requires
        option_changed(before, after),
    ensures
        same_exit_wait(before, after),
{
}

proof fn lemma_wait_after_query(before: PickerState, after: PickerState, query: Seq<char>)
    requires
        query_set(before, after, query),
    ensures
        same_exit_wait(before, after),
{
}

proof fn lemma_wait_after_clearing(before: PickerState, after: PickerState)
    requires
        query_cleared(before, after),
    ensures
        same_exit_wait(before, after),
{
}

proof fn lemma_wait_after_quiet_action(before: PickerState, after: PickerState, action: KeyAction)
    requires
        quietly_acted(before, after, action),
    ensures
        same_exit_wait(before, after),
{
    match action {
        KeyAction::ClearDraft => {},
        KeyAction::ToggleSearch => {
            if before.dashboard_search_active {
                lemma_wait_after_clearing(
                    PickerState { dashboard_search_active: false, ..before },
                    after,
                );
            }
        },
        KeyAction::LeaveSearch => {
            lemma_wait_after_clearing(
                PickerState { dashboard_search_active: false, ..before },
                after,
            );
        },
        KeyAction::ToggleGrouping => {},
        KeyAction::MoveDashboard { down } => {
            lemma_wait_after_dashboard_move(before, after, down);
        },
        KeyAction::OpenTranscript => {},
        KeyAction::ToggleExpansion => {},
        KeyAction::FocusNext => {},
        KeyAction::FocusPrevious => {},
        KeyAction::ChangeOption => {
            lemma_wait_after_option(before, after);
        },
        KeyAction::Backspace => {
            lemma_wait_after_query(before, after, shortened(before.query@));
        },
        KeyAction::Archive => {},
        KeyAction::Type { ch } => {
            lemma_wait_after_query(before, after, before.query@.push(ch));
        },
        KeyAction::Nothing => {},
        _ => {
            lemma_wait_after_move(before, after, action);
        },
    }
}

proof fn lemma_wait_after_dashboard_move(before: PickerState, after: PickerState, down: bool)
    requires
        dashboard_moved(before, after, down),
    ensures
        same_exit_wait(before, after),
{
}

proof fn lemma_wait_after_composer_action(
    before: PickerState,
    after: PickerState,
    action: ComposerAction,
)
    requires
        composer_acted(before, after, action),
    ensures
        same_exit_wait(before, after),
{
    if let ComposerAction::Move { down } = action {
        lemma_wait_after_dashboard_move(before, after, down);
    }
}

proof fn lemma_wait_after_submission(
    before: PickerState,
    after: PickerState,
    chosen: Option<SessionSelection>,
)
    requires
        submission_taken(before, after, chosen),
    ensures
        same_exit_wait(before, after),
{
}

proof fn lemma_wait_after_composing(
    before: PickerState,
    after: PickerState,
    action: ComposerAction,
    outcome: KeyOutcome,
)
    requires
        composed(before, after, action, outcome),
    ensures
        same_exit_wait(before, after),
{
    let acted = choose|acted: PickerState|
        #![trigger composer_acted(before, acted, action)]
        composer_acted(before, acted, action) && match outcome {
            KeyOutcome::Continue => submission_taken(acted, after, None),
            KeyOutcome::Selected(chosen) => submission_taken(acted, after, Some(chosen)),
            _ => false,
        };
    lemma_wait_after_composer_action(before, acted, action);
    match outcome {
        KeyOutcome::Selected(chosen) => {
            lemma_wait_after_submission(acted, after, Some(chosen));
        },
        _ => {
            lemma_wait_after_submission(acted, after, None);
        },
    }
}

/// Only control and C touch the wait for a second press among the keys.
pub proof fn lemma_other_keys_keep_exit_wait(
    before: PickerState,
    after: PickerState,
    key: KeyEvent,
    outcome: KeyOutcome,
)
    requires
        key_handled(before, after, key, outcome),
        !is_control_char(key, 'c'),
    ensures
        same_exit_wait(before, after),
{
    if before.pending_transcript_open is None {
        let ready = ready_for(before, key);
        match key_action(ready, effective_key(before, key)) {
            KeyAction::Exit => {},
            KeyAction::ConfirmExit => {},
            KeyAction::Compose { action } => {
                lemma_wait_after_composing(ready, after, action, outcome);
            },
            KeyAction::Cancel => {
                if ready.query@.len() > 0 {
                    lemma_wait_after_clearing(ready, after);
                }
            },
            KeyAction::ToggleDensity => {},
            KeyAction::Accept => {},
            action => {
                lemma_wait_after_quiet_action(ready, after, action);
            },
        }
    }
}

/// Nothing that comes from elsewhere touches the wait for a second press.
#[verifier::rlimit(40)]
pub proof fn lemma_background_keeps_exit_wait(
    before: PickerState,
    after: PickerState,
    event: BackgroundEvent,
    outcome: Result<Option<SessionSelection>, String>,
)
    requires
        background_handled(before, after, event, outcome),
    ensures
        same_exit_wait(before, after),
{
}

/// A dashboard that was just opened waits for no second press.
pub proof fn lemma_opened_dashboard_waits_for_nothing(
    state: PickerState,
    options: SessionPickerRunOptions,
    list_keymap: ListKeymap,
    now: Timestamp,
    palette: Palette,
)
    requires
        is_opened(state, options, list_keymap, now, palette),
    ensures
        !confirms_exit(state, state.clock_millis),
{
}

/// While a transcript is waited for, a key that neither exits nor calls it off does nothing but
/// drop the error that is shown.
pub proof fn lemma_loading_takes_no_input(
    before: PickerState,
    after: PickerState,
    key: KeyEvent,
    outcome: KeyOutcome,
)
    requires
        key_handled(before, after, key, outcome),
        before.pending_transcript_open is Some,
        !is_control_char(key, 'c'),
        !pressed(before.list_keymap.cancel@, key),
    ensures
        after == (PickerState { inline_error: None, ..before }),
        outcome is Continue,
{
}

/// A transcript opens over the picker only after a frame showed that it is waited for.
pub proof fn lemma_transcript_opens_after_frame(state: PickerState)
    ensures
        opened_if_ready(state).overlay != state.overlay ==> state.transcript_loading_frame_shown
            && state.pending_transcript_open is Some,
{
}

/// A transcript that comes before the frame is kept and opens nothing.
pub proof fn lemma_early_transcript_waits(
    before: PickerState,
    after: PickerState,
    thread_id: ThreadId,
    transcript: Result<TranscriptCells, String>,
)
    requires
        transcript_handled(before, after, thread_id, transcript),
        !before.transcript_loading_frame_shown,
    ensures
        after.overlay == before.overlay,
        transcript is Ok ==> after.pending_transcript_open == before.pending_transcript_open,
{
}

/// A second press opens what the first closed, and closes what it opened.
pub proof fn lemma_expansion_toggles(first: PickerState, second: PickerState, third: PickerState)
    requires
        expansion_toggled(first, second),
        expansion_toggled(second, third),
        first.expanded_thread_id is None || first.expanded_thread_id == selected_thread(first),
    ensures
        third.expanded_thread_id == first.expanded_thread_id,
{
}

/// A page that is not waited for changes nothing.
pub proof fn lemma_stale_page_is_ignored(
    before: PickerState,
    after: PickerState,
    request_token: usize,
    search_token: Option<usize>,
    page: Result<PickerPage, String>,
    outcome: Result<(), String>,
)
    requires
        page_handled(before, after, request_token, search_token, page, outcome),
        before.pagination.pending is None || before.pagination.pending->0.request_token
            != request_token,
    ensures
        after == before,
        outcome is Ok,
{
}

/// The store is read in place of the database only where the database's first page failed or holds
/// nothing.
pub proof fn lemma_database_page_is_enough(
    before: PickerState,
    after: PickerState,
    request_token: usize,
    search_token: Option<usize>,
    page: Result<PickerPage, String>,
    outcome: Result<(), String>,
)
    requires
        page_handled(before, after, request_token, search_token, page, outcome),
        before.all_rows@.len() > 0 || page is Ok && page->Ok_0.rows@.len() > 0,
    ensures
        after.pagination.mode == before.pagination.mode,
{
    if let Some(pending) = before.pagination.pending {
        if pending.request_token == request_token {
            let waited = PickerState {
                pagination: PaginationState {
                    pending: None,
                    ..before.pagination
                },
                ..before
            };
            let completed = either_token(pending.search_token, search_token);
            if let Ok(page) = page {
                let ingested = choose|ingested: PickerState|
                    #![trigger page_ingested(waited, ingested, page)]
                    page_ingested(waited, ingested, page) && page_followed(
                        ingested,
                        after,
                        completed,
                    );
                assert(ingested.pagination.mode == before.pagination.mode);
                lemma_mode_stays(ingested, after, completed);
            }
        }
    }
}

proof fn lemma_mode_stays(ingested: PickerState, after: PickerState, completed: Option<usize>)
    requires
        page_followed(ingested, after, completed),
    ensures
        after.pagination.mode == ingested.pagination.mode,
{
    let (informed, jumped) = choose|informed: PickerState, jumped: PickerState|
        #![trigger inventory_asked(ingested, informed), page_down_completed(informed, jumped)]
        inventory_asked(ingested, informed) && page_down_completed(
            informed,
            jumped,
        ) && if is_other_search(jumped, completed) {
            after == jumped
        } else {
            search_continued(jumped, after)
        };
    assert(informed.pagination == ingested.pagination);
    lemma_jump_keeps_mode(informed, jumped);
}

proof fn lemma_jump_keeps_mode(before: PickerState, after: PickerState)
    requires
        page_down_completed(before, after),
    ensures
        after.pagination.mode == before.pagination.mode,
{
}

/// Sorting moves rows, it neither adds nor drops any.
pub proof fn lemma_arranged(state: PickerState, list: Seq<Row>, row: Row)
    ensures
        arranged(state, list).len() == list.len(),
        arranged(state, list).contains(row) == list.contains(row),
{
    broadcast use vstd::seq_lib::group_to_multiset_ensures;

    if state.is_dashboard() {
        lemma_rows_sorted(state.dashboard_group_mode, list, row);
        assert(list.to_multiset().count(row) > 0 <==> list.contains(row));
        assert(rows_sorted(state.dashboard_group_mode, list).to_multiset().count(row) > 0
            <==> rows_sorted(state.dashboard_group_mode, list).contains(row));
    }
}

/// The list shows what is loaded under the present filter and query.
pub open spec fn is_current(state: PickerState) -> bool {
    exists|list: Seq<Row>| #[trigger]
        is_listing(state, list) && state.filtered_rows@ == arranged(state, list)
}

/// What is listed is what is loaded, passes the filter and holds the query; the dashboard may add
/// a row for the directory that it was opened in.
pub proof fn lemma_list_is_what_was_asked_for(state: PickerState, row: Row)
    requires
        is_current(state),
    ensures
        state.all_rows@.contains(row) && is_shown(state)(row) ==> state.filtered_rows@.contains(
            row,
        ),
        state.filtered_rows@.contains(row) ==> (state.all_rows@.contains(row) && is_shown(state)(
            row,
        )) || (needs_fallback(state) && is_fallback_row(row, state.dashboard_fallback_cwd->0)),
{
    let list = choose|list: Seq<Row>| #[trigger]
        is_listing(state, list) && state.filtered_rows@ == arranged(state, list);
    let kept = state.all_rows@.filter(is_shown(state));
    lemma_arranged(state, list, row);
    lemma_filter_keeps(state.all_rows@, is_shown(state), row);
    if needs_fallback(state) {
        assert(list =~= kept.push(list.last()));
        if kept.contains(row) {
            let i = choose|i: int| 0 <= i < kept.len() && kept[i] == row;
            assert(list[i] == row);
        }
        if list.contains(row) {
            let i = choose|i: int| 0 <= i < list.len() && list[i] == row;
            if i < kept.len() {
                assert(kept[i] == row);
            }
        }
    }
}

proof fn lemma_filter_keeps(rows: Seq<Row>, kept: spec_fn(Row) -> bool, row: Row)
    ensures
        rows.filter(kept).contains(row) == (rows.contains(row) && kept(row)),
    decreases rows.len(),
{
    reveal(Seq::filter);
    if rows.len() > 0 {
        let less = rows.drop_last();
        lemma_filter_keeps(less, kept, row);
        assert(rows =~= less.push(rows.last()));
        assert(rows.contains(row) == (less.contains(row) || rows.last() == row)) by {
            if less.contains(row) {
                let i = choose|i: int| 0 <= i < less.len() && less[i] == row;
                assert(rows[i] == row);
            }
            if rows.last() == row {
                assert(rows[rows.len() - 1] == row);
            }
            if rows.contains(row) {
                let i = choose|i: int| 0 <= i < rows.len() && rows[i] == row;
                if i < less.len() {
                    assert(less[i] == row);
                }
            }
        }
        if kept(rows.last()) {
            let some = less.filter(kept);
            let more = some.push(rows.last());
            assert(rows.filter(kept) =~= more);
            if some.contains(row) {
                let i = choose|i: int| 0 <= i < some.len() && some[i] == row;
                assert(more[i] == row);
            }
            if rows.last() == row {
                assert(more[some.len() as int] == row);
            }
            if more.contains(row) {
                let i = choose|i: int| 0 <= i < more.len() && more[i] == row;
                if i < some.len() {
                    assert(some[i] == row);
                }
            }
        } else {
            assert(rows.filter(kept) =~= less.filter(kept));
        }
    }
}

/// What is listed after filtering is what was asked for.
pub proof fn lemma_filtering_is_current(before: PickerState, after: PickerState)
    requires
        refiltered(before, after),
    ensures
        is_current(after),
{
    let list = choose|list: Seq<Row>| #[trigger]
        is_listing(before, list) && after.filtered_rows@ == arranged(before, list);
    assert(is_shown(before) =~= is_shown(after));
    assert(is_listing(after, list));
}

proof fn lemma_found(rows: Seq<Row>, key: SeenRowKey, row: Row)
    requires
        rows.contains(row),
        row.key() is Some,
        same_key(row.key()->0, key),
    ensures
        first_of(rows, by_key(key)) is Some,
        0 <= first_of(rows, by_key(key))->0 < rows.len(),
        rows[first_of(rows, by_key(key))->0].key() is Some,
        same_key(rows[first_of(rows, by_key(key))->0].key()->0, key),
{
    lemma_first_from(rows, by_key(key), 0);
    let i = choose|i: int| 0 <= i < rows.len() && rows[i] == row;
    assert(by_key(key)(rows[i]));
}

/// Filtering keeps the selected session selected as long as it is listed.
pub proof fn lemma_filtering_keeps_session(before: PickerState, after: PickerState, row: Row)
    requires
        refiltered(before, after),
        before.selected < before.filtered_rows@.len(),
        after.filtered_rows@.contains(row),
        same_session(row, before.filtered_rows@[before.selected as int]),
    ensures
        after.selected < after.filtered_rows@.len(),
        same_session(
            after.filtered_rows@[after.selected as int],
            before.filtered_rows@[before.selected as int],
        ),
{
    let key = selected_key(before)->0;
    lemma_found(after.filtered_rows@, key, row);
    lemma_selection_in(before, after.filtered_rows@);
    assert(after.filtered_rows@.len() == after.filtered_rows.len());
}

/// Clearing the query keeps the selected session selected.
pub proof fn lemma_clearing_query_keeps_session(before: PickerState, after: PickerState)
    requires
        is_current(before),
        query_cleared(before, after),
        before.selected < before.filtered_rows@.len(),
        before.filtered_rows@[before.selected as int].key() is Some,
    ensures
        after.selected < after.filtered_rows@.len(),
        same_session(
            after.filtered_rows@[after.selected as int],
            before.filtered_rows@[before.selected as int],
        ),
{
    let row = before.filtered_rows@[before.selected as int];
    let begun = PickerState { query: after.query, search_state: SearchState::Idle, ..before };
    let cleared = choose|cleared: PickerState|
        #![trigger reselected(cleared, after, selected_key(before))]
        refiltered(begun, cleared) && after.query@.len() == 0 && reselected(
            cleared,
            after,
            selected_key(before),
        );
    lemma_list_is_what_was_asked_for(before, row);
    assert(before.filtered_rows@.contains(row));
    lemma_filtering_is_current(begun, cleared);
    assert(is_shown(cleared)(row));
    assert(cleared.all_rows == before.all_rows);
    lemma_list_is_what_was_asked_for(cleared, row);
    lemma_found(cleared.filtered_rows@, row.key()->0, row);
    assert(cleared.filtered_rows@.len() == cleared.filtered_rows.len());
}

/// Grouping the dashboard another way keeps the selected session selected.
pub proof fn lemma_grouping_keeps_session(
    before: PickerState,
    after: PickerState,
    mode: DashboardGroupMode,
)
    requires
        regrouped(before, after, mode),
        before.selected < before.filtered_rows@.len(),
        before.filtered_rows@[before.selected as int].key() is Some,
    ensures
        after.selected < after.filtered_rows@.len(),
        same_session(
            after.filtered_rows@[after.selected as int],
            before.filtered_rows@[before.selected as int],
        ),
{
    let row = before.filtered_rows@[before.selected as int];
    lemma_arranged(
        PickerState { dashboard_group_mode: mode, ..before },
        before.filtered_rows@,
        row,
    );
    lemma_found(after.filtered_rows@, row.key()->0, row);
    assert(after.filtered_rows@.len() == after.filtered_rows.len());
}

/// A dashboard that lost its connection is opened again with its draft and its grouping, and is
/// told which session and which directory were selected.
pub proof fn lemma_dashboard_survives_reconnect(
    lost: PickerState,
    resume: DashboardResumeState,
    fresh: PickerState,
    given: PickerState,
    restored: PickerState,
    cwd: SessionPath,
)
    requires
        is_resume_state(resume, lost),
        fresh.is_dashboard(),
        composer_given(fresh, given, cwd),
        dashboard_restored(given, restored, resume),
    ensures
        restored.dashboard_composer is Some,
        lost.dashboard_composer is Some ==> restored.dashboard_composer->0.text@
            == lost.dashboard_composer->0.text@,
        restored.dashboard_group_mode == lost.dashboard_group_mode,
        lost.selected < lost.filtered_rows@.len() ==> restored.dashboard_restore_thread_id
            == lost.filtered_rows@[lost.selected as int].thread_id
            && restored.dashboard_restore_cwd
            == lost.filtered_rows@[lost.selected as int].cwd,
{
    let composer = given.dashboard_composer->0;
    assert(composer.text@ + resume.draft@ =~= resume.draft@);
}

/// The session to come back to is selected as soon as it is listed, where none is selected yet.
pub proof fn lemma_session_is_selected_again(
    before: PickerState,
    after: PickerState,
    thread_id: ThreadId,
    row: Row,
)
    requires
        refiltered(before, after),
        before.dashboard_restore_thread_id == Some(thread_id),
        selected_key(before) is None,
        after.filtered_rows@.contains(row),
        row.thread_id == Some(thread_id),
    ensures
        after.selected < after.filtered_rows@.len(),
        after.filtered_rows@[after.selected as int].thread_id == Some(thread_id),
        after.dashboard_restore_thread_id is None,
{
    let rows = after.filtered_rows@;
    lemma_first_from(rows, by_thread(thread_id), 0);
    let i = choose|i: int| 0 <= i < rows.len() && rows[i] == row;
    assert(by_thread(thread_id)(rows[i]));
    assert(rows.len() == after.filtered_rows.len());
}

/// What was known of a conversation is forgotten when its thread changes its status.
pub proof fn lemma_status_change_forgets_preview(
    before: PickerState,
    after: PickerState,
    thread_id: String,
    status: ThreadStatus,
)
    requires
        notified(before, after, ServerNotification::ThreadStatusChanged { thread_id, status }),
        thread_id_of(thread_id@) is Some,
    ensures
        !after.transcript_previews@.contains_key(thread_id_of(thread_id@)->0.bits),
        after.dashboard_system_errors@.contains(thread_id_of(thread_id@)->0.bits) == (
        status is SystemError),
{
    let id = thread_id_of(thread_id@)->0;
    let noted = choose|noted: PickerState|
        #![trigger status_noted(before, noted, id, status is SystemError)]
        status_noted(before, noted, id, status is SystemError) && row_updated(
            noted,
            after,
            thread_id@,
            RowUpdate::Status(status_of(status)),
        );
    lemma_update_keeps_previews(
        noted,
        after,
        thread_id@,
        RowUpdate::Status(status_of(status)),
    );
}

proof fn lemma_update_keeps_previews(
    before: PickerState,
    after: PickerState,
    thread_id: Seq<char>,
    update: RowUpdate,
)
    requires
        row_updated(before, after, thread_id, update),
    ensures
        after.transcript_previews == before.transcript_previews,
        after.dashboard_system_errors == before.dashboard_system_errors,
{
}

proof fn lemma_on_their_way(
    known: Map<u128, TranscriptPreviewState>,
    ids: Seq<ThreadId>,
    count: nat,
    bits: u128,
)
    requires
        count <= ids.len(),
    ensures
        on_their_way(known, ids, count).contains_key(bits) <==> known.contains_key(bits) || exists|
            i: int,
        |
            0 <= i < count && (#[trigger] ids[i]).bits == bits,
    decreases count,
{
    if count > 0 {
        lemma_on_their_way(known, ids, (count - 1) as nat, bits);
    }
}

/// The thread of a row of whose conversation nothing is known is among those to ask for.
pub proof fn lemma_unknown_are_asked(state: PickerState, first: int, end: int, at: int)
    requires
        0 <= first <= at < end <= state.filtered_rows@.len(),
        state.filtered_rows@[at].thread_id is Some,
        !state.transcript_previews@.contains_key(state.filtered_rows@[at].thread_id->0.bits),
    ensures
        exists|i: int|
            0 <= i < unknown_threads(state, first, end).len() && #[trigger] unknown_threads(
                state,
                first,
                end,
            )[i] == state.filtered_rows@[at].thread_id->0,
    decreases end - first,
{
    let before = unknown_threads(state, first, end - 1);
    let all = unknown_threads(state, first, end);
    if at < end - 1 {
        lemma_unknown_are_asked(state, first, end - 1, at);
        let i = choose|i: int|
            0 <= i < before.len() && #[trigger] before[i] == state.filtered_rows@[at].thread_id->0;
        assert(all[i] == before[i]);
    } else {
        assert(all[before.len() as int] == state.filtered_rows@[at].thread_id->0);
    }
}

proof fn lemma_nothing_unknown(state: PickerState, first: int, end: int)
    requires
        0 <= first,
        end <= state.filtered_rows@.len(),
        forall|at: int|
            first <= at < end && (#[trigger] state.filtered_rows@[at]).thread_id is Some
                ==> state.transcript_previews@.contains_key(
                state.filtered_rows@[at].thread_id->0.bits,
            ),
    ensures
        unknown_threads(state, first, end).len() == 0,
    decreases end - first,
{
    if first < end {
        lemma_nothing_unknown(state, first, end - 1);
    }
}

/// The conversations in view are asked for once: asking again for the same view asks for nothing.
pub proof fn lemma_previews_are_asked_once(
    first: PickerState,
    second: PickerState,
    third: PickerState,
)
    requires
        visible_previews_asked(first, second),
        visible_previews_asked(second, third),
    ensures
        third.requests@ == second.requests@,
{
    if first.is_dashboard() && first.view_rows is Some && first.view_rows->0 > 0 {
        let top = first.scroll_top as int;
        let end = view_end(first);
        let ids = unknown_threads(first, top, end);
        assert forall|at: int| top <= at < end && (
        #[trigger] second.filtered_rows@[at]).thread_id is Some implies second.transcript_previews@.contains_key(
            second.filtered_rows@[at].thread_id->0.bits,
        ) by {
            let id = first.filtered_rows@[at].thread_id->0;
            lemma_on_their_way(first.transcript_previews@, ids, ids.len(), id.bits);
            if !first.transcript_previews@.contains_key(id.bits) {
                lemma_unknown_are_asked(first, top, end, at);
                let i = choose|i: int| 0 <= i < ids.len() && #[trigger] ids[i] == id;
                assert(ids[i].bits == id.bits);
            }
        }
        lemma_nothing_unknown(second, top, end);
        assert(third.requests@ =~= second.requests@);
    }
}

/// Changing the density twice leaves it as it was, and never moves the selection.
pub proof fn lemma_density_comes_back(state: PickerState)
    ensures
        density_toggled(density_toggled(state)).density == state.density,
        density_toggled(state).selected == state.selected,
        density_toggled(state).filtered_rows == state.filtered_rows,
{
}

/// A search that goes on waits for a page, and it is over exactly where something is found, the
/// scan is at its limit, or nothing is left to load.
pub proof fn lemma_search_waits_for_a_page(before: PickerState, after: PickerState)
    requires
        search_continued(before, after),
        before.search_state is Active,
    ensures
        after.search_state is Idle <==> search_is_over(before),
        after.search_state is Active ==> after.pagination.pending is Some,
{
}

/// A new query that finds nothing among the loaded rows waits for a page where there is one.
pub proof fn lemma_new_search_waits_for_a_page(found: PickerState, after: PickerState)
    requires
        search_begun(found, after),
    ensures
        after.search_state is Active <==> found.query@.len() > 0 && !search_is_over(found),
        after.search_state is Active ==> after.pagination.pending is Some,
{
}

} // verus!
