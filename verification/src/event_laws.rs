//! What becomes of each event: keys with control, keys of the dashboard, what comes from elsewhere,
//! and what the loader hears.

use vstd::prelude::*;
use crate::action_laws::list_stays;
use crate::agents::{exit_pressed, exit_wait_expired, regrouped};
use crate::archive::ArchiveState;
use crate::composer::ComposerEdit;
use crate::composer_keys::{composer_action, composer_acted, ComposerAction};
use crate::events::{background_handled, BackgroundEvent};
use crate::filter::refiltered;
use crate::ids::ThreadId;
use crate::keyboard::{effective_key, key_action, key_handled, ready_for, KeyAction, KeyOutcome};
use crate::keys::{is_control_char, pressed, KeyCode, KeyEvent, KeyModifiers};
use crate::live_laws::{lemma_status_change_changes_status_alone, only_row_changed};
use crate::live_rows::notified;
use crate::loader::{
    enabled, entry_for, is_step_on, LoaderAction, LoaderInput, LoaderReply, Skill, SkillsListEntry,
};
use crate::paths::{components, SessionPath};
use crate::picker::PickerState;
use crate::protocol::{AppServerEvent, ServerNotification, ThreadStatus};
use crate::row::Row;
use crate::run::{
    frame_finished, made_ready, terminal_handled, Screen, TerminalEvent, TerminalOutcome,
};
use crate::session::{
    PickerLoadRequest, SessionPickerViewMode, SessionSelection, SessionTarget,
    SessionTranscriptState, TranscriptCells, TranscriptPreviewLine, TranscriptPreviewState,
};
use crate::text::trimmed;
use crate::transcript::overlay_handled;

verus! {

/// The list of a picker takes the keys: no transcript is waited for, and it is no dashboard.
pub open spec fn takes_keys(state: PickerState) -> bool {
    &&& state.pending_transcript_open is None
    &&& !(state.launch_context is AgentsDashboard)
    &&& !state.dashboard_search_active
}

/// Control and T open the transcript of the selected session, control and E show or fold its
/// details, and control and O change the density; none of them moves the selection or changes the
/// query.
pub proof fn lemma_control_keys_act_on_the_selected_session(
    before: PickerState,
    after: PickerState,
    key: KeyEvent,
    outcome: KeyOutcome,
    thread_id: ThreadId,
)
    requires
        key_handled(before, after, key, outcome),
        takes_keys(before),
        !pressed(before.list_keymap.cancel@, key),
        before.selected < before.filtered_rows@.len(),
        before.filtered_rows@[before.selected as int].thread_id == Some(thread_id),
        is_control_char(key, 't') || is_control_char(key, 'e') || is_control_char(key, 'o'),
    ensures
        is_control_char(key, 't') ==> outcome is Continue && after.pending_transcript_open == Some(
            thread_id,
        ),
        is_control_char(key, 'e') && before.expanded_thread_id != Some(thread_id) ==> outcome
            is Continue && after.expanded_thread_id == Some(thread_id),
        is_control_char(key, 'e') && before.expanded_thread_id == Some(thread_id) ==> outcome
            is Continue && after.expanded_thread_id is None,
        is_control_char(key, 'o') && before.density is Comfortable ==> after.density is Dense,
        is_control_char(key, 'o') && before.density is Dense ==> after.density is Comfortable,
        is_control_char(key, 'o') && before.view_persistence is None ==> outcome is Continue,
        is_control_char(key, 'o') && before.view_persistence is Some && before.density
            is Comfortable ==> outcome == KeyOutcome::KeepDensity(SessionPickerViewMode::Dense),
        is_control_char(key, 'o') && before.view_persistence is Some && before.density is Dense
            ==> outcome == KeyOutcome::KeepDensity(SessionPickerViewMode::Comfortable),
        after.selected == before.selected,
        after.filtered_rows == before.filtered_rows,
        after.query == before.query,
{
}

/// No binding of the list is pressed.
pub open spec fn is_unbound(state: PickerState, key: KeyEvent) -> bool {
    let keymap = state.list_keymap;
    &&& !pressed(keymap.cancel@, key)
    &&& !pressed(keymap.accept@, key)
    &&& !pressed(keymap.move_up@, key)
    &&& !pressed(keymap.move_down@, key)
    &&& !pressed(keymap.move_left@, key)
    &&& !pressed(keymap.move_right@, key)
    &&& !pressed(keymap.page_up@, key)
    &&& !pressed(keymap.page_down@, key)
    &&& !pressed(keymap.jump_top@, key)
    &&& !pressed(keymap.jump_bottom@, key)
}

/// Control and A archive the selected session, where sessions that are not archived are resumed and
/// none is on its way; else they do nothing.
pub proof fn lemma_control_a_archives_the_selected_session(
    before: PickerState,
    after: PickerState,
    key: KeyEvent,
    outcome: KeyOutcome,
    thread_id: ThreadId,
)
    requires
        key_handled(before, after, key, outcome),
        takes_keys(before),
        is_unbound(before, key),
        key.code == KeyCode::Char('a'),
        key.modifiers == (KeyModifiers { shift: false, control: true, alt: false, other: 0 }),
        key.kind is Press,
        before.selected < before.filtered_rows@.len(),
        before.filtered_rows@[before.selected as int].thread_id == Some(thread_id),
    ensures
        outcome is Continue,
        before.action is Resume && before.status is Active && before.archive_state is Idle ==> {
            &&& after.archive_state == ArchiveState::Archiving(thread_id)
            &&& after.requests@.len() == before.requests@.len() + 1
            &&& after.requests@.last() == (PickerLoadRequest::Archive { thread_id })
        },
        before.action is Fork || before.status is Archived || !(before.archive_state is Idle)
            ==> after.requests == before.requests && after.archive_state == before.archive_state,
        after.selected == before.selected,
        after.filtered_rows == before.filtered_rows,
        after.query == before.query,
{
}

/// Tab moves the focus through the controls: filter, status (where sessions are resumed), order, and
/// round; back tab moves it the other way.
pub proof fn lemma_tab_moves_the_focus(
    before: PickerState,
    after: PickerState,
    key: KeyEvent,
    outcome: KeyOutcome,
)
    requires
        key_handled(before, after, key, outcome),
        takes_keys(before),
        is_unbound(before, key),
        key.code is Tab || key.code is BackTab,
    ensures
        outcome is Continue,
        key.code is Tab && before.action is Resume ==> {
            &&& before.toolbar_focus is Filter ==> after.toolbar_focus is Status
            &&& before.toolbar_focus is Status ==> after.toolbar_focus is Sort
            &&& before.toolbar_focus is Sort ==> after.toolbar_focus is Filter
        },
        key.code is Tab && before.action is Fork ==> {
            &&& before.toolbar_focus is Filter ==> after.toolbar_focus is Sort
            &&& before.toolbar_focus is Sort ==> after.toolbar_focus is Filter
        },
        key.code is BackTab && before.action is Resume ==> {
            &&& before.toolbar_focus is Filter ==> after.toolbar_focus is Sort
            &&& before.toolbar_focus is Status ==> after.toolbar_focus is Filter
            &&& before.toolbar_focus is Sort ==> after.toolbar_focus is Status
        },
        after.filtered_rows == before.filtered_rows,
        after.requests == before.requests,
        after.selected == before.selected,
{
}

/// The keys to the left and right change the focused control, and the listing is loaded anew.
pub proof fn lemma_sideways_keys_change_the_focused_control(
    before: PickerState,
    after: PickerState,
    key: KeyEvent,
    outcome: KeyOutcome,
)
    requires
        key_handled(before, after, key, outcome),
        takes_keys(before),
        !pressed(before.list_keymap.cancel@, key),
        !pressed(before.list_keymap.accept@, key),
        !pressed(before.list_keymap.move_up@, key),
        !pressed(before.list_keymap.move_down@, key),
        !pressed(before.list_keymap.page_up@, key),
        !pressed(before.list_keymap.page_down@, key),
        !pressed(before.list_keymap.jump_top@, key),
        !pressed(before.list_keymap.jump_bottom@, key),
        pressed(before.list_keymap.move_left@, key) || pressed(before.list_keymap.move_right@, key),
        key.code is Left || key.code is Right,
    ensures
        outcome is Continue,
        before.toolbar_focus is Sort && before.sort_key is UpdatedAt ==> after.sort_key
            is CreatedAt,
        before.toolbar_focus is Sort && before.sort_key is CreatedAt ==> after.sort_key
            is UpdatedAt,
        before.toolbar_focus is Status && before.status is Active ==> after.status is Archived,
        before.toolbar_focus is Status && before.status is Archived ==> after.status is Active,
        before.toolbar_focus is Filter && before.filter_mode is Cwd ==> after.filter_mode is All,
        before.toolbar_focus is Filter && before.filter_mode is All && before.filter_cwd is Some
            ==> after.filter_mode is Cwd,
        !(before.toolbar_focus is Filter) || before.filter_mode is Cwd || before.filter_cwd is Some
            ==> {
            &&& after.all_rows@.len() == 0
            &&& after.requests@.len() == before.requests@.len() + 1
            &&& after.requests@.last() matches PickerLoadRequest::Page(request)
            &&& request.cursor is None
            &&& request.sort_key == after.sort_key
            &&& request.status == after.status
        },
        before.toolbar_focus is Filter && before.filter_mode is All && before.filter_cwd is None
            ==> after.all_rows == before.all_rows && after.requests == before.requests,
        after.query == before.query,
{
}

/// On the dashboard control and G group another way, control and F open and close the search, and
/// control with the arrows moves the selection.
pub proof fn lemma_dashboard_keys(
    before: PickerState,
    after: PickerState,
    key: KeyEvent,
    outcome: KeyOutcome,
)
    requires
        key_handled(before, after, key, outcome),
        before.launch_context is AgentsDashboard,
        before.pending_transcript_open is None,
        effective_key(before, key) == key,
        is_control_char(key, 'g') || is_control_char(key, 'f') || (key.modifiers.control && (
        key.code is Up || key.code is Down)),
    ensures
        outcome is Continue,
        is_control_char(key, 'g') && before.dashboard_group_mode is Project
            ==> after.dashboard_group_mode is Status,
        is_control_char(key, 'g') && before.dashboard_group_mode is Status
            ==> after.dashboard_group_mode is Project,
        is_control_char(key, 'g') ==> after.filtered_rows@.len() == before.filtered_rows@.len(),
        is_control_char(key, 'f') && !before.dashboard_search_active
            ==> after.dashboard_search_active && after.filtered_rows == before.filtered_rows
            && after.query == before.query,
        is_control_char(key, 'f') && before.dashboard_search_active
            ==> !after.dashboard_search_active && after.query@.len() == 0,
        key.code is Up && before.selected > 0 ==> after.selected == before.selected - 1,
        key.code is Up && before.selected == 0 ==> after.selected == 0,
        key.code is Down && before.selected + 1 < before.filtered_rows@.len() ==> after.selected
            == before.selected + 1,
        key.code is Down && before.selected + 1 >= before.filtered_rows@.len() ==> after.selected
            == before.selected,
        after.all_rows == before.all_rows,
{
    let ready = ready_for(before, key);
    assert(before.filtered_rows@.len() == before.filtered_rows.len());
    if is_control_char(key, 'g') {
        let mode = before.dashboard_group_mode.other();
        assert(regrouped(ready, after, mode));
        if before.filtered_rows@.len() > 0 {
            crate::sort::lemma_rows_sorted(mode, before.filtered_rows@, before.filtered_rows@[0]);
        } else {
            assert(crate::sort::rows_sorted(mode, before.filtered_rows@) =~= before.filtered_rows@);
        }
    } else if is_control_char(key, 'f') {
    } else {
        let down = key.code is Down;
        assert(crate::agents::dashboard_moved(ready, after, down));
        crate::action_laws::lemma_dashboard_selects_the_next_row(ready, after, down);
    }
}

/// Escape leaves the search of the dashboard and lists everything again.
pub proof fn lemma_escape_leaves_the_search(
    before: PickerState,
    after: PickerState,
    key: KeyEvent,
    outcome: KeyOutcome,
)
    requires
        key_handled(before, after, key, outcome),
        before.launch_context is AgentsDashboard,
        before.pending_transcript_open is None,
        before.dashboard_search_active,
        effective_key(before, key) == key,
        key.code is Esc,
    ensures
        outcome is Continue,
        !after.dashboard_search_active,
        after.query@.len() == 0,
        after.all_rows == before.all_rows,
{
}

/// Nothing is drafted and no list of suggestions is open in the dashboard's composer.
pub open spec fn composer_rests(state: PickerState) -> bool {
    &&& state.dashboard_composer is Some
    &&& state.dashboard_composer->0.is_empty
    &&& !state.dashboard_composer->0.popup_active
}

/// A key that the dashboard does not take itself goes to the composer, as it came: what is typed
/// belongs to the draft and changes neither the selection nor the list.
pub proof fn lemma_typed_keys_reach_the_composer(
    before: PickerState,
    after: PickerState,
    key: KeyEvent,
    outcome: KeyOutcome,
)
    requires
        key_handled(before, after, key, outcome),
        before.launch_context is AgentsDashboard,
        before.pending_transcript_open is None,
        !before.dashboard_search_active,
        before.dashboard_composer is Some,
        before.pending_dashboard_submission is None,
        !is_control_char(key, 'c'),
        !is_control_char(key, 'f'),
        !is_control_char(key, 'g'),
        !(key.modifiers.control && (key.code is Up || key.code is Down)),
        !crate::composer::is_paste_image(key),
        !pressed(before.list_keymap.accept@, key),
        composer_rests(before) ==> !pressed(before.list_keymap.move_up@, key) && !pressed(
            before.list_keymap.move_down@,
            key,
        ) && !pressed(before.list_keymap.move_right@, key),
    ensures
        outcome is Continue,
        after.dashboard_composer is Some,
        after.dashboard_composer->0.edits@.len() == before.dashboard_composer->0.edits@.len() + 1,
        after.dashboard_composer->0.edits@.last() == ComposerEdit::HandleKey(key),
        after.query == before.query,
        after.filtered_rows == before.filtered_rows,
        after.selected == before.selected,
{
    let ready = ready_for(before, key);
    let action = ComposerAction::Forward { key };
    assert(key_action(ready, effective_key(before, key)) == KeyAction::Compose { action });
    let acted = choose|acted: PickerState|
        #![trigger composer_acted(ready, acted, action)]
        composer_acted(ready, acted, action) && match outcome {
            KeyOutcome::Continue => crate::agents::submission_taken(acted, after, None),
            KeyOutcome::Selected(chosen) => crate::agents::submission_taken(
                acted,
                after,
                Some(chosen),
            ),
            _ => false,
        };
}

/// Without a draft the dashboard's arrows move the selection.
pub proof fn lemma_arrows_move_on_the_resting_dashboard(
    before: PickerState,
    after: PickerState,
    key: KeyEvent,
    outcome: KeyOutcome,
)
    requires
        key_handled(before, after, key, outcome),
        before.launch_context is AgentsDashboard,
        before.pending_transcript_open is None,
        !before.dashboard_search_active,
        before.pending_dashboard_submission is None,
        composer_rests(before),
        !pressed(before.list_keymap.move_right@, key),
        key.code is Up || key.code is Down,
        key.code is Up ==> pressed(before.list_keymap.move_up@, key),
        key.code is Down ==> pressed(before.list_keymap.move_down@, key) && !pressed(
            before.list_keymap.move_up@,
            key,
        ),
    ensures
        outcome is Continue,
        key.code is Up && before.selected > 0 ==> after.selected == before.selected - 1,
        key.code is Up && before.selected == 0 ==> after.selected == 0,
        key.code is Down && before.selected + 1 < before.filtered_rows@.len() ==> after.selected
            == before.selected + 1,
        key.code is Down && before.selected + 1 >= before.filtered_rows@.len() ==> after.selected
            == before.selected,
        list_stays(before, after),
{
    let ready = ready_for(before, key);
    let down = key.code is Down;
    if key.modifiers.control {
        assert(crate::agents::dashboard_moved(ready, after, down));
        crate::action_laws::lemma_dashboard_selects_the_next_row(ready, after, down);
    } else {
        let action = ComposerAction::Move { down };
        assert(key_action(ready, effective_key(before, key)) == KeyAction::Compose { action });
        let acted = choose|acted: PickerState|
            #![trigger composer_acted(ready, acted, action)]
            composer_acted(ready, acted, action) && match outcome {
                KeyOutcome::Continue => crate::agents::submission_taken(acted, after, None),
                KeyOutcome::Selected(chosen) => crate::agents::submission_taken(
                    acted,
                    after,
                    Some(chosen),
                ),
                _ => false,
            };
        crate::action_laws::lemma_dashboard_selects_the_next_row(ready, acted, down);
        lemma_move_sends_nothing(ready, acted, down);
    }
}

proof fn lemma_move_sends_nothing(before: PickerState, after: PickerState, down: bool)
    requires
        crate::agents::dashboard_moved(before, after, down),
    ensures
        after.pending_dashboard_submission == before.pending_dashboard_submission,
{
}

/// Without a draft the key that accepts opens the selected session of the dashboard in its own
/// directory, and so does the key to the right.
pub proof fn lemma_resting_dashboard_opens_the_selected_session(
    before: PickerState,
    after: PickerState,
    key: KeyEvent,
    outcome: KeyOutcome,
)
    requires
        key_handled(before, after, key, outcome),
        before.launch_context is AgentsDashboard,
        before.pending_transcript_open is None,
        !before.dashboard_search_active,
        before.query@.len() == 0,
        before.action is Resume,
        before.status is Active,
        before.archive_state is Idle,
        composer_rests(before),
        before.list_keymap.is_default(),
        before.selected < before.filtered_rows@.len(),
        before.filtered_rows@[before.selected as int].thread_id is Some,
        key.code is Enter || key.code is Right,
        key.modifiers == crate::keys::no_modifiers(),
        key.kind is Press,
    ensures
        outcome == KeyOutcome::Selected(
            SessionSelection::ResumeInSessionCwd(
                SessionTarget {
                    path: before.filtered_rows@[before.selected as int].path,
                    thread_id: before.filtered_rows@[before.selected as int].thread_id->0,
                },
            ),
        ),
{
    let keymap = before.list_keymap;
    let enter = crate::keys::plain_key(KeyCode::Enter);
    assert(keymap.accept@[0].presses(enter));
    if key.code is Right {
        assert(keymap.move_right@[0].presses(key));
    }
    assert(effective_key(before, key) == enter);
    reveal_strlit("/group project");
    reveal_strlit("/group status");
    assert(crate::text::trimmed(before.query@).len() == 0);
    assert(crate::agents::group_command(before.query@) is None);
    let ready = ready_for(before, key);
    assert(crate::composer_keys::composer_action(ready, enter) is None);
    assert(!pressed(keymap.cancel@, enter));
    assert(key_action(ready, enter) is Accept);
}

/// What was loaded elsewhere reaches what it was loaded for.
pub proof fn lemma_loaded_conversation_is_taken_up(
    before: PickerState,
    after: PickerState,
    thread_id: ThreadId,
    preview: Result<Vec<TranscriptPreviewLine>, String>,
    outcome: Result<Option<SessionSelection>, String>,
)
    requires
        background_handled(before, after, BackgroundEvent::Preview { thread_id, preview }, outcome),
    ensures
        outcome == Ok::<Option<SessionSelection>, String>(None),
        after.transcript_previews@.contains_key(thread_id.bits),
        preview matches Ok(lines) ==> after.transcript_previews@[thread_id.bits]
            == TranscriptPreviewState::Loaded(lines),
        preview is Err ==> after.transcript_previews@[thread_id.bits] is Failed,
        after.filtered_rows == before.filtered_rows,
{
}

/// A transcript that came is kept for its thread and opens where it is waited for.
pub proof fn lemma_loaded_transcript_is_taken_up(
    before: PickerState,
    after: PickerState,
    thread_id: ThreadId,
    transcript: Result<TranscriptCells, String>,
    outcome: Result<Option<SessionSelection>, String>,
)
    requires
        background_handled(
            before,
            after,
            BackgroundEvent::Transcript { thread_id, transcript },
            outcome,
        ),
    ensures
        outcome == Ok::<Option<SessionSelection>, String>(None),
        after.transcript_cells@.contains_key(thread_id.bits),
        transcript matches Ok(cells) ==> after.transcript_cells@[thread_id.bits]
            == SessionTranscriptState::Loaded(cells),
        transcript matches Ok(cells) ==> (before.pending_transcript_open == Some(thread_id)
            && before.transcript_loading_frame_shown ==> after.overlay == Some(cells)),
        transcript is Err ==> after.transcript_cells@[thread_id.bits] is Failed,
        after.filtered_rows == before.filtered_rows,
{
}

/// What became of archiving a thread is taken up for that thread.
pub proof fn lemma_archive_result_is_taken_up(
    before: PickerState,
    after: PickerState,
    thread_id: ThreadId,
    result: Result<(), String>,
    outcome: Result<Option<SessionSelection>, String>,
    row: Row,
)
    requires
        background_handled(before, after, BackgroundEvent::Archive { thread_id, result }, outcome),
    ensures
        outcome == Ok::<Option<SessionSelection>, String>(None),
        after.archive_state is Idle,
        result is Ok && row.thread_id == Some(thread_id) ==> !after.all_rows@.contains(row)
            && !after.filtered_rows@.contains(row),
        result is Ok && row.thread_id != Some(thread_id) ==> after.all_rows@.contains(row)
            == before.all_rows@.contains(row),
        result is Err ==> after.all_rows == before.all_rows && after.inline_error is Some,
{
    if result is Ok {
        let left = choose|left: PickerState|
            #![trigger refiltered(left, after)]
            left == (PickerState {
                archive_state: ArchiveState::Idle,
                all_rows: left.all_rows,
                ..before
            }) && left.all_rows@ == before.all_rows@.filter(
                crate::archive::not_thread(thread_id),
            ) && refiltered(left, after);
        crate::live_laws::lemma_filter_without(before.all_rows@, thread_id, row);
        crate::list_laws::lemma_listed(left, after, row);
    }
}

/// A session that came back from the archive is chosen at once.
pub proof fn lemma_restored_session_is_taken_up(
    before: PickerState,
    after: PickerState,
    thread_id: ThreadId,
    result: Result<SessionTarget, String>,
    outcome: Result<Option<SessionSelection>, String>,
)
    requires
        background_handled(before, after, BackgroundEvent::Unarchive { thread_id, result }, outcome),
    ensures
        after.archive_state is Idle,
        result is Ok && before.action is Resume ==> outcome == Ok::<
            Option<SessionSelection>,
            String,
        >(Some(SessionSelection::Resume(result->Ok_0))),
        result is Ok && before.action is Fork ==> outcome == Ok::<Option<SessionSelection>, String>(
            Some(SessionSelection::Fork(result->Ok_0)),
        ),
        result is Err ==> outcome == Ok::<Option<SessionSelection>, String>(None)
            && after.inline_error is Some,
{
}

/// A notification of the app server reaches the row that it is about.
pub proof fn lemma_notification_is_taken_up(
    before: PickerState,
    after: PickerState,
    thread_id: String,
    status: ThreadStatus,
    outcome: Result<Option<SessionSelection>, String>,
    at: int,
)
    requires
        background_handled(
            before,
            after,
            BackgroundEvent::AppServer(
                AppServerEvent::Notification(
                    ServerNotification::ThreadStatusChanged { thread_id, status },
                ),
            ),
            outcome,
        ),
        crate::ids::uuid_bits(thread_id@) is Some,
        0 <= at < before.all_rows@.len(),
        before.all_rows@[at].thread_id is Some,
        before.all_rows@[at].thread_id->0.bits == crate::ids::uuid_bits(thread_id@)->0,
        forall|i: int|
            0 <= i < at ==> (#[trigger] before.all_rows@[i]).thread_id is None
                || before.all_rows@[i].thread_id->0.bits != crate::ids::uuid_bits(thread_id@)->0,
    ensures
        outcome == Ok::<Option<SessionSelection>, String>(None),
        only_row_changed(before.all_rows@, after.all_rows@, at),
        after.all_rows@[at].dashboard_status == Some(crate::dashboard::status_of(status)),
        after.all_rows@[at].thread_name == before.all_rows@[at].thread_name,
{
    assert(notified(
        before,
        after,
        ServerNotification::ThreadStatusChanged { thread_id, status },
    ));
    lemma_status_change_changes_status_alone(before, after, thread_id, status, at);
}

/// A dashboard that lost its connection asks to be opened again with what it holds; another picker
/// stays.
pub proof fn lemma_lost_connection_reopens_the_dashboard(
    before: PickerState,
    after: PickerState,
    message: String,
    outcome: Result<Option<SessionSelection>, String>,
)
    requires
        background_handled(
            before,
            after,
            BackgroundEvent::AppServer(AppServerEvent::Disconnected { message }),
            outcome,
        ),
    ensures
        before.launch_context is AgentsDashboard ==> {
            &&& outcome matches Ok(Some(SessionSelection::ReconnectDashboard(resume)))
            &&& resume.group_mode == before.dashboard_group_mode
            &&& before.dashboard_composer is Some ==> resume.draft@
                == before.dashboard_composer->0.text@
            &&& before.selected < before.filtered_rows@.len() ==> resume.selected_thread_id
                == before.filtered_rows@[before.selected as int].thread_id && resume.selected_cwd
                == before.filtered_rows@[before.selected as int].cwd
        },
        !(before.launch_context is AgentsDashboard) ==> outcome == Ok::<
            Option<SessionSelection>,
            String,
        >(None),
        after.inline_error is Some,
        after.filtered_rows == before.filtered_rows,
{
}

/// The inventory of the selected project reaches the composer; another one does not.
pub proof fn lemma_inventory_reaches_the_composer(
    before: PickerState,
    after: PickerState,
    cwd: SessionPath,
    inventory: crate::composer::Inventory,
    outcome: Result<Option<SessionSelection>, String>,
)
    requires
        background_handled(
            before,
            after,
            BackgroundEvent::DashboardComposerInventory { cwd, inventory },
            outcome,
        ),
        before.dashboard_composer is Some,
        before.selected < before.filtered_rows@.len(),
        before.filtered_rows@[before.selected as int].cwd is Some,
    ensures
        before.filtered_rows@[before.selected as int].cwd == Some(cwd) ==> {
            &&& after.dashboard_composer is Some
            &&& after.dashboard_composer->0.edits@.last() == ComposerEdit::SetInventory(inventory)
            &&& after.dashboard_composer->0.edits@.len()
                == before.dashboard_composer->0.edits@.len() + 1
        },
        cwd.canonical is None && components(cwd.text@) != components(
            before.filtered_rows@[before.selected as int].cwd->0.text@,
        ) ==> after == before,
{
}

/// Keys reach the transcript that lies over the picker; else the picker, but for released ones and
/// those that a chord swallowed.
pub proof fn lemma_keys_reach_what_lies_on_top(
    before: PickerState,
    after: PickerState,
    key: KeyEvent,
    outcome: TerminalOutcome,
)
    requires
        terminal_handled(
            before,
            after,
            TerminalEvent::Key { key, matched: crate::keys::KeyChordMatch::PassThrough },
            outcome,
        ),
    ensures
        before.overlay is Some ==> after == before && outcome == (TerminalOutcome::Overlay {
            key: Some(key),
        }),
        before.overlay is None && key.kind is Release ==> after == before && outcome is Nothing,
        before.overlay is None && !(key.kind is Release) ==> outcome is Key && key_handled(
            before,
            after,
            key,
            outcome->Key_0,
        ),
{
}

/// A chord that is not complete, or came to nothing, does nothing; one that is complete counts as
/// the key that it stands for.
pub proof fn lemma_chords_stand_for_keys(
    before: PickerState,
    after: PickerState,
    key: KeyEvent,
    matched: crate::keys::KeyChordMatch,
    outcome: TerminalOutcome,
)
    requires
        terminal_handled(before, after, TerminalEvent::Key { key, matched }, outcome),
        before.overlay is None,
    ensures
        matched is Pending || matched is Cancelled || matched is Ignored ==> after == before
            && outcome is Nothing,
        matched matches crate::keys::KeyChordMatch::Completed(meant) && !(meant.kind is Release)
            ==> outcome is Key && key_handled(before, after, matched->Completed_0, outcome->Key_0),
{
}

/// A frame knows its view: the lines of the screen without those of the header, the search and the
/// bottom.
pub proof fn lemma_view_is_what_the_screen_leaves(
    before: PickerState,
    after: PickerState,
    screen: Screen,
)
    requires
        made_ready(before, after, screen),
        screen.composer_height is None,
    ensures
        screen.height > 8 ==> after.view_rows == Some((screen.height - 8) as usize),
        screen.height <= 8 ==> after.view_rows is None,
        after.filtered_rows == before.filtered_rows,
        after.all_rows == before.all_rows,
        after.selected == before.selected,
        after.query == before.query,
{
}

/// What the app server answered is told to the picker for the thread that it was asked for; a
/// reading that was called off is not told.
pub proof fn lemma_replies_are_told(
    action: LoaderAction,
    reply: LoaderReply,
    include_non_interactive: bool,
    show_dashboard_status: bool,
)
    requires
        is_step_on(
            action,
            LoaderInput::Reply(reply),
            include_non_interactive,
            show_dashboard_status,
        ),
    ensures
        reply matches LoaderReply::Preview { thread_id: asked, preview: came } ==> (
        action matches LoaderAction::Tell(BackgroundEvent::Preview { thread_id, preview })
            && thread_id == asked && preview == came),
        reply matches LoaderReply::Transcript { thread_id: asked, transcript: came } ==> (
        action matches LoaderAction::Tell(BackgroundEvent::Transcript { thread_id, transcript })
            && thread_id == asked && transcript == came),
        reply matches LoaderReply::Archived { thread_id: asked, result: came } ==> (
        action matches LoaderAction::Tell(BackgroundEvent::Archive { thread_id, result })
            && thread_id == asked && result == came),
        reply matches LoaderReply::Unarchived { thread_id: asked, result: Ok(found) } ==> (
        action matches LoaderAction::Tell(
            BackgroundEvent::Unarchive { thread_id, result: Ok(target) },
        ) && thread_id == asked && target.thread_id == asked && target.path == found),
        reply matches LoaderReply::Unarchived { thread_id: asked, result: Err(error) } ==> (
        action matches LoaderAction::Tell(
            BackgroundEvent::Unarchive { thread_id, result: Err(told) },
        ) && thread_id == asked && told == error),
        reply is CalledOff ==> action is Nothing,
{
}

/// Events of the app server are told as they come, and the loader ends where the picker or the app
/// server is gone.
pub proof fn lemma_loader_ends_with_its_peers(
    action: LoaderAction,
    input: LoaderInput,
    include_non_interactive: bool,
    show_dashboard_status: bool,
)
    requires
        is_step_on(action, input, include_non_interactive, show_dashboard_status),
    ensures
        action is ShutDown <==> (input matches LoaderInput::Request(None) || input
            matches LoaderInput::Server(None)),
        input matches LoaderInput::Server(Some(event)) ==> action == LoaderAction::Tell(
            BackgroundEvent::AppServer(event),
        ),
        input matches LoaderInput::Request(Some(_)) ==> action is Call,
{
}

proof fn lemma_entry_for(entries: Seq<SkillsListEntry>, cwd: Seq<char>, at: int, found: int)
    requires
        0 <= at <= found < entries.len(),
        components(entries[found].cwd.text@) == components(cwd),
        forall|i: int|
            at <= i < found ==> components((#[trigger] entries[i]).cwd.text@) != components(cwd),
    ensures
        entry_for(entries, cwd, at) == found,
    decreases found - at,
{
    if at < found {
        assert(components(entries[at].cwd.text@) != components(cwd));
        lemma_entry_for(entries, cwd, at + 1, found);
    }
}

/// The composer is offered the skills of its project that are enabled, and no others.
pub proof fn lemma_enabled_skills_of_the_project_are_offered(
    action: LoaderAction,
    cwd: SessionPath,
    entries: Vec<SkillsListEntry>,
    plugins: Option<u64>,
    connectors: Option<u64>,
    include_non_interactive: bool,
    show_dashboard_status: bool,
    found: int,
    skill: Skill,
    handle: u64,
)
    requires
        is_step_on(
            action,
            LoaderInput::Reply(
                LoaderReply::Inventory { cwd, skills: Some(entries), plugins, connectors },
            ),
            include_non_interactive,
            show_dashboard_status,
        ),
        0 <= found < entries@.len(),
        components(entries@[found].cwd.text@) == components(cwd.text@),
        forall|i: int|
            0 <= i < found ==> components((#[trigger] entries@[i]).cwd.text@) != components(
                cwd.text@,
            ),
    ensures
        action matches LoaderAction::Tell(
            BackgroundEvent::DashboardComposerInventory { cwd: told, inventory },
        ) && {
            &&& told == cwd
            &&& inventory.plugins == plugins
            &&& inventory.connectors == connectors
            &&& inventory.skills is Some
            &&& entries@[found].skills@.contains(skill) && skill.enabled
                ==> inventory.skills->0@.contains(skill.handle)
            &&& inventory.skills->0@.contains(handle) ==> exists|j: int|
                0 <= j < entries@[found].skills@.len() && (
                #[trigger] entries@[found].skills@[j]).enabled && entries@[found].skills@[j].handle
                    == handle
        },
{
    lemma_entry_for(entries@, cwd.text@, 0, found);
    let inventory = action->Tell_0->inventory;
    assert(inventory.skills->0@ == enabled(entries@[found].skills@));
    let skills = entries@[found].skills@;
    let kept = |skill: Skill| skill.enabled;
    let some = skills.filter(kept);
    let told = enabled(skills);
    assert(told =~= some.map_values(|skill: Skill| skill.handle));
    if skills.contains(skill) && skill.enabled {
        let j = choose|j: int| 0 <= j < skills.len() && skills[j] == skill;
        skills.lemma_filter_contains(kept, j);
        let k = choose|k: int| 0 <= k < some.len() && some[k] == skill;
        assert(told[k] == skill.handle);
    }
    if told.contains(handle) {
        let i = choose|i: int| 0 <= i < told.len() && told[i] == handle;
        skills.lemma_filter_pred(kept, i);
        assert(some.contains(some[i]));
        lemma_skill_kept(skills, some[i]);
        let j = choose|j: int| 0 <= j < skills.len() && skills[j] == some[i];
        assert(skills[j].enabled && skills[j].handle == handle);
    }
}

proof fn lemma_skill_kept(skills: Seq<Skill>, skill: Skill)
    requires
        skills.filter(|skill: Skill| skill.enabled).contains(skill),
    ensures
        skills.contains(skill),
    decreases skills.len(),
{
    reveal(Seq::filter);
    let kept = |skill: Skill| skill.enabled;
    let some = skills.filter(kept);
    let i = choose|i: int| 0 <= i < some.len() && some[i] == skill;
    if skills.len() > 0 {
        let less = skills.drop_last();
        if i < less.filter(kept).len() {
            assert(less.filter(kept)[i] == skill);
            lemma_skill_kept(less, skill);
            let j = choose|j: int| 0 <= j < less.len() && less[j] == skill;
            assert(skills[j] == skill);
        } else {
            assert(skills[skills.len() - 1] == skill);
        }
    }
}

/// A transcript over the picker goes away when it is closed, and only then; the picker below it
/// stays as it is.
pub proof fn lemma_closed_transcript_goes_away(state: PickerState, done: bool)
    ensures
        done ==> overlay_handled(state, done).overlay is None,
        !done ==> overlay_handled(state, done) == state,
        overlay_handled(state, done).filtered_rows == state.filtered_rows,
        overlay_handled(state, done).selected == state.selected,
        overlay_handled(state, done).query == state.query,
{
}

/// A transcript that is loaded opens after the frame that shows it is waited for; one that is not
/// leaves the wait on.
pub proof fn lemma_frame_opens_a_loaded_transcript(
    state: PickerState,
    thread_id: ThreadId,
    cells: TranscriptCells,
)
    requires
        state.pending_transcript_open == Some(thread_id),
    ensures
        state.transcript_cells@.contains_key(thread_id.bits)
            && state.transcript_cells@[thread_id.bits] == SessionTranscriptState::Loaded(cells)
            ==> frame_finished(state).overlay == Some(cells) && frame_finished(
            state,
        ).pending_transcript_open is None,
        state.transcript_cells@.contains_key(thread_id.bits)
            && state.transcript_cells@[thread_id.bits] is Loading ==> frame_finished(state).overlay
            == state.overlay && frame_finished(state).pending_transcript_open == Some(thread_id)
            && frame_finished(state).transcript_loading_frame_shown,
        frame_finished(state).filtered_rows == state.filtered_rows,
{
}

/// The composer gets the lines that it asks for at the bottom, at least four and no more than the
/// screen leaves it; the footer has four.
pub proof fn lemma_bottom_is_as_high_as_the_composer_asks(desired: u16, height: int)
    ensures
        crate::layout::bottom_height(None, height) == 4,
        desired < 4 ==> crate::layout::bottom_height(Some(desired), height) == 4,
        4 <= desired && desired + 6 <= height ==> crate::layout::bottom_height(
            Some(desired),
            height,
        ) == desired,
        desired + 6 > height && height >= 10 ==> crate::layout::bottom_height(
            Some(desired),
            height,
        ) <= height - 6,
        height < 10 ==> crate::layout::bottom_height(Some(desired), height) == 4,
{
}

/// With a draft the key that accepts sends it to the composer, unless it is a command that concerns
/// the dashboard: one of the grouping groups and leaves the draft empty, `/mention` begins a
/// mention, and `/vim` changes how the composer is edited.
pub proof fn lemma_accepted_draft_is_sent_or_carried_out(
    before: PickerState,
    after: PickerState,
    key: KeyEvent,
)
    requires
        before.dashboard_composer is Some,
        !composer_rests(before),
        !crate::composer::is_paste_image(key),
        pressed(before.list_keymap.accept@, key),
        composer_action(before, key) is Some,
        composer_acted(before, after, composer_action(before, key)->0),
    ensures
        ({
            let draft = trimmed(before.dashboard_composer->0.text@);
            &&& draft == "/group project"@ ==> after.dashboard_group_mode is Project
                && after.dashboard_composer is Some
                && after.dashboard_composer->0.text@.len() == 0
            &&& draft == "/group status"@ ==> after.dashboard_group_mode is Status
                && after.dashboard_composer is Some
                && after.dashboard_composer->0.text@.len() == 0
            &&& draft == "/mention"@ ==> after.dashboard_composer is Some
                && after.dashboard_composer->0.text@ == "@"@ && after.filtered_rows
                == before.filtered_rows
            &&& draft == "/vim"@ ==> after.dashboard_composer is Some
                && after.dashboard_composer->0.text@.len() == 0
                && after.dashboard_composer->0.edits@.last() is ToggleVim
            &&& draft != "/group project"@ && draft != "/group status"@ && draft != "/vim"@
                && draft != "/mention"@ ==> after.dashboard_composer is Some
                && after.dashboard_composer->0.edits@.last() == ComposerEdit::HandleKey(key)
                && after.dashboard_composer->0.text == before.dashboard_composer->0.text
        }),
        after.query == before.query,
        after.all_rows == before.all_rows,
{
    reveal_strlit("/group project");
    reveal_strlit("/group status");
    reveal_strlit("/vim");
    reveal_strlit("/mention");
    reveal_strlit("");
    assert("/group project"@.len() == 14);
    assert("/group status"@.len() == 13);
    assert("/vim"@.len() == 4);
    assert("/mention"@.len() == 8);
}

/// The first press of the exit key asks for a second one below the composer, and for a frame after
/// the three seconds in which that counts.
pub proof fn lemma_first_press_asks_for_a_second(
    before: PickerState,
    after: PickerState,
    now: u64,
    chosen: Option<SessionSelection>,
)
    requires
        exit_pressed(before, after, now, chosen),
        before.dashboard_exit_confirmation_expires_at is None,
        now + 3000 <= u64::MAX,
    ensures
        chosen is None,
        after.dashboard_exit_confirmation_expires_at == Some((now + 3000) as u64),
        after.delayed_frames@.last() == crate::picker::FrameDelay::Millis(3000),
        before.dashboard_composer is Some ==> {
            &&& after.dashboard_composer is Some
            &&& after.dashboard_composer->0.edits@.last() matches ComposerEdit::SetFooterHints(hints)
            &&& hints@.len() == 1
            &&& hints@[0].0@ == "ctrl+c"@
            &&& hints@[0].1@ == "again to exit"@
            &&& after.dashboard_composer->0.text == before.dashboard_composer->0.text
        },
{
}

/// Once the wait for a second press is over, the hints below the composer are those of the dashboard
/// again.
pub proof fn lemma_expired_wait_brings_the_hints_back(
    before: PickerState,
    after: PickerState,
    now: u64,
)
    requires
        exit_wait_expired(before, after, now),
        before.dashboard_exit_confirmation_expires_at is Some,
        before.dashboard_composer is Some,
    ensures
        now >= before.dashboard_exit_confirmation_expires_at->0 ==> {
            &&& after.dashboard_exit_confirmation_expires_at is None
            &&& after.dashboard_composer is Some
            &&& after.dashboard_composer->0.edits@.last() matches ComposerEdit::SetFooterHints(hints)
            &&& hints@.len() == 3
            &&& hints@[0].0@ == "enter"@
            &&& hints@[0].1@ == "start agent"@
        },
        now < before.dashboard_exit_confirmation_expires_at->0 ==> after == before,
{
}

} // verus!
