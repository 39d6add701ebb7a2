//! What the picker promises of the keys: where they move the selection, what they search for and
//! what they open.

use vstd::prelude::*;
use crate::agents::{dashboard_moved, inventory_asked, regrouped, submission_taken};
use crate::archive::ArchiveState;
use crate::composer::{ComposerAttachments, ComposerEdit, InputResult};
use crate::composer_keys::input_noted;
use crate::dashboard::{DashboardGroupMode, DashboardStatus};
use crate::distinct_rows::same_session;
use crate::events::{pasted_into, preview_handled, transcript_handled};
use crate::filter::{refiltered, selected_key};
use crate::ids::ThreadId;
use crate::keyboard::{accepted, key_handled, KeyOutcome};
use crate::keys::{
    is_control_char, is_plain_text, is_raw_char, pressed, KeyBinding, KeyCode, KeyEvent,
};
use crate::list_laws::{
    lemma_attention_comes_first, lemma_listed, lemma_project_lists_latest_first,
    lemma_search_lists_what_holds_the_query, lemma_unfiltered_list_is_whole,
};
use crate::paging_laws::lemma_search_reads_on;
use crate::paths::{components, SessionPath};
use crate::picker::PickerState;
use crate::row::Row;
use crate::search::{query_cleared, query_set, reselected, search_begun};
use crate::session::{
    PickerLoadRequest, SearchState, SessionSelection, SessionTarget, SessionTranscriptState,
    TranscriptCells, TranscriptPreviewLine, TranscriptPreviewState, UserMessage,
};
use crate::sort::{lemma_rows_sorted, rows_sorted};
use crate::text::{is_space, lowercase_of, occurs_in, trimmed, words_joined};
use crate::toolbar::toolbar_changed;
use crate::transcript::{
    expansion_toggled, transcript_called_off, transcript_opened, unknown_threads,
    visible_previews_asked,
};

verus! {

/// A binding is pressed by its key with exactly its modifiers; releasing the key presses nothing.
pub proof fn lemma_binding_is_pressed_by_its_key(bindings: Seq<KeyBinding>, key: KeyEvent)
    ensures
        pressed(bindings, key) <==> !(key.kind is Release) && exists|i: int|
            0 <= i < bindings.len() && (#[trigger] bindings[i]).code == key.code
                && bindings[i].modifiers == key.modifiers,
{
    if pressed(bindings, key) {
        let i = choose|i: int| 0 <= i < bindings.len() && (#[trigger] bindings[i]).presses(key);
        assert(bindings[i].code == key.code);
    }
    if !(key.kind is Release) && exists|i: int|
        0 <= i < bindings.len() && (#[trigger] bindings[i]).code == key.code
            && bindings[i].modifiers == key.modifiers {
        let i = choose|i: int|
            0 <= i < bindings.len() && (#[trigger] bindings[i]).code == key.code
                && bindings[i].modifiers == key.modifiers;
        assert(bindings[i].presses(key));
    }
}

/// The list of a picker takes the key: no transcript is waited for, and it is none of the keys with
/// control that exit, open a transcript, show details or change the density.
pub open spec fn is_list_key(state: PickerState, key: KeyEvent) -> bool {
    &&& !(state.launch_context is AgentsDashboard)
    &&& !state.dashboard_search_active
    &&& state.pending_transcript_open is None
    &&& !is_control_char(key, 'c')
    &&& !is_control_char(key, 't')
    &&& !is_control_char(key, 'e')
    &&& !is_control_char(key, 'o')
    &&& !is_raw_char(key, '\u{14}')
    &&& !is_raw_char(key, '\u{5}')
    &&& !is_raw_char(key, '\u{f}')
}

/// The key neither cancels nor accepts.
pub open spec fn is_move_key(state: PickerState, key: KeyEvent) -> bool {
    &&& is_list_key(state, key)
    &&& !pressed(state.list_keymap.cancel@, key)
    &&& !pressed(state.list_keymap.accept@, key)
    &&& !is_plain_text(key)
}

/// What stays as it is where a key only moves the selection.
pub open spec fn list_stays(before: PickerState, after: PickerState) -> bool {
    &&& after.filtered_rows == before.filtered_rows
    &&& after.all_rows == before.all_rows
    &&& after.query == before.query
    &&& after.filter_mode == before.filter_mode
    &&& after.sort_key == before.sort_key
    &&& after.status == before.status
    &&& after.expanded_thread_id == before.expanded_thread_id
    &&& after.density == before.density
    &&& after.archive_state == before.archive_state
    &&& after.toolbar_focus == before.toolbar_focus
    &&& after.dashboard_group_mode == before.dashboard_group_mode
}

/// The key that moves up selects the row above, and stays on the first.
pub proof fn lemma_up_selects_the_row_above(
    before: PickerState,
    after: PickerState,
    key: KeyEvent,
    outcome: KeyOutcome,
)
    requires
        key_handled(before, after, key, outcome),
        is_move_key(before, key),
        pressed(before.list_keymap.move_up@, key),
    ensures
        outcome is Continue,
        after.inline_error is None,
        before.selected > 0 ==> after.selected == before.selected - 1,
        before.selected == 0 ==> after.selected == 0,
        list_stays(before, after),
        after.requests == before.requests,
{
}

/// The key that moves down selects the row below, and stays on the last. Near the end of what is
/// loaded the page behind it is asked for.
pub proof fn lemma_down_selects_the_row_below(
    before: PickerState,
    after: PickerState,
    key: KeyEvent,
    outcome: KeyOutcome,
)
    requires
        key_handled(before, after, key, outcome),
        is_move_key(before, key),
        !pressed(before.list_keymap.move_up@, key),
        pressed(before.list_keymap.move_down@, key),
        before.selected < before.filtered_rows@.len(),
    ensures
        outcome is Continue,
        after.inline_error is None,
        before.selected + 1 < before.filtered_rows@.len() ==> after.selected == before.selected
            + 1,
        before.selected + 1 == before.filtered_rows@.len() ==> after.selected == before.selected,
        list_stays(before, after),
        before.pagination.pending is None && before.pagination.next_cursor is Some
            && before.filtered_rows@.len() - after.selected - 1 <= 5 ==> {
            &&& after.requests@.len() == before.requests@.len() + 1
            &&& after.requests@.last() matches PickerLoadRequest::Page(request)
            &&& request.cursor == before.pagination.next_cursor
        },
        before.filtered_rows@.len() - after.selected - 1 > 5 ==> after.requests@
            == before.requests@,
{
    assert(before.filtered_rows@.len() == before.filtered_rows.len());
}

/// The keys that jump select the first row and the last. The jump to the last asks for the page
/// behind it, with the cursor where the last page ended.
pub proof fn lemma_jumps_reach_both_ends(
    before: PickerState,
    after: PickerState,
    key: KeyEvent,
    outcome: KeyOutcome,
)
    requires
        key_handled(before, after, key, outcome),
        is_move_key(before, key),
        !pressed(before.list_keymap.move_up@, key),
        !pressed(before.list_keymap.move_down@, key),
        !pressed(before.list_keymap.page_up@, key),
        before.filtered_rows@.len() > 0,
        pressed(before.list_keymap.jump_top@, key) || pressed(
            before.list_keymap.jump_bottom@,
            key,
        ),
    ensures
        outcome is Continue,
        after.inline_error is None,
        pressed(before.list_keymap.jump_top@, key) ==> after.selected == 0 && after.requests
            == before.requests,
        !pressed(before.list_keymap.jump_top@, key) ==> after.selected
            == before.filtered_rows@.len() - 1,
        !pressed(before.list_keymap.jump_top@, key) && before.pagination.pending is None
            && before.pagination.next_cursor is Some ==> {
            &&& after.requests@.len() == before.requests@.len() + 1
            &&& after.requests@.last() matches PickerLoadRequest::Page(request)
            &&& request.cursor == before.pagination.next_cursor
            &&& after.pagination.pending is Some
        },
        list_stays(before, after),
{
    assert(before.filtered_rows@.len() == before.filtered_rows.len());
}

/// The key that pages up moves by the rows of the view (ten where none is known), as far as there
/// are any.
pub proof fn lemma_page_up_moves_by_the_view(
    before: PickerState,
    after: PickerState,
    key: KeyEvent,
    outcome: KeyOutcome,
)
    requires
        key_handled(before, after, key, outcome),
        is_move_key(before, key),
        !pressed(before.list_keymap.move_up@, key),
        !pressed(before.list_keymap.move_down@, key),
        pressed(before.list_keymap.page_up@, key),
    ensures
        outcome is Continue,
        after.inline_error is None,
        ({
            let step: int = match before.view_rows {
                Some(rows) => if rows > 0 {
                    rows as int
                } else {
                    1
                },
                None => 10,
            };
            &&& before.selected >= step ==> after.selected == before.selected - step
            &&& before.selected < step ==> after.selected == 0
        }),
        list_stays(before, after),
        after.requests == before.requests,
{
}

/// The key that pages down moves by the rows of the view. Where the list ends before, it goes to the
/// last row if nothing follows; else it stays, asks for the page behind the last one, and waits with
/// the jump until that is there.
pub proof fn lemma_page_down_moves_by_the_view(
    before: PickerState,
    after: PickerState,
    key: KeyEvent,
    outcome: KeyOutcome,
)
    requires
        key_handled(before, after, key, outcome),
        is_move_key(before, key),
        !pressed(before.list_keymap.move_up@, key),
        !pressed(before.list_keymap.move_down@, key),
        !pressed(before.list_keymap.page_up@, key),
        !pressed(before.list_keymap.jump_top@, key),
        !pressed(before.list_keymap.jump_bottom@, key),
        pressed(before.list_keymap.page_down@, key),
        before.filtered_rows@.len() > 0,
        before.selected + 10 <= usize::MAX,
        before.view_rows is Some ==> before.selected + before.view_rows->0 <= usize::MAX,
    ensures
        outcome is Continue,
        after.inline_error is None,
        ({
            let step: int = match before.view_rows {
                Some(rows) => if rows > 0 {
                    rows as int
                } else {
                    1
                },
                None => 10,
            };
            let last = before.filtered_rows@.len() - 1;
            &&& before.selected + step <= last ==> after.selected == before.selected + step
            &&& before.selected + step > last && before.pagination.next_cursor is None
                ==> after.selected == last
            &&& before.selected + step > last && before.pagination.next_cursor is Some ==> {
                &&& after.selected == before.selected
                &&& after.pending_page_down_target == Some((before.selected + step) as usize)
                &&& before.pagination.pending is None ==> {
                    &&& after.requests@.len() == before.requests@.len() + 1
                    &&& after.requests@.last() matches PickerLoadRequest::Page(request)
                    &&& request.cursor == before.pagination.next_cursor
                }
            }
        }),
        list_stays(before, after),
{
    let ready = crate::keyboard::ready_for(before, key);
    assert(crate::keyboard::key_action(ready, key) is PageDown);
    lemma_page_down(ready, after);
}

proof fn lemma_page_down(before: PickerState, after: PickerState)
    requires
        crate::keyboard::page_down_moved(before, after),
        before.filtered_rows@.len() > 0,
        before.selected + 10 <= usize::MAX,
        before.view_rows is Some ==> before.selected + before.view_rows->0 <= usize::MAX,
    ensures
        ({
            let step: int = match before.view_rows {
                Some(rows) => if rows > 0 {
                    rows as int
                } else {
                    1
                },
                None => 10,
            };
            let last = before.filtered_rows@.len() - 1;
            &&& before.selected + step <= last ==> after.selected == before.selected + step
            &&& before.selected + step > last && before.pagination.next_cursor is None
                ==> after.selected == last
            &&& before.selected + step > last && before.pagination.next_cursor is Some ==> {
                &&& after.selected == before.selected
                &&& after.pending_page_down_target == Some((before.selected + step) as usize)
                &&& before.pagination.pending is None ==> {
                    &&& after.requests@.len() == before.requests@.len() + 1
                    &&& after.requests@.last() matches PickerLoadRequest::Page(request)
                    &&& request.cursor == before.pagination.next_cursor
                }
            }
        }),
        list_stays(before, after),
        after.inline_error == before.inline_error,
{
    assert(before.filtered_rows@.len() == before.filtered_rows.len());
}

/// A jump that waited is carried out once its row is loaded, or as far as the list goes where nothing
/// follows; else the next page is asked for.
pub proof fn lemma_waiting_jump_is_carried_out(
    before: PickerState,
    after: PickerState,
    target: usize,
)
    requires
        crate::search::page_down_completed(before, after),
        before.pending_page_down_target == Some(target),
        before.filtered_rows@.len() > 0,
    ensures
        target < before.filtered_rows@.len() ==> after.selected == target
            && after.pending_page_down_target is None,
        target >= before.filtered_rows@.len() && before.pagination.next_cursor is None
            ==> after.selected == before.filtered_rows@.len() - 1
            && after.pending_page_down_target is None,
        target >= before.filtered_rows@.len() && before.pagination.next_cursor is Some ==> {
            &&& after.selected == before.selected
            &&& after.pending_page_down_target == Some(target)
            &&& before.pagination.pending is None ==> {
                &&& after.requests@.len() == before.requests@.len() + 1
                &&& after.requests@.last() matches PickerLoadRequest::Page(request)
                &&& request.cursor == before.pagination.next_cursor
            }
        },
        after.filtered_rows == before.filtered_rows,
{
    assert(before.filtered_rows@.len() == before.filtered_rows.len());
}

/// A character that is typed goes behind the query, and Backspace takes the last one away; the list
/// is filtered by what stands there then, from its top, and a query that was not changed changes
/// nothing. A query that finds nothing among what is loaded is searched for further.
pub proof fn lemma_typing_edits_the_query(
    before: PickerState,
    after: PickerState,
    key: KeyEvent,
    outcome: KeyOutcome,
)
    requires
        key_handled(before, after, key, outcome),
        is_list_key(before, key),
        !pressed(before.list_keymap.cancel@, key),
        !pressed(before.list_keymap.accept@, key),
        is_plain_text(key) || key.code is Backspace && !pressed(before.list_keymap.move_up@, key)
            && !pressed(before.list_keymap.move_down@, key) && !pressed(
            before.list_keymap.page_up@,
            key,
        ) && !pressed(before.list_keymap.page_down@, key) && !pressed(
            before.list_keymap.jump_top@,
            key,
        ) && !pressed(before.list_keymap.jump_bottom@, key) && !pressed(
            before.list_keymap.move_left@,
            key,
        ) && !pressed(before.list_keymap.move_right@, key),
    ensures
        outcome is Continue,
        key.code matches KeyCode::Char(ch) && is_plain_text(key) ==> after.query@.len()
            == before.query@.len() + 1 && after.query@.drop_last() == before.query@
            && after.query@.last() == key.code->Char_0,
        key.code is Backspace && before.query@.len() > 0 ==> after.query@
            == before.query@.drop_last(),
        key.code is Backspace && before.query@.len() == 0 ==> after.query@.len() == 0
            && after.filtered_rows == before.filtered_rows,
        after.all_rows == before.all_rows,
        after.filter_mode == before.filter_mode,
{
    if is_plain_text(key) {
        let ch = key.code->Char_0;
        assert(before.query@.push(ch).drop_last() =~= before.query@);
    }
}

/// The key that cancels drops the query where there is one, and keeps what is loaded; without one it
/// leaves the picker for a fresh session.
pub proof fn lemma_cancel_clears_or_leaves(
    before: PickerState,
    after: PickerState,
    key: KeyEvent,
    outcome: KeyOutcome,
)
    requires
        key_handled(before, after, key, outcome),
        is_list_key(before, key),
        pressed(before.list_keymap.cancel@, key),
    ensures
        before.query@.len() == 0 ==> outcome == KeyOutcome::Selected(SessionSelection::StartFresh)
            && after.filtered_rows == before.filtered_rows,
        before.query@.len() > 0 ==> outcome is Continue && after.query@.len() == 0
            && after.search_state is Idle,
        after.all_rows == before.all_rows,
{
}

/// Accepting opens the selected session, under the action that the picker was opened for: the path
/// and the thread are those of the selected row. The dashboard opens it in the session's own
/// directory. One from the archive is restored first, and one whose thread is not known has it
/// found at its path.
pub proof fn lemma_accept_opens_the_selected_session(
    before: PickerState,
    after: PickerState,
    outcome: KeyOutcome,
)
    requires
        accepted(before, after, outcome),
        !(before.launch_context is AgentsDashboard) || crate::agents::group_command(
            before.query@,
        ) is None,
        before.selected < before.filtered_rows@.len(),
    ensures
        ({
            let row = before.filtered_rows@[before.selected as int];
            &&& row.thread_id is Some && before.status is Active && before.action is Fork
                ==> outcome == KeyOutcome::Selected(
                SessionSelection::Fork(
                    SessionTarget { path: row.path, thread_id: row.thread_id->0 },
                ),
            )
            &&& row.thread_id is Some && before.status is Active && before.action is Resume && !(
            before.launch_context is AgentsDashboard) ==> outcome == KeyOutcome::Selected(
                SessionSelection::Resume(
                    SessionTarget { path: row.path, thread_id: row.thread_id->0 },
                ),
            )
            &&& row.thread_id is Some && before.status is Active && before.action is Resume
                && before.launch_context is AgentsDashboard ==> outcome == KeyOutcome::Selected(
                SessionSelection::ResumeInSessionCwd(
                    SessionTarget { path: row.path, thread_id: row.thread_id->0 },
                ),
            )
            &&& row.thread_id is Some && before.status is Active ==> after == before
            &&& row.thread_id is Some && before.status is Archived ==> {
                &&& outcome is Continue
                &&& after.requests@.len() == before.requests@.len() + 1
                &&& after.requests@.last() == (PickerLoadRequest::Unarchive {
                    thread_id: row.thread_id->0,
                })
                &&& after.archive_state == ArchiveState::Unarchiving(row.thread_id->0)
            }
            &&& row.thread_id is None && row.path is Some ==> outcome == (
            KeyOutcome::ResolveThread { path: row.path->0 }) && after == before
            &&& row.thread_id is None && row.path is None ==> outcome is Continue
                && after.inline_error is Some && after.requests == before.requests
        }),
{
}

/// Where no session is selected, accepting does nothing.
pub proof fn lemma_accept_needs_a_session(
    before: PickerState,
    after: PickerState,
    outcome: KeyOutcome,
)
    requires
        accepted(before, after, outcome),
        !(before.launch_context is AgentsDashboard),
        before.selected >= before.filtered_rows@.len(),
    ensures
        after == before,
        outcome is Continue,
{
}

/// The key that accepts opens the selected session, unless one is on its way to the archive or back.
pub proof fn lemma_accept_key_opens_the_selected_session(
    before: PickerState,
    after: PickerState,
    key: KeyEvent,
    outcome: KeyOutcome,
)
    requires
        key_handled(before, after, key, outcome),
        is_list_key(before, key),
        !pressed(before.list_keymap.cancel@, key),
        pressed(before.list_keymap.accept@, key),
        before.selected < before.filtered_rows@.len(),
        before.filtered_rows@[before.selected as int].thread_id is Some,
        before.status is Active,
    ensures
        before.archive_state is Idle && before.action is Resume ==> outcome
            == KeyOutcome::Selected(
            SessionSelection::Resume(
                SessionTarget {
                    path: before.filtered_rows@[before.selected as int].path,
                    thread_id: before.filtered_rows@[before.selected as int].thread_id->0,
                },
            ),
        ),
        before.archive_state is Idle && before.action is Fork ==> outcome == KeyOutcome::Selected(
            SessionSelection::Fork(
                SessionTarget {
                    path: before.filtered_rows@[before.selected as int].path,
                    thread_id: before.filtered_rows@[before.selected as int].thread_id->0,
                },
            ),
        ),
        !(before.archive_state is Idle) ==> outcome is Continue && after.filtered_rows
            == before.filtered_rows,
{
}

/// A query lists the loaded sessions whose title holds it, whatever the case of the letters, as far
/// as no directory filter keeps them away; no session is listed that holds it nowhere. What is
/// loaded, and the filter, stay as they are.
pub proof fn lemma_query_lists_what_holds_it(
    before: PickerState,
    after: PickerState,
    query: Seq<char>,
    row: Row,
)
    requires
        query_set(before, after, query),
        before.query@ != query,
        query.len() > 0,
        row.path is Some || row.thread_id is Some,
    ensures
        after.query@ == query,
        after.all_rows == before.all_rows,
        after.filter_mode == before.filter_mode,
        before.all_rows@.contains(row) && (before.filter_mode is All || before.local_filter_cwd
            is None) && occurs_in(lowercase_of(row.title()), lowercase_of(query))
            ==> after.filtered_rows@.contains(row),
        after.filtered_rows@.contains(row) ==> before.all_rows@.contains(row) && (occurs_in(
            lowercase_of(row.preview@),
            lowercase_of(query),
        ) || (row.thread_name is Some && occurs_in(
            lowercase_of(row.thread_name->0@),
            lowercase_of(query),
        )) || (row.thread_id is Some && occurs_in(
            lowercase_of(crate::ids::uuid_text(row.thread_id->0.bits)),
            lowercase_of(query),
        )) || (row.git_branch is Some && occurs_in(
            lowercase_of(row.git_branch->0@),
            lowercase_of(query),
        )) || (row.cwd is Some && occurs_in(
            lowercase_of(row.cwd->0.text@),
            lowercase_of(query),
        ))),
        after.filtered_rows@.len() == 0 && before.pagination.pending is None
            && before.pagination.next_cursor is Some && !before.pagination.reached_scan_cap ==> {
            &&& after.requests@.len() == before.requests@.len() + 1
            &&& after.requests@.last() matches PickerLoadRequest::Page(request)
            &&& request.cursor == before.pagination.next_cursor
            &&& request.search_token is Some
        },
        after.filtered_rows@.len() > 0 ==> after.requests == before.requests,
{
    let begun = PickerState { query: after.query, selected: 0, ..before };
    let found = choose|found: PickerState|
        #![trigger search_begun(found, after)]
        refiltered(begun, found) && search_begun(found, after);
    lemma_search_lists_what_holds_the_query(begun, found, row);
    lemma_listed(begun, found, row);
    if found.pagination.pending is None {
        lemma_search_reads_on(found, after);
    }
    lemma_begun_search_keeps_list(found, after);
}

proof fn lemma_begun_search_keeps_list(found: PickerState, after: PickerState)
    requires
        search_begun(found, after),
    ensures
        after.filtered_rows == found.filtered_rows,
        after.all_rows == found.all_rows,
        after.query == found.query,
        after.filter_mode == found.filter_mode,
        found.filtered_rows@.len() > 0 ==> after.requests == found.requests,
{
}

/// Without a query everything that is loaded and passes the filter is listed again.
pub proof fn lemma_cleared_query_lists_everything(
    before: PickerState,
    after: PickerState,
    row: Row,
)
    requires
        query_cleared(before, after),
        before.filter_mode is All || before.local_filter_cwd is None,
    ensures
        after.query@.len() == 0,
        after.search_state is Idle,
        before.all_rows@.contains(row) ==> after.filtered_rows@.contains(row),
        after.all_rows == before.all_rows,
        after.requests == before.requests,
{
    let begun = PickerState { query: after.query, search_state: SearchState::Idle, ..before };
    let cleared = choose|cleared: PickerState|
        #![trigger reselected(cleared, after, selected_key(before))]
        refiltered(begun, cleared) && after.query@.len() == 0 && reselected(
            cleared,
            after,
            selected_key(before),
        );
    lemma_unfiltered_list_is_whole(begun, cleared, row);
}

/// Pasted text goes behind the query with its words parted by single spaces, and by a space from
/// what stands there; white space alone changes nothing. On the dashboard it goes to the composer.
pub proof fn lemma_paste_goes_behind_the_query(
    before: PickerState,
    after: PickerState,
    pasted: String,
)
    requires
        pasted_into(before, after, pasted),
        before.pending_transcript_open is None,
    ensures
        before.dashboard_composer is Some && !before.dashboard_search_active ==> {
            &&& after.query == before.query
            &&& after.filtered_rows == before.filtered_rows
            &&& after.dashboard_composer is Some
            &&& after.dashboard_composer->0.edits@.last() == ComposerEdit::Paste(pasted)
            &&& after.dashboard_composer->0.edits@.drop_last()
                == before.dashboard_composer->0.edits@
        },
        (before.dashboard_composer is None || before.dashboard_search_active) && words_joined(
            pasted@,
        ).len() == 0 ==> after == before,
        (before.dashboard_composer is None || before.dashboard_search_active) && before.query@.len()
            == 0 ==> after.query@ == words_joined(pasted@),
        (before.dashboard_composer is None || before.dashboard_search_active) && before.query@.len()
            > 0 && words_joined(pasted@).len() > 0 && !is_space(before.query@.last())
            ==> after.query@ == before.query@ + seq![' '] + words_joined(pasted@),
        (before.dashboard_composer is None || before.dashboard_search_active) && before.query@.len()
            > 0 && words_joined(pasted@).len() > 0 && is_space(before.query@.last())
            ==> after.query@ == before.query@ + words_joined(pasted@),
{
    assert(before.query@.push(' ') =~= before.query@ + seq![' ']);
    if before.query@.len() == 0 {
        assert(before.query@ + words_joined(pasted@) =~= words_joined(pasted@));
        assert(before.query@ =~= Seq::<char>::empty());
    }
    if let Some(composer) = after.dashboard_composer {
        if let Some(earlier) = before.dashboard_composer {
            assert(earlier.edits@.push(ComposerEdit::Paste(pasted)).drop_last()
                =~= earlier.edits@);
        }
    }
}

/// The sort control changes between the order of the last update and that of creation, and loads the
/// listing anew in that order; a second press comes back.
pub proof fn lemma_sort_control_reloads_in_the_other_order(before: PickerState, after: PickerState)
    requires
        toolbar_changed(before, after),
        before.toolbar_focus is Sort,
    ensures
        before.sort_key is CreatedAt ==> after.sort_key is UpdatedAt,
        before.sort_key is UpdatedAt ==> after.sort_key is CreatedAt,
        after.filter_mode == before.filter_mode,
        after.status == before.status,
        after.query == before.query,
        after.all_rows@.len() == 0,
        after.requests@.len() == before.requests@.len() + 1,
        after.requests@.last() matches PickerLoadRequest::Page(request) && request.sort_key
            == after.sort_key && request.cursor is None && request.status == before.status,
{
}

/// The status control changes between the sessions that are active and those in the archive, and
/// loads those anew.
pub proof fn lemma_status_control_reloads_the_other_sessions(
    before: PickerState,
    after: PickerState,
)
    requires
        toolbar_changed(before, after),
        before.toolbar_focus is Status,
    ensures
        before.status is Active ==> after.status is Archived,
        before.status is Archived ==> after.status is Active,
        after.sort_key == before.sort_key,
        after.filter_mode == before.filter_mode,
        after.query == before.query,
        after.all_rows@.len() == 0,
        after.requests@.len() == before.requests@.len() + 1,
        after.requests@.last() matches PickerLoadRequest::Page(request) && request.status
            == after.status && request.cursor is None && request.sort_key == before.sort_key,
{
}

/// The filter control changes between the sessions of the directory and all of them, and loads
/// those anew; without a directory there is nothing to change.
pub proof fn lemma_filter_control_reloads_the_other_sessions(
    before: PickerState,
    after: PickerState,
)
    requires
        toolbar_changed(before, after),
        before.toolbar_focus is Filter,
    ensures
        before.filter_mode is Cwd ==> {
            &&& after.filter_mode is All
            &&& after.requests@.len() == before.requests@.len() + 1
            &&& after.requests@.last() matches PickerLoadRequest::Page(request)
            &&& request.cwd_filter is None
            &&& request.cursor is None
        },
        before.filter_mode is All && before.filter_cwd is Some ==> {
            &&& after.filter_mode is Cwd
            &&& after.requests@.len() == before.requests@.len() + 1
            &&& after.requests@.last() matches PickerLoadRequest::Page(request)
            &&& request.cwd_filter == before.filter_cwd
            &&& request.cursor is None
        },
        before.filter_mode is All && before.filter_cwd is None ==> after == before,
        after.sort_key == before.sort_key,
        after.status == before.status,
        after.query == before.query,
{
}

/// Opening a transcript asks for that of the selected session's thread, unless it is loaded or on
/// its way; it is waited for then.
pub proof fn lemma_transcript_of_the_selected_session_is_asked_for(
    before: PickerState,
    after: PickerState,
    thread_id: ThreadId,
)
    requires
        transcript_opened(before, after),
        before.selected < before.filtered_rows@.len(),
        before.filtered_rows@[before.selected as int].thread_id == Some(thread_id),
    ensures
        after.pending_transcript_open == Some(thread_id),
        !after.transcript_loading_frame_shown,
        after.frame_requested,
        !before.transcript_cells@.contains_key(thread_id.bits)
            || before.transcript_cells@[thread_id.bits] is Failed ==> {
            &&& after.requests@.len() == before.requests@.len() + 1
            &&& after.requests@.last() matches PickerLoadRequest::Transcript {
                thread_id: asked,
                cancellation,
            }
            &&& asked == thread_id
            &&& after.pending_transcript_cancellation == Some(cancellation)
            &&& after.next_cancellation != cancellation
            &&& after.transcript_cells@.contains_key(thread_id.bits)
            &&& after.transcript_cells@[thread_id.bits] is Loading
        },
        before.transcript_cells@.contains_key(thread_id.bits) && !(
        before.transcript_cells@[thread_id.bits] is Failed) ==> after.requests == before.requests
            && after.transcript_cells == before.transcript_cells,
        after.filtered_rows == before.filtered_rows,
        after.selected == before.selected,
        after.overlay == before.overlay,
{
}

/// A session without a thread has no transcript, which is told.
pub proof fn lemma_session_without_thread_has_no_transcript(
    before: PickerState,
    after: PickerState,
)
    requires
        transcript_opened(before, after),
        before.selected < before.filtered_rows@.len(),
        before.filtered_rows@[before.selected as int].thread_id is None,
    ensures
        after.inline_error is Some,
        after.inline_error->0@ == "No transcript available for this session"@,
        after.pending_transcript_open == before.pending_transcript_open,
        after.requests == before.requests,
{
}

/// A transcript that comes is kept for its thread. The one that is waited for opens as soon as a
/// frame showed that it is, another one opens nothing; a failure is told where it is waited for.
pub proof fn lemma_transcript_opens_where_it_is_waited_for(
    before: PickerState,
    after: PickerState,
    thread_id: ThreadId,
    transcript: Result<TranscriptCells, String>,
)
    requires
        transcript_handled(before, after, thread_id, transcript),
    ensures
        after.transcript_cells@.contains_key(thread_id.bits),
        forall|bits: u128|
            bits != thread_id.bits ==> #[trigger] after.transcript_cells@.contains_key(bits)
                == before.transcript_cells@.contains_key(bits),
        transcript matches Ok(cells) ==> after.transcript_cells@[thread_id.bits]
            == SessionTranscriptState::Loaded(cells),
        transcript is Err ==> after.transcript_cells@[thread_id.bits] is Failed,
        transcript is Ok && before.pending_transcript_open == Some(thread_id)
            && before.transcript_loading_frame_shown ==> after.overlay == Some(transcript->Ok_0)
            && after.pending_transcript_open is None && after.pending_transcript_cancellation
            is None,
        before.pending_transcript_open != Some(thread_id) ==> after.overlay == before.overlay
            && after.pending_transcript_open == before.pending_transcript_open
            && after.inline_error == before.inline_error,
        transcript is Err && before.pending_transcript_open == Some(thread_id)
            ==> after.pending_transcript_open is None && after.overlay == before.overlay
            && after.inline_error is Some && after.inline_error->0@
            == "Could not load transcript preview"@,
        after.requests == before.requests,
        after.filtered_rows == before.filtered_rows,
{
}

/// Calling the wait for a transcript off ends it, and calls off what is on its way.
pub proof fn lemma_wait_for_transcript_is_called_off(before: PickerState, after: PickerState)
    requires
        transcript_called_off(before, after),
    ensures
        after.pending_transcript_open is None,
        after.pending_transcript_cancellation is None,
        before.pending_transcript_cancellation matches Some(number) ==> {
            &&& after.requests@.len() == before.requests@.len() + 1
            &&& after.requests@.last() == (PickerLoadRequest::CancelTranscript {
                cancellation: number,
            })
        },
        before.pending_transcript_cancellation is None ==> after.requests == before.requests
            || after.requests@ == before.requests@,
        before.pending_transcript_open matches Some(thread_id) ==> !(
        after.transcript_cells@.contains_key(thread_id.bits)
            && after.transcript_cells@[thread_id.bits] is Loading),
        after.overlay == before.overlay,
        after.filtered_rows == before.filtered_rows,
        after.selected == before.selected,
{
}

/// Showing the details of the selected session asks for its conversation once; showing them again
/// folds them.
pub proof fn lemma_details_show_the_selected_conversation(
    before: PickerState,
    after: PickerState,
    thread_id: ThreadId,
)
    requires
        expansion_toggled(before, after),
        before.selected < before.filtered_rows@.len(),
        before.filtered_rows@[before.selected as int].thread_id == Some(thread_id),
    ensures
        before.expanded_thread_id == Some(thread_id) ==> after.expanded_thread_id is None
            && after.requests == before.requests,
        before.expanded_thread_id != Some(thread_id) ==> after.expanded_thread_id == Some(
            thread_id,
        ),
        before.expanded_thread_id != Some(thread_id) && before.transcript_previews@.contains_key(
            thread_id.bits,
        ) ==> after.requests == before.requests,
        before.expanded_thread_id != Some(thread_id) && !before.transcript_previews@.contains_key(
            thread_id.bits,
        ) ==> {
            &&& after.requests@.len() == before.requests@.len() + 1
            &&& after.requests@.last() == (PickerLoadRequest::Preview { thread_id })
            &&& after.transcript_previews@.contains_key(thread_id.bits)
            &&& after.transcript_previews@[thread_id.bits] is Loading
        },
        after.selected == before.selected,
        after.filtered_rows == before.filtered_rows,
{
}

/// A conversation that comes is kept for its thread, and only for that; a failure is kept as one.
pub proof fn lemma_conversation_is_kept_for_its_thread(
    before: PickerState,
    after: PickerState,
    thread_id: ThreadId,
    preview: Result<Vec<TranscriptPreviewLine>, String>,
)
    requires
        preview_handled(before, after, thread_id, preview),
    ensures
        after.transcript_previews@.contains_key(thread_id.bits),
        preview matches Ok(lines) ==> after.transcript_previews@[thread_id.bits]
            == TranscriptPreviewState::Loaded(lines),
        preview is Err ==> after.transcript_previews@[thread_id.bits] is Failed,
        forall|bits: u128|
            bits != thread_id.bits ==> #[trigger] after.transcript_previews@.contains_key(bits)
                == before.transcript_previews@.contains_key(bits) && (
            before.transcript_previews@.contains_key(bits) ==> after.transcript_previews@[bits]
                == before.transcript_previews@[bits]),
        after.filtered_rows == before.filtered_rows,
        after.requests == before.requests,
        after.frame_requested,
{
}

/// A message that the composer sent starts an agent with that message, in the directory of the
/// selected row or, without one, in the directory that the dashboard was opened in. A command of the
/// grouping groups instead and starts nothing.
pub proof fn lemma_message_starts_an_agent_in_the_selected_project(
    before: PickerState,
    after: PickerState,
    chosen: Option<SessionSelection>,
    message: UserMessage,
)
    requires
        submission_taken(before, after, chosen),
        before.pending_dashboard_submission == Some(message),
    ensures
        after.pending_dashboard_submission is None,
        trimmed(message.text@) == "/group project"@ ==> chosen is None
            && after.dashboard_group_mode is Project,
        trimmed(message.text@) == "/group status"@ ==> chosen is None
            && after.dashboard_group_mode is Status,
        trimmed(message.text@) != "/group project"@ && trimmed(message.text@) != "/group status"@
            ==> {
            &&& chosen matches Some(SessionSelection::StartFreshIn { cwd, user_message })
            &&& user_message == message
            &&& before.selected < before.filtered_rows@.len()
                && before.filtered_rows@[before.selected as int].cwd is Some ==> cwd
                == before.filtered_rows@[before.selected as int].cwd->0
            &&& (before.selected >= before.filtered_rows@.len()
                || before.filtered_rows@[before.selected as int].cwd is None)
                && before.dashboard_fallback_cwd is Some ==> cwd
                == before.dashboard_fallback_cwd->0
            &&& after.dashboard_group_mode == before.dashboard_group_mode
            &&& after.filtered_rows == before.filtered_rows
        },
{
    reveal_strlit("/group project");
    reveal_strlit("/group status");
    assert("/group project"@.len() != "/group status"@.len());
}

/// What the composer sent is taken whole: the text with its images, links, elements and mentions.
/// A command that only a session can run is refused by its name, and nothing is sent.
pub proof fn lemma_sent_message_is_taken_whole(
    before: PickerState,
    after: PickerState,
    result: InputResult,
    attachments: ComposerAttachments,
)
    requires
        input_noted(before, after, result, attachments),
    ensures
        result matches InputResult::Submitted { text, text_elements } ==> {
            &&& after.pending_dashboard_submission matches Some(message)
            &&& message.text == text
            &&& message.text_elements == text_elements
            &&& message.local_images == attachments.local_images
            &&& message.remote_image_urls == attachments.remote_image_urls
            &&& message.mention_bindings == attachments.mention_bindings
        },
        result matches InputResult::Queued { text, text_elements } ==> {
            &&& after.pending_dashboard_submission matches Some(message)
            &&& message.text == text
            &&& message.text_elements == text_elements
            &&& message.local_images == attachments.local_images
            &&& message.remote_image_urls == attachments.remote_image_urls
            &&& message.mention_bindings == attachments.mention_bindings
        },
        result matches InputResult::Command { name } ==> after.pending_dashboard_submission
            == before.pending_dashboard_submission && after.inline_error is Some
            && after.inline_error->0@ == "Open a session before running /"@ + name@,
        result is Nothing || result is ParentOwnedInputBlocked
            ==> after.pending_dashboard_submission == before.pending_dashboard_submission
            && after.inline_error == before.inline_error,
        after.filtered_rows == before.filtered_rows,
{
}

/// Moving the selection of the dashboard selects the row below or above, as far as there is one, and
/// gives up the row that it was to come back to. The rows stay as they are.
pub proof fn lemma_dashboard_selects_the_next_row(
    before: PickerState,
    after: PickerState,
    down: bool,
)
    requires
        dashboard_moved(before, after, down),
    ensures
        down && before.selected + 1 < before.filtered_rows@.len() ==> after.selected
            == before.selected + 1,
        down && before.selected + 1 >= before.filtered_rows@.len() ==> after.selected
            == before.selected,
        !down && before.selected > 0 ==> after.selected == before.selected - 1,
        !down && before.selected == 0 ==> after.selected == 0,
        after.dashboard_restore_thread_id is None,
        after.dashboard_restore_cwd is None,
        list_stays(before, after),
        after.frame_requested,
{
    assert(before.filtered_rows@.len() == before.filtered_rows.len());
}

/// The inventory that the composer offers is asked for where the selected project has another one,
/// for the directory of that project.
pub proof fn lemma_inventory_of_the_selected_project_is_asked_for(
    before: PickerState,
    after: PickerState,
)
    requires
        inventory_asked(before, after),
        before.launch_context is AgentsDashboard,
        before.selected < before.filtered_rows@.len(),
        before.filtered_rows@[before.selected as int].cwd is Some,
    ensures
        before.dashboard_inventory_cwd is None ==> {
            &&& after.dashboard_inventory_cwd
                == before.filtered_rows@[before.selected as int].cwd
            &&& after.requests@.len() == before.requests@.len() + 1
            &&& after.requests@.last() == (PickerLoadRequest::DashboardComposerInventory {
                cwd: before.filtered_rows@[before.selected as int].cwd->0,
            })
        },
        before.dashboard_inventory_cwd == before.filtered_rows@[before.selected as int].cwd
            ==> after == before,
        before.dashboard_inventory_cwd is Some && before.dashboard_inventory_cwd->0.canonical is None
            && components(before.dashboard_inventory_cwd->0.text@) != components(
            before.filtered_rows@[before.selected as int].cwd->0.text@,
        ) ==> {
            &&& after.dashboard_inventory_cwd
                == before.filtered_rows@[before.selected as int].cwd
            &&& after.requests@.len() == before.requests@.len() + 1
            &&& after.requests@.last() == (PickerLoadRequest::DashboardComposerInventory {
                cwd: before.filtered_rows@[before.selected as int].cwd->0,
            })
        },
{
}

/// Grouping another way lists the same rows, in the order of that grouping.
pub proof fn lemma_regrouping_lists_the_same_rows(
    before: PickerState,
    after: PickerState,
    mode: DashboardGroupMode,
)
    requires
        regrouped(before, after, mode),
        before.launch_context is AgentsDashboard,
    ensures
        after.dashboard_group_mode == mode,
        after.filtered_rows@.to_multiset() == before.filtered_rows@.to_multiset(),
        mode is Status ==> forall|i: int, j: int|
            0 <= i < j < after.filtered_rows@.len() && (
            #[trigger] after.filtered_rows@[j]).dashboard_status == Some(
                DashboardStatus::NeedsInput,
            ) ==> (#[trigger] after.filtered_rows@[i]).dashboard_status == Some(
                DashboardStatus::NeedsInput,
            ),
        mode is Project ==> forall|i: int, j: int|
            0 <= i < j < after.filtered_rows@.len() && (#[trigger] after.filtered_rows@[i]).cwd
                is Some && (#[trigger] after.filtered_rows@[j]).cwd is Some && components(
                after.filtered_rows@[i].cwd->0.text@,
            ) == components(after.filtered_rows@[j].cwd->0.text@)
                ==> after.filtered_rows@[j].recency() <= after.filtered_rows@[i].recency(),
        after.all_rows == before.all_rows,
        after.requests == before.requests,
{
    let rows = before.filtered_rows@;
    if rows.len() > 0 {
        lemma_rows_sorted(mode, rows, rows[0]);
    } else {
        assert(rows_sorted(mode, rows) =~= rows);
    }
    assert forall|i: int, j: int|
        mode is Status && 0 <= i < j < after.filtered_rows@.len() && (
        #[trigger] after.filtered_rows@[j]).dashboard_status == Some(
            DashboardStatus::NeedsInput,
        ) implies (#[trigger] after.filtered_rows@[i]).dashboard_status == Some(
        DashboardStatus::NeedsInput,
    ) by {
        lemma_attention_comes_first(rows, i, j);
    }
    assert forall|i: int, j: int|
        mode is Project && 0 <= i < j < after.filtered_rows@.len() && (
        #[trigger] after.filtered_rows@[i]).cwd is Some && (
        #[trigger] after.filtered_rows@[j]).cwd is Some && components(
            after.filtered_rows@[i].cwd->0.text@,
        ) == components(
            after.filtered_rows@[j].cwd->0.text@,
        ) implies after.filtered_rows@[j].recency() <= after.filtered_rows@[i].recency() by {
        lemma_project_lists_latest_first(rows, i, j);
    }
}

/// A command of the grouping that was typed as a query groups instead of opening a session, and
/// leaves the query empty.
pub proof fn lemma_grouping_command_groups(
    before: PickerState,
    after: PickerState,
    outcome: KeyOutcome,
)
    requires
        accepted(before, after, outcome),
        before.launch_context is AgentsDashboard,
        trimmed(before.query@) == "/group project"@ || trimmed(before.query@) == "/group status"@,
    ensures
        outcome is Continue,
        after.query@.len() == 0,
        trimmed(before.query@) == "/group project"@ ==> after.dashboard_group_mode is Project,
        trimmed(before.query@) == "/group status"@ ==> after.dashboard_group_mode is Status,
        after.search_state is Idle,
        after.all_rows == before.all_rows,
{
    reveal_strlit("/group project");
    reveal_strlit("/group status");
    assert("/group project"@.len() != "/group status"@.len());
}

proof fn lemma_unknown_threads(state: PickerState, first: int, end: int, i: int)
    requires
        0 <= first <= end <= state.filtered_rows@.len(),
        0 <= i < unknown_threads(state, first, end).len(),
    ensures
        exists|at: int|
            first <= at < end && (#[trigger] state.filtered_rows@[at]).thread_id == Some(
                unknown_threads(state, first, end)[i],
            ),
        !state.transcript_previews@.contains_key(unknown_threads(state, first, end)[i].bits),
    decreases end - first,
{
    let before = unknown_threads(state, first, end - 1);
    if i < before.len() {
        lemma_unknown_threads(state, first, end - 1, i);
        let at = choose|at: int|
            first <= at < end - 1 && (#[trigger] state.filtered_rows@[at]).thread_id == Some(
                before[i],
            );
        assert(state.filtered_rows@[at].thread_id == Some(unknown_threads(state, first, end)[i]));
    } else {
        assert(state.filtered_rows@[end - 1].thread_id == Some(
            unknown_threads(state, first, end)[i],
        ));
    }
}

/// What is asked for to show the dashboard's rows are conversations of threads in view of which
/// nothing is known; what was asked for before stays asked for.
pub proof fn lemma_conversations_in_view_are_asked_for(
    before: PickerState,
    after: PickerState,
    i: int,
)
    requires
        visible_previews_asked(before, after),
        before.requests@.len() <= i < after.requests@.len(),
        before.scroll_top <= before.filtered_rows@.len(),
    ensures
        before.launch_context is AgentsDashboard,
        after.requests@.take(before.requests@.len() as int) == before.requests@,
        after.requests@[i] matches PickerLoadRequest::Preview { thread_id } && {
            &&& !before.transcript_previews@.contains_key(thread_id.bits)
            &&& exists|at: int|
                before.scroll_top <= at < before.scroll_top + before.view_rows->0 && at
                    < before.filtered_rows@.len() && (
                #[trigger] before.filtered_rows@[at]).thread_id == Some(thread_id)
        },
{
    let top = before.scroll_top as int;
    let end = crate::transcript::view_end(before);
    let ids = unknown_threads(before, top, end);
    let k = i - before.requests@.len();
    assert(after.requests@.take(before.requests@.len() as int) =~= before.requests@);
    assert(after.requests@[i] == (PickerLoadRequest::Preview { thread_id: ids[k] }));
    lemma_unknown_threads(before, top, end, k);
}

/// A session whose thread was found at its path is opened with that path; one that was not found is
/// told.
pub proof fn lemma_found_thread_is_opened(
    before: PickerState,
    after: PickerState,
    path: SessionPath,
    thread_id: ThreadId,
    outcome: KeyOutcome,
)
    requires
        crate::keyboard::thread_accepted(before, after, Some(path), thread_id, outcome),
        !(before.launch_context is AgentsDashboard),
    ensures
        before.status is Active && before.action is Resume ==> outcome == KeyOutcome::Selected(
            SessionSelection::Resume(SessionTarget { path: Some(path), thread_id }),
        ),
        before.status is Active && before.action is Fork ==> outcome == KeyOutcome::Selected(
            SessionSelection::Fork(SessionTarget { path: Some(path), thread_id }),
        ),
        before.status is Archived ==> outcome is Continue && after.requests@.last() == (
        PickerLoadRequest::Unarchive { thread_id }),
{
}

/// A new query begins at the top of what it lists, unless the session that stood at the top before
/// is listed further down.
pub proof fn lemma_query_begins_at_the_top(
    before: PickerState,
    after: PickerState,
    query: Seq<char>,
)
    requires
        query_set(before, after, query),
        before.query@ != query,
        before.dashboard_restore_thread_id is None,
        before.dashboard_restore_cwd is None,
        before.filtered_rows@.len() > 0 ==> forall|i: int|
            0 <= i < after.filtered_rows@.len() ==> !same_session(
                #[trigger] after.filtered_rows@[i],
                before.filtered_rows@[0],
            ),
    ensures
        after.selected == 0,
{
    let begun = PickerState { query: after.query, selected: 0, ..before };
    let found = choose|found: PickerState|
        #![trigger search_begun(found, after)]
        refiltered(begun, found) && search_begun(found, after);
    lemma_begun_search_keeps_list(found, after);
    let rows = found.filtered_rows@;
    if let Some(key) = selected_key(begun) {
        crate::filter::lemma_first_from(rows, crate::filter::by_key(key), 0);
        if let Some(index) = crate::filter::first_of(rows, crate::filter::by_key(key)) {
            assert(same_session(after.filtered_rows@[index], before.filtered_rows@[0]));
        }
    }
    lemma_begun_search_keeps_selection(found, after);
}

proof fn lemma_begun_search_keeps_selection(found: PickerState, after: PickerState)
    requires
        search_begun(found, after),
    ensures
        after.selected == found.selected,
{
}

/// Every row in view of the dashboard of whose conversation nothing is known has it asked for.
pub proof fn lemma_every_conversation_in_view_is_asked_for(
    before: PickerState,
    after: PickerState,
    at: int,
)
    requires
        visible_previews_asked(before, after),
        before.launch_context is AgentsDashboard,
        before.view_rows is Some,
        before.scroll_top <= at < before.scroll_top + before.view_rows->0,
        at < before.filtered_rows@.len(),
        before.filtered_rows@[at].thread_id is Some,
        !before.transcript_previews@.contains_key(before.filtered_rows@[at].thread_id->0.bits),
    ensures
        exists|i: int|
            before.requests@.len() <= i < after.requests@.len() && #[trigger] after.requests@[i]
                == (PickerLoadRequest::Preview {
                thread_id: before.filtered_rows@[at].thread_id->0,
            }),
{
    let top = before.scroll_top as int;
    let end = crate::transcript::view_end(before);
    let ids = unknown_threads(before, top, end);
    crate::laws::lemma_unknown_are_asked(before, top, end, at);
    let k = choose|k: int|
        0 <= k < ids.len() && #[trigger] ids[k] == before.filtered_rows@[at].thread_id->0;
    assert(after.requests@[before.requests@.len() + k] == (PickerLoadRequest::Preview {
        thread_id: before.filtered_rows@[at].thread_id->0,
    }));
}

} // verus!
