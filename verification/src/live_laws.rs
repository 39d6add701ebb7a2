//! What the dashboard promises of the notifications that keep its rows up to date.

use vstd::prelude::*;
use crate::archive::{archive_asked, archive_handled, not_thread, unarchive_handled};
use crate::dashboard::status_of;
use crate::filter::{by_thread, first_of, lemma_first_from, refiltered};
use crate::ids::{thread_id_of, uuid_bits, ThreadId};
use crate::live_rows::{
    failure_noted, notified, row_added, row_removed, row_updated, rows_shown_again,
    server_event_handled, status_noted, thread_forgotten, RowUpdate,
};
use crate::paging_laws::is_row_for;
use crate::picker::PickerState;
use crate::protocol::{
    AppServerEvent, ServerNotification, Thread, ThreadActiveFlag, ThreadStatus,
};
use crate::row::{key_in, Row, SeenRowKey};
use crate::session::{PickerLoadRequest, SessionSelection, SessionTarget};
use crate::transcript::selected_thread;

verus! {

/// What the dashboard shows of a status: a thread that waits for approval or an answer, or that
/// failed, needs input; another active one is working; one that is loaded and rests is idle; one
/// that is not loaded is done.
pub proof fn lemma_status_tells_what_is_needed(flags: Vec<ThreadActiveFlag>)
    ensures
        flags@.contains(ThreadActiveFlag::WaitingOnApproval) ==> status_of(
            ThreadStatus::Active { active_flags: flags },
        ) is NeedsInput,
        flags@.contains(ThreadActiveFlag::WaitingOnUserInput) ==> status_of(
            ThreadStatus::Active { active_flags: flags },
        ) is NeedsInput,
        !flags@.contains(ThreadActiveFlag::WaitingOnApproval) && !flags@.contains(
            ThreadActiveFlag::WaitingOnUserInput,
        ) ==> status_of(ThreadStatus::Active { active_flags: flags }) is Working,
        status_of(ThreadStatus::SystemError) is NeedsInput,
        status_of(ThreadStatus::Idle) is Idle,
        status_of(ThreadStatus::NotLoaded) is Done,
{
    if flags@.contains(ThreadActiveFlag::WaitingOnApproval) {
        let i = choose|i: int|
            0 <= i < flags@.len() && flags@[i] == ThreadActiveFlag::WaitingOnApproval;
        assert(!(flags@[i] is Other));
    }
    if flags@.contains(ThreadActiveFlag::WaitingOnUserInput) {
        let i = choose|i: int|
            0 <= i < flags@.len() && flags@[i] == ThreadActiveFlag::WaitingOnUserInput;
        assert(!(flags@[i] is Other));
    }
    if crate::dashboard::is_waiting(flags@) {
        let i = choose|i: int| 0 <= i < flags@.len() && !((#[trigger] flags@[i]) is Other);
        match flags@[i] {
            ThreadActiveFlag::WaitingOnApproval => {
                assert(flags@.contains(ThreadActiveFlag::WaitingOnApproval));
            },
            _ => {
                assert(flags@.contains(ThreadActiveFlag::WaitingOnUserInput));
            },
        }
    }
}

/// The rows of `after` are those of `before` but for row `at`.
pub open spec fn only_row_changed(before: Seq<Row>, after: Seq<Row>, at: int) -> bool {
    &&& after.len() == before.len()
    &&& forall|i: int| 0 <= i < before.len() && i != at ==> #[trigger] after[i] == before[i]
}

proof fn lemma_row_updated(
    before: PickerState,
    after: PickerState,
    thread_id: Seq<char>,
    update: RowUpdate,
    at: int,
)
    requires
        row_updated(before, after, thread_id, update),
        uuid_bits(thread_id) is Some,
        0 <= at < before.all_rows@.len(),
        before.all_rows@[at].thread_id is Some,
        before.all_rows@[at].thread_id->0.bits == uuid_bits(thread_id)->0,
        forall|i: int|
            0 <= i < at ==> (#[trigger] before.all_rows@[i]).thread_id is None
                || before.all_rows@[i].thread_id->0.bits != uuid_bits(thread_id)->0,
    ensures
        only_row_changed(before.all_rows@, after.all_rows@, at),
        after.all_rows@[at].path == before.all_rows@[at].path,
        after.all_rows@[at].preview == before.all_rows@[at].preview,
        after.all_rows@[at].thread_id == before.all_rows@[at].thread_id,
        after.all_rows@[at].created_at == before.all_rows@[at].created_at,
        after.all_rows@[at].cwd == before.all_rows@[at].cwd,
        after.all_rows@[at].git_branch == before.all_rows@[at].git_branch,
        after.all_rows@[at].updated_at == Some(before.current_time),
        update matches RowUpdate::Status(status) ==> after.all_rows@[at].dashboard_status == Some(
            status,
        ) && after.all_rows@[at].thread_name == before.all_rows@[at].thread_name,
        update matches RowUpdate::Name(name) ==> after.all_rows@[at].thread_name == name
            && after.all_rows@[at].dashboard_status == before.all_rows@[at].dashboard_status,
        after.seen_rows == before.seen_rows,
        after.query == before.query,
        after.requests == before.requests,
        after.pagination == before.pagination,
{
    let id = thread_id_of(thread_id)->0;
    lemma_first_from(before.all_rows@, by_thread(id), 0);
    assert(by_thread(id)(before.all_rows@[at]));
    let found = first_of(before.all_rows@, by_thread(id))->0;
    assert(found == at) by {
        if found < at {
            assert(by_thread(id)(before.all_rows@[found]));
        }
    }
    let changed = choose|changed: PickerState|
        #![trigger rows_shown_again(changed, after, selected_thread(before))]
        changed == (PickerState { all_rows: changed.all_rows, ..before })
            && changed.all_rows@ == before.all_rows@.update(
            at,
            crate::live_rows::updated_row(before.all_rows@[at], update, before.current_time),
        ) && rows_shown_again(changed, after, selected_thread(before));
    let filtered = choose|filtered: PickerState|
        #![trigger refiltered(changed, filtered)]
        refiltered(changed, filtered) && after == crate::live_rows::selection_restored(
            filtered,
            selected_thread(before),
        );
    assert(after.all_rows == changed.all_rows);
}

/// A status notification gives the thread's row its status and the time at which it came, and
/// leaves everything else of the row, every other row, and what is asked for as they were.
pub proof fn lemma_status_change_changes_status_alone(
    before: PickerState,
    after: PickerState,
    thread_id: String,
    status: ThreadStatus,
    at: int,
)
    requires
        notified(before, after, ServerNotification::ThreadStatusChanged { thread_id, status }),
        uuid_bits(thread_id@) is Some,
        0 <= at < before.all_rows@.len(),
        before.all_rows@[at].thread_id is Some,
        before.all_rows@[at].thread_id->0.bits == uuid_bits(thread_id@)->0,
        forall|i: int|
            0 <= i < at ==> (#[trigger] before.all_rows@[i]).thread_id is None
                || before.all_rows@[i].thread_id->0.bits != uuid_bits(thread_id@)->0,
    ensures
        only_row_changed(before.all_rows@, after.all_rows@, at),
        after.all_rows@[at].dashboard_status == Some(status_of(status)),
        after.all_rows@[at].updated_at == Some(before.current_time),
        after.all_rows@[at].thread_name == before.all_rows@[at].thread_name,
        after.all_rows@[at].preview == before.all_rows@[at].preview,
        after.all_rows@[at].path == before.all_rows@[at].path,
        after.all_rows@[at].cwd == before.all_rows@[at].cwd,
        after.all_rows@[at].git_branch == before.all_rows@[at].git_branch,
        after.all_rows@[at].created_at == before.all_rows@[at].created_at,
        after.all_rows@[at].thread_id == before.all_rows@[at].thread_id,
        after.seen_rows == before.seen_rows,
        after.query == before.query,
        after.requests == before.requests,
        after.pagination == before.pagination,
{
    let id = thread_id_of(thread_id@)->0;
    let noted = choose|noted: PickerState|
        #![trigger status_noted(before, noted, id, status is SystemError)]
        status_noted(before, noted, id, status is SystemError) && row_updated(
            noted,
            after,
            thread_id@,
            RowUpdate::Status(status_of(status)),
        );
    lemma_row_updated(noted, after, thread_id@, RowUpdate::Status(status_of(status)), at);
}

/// A new name changes the thread's name, and with it the title that the list shows, and the time at
/// which it came; it leaves everything else of the row and every other row as they were.
pub proof fn lemma_name_change_changes_name_alone(
    before: PickerState,
    after: PickerState,
    thread_id: String,
    thread_name: Option<String>,
    at: int,
)
    requires
        notified(before, after, ServerNotification::ThreadNameUpdated { thread_id, thread_name }),
        uuid_bits(thread_id@) is Some,
        0 <= at < before.all_rows@.len(),
        before.all_rows@[at].thread_id is Some,
        before.all_rows@[at].thread_id->0.bits == uuid_bits(thread_id@)->0,
        forall|i: int|
            0 <= i < at ==> (#[trigger] before.all_rows@[i]).thread_id is None
                || before.all_rows@[i].thread_id->0.bits != uuid_bits(thread_id@)->0,
    ensures
        only_row_changed(before.all_rows@, after.all_rows@, at),
        after.all_rows@[at].thread_name == thread_name,
        thread_name is Some ==> after.all_rows@[at].title() == thread_name->0@,
        thread_name is None ==> after.all_rows@[at].title() == before.all_rows@[at].preview@,
        after.all_rows@[at].updated_at == Some(before.current_time),
        after.all_rows@[at].dashboard_status == before.all_rows@[at].dashboard_status,
        after.all_rows@[at].preview == before.all_rows@[at].preview,
        after.all_rows@[at].path == before.all_rows@[at].path,
        after.all_rows@[at].cwd == before.all_rows@[at].cwd,
        after.all_rows@[at].git_branch == before.all_rows@[at].git_branch,
        after.all_rows@[at].created_at == before.all_rows@[at].created_at,
        after.all_rows@[at].thread_id == before.all_rows@[at].thread_id,
        after.seen_rows == before.seen_rows,
        after.query == before.query,
        after.requests == before.requests,
        after.pagination == before.pagination,
{
    lemma_row_updated(before, after, thread_id@, RowUpdate::Name(thread_name), at);
}

/// A notification about a thread that is not listed leaves the rows as they are.
pub proof fn lemma_unlisted_threads_change_no_row(
    before: PickerState,
    after: PickerState,
    notification: ServerNotification,
)
    requires
        notified(before, after, notification),
        notification matches ServerNotification::ThreadStatusChanged { thread_id, .. } ==> forall|
            i: int,
        |
            0 <= i < before.all_rows@.len() ==> (#[trigger] before.all_rows@[i]).thread_id
                != thread_id_of(thread_id@) || before.all_rows@[i].thread_id is None,
        notification matches ServerNotification::ThreadNameUpdated { thread_id, .. } ==> forall|
            i: int,
        |
            0 <= i < before.all_rows@.len() ==> (#[trigger] before.all_rows@[i]).thread_id
                != thread_id_of(thread_id@) || before.all_rows@[i].thread_id is None,
        notification is ThreadStatusChanged || notification is ThreadNameUpdated
            || notification is Other,
    ensures
        after.all_rows == before.all_rows,
        after.filtered_rows == before.filtered_rows,
        after.selected == before.selected,
        after.requests == before.requests,
{
    match notification {
        ServerNotification::ThreadStatusChanged { thread_id, status } => {
            if let Some(id) = thread_id_of(thread_id@) {
                lemma_first_from(before.all_rows@, by_thread(id), 0);
            }
        },
        ServerNotification::ThreadNameUpdated { thread_id, .. } => {
            if let Some(id) = thread_id_of(thread_id@) {
                lemma_first_from(before.all_rows@, by_thread(id), 0);
            }
        },
        _ => {},
    }
}

proof fn lemma_shown_again(changed: PickerState, after: PickerState, selected: Option<ThreadId>)
    requires
        rows_shown_again(changed, after, selected),
    ensures
        exists|filtered: PickerState|
            #![trigger refiltered(changed, filtered)]
            refiltered(changed, filtered) && after.filtered_rows == filtered.filtered_rows,
        after.all_rows == changed.all_rows,
        after.seen_rows == changed.seen_rows,
        after.query == changed.query,
        after.requests == changed.requests,
        after.pagination == changed.pagination,
        after.filter_mode == changed.filter_mode,
        after.local_filter_cwd == changed.local_filter_cwd,
        after.launch_context == changed.launch_context,
        after.transcript_previews == changed.transcript_previews,
        after.dashboard_system_errors == changed.dashboard_system_errors,
        after.inline_error == changed.inline_error,
        after.frame_requested,
{
    let filtered = choose|filtered: PickerState|
        #![trigger refiltered(changed, filtered)]
        refiltered(changed, filtered) && after == crate::live_rows::selection_restored(
            filtered,
            selected,
        );
    assert(refiltered(changed, filtered) && after.filtered_rows == filtered.filtered_rows);
}

/// The list that is shown after rows changed: what is loaded is listed where nothing is filtered or
/// searched for, a listed session is loaded, and the thread that is to stay selected is selected
/// where it is still listed.
pub proof fn lemma_changed_rows_are_listed(
    changed: PickerState,
    after: PickerState,
    selected: Option<ThreadId>,
    row: Row,
)
    requires
        rows_shown_again(changed, after, selected),
    ensures
        (changed.filter_mode is All || changed.local_filter_cwd is None) && changed.query@.len()
            == 0 && changed.all_rows@.contains(row) ==> after.filtered_rows@.contains(row),
        after.filtered_rows@.contains(row) && row.thread_id is Some ==> changed.all_rows@.contains(
            row,
        ),
        selected is Some && after.filtered_rows@.contains(row) && row.thread_id == selected ==> {
            &&& after.selected < after.filtered_rows@.len()
            &&& after.filtered_rows@[after.selected as int].thread_id == selected
        },
{
    let filtered = choose|filtered: PickerState|
        #![trigger refiltered(changed, filtered)]
        refiltered(changed, filtered) && after == crate::live_rows::selection_restored(
            filtered,
            selected,
        );
    crate::list_laws::lemma_listed(changed, filtered, row);
    if selected is Some && after.filtered_rows@.contains(row) && row.thread_id == selected {
        let rows = filtered.filtered_rows@;
        lemma_first_from(rows, by_thread(selected->0), 0);
        let i = choose|i: int| 0 <= i < rows.len() && rows[i] == row;
        assert(by_thread(selected->0)(rows[i]));
        assert(filtered.filtered_rows@.len() == filtered.filtered_rows.len());
    }
}

/// A notification keeps the selection on its thread: where the thread of the selected row is still
/// listed after a status or name came for any thread, its row is the selected one.
pub proof fn lemma_notification_keeps_selection(
    before: PickerState,
    after: PickerState,
    thread_id: Seq<char>,
    update: RowUpdate,
    selected: ThreadId,
    row: Row,
)
    requires
        row_updated(before, after, thread_id, update),
        before.selected < before.filtered_rows@.len(),
        before.filtered_rows@[before.selected as int].thread_id == Some(selected),
        after.filtered_rows@.contains(row),
        row.thread_id == Some(selected),
    ensures
        after.selected < after.filtered_rows@.len(),
        after.filtered_rows@[after.selected as int].thread_id == Some(selected),
{
    let found = match thread_id_of(thread_id) {
        Some(id) => first_of(before.all_rows@, by_thread(id)),
        None => None,
    };
    if let Some(index) = found {
        let changed = choose|changed: PickerState|
            #![trigger rows_shown_again(changed, after, selected_thread(before))]
            changed == (PickerState { all_rows: changed.all_rows, ..before })
                && changed.all_rows@ == before.all_rows@.update(
                index,
                crate::live_rows::updated_row(
                    before.all_rows@[index],
                    update,
                    before.current_time,
                ),
            ) && rows_shown_again(changed, after, selected_thread(before));
        lemma_changed_rows_are_listed(changed, after, Some(selected), row);
    }
}

/// The changed row is listed where nothing is filtered or searched for.
pub proof fn lemma_changed_row_is_listed(
    before: PickerState,
    after: PickerState,
    thread_id: Seq<char>,
    update: RowUpdate,
    at: int,
)
    requires
        row_updated(before, after, thread_id, update),
        uuid_bits(thread_id) is Some,
        0 <= at < before.all_rows@.len(),
        before.all_rows@[at].thread_id is Some,
        before.all_rows@[at].thread_id->0.bits == uuid_bits(thread_id)->0,
        before.filter_mode is All || before.local_filter_cwd is None,
        before.query@.len() == 0,
    ensures
        after.all_rows@.len() == before.all_rows@.len(),
        forall|i: int|
            0 <= i < after.all_rows@.len() ==> after.filtered_rows@.contains(
                #[trigger] after.all_rows@[i],
            ),
{
    let id = thread_id_of(thread_id)->0;
    lemma_first_from(before.all_rows@, by_thread(id), 0);
    assert(by_thread(id)(before.all_rows@[at]));
    let index = first_of(before.all_rows@, by_thread(id))->0;
    let changed = choose|changed: PickerState|
        #![trigger rows_shown_again(changed, after, selected_thread(before))]
        changed == (PickerState { all_rows: changed.all_rows, ..before })
            && changed.all_rows@ == before.all_rows@.update(
            index,
            crate::live_rows::updated_row(before.all_rows@[index], update, before.current_time),
        ) && rows_shown_again(changed, after, selected_thread(before));
    lemma_shown_again(changed, after, selected_thread(before));
    assert forall|i: int| 0 <= i < after.all_rows@.len() implies after.filtered_rows@.contains(
        #[trigger] after.all_rows@[i],
    ) by {
        lemma_changed_rows_are_listed(
            changed,
            after,
            selected_thread(before),
            after.all_rows@[i],
        );
        assert(changed.all_rows@.contains(after.all_rows@[i]));
    }
}

/// The rows that are not of a thread are all of the others.
pub proof fn lemma_filter_without(rows: Seq<Row>, id: ThreadId, row: Row)
    ensures
        rows.filter(not_thread(id)).contains(row) == (rows.contains(row) && row.thread_id != Some(
            id,
        )),
{
    let kept = not_thread(id);
    if rows.contains(row) && row.thread_id != Some(id) {
        let i = choose|i: int| 0 <= i < rows.len() && rows[i] == row;
        rows.lemma_filter_contains(kept, i);
    }
    if rows.filter(kept).contains(row) {
        let i = choose|i: int| 0 <= i < rows.filter(kept).len() && rows.filter(kept)[i] == row;
        rows.lemma_filter_pred(kept, i);
        lemma_filter_is_of(rows, kept, i);
    }
}

proof fn lemma_filter_is_of(rows: Seq<Row>, kept: spec_fn(Row) -> bool, i: int)
    requires
        0 <= i < rows.filter(kept).len(),
    ensures
        rows.contains(rows.filter(kept)[i]),
    decreases rows.len(),
{
    reveal(Seq::filter);
    if rows.len() > 0 {
        let less = rows.drop_last();
        if i < less.filter(kept).len() {
            lemma_filter_is_of(less, kept, i);
            let at = choose|at: int| 0 <= at < less.len() && less[at] == less.filter(kept)[i];
            assert(rows[at] == rows.filter(kept)[i]);
        } else {
            assert(rows[rows.len() - 1] == rows.filter(kept)[i]);
        }
    }
}

/// A thread that was archived or deleted elsewhere leaves the list, and nothing else does; what was
/// known of its conversation and of its failure is forgotten, and it could be listed again. Other
/// sessions stay known.
pub proof fn lemma_removed_thread_leaves_the_list(
    before: PickerState,
    after: PickerState,
    notification: ServerNotification,
    id: ThreadId,
    row: Row,
)
    requires
        notified(before, after, notification),
        notification matches ServerNotification::ThreadArchived { thread_id } ==> uuid_bits(
            thread_id@,
        ) == Some(id.bits),
        notification matches ServerNotification::ThreadDeleted { thread_id } ==> uuid_bits(
            thread_id@,
        ) == Some(id.bits),
        notification is ThreadArchived || notification is ThreadDeleted,
    ensures
        after.all_rows@.contains(row) == (before.all_rows@.contains(row) && row.thread_id != Some(
            id,
        )),
        after.filtered_rows@.contains(row) ==> row.thread_id != Some(id),
        (before.filter_mode is All || before.local_filter_cwd is None) && before.query@.len() == 0
            && before.all_rows@.contains(row) && row.thread_id != Some(id)
            ==> after.filtered_rows@.contains(row),
        !after.transcript_previews@.contains_key(id.bits),
        !after.dashboard_system_errors@.contains(id.bits),
        !key_in(after.seen_rows@, SeenRowKey::Thread(id)),
        after.requests == before.requests,
        after.pagination == before.pagination,
        after.query == before.query,
{
    let text = match notification {
        ServerNotification::ThreadArchived { thread_id } => thread_id@,
        ServerNotification::ThreadDeleted { thread_id } => thread_id@,
        _ => Seq::empty(),
    };
    assert(row_removed(before, after, text));
    let other = crate::live_rows::selected_other(before, text);
    let forgotten = choose|forgotten: PickerState|
        #![trigger thread_forgotten(before, forgotten, id)]
        thread_forgotten(before, forgotten, id) && rows_shown_again(forgotten, after, other);
    lemma_shown_again(forgotten, after, other);
    lemma_changed_rows_are_listed(forgotten, after, other, row);
    lemma_filter_without(before.all_rows@, id, row);
    if key_in(after.seen_rows@, SeenRowKey::Thread(id)) {
        let forgets = crate::live_rows::not_key(SeenRowKey::Thread(id));
        let left = before.seen_rows@.filter(forgets);
        let m = choose|m: int|
            0 <= m < left.len() && crate::row::same_key(#[trigger] left[m], SeenRowKey::Thread(id));
        before.seen_rows@.lemma_filter_pred(forgets, m);
    }
}

/// A thread that starts is listed with what the app server says of it, behind what is loaded, unless
/// its session was seen before or another thread started it. Whether it failed is noted.
pub proof fn lemma_started_thread_is_listed(
    before: PickerState,
    after: PickerState,
    thread: Thread,
)
    requires
        notified(before, after, ServerNotification::ThreadStarted { thread }),
    ensures
        thread.parent_thread_id is Some ==> after == before,
        thread.parent_thread_id is None && uuid_bits(thread.id@) is Some && thread.path is None
            && !key_in(
            before.seen_rows@,
            SeenRowKey::Thread(ThreadId { bits: uuid_bits(thread.id@)->0 }),
        ) ==> {
            &&& after.all_rows@.len() == before.all_rows@.len() + 1
            &&& after.all_rows@.drop_last() == before.all_rows@
            &&& is_row_for(after.all_rows@.last(), thread, true)
            &&& after.all_rows@.last().dashboard_status == Some(status_of(thread.status))
            &&& (before.filter_mode is All || before.local_filter_cwd is None)
                && before.query@.len() == 0 ==> after.filtered_rows@.contains(
                after.all_rows@.last(),
            )
        },
        thread.parent_thread_id is None && uuid_bits(thread.id@) is Some && thread.path is Some
            && !key_in(before.seen_rows@, SeenRowKey::Path(thread.path->0)) ==> {
            &&& after.all_rows@.len() == before.all_rows@.len() + 1
            &&& after.all_rows@.drop_last() == before.all_rows@
            &&& is_row_for(after.all_rows@.last(), thread, true)
            &&& after.all_rows@.last().dashboard_status == Some(status_of(thread.status))
        },
        thread.parent_thread_id is None && uuid_bits(thread.id@) is Some && thread.status
            is SystemError ==> after.dashboard_system_errors@.contains(uuid_bits(thread.id@)->0),
        thread.parent_thread_id is None && uuid_bits(thread.id@) is Some && thread.path is Some
            && key_in(before.seen_rows@, SeenRowKey::Path(thread.path->0)) ==> after.all_rows
            == before.all_rows && after.filtered_rows == before.filtered_rows,
        after.requests == before.requests,
        after.pagination == before.pagination,
{
    if thread.parent_thread_id is None && thread_id_of(thread.id@) is Some {
        let id = thread_id_of(thread.id@)->0;
        let failed = thread.status is SystemError;
        let (noted, row) = choose|noted: PickerState, row: Row|
            #![trigger failure_noted(before, noted, id, failed), crate::row::is_row_of(row, thread, id, true)]
            failure_noted(before, noted, id, failed) && crate::row::is_row_of(
                row,
                thread,
                id,
                true,
            ) && row_added(noted, after, row);
        assert(is_row_for(row, thread, true));
        if !(row.key() is Some && key_in(noted.seen_rows@, row.key()->0)) {
            let added = choose|added: PickerState|
                #![trigger refiltered(added, after)]
                added == (PickerState {
                    all_rows: added.all_rows,
                    seen_rows: added.seen_rows,
                    ..noted
                }) && added.all_rows@ == noted.all_rows@.push(row) && added.seen_rows@ == (
                match row.key() {
                    Some(key) => noted.seen_rows@.push(key),
                    None => noted.seen_rows@,
                }) && refiltered(added, after);
            assert(after.all_rows@.drop_last() =~= before.all_rows@);
            assert(added.all_rows@.contains(row)) by {
                assert(added.all_rows@[noted.all_rows@.len() as int] == row);
            }
            crate::list_laws::lemma_listed(added, after, row);
        }
    }
}

/// Where events were lost, or a session came back from the archive, the listing is loaded anew.
pub proof fn lemma_lost_events_reload(
    before: PickerState,
    after: PickerState,
    event: AppServerEvent,
    lost: bool,
)
    requires
        server_event_handled(before, after, event, lost),
        event is Lagged || event matches AppServerEvent::Notification(
            ServerNotification::ThreadUnarchived { .. },
        ),
    ensures
        !lost,
        after.all_rows@.len() == 0,
        after.filtered_rows@.len() == 0,
        after.seen_rows@.len() == 0,
        after.pagination.pending is Some,
        after.requests@.len() == before.requests@.len() + 1,
        after.requests@.last() matches PickerLoadRequest::Page(request) && request.cursor is None,
{
}

/// A lost connection is told; only the dashboard asks to be opened again. The list stays.
pub proof fn lemma_lost_connection_is_told(
    before: PickerState,
    after: PickerState,
    message: String,
    lost: bool,
)
    requires
        server_event_handled(before, after, AppServerEvent::Disconnected { message }, lost),
    ensures
        lost <==> before.launch_context is AgentsDashboard,
        after.inline_error is Some,
        after.inline_error->0@ == "Dashboard disconnected: "@ + message@,
        after.frame_requested,
        after.all_rows == before.all_rows,
        after.filtered_rows == before.filtered_rows,
        after.selected == before.selected,
        after.requests == before.requests,
{
}

/// Archiving asks for the selected session's thread, and what came of it is taken up: an archived
/// session leaves the list and nothing else does; a failure is told and leaves the list as it is.
/// Either way another session can be archived then.
pub proof fn lemma_archived_session_leaves_the_list(
    before: PickerState,
    asked: PickerState,
    waiting: PickerState,
    after: PickerState,
    result: Result<(), String>,
    row: Row,
)
    requires
        before.selected < before.filtered_rows@.len(),
        before.filtered_rows@[before.selected as int].thread_id is Some,
        archive_asked(before, asked),
        archive_handled(
            waiting,
            after,
            before.filtered_rows@[before.selected as int].thread_id->0,
            result,
        ),
    ensures
        ({
            let id = before.filtered_rows@[before.selected as int].thread_id->0;
            &&& asked.requests@.len() == before.requests@.len() + 1
            &&& asked.requests@.last() matches PickerLoadRequest::Archive { thread_id }
            &&& thread_id == id
            &&& asked.archive_state matches crate::archive::ArchiveState::Archiving(thread_id)
            &&& thread_id == id
            &&& asked.all_rows == before.all_rows
            &&& asked.filtered_rows == before.filtered_rows
            &&& after.archive_state is Idle
            &&& result is Ok ==> {
                &&& after.all_rows@.contains(row) == (waiting.all_rows@.contains(row)
                    && row.thread_id != Some(id))
                &&& after.filtered_rows@.contains(row) ==> row.thread_id != Some(id)
                &&& (waiting.filter_mode is All || waiting.local_filter_cwd is None)
                    && waiting.query@.len() == 0 && waiting.all_rows@.contains(row)
                    && row.thread_id != Some(id) ==> after.filtered_rows@.contains(row)
                &&& after.inline_error == waiting.inline_error
            }
            &&& result matches Err(error) ==> {
                &&& after.all_rows == waiting.all_rows
                &&& after.filtered_rows == waiting.filtered_rows
                &&& after.inline_error is Some
                &&& after.inline_error->0@ == "Failed to archive session: "@ + error@
            }
        }),
{
    let id = before.filtered_rows@[before.selected as int].thread_id->0;
    if result is Ok {
        let left = choose|left: PickerState|
            #![trigger refiltered(left, after)]
            left == (PickerState {
                archive_state: crate::archive::ArchiveState::Idle,
                all_rows: left.all_rows,
                ..waiting
            }) && left.all_rows@ == waiting.all_rows@.filter(not_thread(id)) && refiltered(
                left,
                after,
            );
        lemma_filter_without(waiting.all_rows@, id, row);
        crate::list_laws::lemma_listed(left, after, row);
    }
}

/// A session that came back from the archive is chosen under the action that the picker was opened
/// for, with the path under which it is found then; a failure is told.
pub proof fn lemma_restored_session_is_chosen(
    before: PickerState,
    after: PickerState,
    result: Result<SessionTarget, String>,
    chosen: Option<SessionSelection>,
)
    requires
        unarchive_handled(before, after, result, chosen),
    ensures
        after.archive_state is Idle,
        result is Ok && before.action is Resume ==> chosen == Some(
            SessionSelection::Resume(result->Ok_0),
        ),
        result is Ok && before.action is Fork ==> chosen == Some(
            SessionSelection::Fork(result->Ok_0),
        ),
        result matches Err(error) ==> chosen is None && after.inline_error is Some
            && after.inline_error->0@ == "Failed to restore session: "@ + error@,
        after.all_rows == before.all_rows,
        after.filtered_rows == before.filtered_rows,
{
}

/// A thread that is removed leaves the selection on the thread that is selected, where that is
/// another one.
pub proof fn lemma_removal_keeps_selection(
    before: PickerState,
    after: PickerState,
    thread_id: Seq<char>,
    selected: ThreadId,
    row: Row,
)
    requires
        row_removed(before, after, thread_id),
        before.selected < before.filtered_rows@.len(),
        before.filtered_rows@[before.selected as int].thread_id == Some(selected),
        crate::ids::uuid_text(selected.bits) != thread_id,
        after.filtered_rows@.contains(row),
        row.thread_id == Some(selected),
    ensures
        after.selected < after.filtered_rows@.len(),
        after.filtered_rows@[after.selected as int].thread_id == Some(selected),
{
    if let Some(id) = thread_id_of(thread_id) {
        let other = crate::live_rows::selected_other(before, thread_id);
        let forgotten = choose|forgotten: PickerState|
            #![trigger thread_forgotten(before, forgotten, id)]
            thread_forgotten(before, forgotten, id) && rows_shown_again(forgotten, after, other);
        lemma_changed_rows_are_listed(forgotten, after, Some(selected), row);
    }
}

} // verus!
