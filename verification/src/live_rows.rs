//! Keeping the rows up with what the app server tells of its threads.

use vstd::prelude::*;
use vstd::string::StringExecFns;
use crate::archive::{not_thread, rows_without};
use crate::dashboard::{status, status_of, DashboardStatus};
use crate::filter::{by_thread, find_thread, first_of, index_within, lemma_first_from, refiltered};
use crate::ids::{thread_id_of, uuid_text, ThreadId};
use crate::loading::reloaded;
use crate::picker::PickerState;
use crate::protocol::{AppServerEvent, ServerNotification, Thread, ThreadStatus};
use crate::row::{
    contains_key, is_row_of, key_in, row_from_app_server_thread, same_key, Row, SeenRowKey,
};
use crate::scroll::shown;
use crate::text::optional_view;
use crate::time::Timestamp;
use crate::transcript::selected_thread;

verus! {

/// A change of a row.
#[derive(Debug)]
pub enum RowUpdate {
    Status(DashboardStatus),
    Name(Option<String>),
}

/// `row` with a change at `now`.
pub open spec fn updated_row(row: Row, update: RowUpdate, now: Timestamp) -> Row {
    match update {
        RowUpdate::Status(status) => Row {
            dashboard_status: Some(status),
            updated_at: Some(now),
            ..row
        },
        RowUpdate::Name(name) => Row { thread_name: name, updated_at: Some(now), ..row },
    }
}

/// `state` with the row of a thread selected and in view; without such a row, the one in its place.
pub open spec fn selection_restored(
    state: PickerState,
    thread_id: Option<ThreadId>,
) -> PickerState {
    let found = match thread_id {
        Some(thread_id) => first_of(state.filtered_rows@, by_thread(thread_id)),
        None => None,
    };
    let index = match found {
        Some(index) => index,
        None => state.selected as int,
    };
    shown(
        PickerState { selected: index_within(index, state.filtered_rows@) as usize, ..state },
    )
}

/// `after` is `changed`, whose rows were changed, with these shown and the row of a thread selected.
pub open spec fn rows_shown_again(
    changed: PickerState,
    after: PickerState,
    selected: Option<ThreadId>,
) -> bool {
    exists|filtered: PickerState|
        #![trigger refiltered(changed, filtered)]
        refiltered(changed, filtered) && after == selection_restored(filtered, selected)
}

/// `after` is `before` with the row of a thread changed, where there is one. The selected thread
/// stays selected.
pub open spec fn row_updated(
    before: PickerState,
    after: PickerState,
    thread_id: Seq<char>,
    update: RowUpdate,
) -> bool {
    let found = match thread_id_of(thread_id) {
        Some(thread_id) => first_of(before.all_rows@, by_thread(thread_id)),
        None => None,
    };
    match found {
        Some(index) => exists|changed: PickerState|
            #![trigger rows_shown_again(changed, after, selected_thread(before))]
            changed == (PickerState { all_rows: changed.all_rows, ..before })
                && changed.all_rows@ == before.all_rows@.update(
                index,
                updated_row(before.all_rows@[index], update, before.current_time),
            ) && rows_shown_again(changed, after, selected_thread(before)),
        None => after == before,
    }
}

pub open spec fn not_key(key: SeenRowKey) -> spec_fn(SeenRowKey) -> bool {
    |seen: SeenRowKey| !same_key(seen, key)
}

/// The thread of the selected row, unless it is spelled `thread_id`.
pub open spec fn selected_other(state: PickerState, thread_id: Seq<char>) -> Option<ThreadId> {
    match selected_thread(state) {
        Some(selected) => if uuid_text(selected.bits) == thread_id {
            None
        } else {
            Some(selected)
        },
        None => None,
    }
}

/// `after` is `before` with everything of a thread forgotten but what is shown of it.
pub open spec fn thread_forgotten(
    before: PickerState,
    after: PickerState,
    thread_id: ThreadId,
) -> bool {
    &&& after == PickerState {
        all_rows: after.all_rows,
        seen_rows: after.seen_rows,
        dashboard_system_errors: after.dashboard_system_errors,
        transcript_previews: after.transcript_previews,
        preview_layouts: after.preview_layouts,
        ..before
    }
    &&& after.all_rows@ == before.all_rows@.filter(not_thread(thread_id))
    &&& after.seen_rows@ == before.seen_rows@.filter(not_key(SeenRowKey::Thread(thread_id)))
    &&& after.dashboard_system_errors@ == before.dashboard_system_errors@.remove(thread_id.bits)
    &&& after.transcript_previews@ == before.transcript_previews@.remove(thread_id.bits)
    &&& after.preview_layouts@ == before.preview_layouts@.remove(thread_id.bits)
}

/// `after` is `before` without the row of a thread.
pub open spec fn row_removed(
    before: PickerState,
    after: PickerState,
    thread_id: Seq<char>,
) -> bool {
    match thread_id_of(thread_id) {
        Some(id) => exists|forgotten: PickerState|
            #![trigger thread_forgotten(before, forgotten, id)]
            thread_forgotten(before, forgotten, id) && rows_shown_again(
                forgotten,
                after,
                selected_other(before, thread_id),
            ),
        None => after == before,
    }
}

/// `after` is `before` with it noted whether a thread failed, and with what was known of its
/// conversation forgotten.
pub open spec fn status_noted(
    before: PickerState,
    after: PickerState,
    thread_id: ThreadId,
    failed: bool,
) -> bool {
    &&& after == PickerState {
        dashboard_system_errors: after.dashboard_system_errors,
        transcript_previews: after.transcript_previews,
        preview_layouts: after.preview_layouts,
        ..before
    }
    &&& after.dashboard_system_errors@ == if failed {
        before.dashboard_system_errors@.insert(thread_id.bits)
    } else {
        before.dashboard_system_errors@.remove(thread_id.bits)
    }
    &&& after.transcript_previews@ == before.transcript_previews@.remove(thread_id.bits)
    &&& after.preview_layouts@ == before.preview_layouts@.remove(thread_id.bits)
}

/// `after` is `before` with a new status of a thread.
pub open spec fn status_changed(
    before: PickerState,
    after: PickerState,
    thread_id: Seq<char>,
    status: ThreadStatus,
) -> bool {
    match thread_id_of(thread_id) {
        Some(id) => exists|noted: PickerState|
            #![trigger status_noted(before, noted, id, status is SystemError)]
            status_noted(before, noted, id, status is SystemError) && row_updated(
                noted,
                after,
                thread_id,
                RowUpdate::Status(status_of(status)),
            ),
        None => after == before,
    }
}

/// `after` is `before` with a row added and shown, unless its session was seen before.
pub open spec fn row_added(before: PickerState, after: PickerState, row: Row) -> bool {
    if row.key() is Some && key_in(before.seen_rows@, row.key()->0) {
        after == before
    } else {
        exists|added: PickerState|
            #![trigger refiltered(added, after)]
            added == (PickerState {
                all_rows: added.all_rows,
                seen_rows: added.seen_rows,
                ..before
            }) && added.all_rows@ == before.all_rows@.push(row) && added.seen_rows@ == (
            match row.key() {
                Some(key) => before.seen_rows@.push(key),
                None => before.seen_rows@,
            }) && refiltered(added, after)
    }
}

/// `after` is `before` with the new thread noted as failed where it has `failed`.
pub open spec fn failure_noted(
    before: PickerState,
    after: PickerState,
    thread_id: ThreadId,
    failed: bool,
) -> bool {
    &&& after == PickerState {
        dashboard_system_errors: after.dashboard_system_errors,
        ..before
    }
    &&& after.dashboard_system_errors@ == if failed {
        before.dashboard_system_errors@.insert(thread_id.bits)
    } else {
        before.dashboard_system_errors@
    }
}

/// `after` is `before` with a new thread. Threads of other threads are not listed.
pub open spec fn thread_started(before: PickerState, after: PickerState, thread: Thread) -> bool {
    if thread.parent_thread_id is Some || thread_id_of(thread.id@) is None {
        after == before
    } else {
        let id = thread_id_of(thread.id@)->0;
        exists|noted: PickerState, row: Row|
            #![trigger failure_noted(before, noted, id, thread.status is SystemError), is_row_of(row, thread, id, true)]
            failure_noted(before, noted, id, thread.status is SystemError) && is_row_of(
                row,
                thread,
                id,
                true,
            ) && row_added(noted, after, row)
    }
}

/// `after` is `before` with a notification of the app server taken up.
pub open spec fn notified(
    before: PickerState,
    after: PickerState,
    notification: ServerNotification,
) -> bool {
    match notification {
        ServerNotification::ThreadStatusChanged { thread_id, status } => status_changed(
            before,
            after,
            thread_id@,
            status,
        ),
        ServerNotification::ThreadNameUpdated { thread_id, thread_name } => row_updated(
            before,
            after,
            thread_id@,
            RowUpdate::Name(thread_name),
        ),
        ServerNotification::ThreadArchived { thread_id } => row_removed(before, after, thread_id@),
        ServerNotification::ThreadUnarchived { .. } => reloaded(before, after),
        ServerNotification::ThreadDeleted { thread_id } => row_removed(before, after, thread_id@),
        ServerNotification::ThreadStarted { thread } => thread_started(before, after, thread),
        ServerNotification::Other => after == before,
    }
}

/// `after` is `before` with an event of the app server taken up; `lost` says that the dashboard
/// lost its connection.
pub open spec fn server_event_handled(
    before: PickerState,
    after: PickerState,
    event: AppServerEvent,
    lost: bool,
) -> bool {
    match event {
        AppServerEvent::Notification(notification) => notified(before, after, notification)
            && !lost,
        AppServerEvent::Lagged => reloaded(before, after) && !lost,
        AppServerEvent::Disconnected { message } => {
            &&& after == PickerState {
                inline_error: after.inline_error,
                frame_requested: true,
                ..before
            }
            &&& optional_view(after.inline_error) == Some("Dashboard disconnected: "@ + message@)
            &&& lost == before.is_dashboard()
        },
        AppServerEvent::ServerRequest => after == before && !lost,
    }
}

fn keys_without(keys: &Vec<SeenRowKey>, key: &SeenRowKey) -> (r: Vec<SeenRowKey>)
    ensures
        r@ == keys@.filter(not_key(*key)),
{
    let mut r: Vec<SeenRowKey> = Vec::new();
    let mut i: usize = 0;
    proof {
        reveal(Seq::filter);
        assert(keys@.take(0).filter(not_key(*key)) =~= Seq::<SeenRowKey>::empty());
    }
    while i < keys.len()
        invariant
            i <= keys.len(),
            r@ == keys@.take(i as int).filter(not_key(*key)),
        decreases keys.len() - i,
    {
        proof {
            reveal(Seq::filter);
            let part = keys@.take(i + 1);
            assert(part.drop_last() =~= keys@.take(i as int));
            assert(part.last() == keys@[i as int]);
        }
        if !keys[i].is_same(key) {
            r.push(
                match &keys[i] {
                    SeenRowKey::Path(path) => SeenRowKey::Path(path.clone()),
                    SeenRowKey::Thread(thread_id) => SeenRowKey::Thread(*thread_id),
                },
            );
        }
        i += 1;
    }
    proof {
        assert(keys@.take(keys@.len() as int) =~= keys@);
    }
    r
}

fn same_text(a: &str, b: &str) -> (r: bool)
    ensures
        r == (a@ == b@),
{
    a.to_owned() == b.to_owned()
}

impl PickerState {
    fn thread_of_selected(&self) -> (r: Option<ThreadId>)
        ensures
            r == selected_thread(*self),
    {
        if self.selected < self.filtered_rows.len() {
            self.filtered_rows[self.selected].thread_id
        } else {
            None
        }
    }

    /// Selects the row of a thread, where there is one.
    pub fn restore_dashboard_selection(&mut self, thread_id: Option<ThreadId>)
        ensures
            *final(self) == selection_restored(*old(self), thread_id),
    {
        let found: Option<usize> = match thread_id {
            Some(thread_id) => find_thread(&self.filtered_rows, thread_id),
            None => None,
        };
        let index: usize = match found {
            Some(index) => index,
            None => self.selected,
        };
        let last: usize = self.filtered_rows.len().saturating_sub(1);
        self.selected = if index < last {
            index
        } else {
            last
        };
        self.ensure_selected_visible();
    }

    fn show_rows_again(&mut self, selected: Option<ThreadId>)
        ensures
            rows_shown_again(*old(self), *final(self), selected),
    {
        self.apply_filter();
        let ghost filtered = *self;
        self.restore_dashboard_selection(selected);
        proof {
            assert(refiltered(*old(self), filtered));
        }
    }

    /// Changes the row of a thread.
    pub fn update_dashboard_row(&mut self, thread_id: &str, update: RowUpdate)
        ensures
            row_updated(*old(self), *final(self), thread_id@, update),
    {
        let selected = self.thread_of_selected();
        let thread_id = match ThreadId::from_string(thread_id) {
            Some(thread_id) => thread_id,
            None => {
                return;
            },
        };
        let index: usize = match find_thread(&self.all_rows, thread_id) {
            Some(index) => index,
            None => {
                return;
            },
        };
        proof {
            lemma_first_from(self.all_rows@, by_thread(thread_id), 0);
        }
        let mut row = self.all_rows[index].clone();
        match update {
            RowUpdate::Status(status) => {
                row.dashboard_status = Some(status);
            },
            RowUpdate::Name(name) => {
                row.thread_name = name;
            },
        }
        row.updated_at = Some(self.current_time);
        self.all_rows.set(index, row);
        let ghost changed = *self;
        self.show_rows_again(selected);
        proof {
            assert(rows_shown_again(changed, *self, selected));
        }
    }

    fn forget_thread(&mut self, thread_id: ThreadId)
        ensures
            thread_forgotten(*old(self), *final(self), thread_id),
    {
        broadcast use vstd::std_specs::hash::group_hash_axioms;

        self.all_rows = rows_without(&self.all_rows, thread_id);
        self.seen_rows = keys_without(&self.seen_rows, &SeenRowKey::Thread(thread_id));
        self.dashboard_system_errors.remove(&thread_id.bits);
        self.transcript_previews.remove(&thread_id.bits);
        self.preview_layouts.remove(&thread_id.bits);
    }

    /// Removes the row of a thread.
    pub fn remove_dashboard_row(&mut self, thread_id: &str)
        ensures
            row_removed(*old(self), *final(self), thread_id@),
    {
        let selected = match self.thread_of_selected() {
            Some(selected) => if same_text(selected.text().as_str(), thread_id) {
                None
            } else {
                Some(selected)
            },
            None => None,
        };
        proof {
            assert(selected == selected_other(*self, thread_id@));
        }
        let id = match ThreadId::from_string(thread_id) {
            Some(id) => id,
            None => {
                return;
            },
        };
        self.forget_thread(id);
        let ghost forgotten = *self;
        self.show_rows_again(selected);
        proof {
            assert(thread_forgotten(*old(self), forgotten, id));
        }
    }

    fn note_status(&mut self, thread_id: ThreadId, failed: bool)
        ensures
            status_noted(*old(self), *final(self), thread_id, failed),
    {
        broadcast use vstd::std_specs::hash::group_hash_axioms;

        if failed {
            self.dashboard_system_errors.insert(thread_id.bits);
        } else {
            self.dashboard_system_errors.remove(&thread_id.bits);
        }
        self.transcript_previews.remove(&thread_id.bits);
        self.preview_layouts.remove(&thread_id.bits);
    }

    fn change_status(&mut self, thread_id: &str, thread_status: &ThreadStatus)
        ensures
            status_changed(*old(self), *final(self), thread_id@, *thread_status),
    {
        let id = match ThreadId::from_string(thread_id) {
            Some(id) => id,
            None => {
                return;
            },
        };
        let failed = match thread_status {
            ThreadStatus::SystemError => true,
            _ => false,
        };
        self.note_status(id, failed);
        let ghost noted = *self;
        self.update_dashboard_row(thread_id, RowUpdate::Status(status(thread_status)));
        proof {
            assert(status_noted(*old(self), noted, id, *thread_status is SystemError));
        }
    }

    fn add_row(&mut self, row: Row)
        ensures
            row_added(*old(self), *final(self), row),
    {
        if let Some(key) = row.seen_key() {
            if contains_key(&self.seen_rows, &key) {
                return;
            }
            self.seen_rows.push(key);
        }
        self.all_rows.push(row);
        let ghost added = *self;
        self.apply_filter();
        proof {
            assert(refiltered(added, *self));
        }
    }

    fn note_failure(&mut self, thread_id: ThreadId, failed: bool)
        ensures
            failure_noted(*old(self), *final(self), thread_id, failed),
    {
        broadcast use vstd::std_specs::hash::group_hash_axioms;

        if failed {
            self.dashboard_system_errors.insert(thread_id.bits);
        }
    }

    fn start_thread(&mut self, thread: Thread)
        ensures
            thread_started(*old(self), *final(self), thread),
    {
        if thread.parent_thread_id.is_some() {
            return;
        }
        let id = match ThreadId::from_string(thread.id.as_str()) {
            Some(id) => id,
            None => {
                return;
            },
        };
        let failed = match &thread.status {
            ThreadStatus::SystemError => true,
            _ => false,
        };
        self.note_failure(id, failed);
        let ghost noted = *self;
        let ghost started = thread;
        if let Some(row) = row_from_app_server_thread(thread, true) {
            proof {
                assert(failure_noted(*old(self), noted, id, started.status is SystemError));
                assert(is_row_of(row, started, id, true));
            }
            self.add_row(row);
        }
    }

    fn take_notification(&mut self, notification: ServerNotification)
        ensures
            notified(*old(self), *final(self), notification),
    {
        match notification {
            ServerNotification::ThreadStatusChanged { thread_id, status } => {
                self.change_status(thread_id.as_str(), &status);
            },
            ServerNotification::ThreadNameUpdated { thread_id, thread_name } => {
                self.update_dashboard_row(thread_id.as_str(), RowUpdate::Name(thread_name));
            },
            ServerNotification::ThreadArchived { thread_id } => {
                self.remove_dashboard_row(thread_id.as_str());
            },
            ServerNotification::ThreadUnarchived { .. } => {
                self.start_initial_load();
            },
            ServerNotification::ThreadDeleted { thread_id } => {
                self.remove_dashboard_row(thread_id.as_str());
            },
            ServerNotification::ThreadStarted { thread } => {
                self.start_thread(thread);
            },
            ServerNotification::Other => {},
        }
    }

    /// Takes up an event of the app server; whether the dashboard lost its connection.
    pub fn handle_app_server_event(&mut self, event: AppServerEvent) -> (r: bool)
        ensures
            server_event_handled(*old(self), *final(self), event, r),
    {
        match event {
            AppServerEvent::Notification(notification) => {
                self.take_notification(notification);
                false
            },
            AppServerEvent::Lagged => {
                self.start_initial_load();
                false
            },
            AppServerEvent::Disconnected { message } => {
                let mut text = "Dashboard disconnected: ".to_owned();
                text.append(message.as_str());
                self.inline_error = Some(text);
                self.request_frame();
                self.is_agents_dashboard()
            },
            AppServerEvent::ServerRequest => false,
        }
    }
}

} // verus!
