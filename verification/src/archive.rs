//! Archiving and restoring sessions.

use vstd::prelude::*;
use vstd::string::StringExecFns;
use crate::filter::refiltered;
use crate::ids::ThreadId;
use crate::picker::PickerState;
use crate::row::Row;
use crate::session::{
    PickerLoadRequest, SessionPickerAction, SessionSelection, SessionStatus, SessionTarget,
};
use crate::text::optional_view;
use crate::transcript::selected_thread;

verus! {

/// Whether a session is being archived or restored.
#[derive(Clone, Copy, Debug, PartialEq, Eq, Structural)]
pub enum ArchiveState {
    Idle,
    Archiving(ThreadId),
    Unarchiving(ThreadId),
}

/// Sessions can be archived: those listed are to be resumed, none of them is archived, and nothing
/// is on its way.
pub open spec fn can_archive(state: PickerState) -> bool {
    state.action is Resume && state.status is Active && state.archive_state is Idle
}

/// `after` is `before` with the selected session on its way to the archive.
pub open spec fn archive_asked(before: PickerState, after: PickerState) -> bool {
    match selected_thread(before) {
        Some(thread_id) => {
            &&& after == PickerState {
                archive_state: ArchiveState::Archiving(thread_id),
                requests: after.requests,
                frame_requested: true,
                ..before
            }
            &&& after.requests@ == before.requests@.push(PickerLoadRequest::Archive { thread_id })
        },
        None => after == before,
    }
}

/// `after` is `before` with a session on its way back from the archive.
pub open spec fn unarchive_asked(
    before: PickerState,
    after: PickerState,
    thread_id: ThreadId,
) -> bool {
    &&& after == PickerState {
        archive_state: ArchiveState::Unarchiving(thread_id),
        requests: after.requests,
        frame_requested: true,
        ..before
    }
    &&& after.requests@ == before.requests@.push(PickerLoadRequest::Unarchive { thread_id })
}

pub open spec fn not_thread(thread_id: ThreadId) -> spec_fn(Row) -> bool {
    |row: Row| row.thread_id != Some(thread_id)
}

/// `after` is `before` with what became of an archive request: an archived session leaves the list.
pub open spec fn archive_handled(
    before: PickerState,
    after: PickerState,
    thread_id: ThreadId,
    result: Result<(), String>,
) -> bool {
    match result {
        Ok(_) => exists|left: PickerState|
            #![trigger refiltered(left, after)]
            left == (PickerState {
                archive_state: ArchiveState::Idle,
                all_rows: left.all_rows,
                ..before
            }) && left.all_rows@ == before.all_rows@.filter(not_thread(thread_id)) && refiltered(
                left,
                after,
            ),
        Err(error) => {
            &&& after == PickerState {
                archive_state: ArchiveState::Idle,
                inline_error: after.inline_error,
                frame_requested: true,
                ..before
            }
            &&& optional_view(after.inline_error) == Some("Failed to archive session: "@ + error@)
        },
    }
}

/// `after` is `before` with what became of a request to restore a session: it is chosen.
pub open spec fn unarchive_handled(
    before: PickerState,
    after: PickerState,
    result: Result<SessionTarget, String>,
    chosen: Option<SessionSelection>,
) -> bool {
    match result {
        Ok(target) => {
            &&& after == PickerState { archive_state: ArchiveState::Idle, ..before }
            &&& chosen == Some(before.action.choice(target.path, target.thread_id))
        },
        Err(error) => {
            &&& after == PickerState {
                archive_state: ArchiveState::Idle,
                inline_error: after.inline_error,
                frame_requested: true,
                ..before
            }
            &&& optional_view(after.inline_error) == Some("Failed to restore session: "@ + error@)
            &&& chosen is None
        },
    }
}

/// The rows that are not of a thread.
pub fn rows_without(rows: &Vec<Row>, thread_id: ThreadId) -> (r: Vec<Row>)
    ensures
        r@ == rows@.filter(not_thread(thread_id)),
{
    let mut r: Vec<Row> = Vec::new();
    let mut i: usize = 0;
    proof {
        reveal(Seq::filter);
        assert(rows@.take(0).filter(not_thread(thread_id)) =~= Seq::<Row>::empty());
    }
    while i < rows.len()
        invariant
            i <= rows.len(),
            r@ == rows@.take(i as int).filter(not_thread(thread_id)),
        decreases rows.len() - i,
    {
        proof {
            reveal(Seq::filter);
            let part = rows@.take(i + 1);
            assert(part.drop_last() =~= rows@.take(i as int));
            assert(part.last() == rows@[i as int]);
        }
        let same = match rows[i].thread_id {
            Some(found) => found == thread_id,
            None => false,
        };
        if !same {
            r.push(rows[i].clone());
        }
        i += 1;
    }
    proof {
        assert(rows@.take(rows@.len() as int) =~= rows@);
    }
    r
}

impl PickerState {
    pub fn archive_shortcut_available(&self) -> (r: bool)
        ensures
            r == can_archive(*self),
    {
        self.action == SessionPickerAction::Resume && self.status == SessionStatus::Active
            && self.archive_state == ArchiveState::Idle
    }

    pub fn request_archive_for_selected_session(&mut self)
        ensures
            archive_asked(*old(self), *final(self)),
    {
        if self.selected >= self.filtered_rows.len() {
            return;
        }
        if let Some(thread_id) = self.filtered_rows[self.selected].thread_id {
            self.archive_state = ArchiveState::Archiving(thread_id);
            self.requests.push(PickerLoadRequest::Archive { thread_id });
            self.request_frame();
        }
    }

    pub fn request_unarchive(&mut self, thread_id: ThreadId)
        ensures
            unarchive_asked(*old(self), *final(self), thread_id),
    {
        self.archive_state = ArchiveState::Unarchiving(thread_id);
        self.requests.push(PickerLoadRequest::Unarchive { thread_id });
        self.request_frame();
    }

    pub fn handle_archive_result(&mut self, thread_id: ThreadId, result: Result<(), String>)
        ensures
            archive_handled(*old(self), *final(self), thread_id, result),
    {
        self.archive_state = ArchiveState::Idle;
        match result {
            Ok(_) => {
                self.all_rows = rows_without(&self.all_rows, thread_id);
                let ghost left = *self;
                self.apply_filter();
                proof {
                    assert(refiltered(left, *self));
                }
            },
            Err(error) => {
                let mut message = "Failed to archive session: ".to_owned();
                message.append(error.as_str());
                self.inline_error = Some(message);
                self.request_frame();
            },
        }
    }

    pub fn handle_unarchive_result(&mut self, result: Result<SessionTarget, String>) -> (r: Option<
        SessionSelection,
    >)
        ensures
            unarchive_handled(*old(self), *final(self), result, r),
    {
        self.archive_state = ArchiveState::Idle;
        match result {
            Ok(target) => Some(self.action.selection(target.path, target.thread_id)),
            Err(error) => {
                let mut message = "Failed to restore session: ".to_owned();
                message.append(error.as_str());
                self.inline_error = Some(message);
                self.request_frame();
                None
            },
        }
    }
}

} // verus!
