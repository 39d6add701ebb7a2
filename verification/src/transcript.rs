//! Transcripts over the picker, and the newest lines of conversations in it.

use vstd::prelude::*;
use crate::ids::ThreadId;
use crate::keys::{control_char, is_control_char, is_pressed, pressed, KeyEvent};
use crate::metadata::smaller;
use crate::picker::PickerState;
use crate::scroll::{lemma_shown, scroll_target, shown};
use crate::session::{
    PickerLoadRequest, SessionSelection, SessionTranscriptState, TranscriptCells,
    TranscriptPreviewState,
};
use crate::text::optional_view;

verus! {

/// What is known of a thread's transcript.
pub open spec fn transcript_of(state: PickerState, thread_id: ThreadId) -> Option<
    SessionTranscriptState,
> {
    state.transcript_cells@.get(thread_id.bits)
}

/// The transcript that is waited for is loaded, and it has been shown that it is waited for.
pub open spec fn ready_transcript(state: PickerState) -> Option<TranscriptCells> {
    if state.transcript_loading_frame_shown && state.pending_transcript_open is Some {
        match transcript_of(state, state.pending_transcript_open->0) {
            Some(SessionTranscriptState::Loaded(cells)) => Some(cells),
            _ => None,
        }
    } else {
        None
    }
}

/// `state` with the transcript that is waited for open, where it is ready.
pub open spec fn opened_if_ready(state: PickerState) -> PickerState {
    match ready_transcript(state) {
        Some(cells) => PickerState {
            overlay: Some(cells),
            pending_transcript_open: None,
            transcript_loading_frame_shown: false,
            frame_requested: true,
            ..state
        },
        None => state,
    }
}

/// `state` waiting for the transcript of a thread.
pub open spec fn waiting_for(state: PickerState, thread_id: ThreadId) -> PickerState {
    PickerState {
        pending_transcript_open: Some(thread_id),
        transcript_loading_frame_shown: false,
        frame_requested: true,
        ..state
    }
}

/// The thread of the selected row.
pub open spec fn selected_thread(state: PickerState) -> Option<ThreadId> {
    if state.selected < state.filtered_rows@.len() {
        state.filtered_rows@[state.selected as int].thread_id
    } else {
        None
    }
}

/// `after` is `before` with the transcript of a thread asked for.
pub open spec fn transcript_asked(
    before: PickerState,
    after: PickerState,
    thread_id: ThreadId,
) -> bool {
    &&& after == PickerState {
        transcript_cells: after.transcript_cells,
        pending_transcript_cancellation: Some(before.next_cancellation),
        next_cancellation: after.next_cancellation,
        requests: after.requests,
        ..waiting_for(before, thread_id)
    }
    &&& after.transcript_cells@ == before.transcript_cells@.insert(
        thread_id.bits,
        SessionTranscriptState::Loading,
    )
    &&& after.next_cancellation == if before.next_cancellation == u64::MAX {
        0
    } else {
        before.next_cancellation + 1
    }
    &&& after.requests@ == before.requests@.push(
        PickerLoadRequest::Transcript { thread_id, cancellation: before.next_cancellation },
    )
}

/// `after` is `before` with the transcript of the selected row waited for. It is asked for where it
/// is neither loaded nor on its way; a row without a thread has none.
pub open spec fn transcript_opened(before: PickerState, after: PickerState) -> bool {
    if before.selected >= before.filtered_rows@.len() {
        after == before
    } else {
        match selected_thread(before) {
            None => {
                &&& after == PickerState {
                    inline_error: after.inline_error,
                    frame_requested: true,
                    ..before
                }
                &&& optional_view(after.inline_error) == Some(
                    "No transcript available for this session"@,
                )
            },
            Some(thread_id) => match transcript_of(before, thread_id) {
                Some(SessionTranscriptState::Loaded(_)) | Some(SessionTranscriptState::Loading) =>
                after == waiting_for(before, thread_id),
                _ => transcript_asked(before, after, thread_id),
            },
        }
    }
}

/// `after` is `before` with the wait for a transcript called off. One that was on its way is
/// forgotten.
pub open spec fn transcript_called_off(before: PickerState, after: PickerState) -> bool {
    &&& after == PickerState {
        pending_transcript_open: None,
        pending_transcript_cancellation: None,
        transcript_loading_frame_shown: false,
        frame_requested: true,
        transcript_cells: after.transcript_cells,
        requests: after.requests,
        ..before
    }
    &&& after.transcript_cells@ == match before.pending_transcript_open {
        Some(thread_id) => if transcript_of(before, thread_id) == Some(
            SessionTranscriptState::Loading,
        ) {
            before.transcript_cells@.remove(thread_id.bits)
        } else {
            before.transcript_cells@
        },
        None => before.transcript_cells@,
    }
    &&& after.requests@ == match before.pending_transcript_cancellation {
        Some(cancellation) => before.requests@.push(
            PickerLoadRequest::CancelTranscript { cancellation },
        ),
        None => before.requests@,
    }
}

/// `after` is `before` with a key handled while a transcript is waited for: the exit key exits, the
/// cancel key calls the wait off, and every other key does nothing.
pub open spec fn loading_key_handled(
    before: PickerState,
    after: PickerState,
    key: KeyEvent,
    chosen: Option<SessionSelection>,
) -> bool {
    if is_control_char(key, 'c') {
        after == before && chosen == Some(SessionSelection::Exit)
    } else if pressed(before.list_keymap.cancel@, key) {
        transcript_called_off(before, after) && chosen is None
    } else {
        after == before && chosen is None
    }
}

/// `after` is `before` with the conversation of a thread asked for, unless something is known of
/// it.
pub open spec fn preview_asked(
    before: PickerState,
    after: PickerState,
    thread_id: ThreadId,
) -> bool {
    if before.transcript_previews@.contains_key(thread_id.bits) {
        after == before
    } else {
        &&& after == PickerState {
            transcript_previews: after.transcript_previews,
            requests: after.requests,
            ..before
        }
        &&& after.transcript_previews@ == before.transcript_previews@.insert(
            thread_id.bits,
            TranscriptPreviewState::Loading,
        )
        &&& after.requests@ == before.requests@.push(PickerLoadRequest::Preview { thread_id })
    }
}

/// `after` is `before` with the selected row expanded or, where it was, folded.
pub open spec fn expansion_toggled(before: PickerState, after: PickerState) -> bool {
    match selected_thread(before) {
        None => after == before,
        Some(thread_id) => if before.expanded_thread_id == Some(thread_id) {
            after == PickerState { expanded_thread_id: None, frame_requested: true, ..before }
        } else {
            preview_asked(
                PickerState {
                    expanded_thread_id: Some(thread_id),
                    frame_requested: true,
                    ..before
                },
                after,
                thread_id,
            )
        },
    }
}

/// The threads of the rows from `first` to `end` of whose conversations nothing is known.
pub open spec fn unknown_threads(state: PickerState, first: int, end: int) -> Seq<ThreadId>
    decreases end - first,
{
    if end <= first {
        Seq::empty()
    } else {
        let before = unknown_threads(state, first, end - 1);
        match state.filtered_rows@[end - 1].thread_id {
            Some(thread_id) => if state.transcript_previews@.contains_key(thread_id.bits) {
                before
            } else {
                before.push(thread_id)
            },
            None => before,
        }
    }
}

/// `known` with the conversations of the first `count` of `ids` on their way.
pub open spec fn on_their_way(
    known: Map<u128, TranscriptPreviewState>,
    ids: Seq<ThreadId>,
    count: nat,
) -> Map<u128, TranscriptPreviewState>
    decreases count,
{
    if count == 0 {
        known
    } else {
        on_their_way(known, ids, (count - 1) as nat).insert(
            ids[count - 1].bits,
            TranscriptPreviewState::Loading,
        )
    }
}

pub open spec fn preview_requests(ids: Seq<ThreadId>) -> Seq<PickerLoadRequest> {
    Seq::new(ids.len(), |i: int| PickerLoadRequest::Preview { thread_id: ids[i] })
}

/// The row behind the last one in view.
pub open spec fn view_end(state: PickerState) -> int {
    smaller(
        state.scroll_top + (match state.view_rows {
            Some(rows) => rows as int,
            None => 0,
        }),
        state.filtered_rows@.len() as int,
    )
}

/// `after` is `before` with the conversations of the dashboard's rows in view asked for, as far as
/// nothing is known of them.
pub open spec fn visible_previews_asked(before: PickerState, after: PickerState) -> bool {
    if before.is_dashboard() && before.view_rows is Some && before.view_rows->0 > 0 {
        let ids = unknown_threads(before, before.scroll_top as int, view_end(before));
        &&& after == PickerState {
            transcript_previews: after.transcript_previews,
            requests: after.requests,
            ..before
        }
        &&& after.transcript_previews@ == on_their_way(
            before.transcript_previews@,
            ids,
            ids.len(),
        )
        &&& after.requests@ == before.requests@ + preview_requests(ids)
    } else {
        after == before
    }
}

/// `state` once the transcript over it handled an event; `done` says that it is closed.
pub open spec fn overlay_handled(state: PickerState, done: bool) -> PickerState {
    if state.overlay is Some && done {
        PickerState { overlay: None, frame_requested: true, ..state }
    } else {
        state
    }
}

/// `state` as it is drawn with a view of `rows` lines and `width` columns.
pub open spec fn with_view(state: PickerState, rows: usize, width: u16) -> PickerState {
    PickerState {
        view_rows: if rows == 0 {
            None
        } else {
            Some(rows)
        },
        view_width: Some(width),
        ..state
    }
}

impl PickerState {
    pub fn is_transcript_loading(&self) -> (r: bool)
        ensures
            r == (self.pending_transcript_open is Some),
    {
        self.pending_transcript_open.is_some()
    }

    /// Notes that a frame was drawn; whether it showed that a transcript is waited for.
    pub fn note_transcript_loading_frame_drawn(&mut self) -> (r: bool)
        ensures
            r == (old(self).pending_transcript_open is Some),
            *final(self) == if r {
                PickerState { transcript_loading_frame_shown: true, ..*old(self) }
            } else {
                *old(self)
            },
    {
        if self.pending_transcript_open.is_some() {
            self.transcript_loading_frame_shown = true;
            true
        } else {
            false
        }
    }

    pub fn open_pending_transcript_if_ready(&mut self)
        ensures
            *final(self) == opened_if_ready(*old(self)),
    {
        broadcast use vstd::std_specs::hash::group_hash_axioms;

        if !self.transcript_loading_frame_shown {
            return;
        }
        let thread_id = match self.pending_transcript_open {
            Some(thread_id) => thread_id,
            None => {
                return;
            },
        };
        let cells = match self.transcript_cells.get(&thread_id.bits) {
            Some(SessionTranscriptState::Loaded(cells)) => *cells,
            _ => {
                return;
            },
        };
        self.overlay = Some(cells);
        self.pending_transcript_open = None;
        self.transcript_loading_frame_shown = false;
        self.request_frame();
    }

    pub fn begin_transcript_loading(&mut self, thread_id: ThreadId)
        ensures
            *final(self) == waiting_for(*old(self), thread_id),
    {
        self.pending_transcript_open = Some(thread_id);
        self.transcript_loading_frame_shown = false;
        self.request_frame();
    }

    /// Takes note of an event that the transcript over the picker has handled; `done` says whether
    /// it is closed now.
    pub fn handle_overlay_event(&mut self, done: bool)
        ensures
            *final(self) == overlay_handled(*old(self), done),
    {
        if self.overlay.is_some() && done {
            self.overlay = None;
            self.request_frame();
        }
    }

    /// Waits for the transcript of the selected row.
    pub fn open_selected_transcript(&mut self)
        ensures
            transcript_opened(*old(self), *final(self)),
    {
        broadcast use vstd::std_specs::hash::group_hash_axioms;

        if self.selected >= self.filtered_rows.len() {
            return;
        }
        let thread_id = match self.filtered_rows[self.selected].thread_id {
            Some(thread_id) => thread_id,
            None => {
                self.inline_error = Some("No transcript available for this session".to_owned());
                self.request_frame();
                return;
            },
        };
        let known = match self.transcript_cells.get(&thread_id.bits) {
            Some(SessionTranscriptState::Loaded(_)) => true,
            Some(SessionTranscriptState::Loading) => true,
            Some(SessionTranscriptState::Failed) => false,
            None => false,
        };
        if known {
            self.begin_transcript_loading(thread_id);
            return;
        }
        self.transcript_cells.insert(thread_id.bits, SessionTranscriptState::Loading);
        self.begin_transcript_loading(thread_id);
        let cancellation: u64 = self.next_cancellation;
        self.next_cancellation = self.next_cancellation.wrapping_add(1);
        self.pending_transcript_cancellation = Some(cancellation);
        self.requests.push(PickerLoadRequest::Transcript { thread_id, cancellation });
    }

    /// Forgets a transcript that is on its way.
    fn forget_loading(&mut self, thread_id: ThreadId)
        ensures
            *final(self) == (PickerState {
                transcript_cells: final(self).transcript_cells,
                ..*old(self)
            }),
            final(self).transcript_cells@ == if transcript_of(*old(self), thread_id) == Some(
                SessionTranscriptState::Loading,
            ) {
                old(self).transcript_cells@.remove(thread_id.bits)
            } else {
                old(self).transcript_cells@
            },
    {
        broadcast use vstd::std_specs::hash::group_hash_axioms;

        let loading = match self.transcript_cells.get(&thread_id.bits) {
            Some(SessionTranscriptState::Loading) => true,
            _ => false,
        };
        if loading {
            self.transcript_cells.remove(&thread_id.bits);
        }
    }

    fn call_transcript_off(&mut self)
        ensures
            transcript_called_off(*old(self), *final(self)),
    {
        if let Some(thread_id) = self.pending_transcript_open {
            self.forget_loading(thread_id);
        }
        self.pending_transcript_open = None;
        if let Some(cancellation) = self.pending_transcript_cancellation {
            self.requests.push(PickerLoadRequest::CancelTranscript { cancellation });
        }
        self.pending_transcript_cancellation = None;
        self.transcript_loading_frame_shown = false;
        self.request_frame();
    }

    /// Handles a key while a transcript is waited for.
    pub fn handle_transcript_loading_key(&mut self, key: KeyEvent) -> (r: Option<SessionSelection>)
        ensures
            loading_key_handled(*old(self), *final(self), key, r),
    {
        if control_char(key, 'c') {
            return Some(SessionSelection::Exit);
        }
        if is_pressed(&self.list_keymap.cancel, key) {
            self.call_transcript_off();
        }
        None
    }

    fn ask_for_preview(&mut self, thread_id: ThreadId)
        ensures
            preview_asked(*old(self), *final(self), thread_id),
    {
        broadcast use vstd::std_specs::hash::group_hash_axioms;

        if self.transcript_previews.contains_key(&thread_id.bits) {
            return;
        }
        self.transcript_previews.insert(thread_id.bits, TranscriptPreviewState::Loading);
        self.requests.push(PickerLoadRequest::Preview { thread_id });
    }

    /// Expands the selected row, or folds it.
    pub fn toggle_selected_expansion(&mut self)
        ensures
            expansion_toggled(*old(self), *final(self)),
    {
        if self.selected >= self.filtered_rows.len() {
            return;
        }
        let thread_id = match self.filtered_rows[self.selected].thread_id {
            Some(thread_id) => thread_id,
            None => {
                return;
            },
        };
        if let Some(expanded) = self.expanded_thread_id {
            if expanded == thread_id {
                self.expanded_thread_id = None;
                self.request_frame();
                return;
            }
        }
        self.expanded_thread_id = Some(thread_id);
        self.request_frame();
        self.ask_for_preview(thread_id);
    }

    fn unknown_threads_in(&self, first: usize, end: usize) -> (r: Vec<ThreadId>)
        requires
            first <= end <= self.filtered_rows@.len(),
        ensures
            r@ == unknown_threads(*self, first as int, end as int),
    {
        broadcast use vstd::std_specs::hash::group_hash_axioms;

        let mut ids: Vec<ThreadId> = Vec::new();
        let mut i: usize = first;
        while i < end
            invariant
                first <= i <= end <= self.filtered_rows@.len(),
                ids@ == unknown_threads(*self, first as int, i as int),
            decreases end - i,
        {
            if let Some(thread_id) = self.filtered_rows[i].thread_id {
                if !self.transcript_previews.contains_key(&thread_id.bits) {
                    ids.push(thread_id);
                }
            }
            i += 1;
        }
        ids
    }

    /// Asks for the conversations of the dashboard's rows in view.
    pub fn load_visible_dashboard_previews(&mut self)
        requires
            old(self).is_dashboard() && old(self).view_rows is Some ==> old(self).scroll_top
                <= old(self).filtered_rows@.len(),
        ensures
            visible_previews_asked(*old(self), *final(self)),
    {
        broadcast use vstd::std_specs::hash::group_hash_axioms;

        if !self.is_agents_dashboard() {
            return;
        }
        let visible_rows: usize = match self.view_rows {
            Some(rows) => rows,
            None => 0,
        };
        if visible_rows == 0 {
            return;
        }
        let mut end: usize = self.scroll_top.saturating_add(visible_rows);
        if end > self.filtered_rows.len() {
            end = self.filtered_rows.len();
        }
        let ids = self.unknown_threads_in(self.scroll_top, end);
        let mut i: usize = 0;
        proof {
            assert(self.requests@ =~= self.requests@ + preview_requests(ids@.take(0)));
        }
        while i < ids.len()
            invariant
                i <= ids.len(),
                *self == (PickerState {
                    transcript_previews: self.transcript_previews,
                    requests: self.requests,
                    ..*old(self)
                }),
                self.transcript_previews@ == on_their_way(
                    old(self).transcript_previews@,
                    ids@,
                    i as nat,
                ),
                self.requests@ == old(self).requests@ + preview_requests(ids@.take(i as int)),
            decreases ids.len() - i,
        {
            let thread_id = ids[i];
            self.transcript_previews.insert(thread_id.bits, TranscriptPreviewState::Loading);
            self.requests.push(PickerLoadRequest::Preview { thread_id });
            proof {
                assert(self.requests@ =~= old(self).requests@ + preview_requests(
                    ids@.take(i + 1),
                ));
            }
            i += 1;
        }
        proof {
            assert(ids@.take(ids@.len() as int) =~= ids@);
        }
    }

    /// Takes note of the size of the list. On the dashboard, the conversations in view are asked
    /// for.
    pub fn update_viewport(&mut self, rows: usize, width: u16)
        ensures
            visible_previews_asked(shown(with_view(*old(self), rows, width)), *final(self)),
    {
        self.view_rows = if rows == 0 {
            None
        } else {
            Some(rows)
        };
        self.view_width = Some(width);
        proof {
            let viewed = *self;
            if viewed.filtered_rows@.len() > 0 {
                lemma_shown(viewed);
            } else {
                reveal(scroll_target);
            }
        }
        self.ensure_selected_visible();
        self.load_visible_dashboard_previews();
    }
}

} // verus!
