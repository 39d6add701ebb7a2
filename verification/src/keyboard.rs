//! What the keys do in the picker.

use vstd::prelude::*;
use vstd::string::StringExecFns;
use crate::agents::{
    dashboard_moved, exit_pressed, group_command, query_command_run, regrouped, submission_taken,
};
use crate::archive::{archive_asked, can_archive, unarchive_asked, ArchiveState};
use crate::composer_keys::{composer_action, composer_acted, composer_text_set, ComposerAction};
use crate::ids::ThreadId;
use crate::keys::{
    control_binding, control_char, is_control_char, is_plain_text, is_plain_text_key_event,
    is_pressed, is_raw_char, plain_key, pressed, raw_char, KeyBinding, KeyCode, KeyEvent,
    KeyModifiers,
};
use crate::loading::{next_page_asked, scroll_page_asked};
use crate::metadata::{at_least_zero, larger, smaller};
use crate::paths::{clone_optional_path, SessionPath};
use crate::picker::PickerState;
use crate::scroll::shown;
use crate::search::{query_cleared, query_set};
use crate::session::{
    LoadTrigger, SessionPickerViewMode, SessionSelection, SessionStatus, SessionTarget,
};
use crate::style::at_most_usize;
use crate::text::{from_chars, optional_view, to_chars};
use crate::toolbar::{density_to_keep, density_toggled, toolbar_changed};
use crate::transcript::{expansion_toggled, loading_key_handled, transcript_opened};

verus! {

/// What a key asks for.
#[derive(Clone, Copy, Debug, PartialEq, Eq, Structural)]
pub enum KeyAction {
    Exit,
    ClearDraft,
    ConfirmExit,
    ToggleSearch,
    LeaveSearch,
    ToggleGrouping,
    MoveDashboard { down: bool },
    Compose { action: ComposerAction },
    Cancel,
    OpenTranscript,
    ToggleExpansion,
    ToggleDensity,
    Accept,
    MoveUp,
    MoveDown,
    PageUp,
    PageDown,
    JumpTop,
    JumpBottom,
    FocusNext,
    FocusPrevious,
    ChangeOption,
    Backspace,
    Archive,
    Type { ch: char },
    Nothing,
}

/// What is left to do once a key was handled.
#[derive(Debug)]
pub enum KeyOutcome {
    Continue,
    Selected(SessionSelection),
    /// The thread of the session at `path` is to be found there; `finish_accept` takes it.
    ResolveThread { path: SessionPath },
    /// The density is to be kept; `finish_persist_density` takes what became of that.
    KeepDensity(SessionPickerViewMode),
}

/// There is a draft in the composer of the dashboard.
pub open spec fn has_draft(state: PickerState) -> bool {
    state.dashboard_composer is Some && !state.dashboard_composer->0.is_empty
}

/// What the exit key asks for. The dashboard drops a draft first, and exits on a second press.
pub open spec fn exit_action(state: PickerState) -> KeyAction {
    if !state.is_dashboard() {
        KeyAction::Exit
    } else if has_draft(state) {
        KeyAction::ClearDraft
    } else {
        KeyAction::ConfirmExit
    }
}

/// What a key asks for on the dashboard before anything else.
pub open spec fn dashboard_action(state: PickerState, key: KeyEvent) -> Option<KeyAction> {
    if is_control_char(key, 'c') {
        Some(exit_action(state))
    } else if is_control_char(key, 'f') && state.is_dashboard() {
        Some(KeyAction::ToggleSearch)
    } else if key.code is Esc && state.dashboard_search_active {
        Some(KeyAction::LeaveSearch)
    } else if is_control_char(key, 'g') && state.is_dashboard() {
        Some(KeyAction::ToggleGrouping)
    } else if key.code is Up && key.modifiers.control && state.is_dashboard() {
        Some(KeyAction::MoveDashboard { down: false })
    } else if key.code is Down && key.modifiers.control && state.is_dashboard() {
        Some(KeyAction::MoveDashboard { down: true })
    } else if state.is_dashboard() && !state.dashboard_search_active && composer_action(
        state,
        key,
    ) is Some {
        Some(KeyAction::Compose { action: composer_action(state, key)->0 })
    } else {
        None
    }
}

/// What a key asks for in the list. Plain text belongs to the query: a binding without a modifier
/// does not move the selection.
pub open spec fn list_action(state: PickerState, key: KeyEvent) -> KeyAction {
    let keymap = state.list_keymap;
    let moves = !is_plain_text(key);
    let filled = state.filtered_rows@.len() > 0;
    if pressed(keymap.cancel@, key) {
        KeyAction::Cancel
    } else if is_control_char(key, 't') || is_raw_char(key, '\u{14}') {
        KeyAction::OpenTranscript
    } else if is_control_char(key, 'e') || is_raw_char(key, '\u{5}') {
        KeyAction::ToggleExpansion
    } else if is_control_char(key, 'o') || is_raw_char(key, '\u{f}') {
        KeyAction::ToggleDensity
    } else if pressed(keymap.accept@, key) {
        if state.archive_state is Idle {
            KeyAction::Accept
        } else {
            KeyAction::Nothing
        }
    } else if moves && pressed(keymap.move_up@, key) {
        KeyAction::MoveUp
    } else if moves && pressed(keymap.move_down@, key) {
        KeyAction::MoveDown
    } else if moves && pressed(keymap.page_up@, key) {
        KeyAction::PageUp
    } else if moves && filled && pressed(keymap.jump_top@, key) {
        KeyAction::JumpTop
    } else if moves && filled && pressed(keymap.jump_bottom@, key) {
        KeyAction::JumpBottom
    } else if moves && filled && pressed(keymap.page_down@, key) {
        KeyAction::PageDown
    } else {
        edit_action(state, key)
    }
}

/// What a key asks for that neither opens a session nor moves the selection.
pub open spec fn edit_action(state: PickerState, key: KeyEvent) -> KeyAction {
    let keymap = state.list_keymap;
    if key.code is Tab {
        KeyAction::FocusNext
    } else if key.code is BackTab {
        KeyAction::FocusPrevious
    } else if !is_plain_text(key) && (pressed(keymap.move_left@, key) || pressed(
        keymap.move_right@,
        key,
    )) {
        KeyAction::ChangeOption
    } else if key.code is Backspace {
        KeyAction::Backspace
    } else if can_archive(state) && control_binding('a').presses(key) {
        KeyAction::Archive
    } else if is_plain_text(key) {
        KeyAction::Type { ch: key.code->Char_0 }
    } else {
        KeyAction::Nothing
    }
}

pub open spec fn key_action(state: PickerState, key: KeyEvent) -> KeyAction {
    match dashboard_action(state, key) {
        Some(action) => action,
        None => list_action(state, key),
    }
}

/// The rows that a page key moves over.
pub open spec fn page_step(state: PickerState) -> int {
    match state.view_rows {
        Some(rows) => larger(rows as int, 1),
        None => 10,
    }
}

/// The query without its last character.
pub open spec fn shortened(query: Seq<char>) -> Seq<char> {
    if query.len() > 0 {
        query.drop_last()
    } else {
        query
    }
}

/// `state` with row `index` selected and in view.
pub open spec fn with_selected(state: PickerState, index: int) -> PickerState {
    shown(PickerState { selected: index as usize, ..state })
}

pub open spec fn framed(state: PickerState) -> PickerState {
    PickerState { frame_requested: true, ..state }
}

/// The choice of a session by its thread. The dashboard opens sessions in their own directory.
pub open spec fn thread_choice(
    state: PickerState,
    path: Option<SessionPath>,
    thread_id: ThreadId,
) -> SessionSelection {
    if state.action is Resume && state.is_dashboard() {
        SessionSelection::ResumeInSessionCwd(SessionTarget { path, thread_id })
    } else {
        state.action.choice(path, thread_id)
    }
}

/// `after` is `before` with a session accepted by its thread: one from the archive is restored
/// first.
pub open spec fn thread_accepted(
    before: PickerState,
    after: PickerState,
    path: Option<SessionPath>,
    thread_id: ThreadId,
    outcome: KeyOutcome,
) -> bool {
    if before.status is Archived {
        unarchive_asked(before, after, thread_id) && outcome is Continue
    } else {
        &&& after == before
        &&& outcome == KeyOutcome::Selected(thread_choice(before, path, thread_id))
    }
}

/// `after` is `before` with an error told in place of a session without a thread.
pub open spec fn refused(before: PickerState, after: PickerState, message: Seq<char>) -> bool {
    &&& after == PickerState { inline_error: after.inline_error, frame_requested: true, ..before }
    &&& optional_view(after.inline_error) == Some(message)
}

/// `after` is `before` with the selected session accepted.
pub open spec fn accepted(before: PickerState, after: PickerState, outcome: KeyOutcome) -> bool {
    if before.is_dashboard() && group_command(before.query@) is Some {
        query_command_run(before, after, true) && outcome is Continue
    } else if before.selected >= before.filtered_rows@.len() {
        after == before && outcome is Continue
    } else {
        let row = before.filtered_rows@[before.selected as int];
        match (row.thread_id, row.path) {
            (Some(thread_id), path) => thread_accepted(before, after, path, thread_id, outcome),
            (None, Some(path)) => {
                &&& after == before
                &&& outcome == KeyOutcome::ResolveThread { path }
            },
            (None, None) => {
                &&& outcome is Continue
                &&& refused(
                    before,
                    after,
                    if before.is_dashboard() {
                        "Type a prompt below to start an agent in the selected project"@
                    } else {
                        "Failed to read session metadata from selected session"@
                    },
                )
            },
        }
    }
}

/// `after` is `before` with the selection moved down a page, as far as there are rows. Where there
/// may be more, the jump waits for them.
pub open spec fn page_down_moved(before: PickerState, after: PickerState) -> bool {
    let target = at_most_usize(before.selected + page_step(before));
    let last = before.filtered_rows@.len() - 1;
    &&& after.frame_requested
    &&& if target > last && before.pagination.next_cursor is Some {
        next_page_asked(
            PickerState { pending_page_down_target: Some(target as usize), ..before },
            after,
            LoadTrigger::Scroll,
        )
    } else {
        scroll_page_asked(with_selected(before, smaller(target, last)), after)
    }
}

/// `after` is `before` with an action of the list's selection carried out.
pub open spec fn moved(before: PickerState, after: PickerState, action: KeyAction) -> bool {
    let last = before.filtered_rows@.len() - 1;
    match action {
        KeyAction::MoveUp => after == framed(
            if before.selected > 0 {
                with_selected(before, before.selected - 1)
            } else {
                before
            },
        ),
        KeyAction::MoveDown => {
            &&& after.frame_requested
            &&& scroll_page_asked(
                if before.selected < last {
                    with_selected(before, before.selected + 1)
                } else {
                    before
                },
                after,
            )
        },
        KeyAction::PageUp => after == if before.selected > 0 {
            framed(with_selected(before, at_least_zero(before.selected - page_step(before))))
        } else {
            before
        },
        KeyAction::PageDown => page_down_moved(before, after),
        KeyAction::JumpTop => after == framed(with_selected(before, 0)),
        KeyAction::JumpBottom => {
            &&& after.frame_requested
            &&& scroll_page_asked(with_selected(before, last), after)
        },
        _ => false,
    }
}

/// `after` is `before` with the focused control changed.
pub open spec fn option_changed(before: PickerState, after: PickerState) -> bool {
    &&& after.frame_requested
    &&& toolbar_changed(before, after) || (toolbar_changed(before, before) && after == framed(
        before,
    ))
}

/// `after` is `before` with the search of the dashboard opened or closed.
pub open spec fn search_toggled(before: PickerState, after: PickerState) -> bool {
    if before.dashboard_search_active {
        query_cleared(PickerState { dashboard_search_active: false, ..before }, after)
    } else {
        after == PickerState { dashboard_search_active: true, frame_requested: true, ..before }
    }
}

/// `after` is `before` with a key of the composer handled and a message taken that it submitted.
pub open spec fn composed(
    before: PickerState,
    after: PickerState,
    action: ComposerAction,
    outcome: KeyOutcome,
) -> bool {
    exists|acted: PickerState|
        #![trigger composer_acted(before, acted, action)]
        composer_acted(before, acted, action) && match outcome {
            KeyOutcome::Continue => submission_taken(acted, after, None),
            KeyOutcome::Selected(chosen) => submission_taken(acted, after, Some(chosen)),
            _ => false,
        }
}

/// `after` is `before` with the draft dropped.
pub open spec fn draft_cleared(before: PickerState, after: PickerState) -> bool {
    &&& after == PickerState {
        dashboard_composer: after.dashboard_composer,
        frame_requested: true,
        ..before
    }
    &&& composer_text_set(before.dashboard_composer, after.dashboard_composer, ""@)
}

/// `after` is `before` with an action carried out.
pub open spec fn acted(
    before: PickerState,
    after: PickerState,
    action: KeyAction,
    outcome: KeyOutcome,
) -> bool {
    match action {
        KeyAction::Exit => after == before && outcome == KeyOutcome::Selected(
            SessionSelection::Exit,
        ),
        KeyAction::ConfirmExit => match outcome {
            KeyOutcome::Continue => exit_pressed(before, after, before.clock_millis, None),
            KeyOutcome::Selected(chosen) => exit_pressed(
                before,
                after,
                before.clock_millis,
                Some(chosen),
            ),
            _ => false,
        },
        KeyAction::Compose { action } => composed(before, after, action, outcome),
        KeyAction::Cancel => if before.query@.len() == 0 {
            after == before && outcome == KeyOutcome::Selected(SessionSelection::StartFresh)
        } else {
            query_cleared(before, after) && outcome is Continue
        },
        KeyAction::ToggleDensity => {
            &&& after == density_toggled(before)
            &&& outcome == match density_to_keep(after) {
                Some(mode) => KeyOutcome::KeepDensity(mode),
                None => KeyOutcome::Continue,
            }
        },
        KeyAction::Accept => accepted(before, after, outcome),
        _ => outcome is Continue && quietly_acted(before, after, action),
    }
}

/// `after` is `before` with an action carried out that chooses nothing.
pub open spec fn quietly_acted(
    before: PickerState,
    after: PickerState,
    action: KeyAction,
) -> bool {
    match action {
        KeyAction::ClearDraft => draft_cleared(before, after),
        KeyAction::ToggleSearch => search_toggled(before, after),
        KeyAction::LeaveSearch => query_cleared(
            PickerState { dashboard_search_active: false, ..before },
            after,
        ),
        KeyAction::ToggleGrouping => regrouped(
            before,
            after,
            before.dashboard_group_mode.other(),
        ),
        KeyAction::MoveDashboard { down } => dashboard_moved(before, after, down),
        KeyAction::OpenTranscript => transcript_opened(before, after),
        KeyAction::ToggleExpansion => expansion_toggled(before, after),
        KeyAction::FocusNext => after == framed(
            PickerState { toolbar_focus: before.toolbar_focus.after(before.action), ..before },
        ),
        KeyAction::FocusPrevious => after == framed(
            PickerState { toolbar_focus: before.toolbar_focus.before(before.action), ..before },
        ),
        KeyAction::ChangeOption => option_changed(before, after),
        KeyAction::Backspace => query_set(before, after, shortened(before.query@)),
        KeyAction::Archive => archive_asked(before, after),
        KeyAction::Type { ch } => query_set(before, after, before.query@.push(ch)),
        KeyAction::Nothing => after == before,
        _ => moved(before, after, action),
    }
}

/// The state in which a key is looked at: errors are gone, and only another press of the page key
/// keeps a jump waiting.
pub open spec fn ready_for(state: PickerState, key: KeyEvent) -> PickerState {
    PickerState {
        inline_error: None,
        pending_page_down_target: if pressed(state.list_keymap.page_down@, key) {
            state.pending_page_down_target
        } else {
            None
        },
        ..state
    }
}

/// The key that is looked at: without a draft, the key to the right opens a session of the
/// dashboard like the enter key.
pub open spec fn effective_key(state: PickerState, key: KeyEvent) -> KeyEvent {
    if state.is_dashboard() && state.dashboard_composer is Some
        && state.dashboard_composer->0.is_idle() && pressed(state.list_keymap.move_right@, key) {
        plain_key(KeyCode::Enter)
    } else {
        key
    }
}

/// `after` is `before` with a key handled. While a transcript is waited for, the keys do nothing
/// but exit and call that off.
pub open spec fn key_handled(
    before: PickerState,
    after: PickerState,
    key: KeyEvent,
    outcome: KeyOutcome,
) -> bool {
    if before.pending_transcript_open is Some {
        let cleared = PickerState { inline_error: None, ..before };
        match outcome {
            KeyOutcome::Continue => loading_key_handled(cleared, after, key, None),
            KeyOutcome::Selected(chosen) => loading_key_handled(
                cleared,
                after,
                key,
                Some(chosen),
            ),
            _ => false,
        }
    } else {
        let ready = ready_for(before, key);
        let effective = effective_key(before, key);
        acted(ready, after, key_action(ready, effective), outcome)
    }
}

fn outcome_of(chosen: Option<SessionSelection>) -> (r: KeyOutcome)
    ensures
        r == match chosen {
            Some(chosen) => KeyOutcome::Selected(chosen),
            None => KeyOutcome::Continue,
        },
{
    match chosen {
        Some(chosen) => KeyOutcome::Selected(chosen),
        None => KeyOutcome::Continue,
    }
}

impl PickerState {
    fn find_exit_action(&self) -> (r: KeyAction)
        ensures
            r == exit_action(*self),
    {
        if !self.is_agents_dashboard() {
            return KeyAction::Exit;
        }
        if let Some(dashboard) = &self.dashboard_composer {
            if !dashboard.is_empty {
                return KeyAction::ClearDraft;
            }
        }
        KeyAction::ConfirmExit
    }

    fn find_dashboard_action(&self, key: KeyEvent) -> (r: Option<KeyAction>)
        ensures
            r == dashboard_action(*self, key),
    {
        let dashboard = self.is_agents_dashboard();
        if control_char(key, 'c') {
            return Some(self.find_exit_action());
        }
        if control_char(key, 'f') && dashboard {
            return Some(KeyAction::ToggleSearch);
        }
        if key.code == KeyCode::Esc && self.dashboard_search_active {
            return Some(KeyAction::LeaveSearch);
        }
        if control_char(key, 'g') && dashboard {
            return Some(KeyAction::ToggleGrouping);
        }
        if key.code == KeyCode::Up && key.modifiers.control && dashboard {
            return Some(KeyAction::MoveDashboard { down: false });
        }
        if key.code == KeyCode::Down && key.modifiers.control && dashboard {
            return Some(KeyAction::MoveDashboard { down: true });
        }
        if dashboard && !self.dashboard_search_active {
            if let Some(action) = self.dashboard_composer_action(key) {
                return Some(KeyAction::Compose { action });
            }
        }
        None
    }

    fn find_edit_action(&self, key: KeyEvent) -> (r: KeyAction)
        ensures
            r == edit_action(*self, key),
    {
        match key.code {
            KeyCode::Tab => {
                return KeyAction::FocusNext;
            },
            KeyCode::BackTab => {
                return KeyAction::FocusPrevious;
            },
            _ => {},
        }
        if !is_plain_text_key_event(key) && (is_pressed(&self.list_keymap.move_left, key)
            || is_pressed(&self.list_keymap.move_right, key)) {
            return KeyAction::ChangeOption;
        }
        if key.code == KeyCode::Backspace {
            return KeyAction::Backspace;
        }
        if self.archive_shortcut_available() && KeyBinding::ctrl(KeyCode::Char('a')).is_press(key) {
            return KeyAction::Archive;
        }
        match key.code {
            KeyCode::Char(ch) => if !key.modifiers.control && !key.modifiers.alt {
                KeyAction::Type { ch }
            } else {
                KeyAction::Nothing
            },
            _ => KeyAction::Nothing,
        }
    }

    fn find_list_action(&self, key: KeyEvent) -> (r: KeyAction)
        ensures
            r == list_action(*self, key),
    {
        if is_pressed(&self.list_keymap.cancel, key) {
            return KeyAction::Cancel;
        }
        if control_char(key, 't') || raw_char(key, '\u{14}') {
            return KeyAction::OpenTranscript;
        }
        if control_char(key, 'e') || raw_char(key, '\u{5}') {
            return KeyAction::ToggleExpansion;
        }
        if control_char(key, 'o') || raw_char(key, '\u{f}') {
            return KeyAction::ToggleDensity;
        }
        if is_pressed(&self.list_keymap.accept, key) {
            return if self.archive_state == ArchiveState::Idle {
                KeyAction::Accept
            } else {
                KeyAction::Nothing
            };
        }
        if !is_plain_text_key_event(key) {
            let filled = self.filtered_rows.len() > 0;
            if is_pressed(&self.list_keymap.move_up, key) {
                return KeyAction::MoveUp;
            }
            if is_pressed(&self.list_keymap.move_down, key) {
                return KeyAction::MoveDown;
            }
            if is_pressed(&self.list_keymap.page_up, key) {
                return KeyAction::PageUp;
            }
            if filled && is_pressed(&self.list_keymap.jump_top, key) {
                return KeyAction::JumpTop;
            }
            if filled && is_pressed(&self.list_keymap.jump_bottom, key) {
                return KeyAction::JumpBottom;
            }
            if filled && is_pressed(&self.list_keymap.page_down, key) {
                return KeyAction::PageDown;
            }
        }
        self.find_edit_action(key)
    }

    /// What `key` asks for.
    pub fn find_key_action(&self, key: KeyEvent) -> (r: KeyAction)
        ensures
            r == key_action(*self, key),
    {
        match self.find_dashboard_action(key) {
            Some(action) => action,
            None => self.find_list_action(key),
        }
    }

    fn tell_error(&mut self, message: String)
        ensures
            refused(*old(self), *final(self), message@),
    {
        self.inline_error = Some(message);
        self.request_frame();
    }

    fn accept_thread(&mut self, path: Option<SessionPath>, thread_id: ThreadId) -> (r: KeyOutcome)
        ensures
            thread_accepted(*old(self), *final(self), path, thread_id, r),
    {
        if self.status == SessionStatus::Archived {
            self.request_unarchive(thread_id);
            return KeyOutcome::Continue;
        }
        let dashboard = self.is_agents_dashboard();
        let chosen = match self.action.selection(path, thread_id) {
            SessionSelection::Resume(target) => if dashboard {
                SessionSelection::ResumeInSessionCwd(target)
            } else {
                SessionSelection::Resume(target)
            },
            chosen => chosen,
        };
        KeyOutcome::Selected(chosen)
    }

    /// Takes the thread of the session at `path` that was asked for, if one was found there.
    pub fn finish_accept(&mut self, path: SessionPath, found: Option<ThreadId>) -> (r: KeyOutcome)
        ensures
            match found {
                Some(thread_id) => thread_accepted(
                    *old(self),
                    *final(self),
                    Some(path),
                    thread_id,
                    r,
                ),
                None => {
                    &&& r is Continue
                    &&& refused(
                        *old(self),
                        *final(self),
                        "Failed to read session metadata from "@ + path.text@,
                    )
                },
            },
    {
        match found {
            Some(thread_id) => self.accept_thread(Some(path), thread_id),
            None => {
                let mut message = "Failed to read session metadata from ".to_owned();
                message.append(path.text.as_str());
                self.tell_error(message);
                KeyOutcome::Continue
            },
        }
    }

    fn accept(&mut self) -> (r: KeyOutcome)
        ensures
            accepted(*old(self), *final(self), r),
    {
        if self.handle_dashboard_command() {
            return KeyOutcome::Continue;
        }
        if self.selected >= self.filtered_rows.len() {
            return KeyOutcome::Continue;
        }
        let row = &self.filtered_rows[self.selected];
        let thread_id = row.thread_id;
        let path = clone_optional_path(&row.path);
        match thread_id {
            Some(thread_id) => self.accept_thread(path, thread_id),
            None => match path {
                Some(path) => KeyOutcome::ResolveThread { path },
                None => {
                    let message = if self.is_agents_dashboard() {
                        "Type a prompt below to start an agent in the selected project"
                    } else {
                        "Failed to read session metadata from selected session"
                    };
                    self.tell_error(message.to_owned());
                    KeyOutcome::Continue
                },
            },
        }
    }

    fn step(&self) -> (r: usize)
        ensures
            r == page_step(*self),
    {
        match self.view_rows {
            Some(rows) => if rows < 1 {
                1
            } else {
                rows
            },
            None => 10,
        }
    }

    fn move_page_down(&mut self)
        requires
            old(self).filtered_rows@.len() > 0,
        ensures
            page_down_moved(*old(self), *final(self)),
    {
        let step: usize = self.step();
        let target: usize = self.selected.saturating_add(step);
        let last: usize = self.filtered_rows.len() - 1;
        if target > last && self.pagination.next_cursor.is_some() {
            self.pending_page_down_target = Some(target);
            self.load_more_if_needed(LoadTrigger::Scroll);
        } else {
            self.selected = if target < last {
                target
            } else {
                last
            };
            self.ensure_selected_visible();
            self.maybe_load_more_for_scroll();
        }
        self.request_frame();
    }

    fn move_down(&mut self)
        ensures
            moved(*old(self), *final(self), KeyAction::MoveDown),
    {
        if self.filtered_rows.len() > 0 && self.selected < self.filtered_rows.len() - 1 {
            self.selected += 1;
            self.ensure_selected_visible();
        }
        self.maybe_load_more_for_scroll();
        self.request_frame();
    }

    fn perform_move(&mut self, action: KeyAction)
        requires
            action is MoveUp || action is MoveDown || action is PageUp || (old(
                self,
            ).filtered_rows@.len() > 0 && (action is PageDown || action is JumpTop
                || action is JumpBottom)),
        ensures
            moved(*old(self), *final(self), action),
    {
        match action {
            KeyAction::MoveUp => {
                if self.selected > 0 {
                    self.selected -= 1;
                    self.ensure_selected_visible();
                }
                self.request_frame();
            },
            KeyAction::MoveDown => {
                self.move_down();
            },
            KeyAction::PageUp => {
                let step: usize = self.step();
                if self.selected > 0 {
                    self.selected = self.selected.saturating_sub(step);
                    self.ensure_selected_visible();
                    self.request_frame();
                }
            },
            KeyAction::PageDown => {
                self.move_page_down();
            },
            KeyAction::JumpTop => {
                self.selected = 0;
                self.ensure_selected_visible();
                self.request_frame();
            },
            _ => {
                self.selected = self.filtered_rows.len() - 1;
                self.ensure_selected_visible();
                self.maybe_load_more_for_scroll();
                self.request_frame();
            },
        }
    }

    fn toggle_search(&mut self)
        ensures
            search_toggled(*old(self), *final(self)),
    {
        self.dashboard_search_active = !self.dashboard_search_active;
        if !self.dashboard_search_active {
            self.clear_query_preserving_selection();
        } else {
            self.request_frame();
        }
    }

    fn change_option(&mut self)
        ensures
            option_changed(*old(self), *final(self)),
    {
        self.change_focused_toolbar_value();
        self.request_frame();
    }

    fn shorten_query(&mut self)
        ensures
            query_set(*old(self), *final(self), shortened(old(self).query@)),
    {
        let chars = to_chars(self.query.as_str());
        let shorter = if chars.len() > 0 {
            from_chars(&chars, 0, chars.len() - 1)
        } else {
            String::new()
        };
        proof {
            assert(shorter@ =~= shortened(self.query@));
        }
        self.set_query(shorter);
    }

    fn lengthen_query(&mut self, ch: char)
        ensures
            query_set(*old(self), *final(self), old(self).query@.push(ch)),
    {
        let mut longer = self.query.clone();
        longer.push(ch);
        self.set_query(longer);
    }

    fn perform_quiet_action(&mut self, action: KeyAction)
        requires
            !(action is Exit || action is ConfirmExit || action is Compose || action is Cancel
                || action is ToggleDensity || action is Accept),
            action is PageDown || action is JumpTop || action is JumpBottom ==> old(
                self,
            ).filtered_rows@.len() > 0,
        ensures
            quietly_acted(*old(self), *final(self), action),
    {
        match action {
            KeyAction::ClearDraft => {
                self.set_composer_text("");
                self.request_frame();
            },
            KeyAction::ToggleSearch => {
                self.toggle_search();
            },
            KeyAction::LeaveSearch => {
                self.dashboard_search_active = false;
                self.clear_query_preserving_selection();
            },
            KeyAction::ToggleGrouping => {
                self.toggle_dashboard_group_mode();
            },
            KeyAction::MoveDashboard { down } => {
                self.move_dashboard_selection(down);
            },
            KeyAction::OpenTranscript => {
                self.open_selected_transcript();
            },
            KeyAction::ToggleExpansion => {
                self.toggle_selected_expansion();
            },
            KeyAction::FocusNext => {
                self.focus_next_toolbar_control();
                self.request_frame();
            },
            KeyAction::FocusPrevious => {
                self.focus_previous_toolbar_control();
                self.request_frame();
            },
            KeyAction::ChangeOption => {
                self.change_option();
            },
            KeyAction::Backspace => {
                self.shorten_query();
            },
            KeyAction::Archive => {
                self.request_archive_for_selected_session();
            },
            KeyAction::Type { ch } => {
                self.lengthen_query(ch);
            },
            KeyAction::Nothing => {},
            _ => {
                self.perform_move(action);
            },
        }
    }

    fn compose(&mut self, action: ComposerAction) -> (r: KeyOutcome)
        ensures
            composed(*old(self), *final(self), action, r),
    {
        self.perform_composer_action(action);
        let ghost acted = *self;
        let chosen = self.take_dashboard_submission();
        proof {
            assert(composer_acted(*old(self), acted, action));
        }
        outcome_of(chosen)
    }

    /// Carries out what a key asks for.
    pub fn perform_key_action(&mut self, action: KeyAction) -> (r: KeyOutcome)
        requires
            action is PageDown || action is JumpTop || action is JumpBottom ==> old(
                self,
            ).filtered_rows@.len() > 0,
        ensures
            acted(*old(self), *final(self), action, r),
    {
        match action {
            KeyAction::Exit => KeyOutcome::Selected(SessionSelection::Exit),
            KeyAction::ConfirmExit => outcome_of(
                self.handle_dashboard_exit_shortcut(self.clock_millis),
            ),
            KeyAction::Compose { action } => self.compose(action),
            KeyAction::Cancel => {
                if self.query.as_str().is_empty() {
                    return KeyOutcome::Selected(SessionSelection::StartFresh);
                }
                self.clear_query_preserving_selection();
                KeyOutcome::Continue
            },
            KeyAction::ToggleDensity => match self.toggle_density() {
                Some(mode) => KeyOutcome::KeepDensity(mode),
                None => KeyOutcome::Continue,
            },
            KeyAction::Accept => self.accept(),
            _ => {
                self.perform_quiet_action(action);
                KeyOutcome::Continue
            },
        }
    }

    /// Handles a key.
    pub fn handle_key(&mut self, key: KeyEvent) -> (r: KeyOutcome)
        ensures
            key_handled(*old(self), *final(self), key, r),
    {
        self.inline_error = None;
        if self.is_transcript_loading() {
            return outcome_of(self.handle_transcript_loading_key(key));
        }
        if !is_pressed(&self.list_keymap.page_down, key) {
            self.pending_page_down_target = None;
        }
        let mut effective = key;
        if self.is_agents_dashboard() {
            if let Some(dashboard) = &self.dashboard_composer {
                if dashboard.idle() && is_pressed(&self.list_keymap.move_right, key) {
                    effective = KeyEvent::new(KeyCode::Enter, KeyModifiers::none());
                }
            }
        }
        proof {
            assert(*self == ready_for(*old(self), key));
            assert(effective == effective_key(*old(self), key));
        }
        let action = self.find_key_action(effective);
        self.perform_key_action(action)
    }
}

} // verus!
