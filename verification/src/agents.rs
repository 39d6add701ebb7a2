//! The agents dashboard: its selection, grouping, project and prompt.

use vstd::prelude::*;
use vstd::string::StringExecFns;
use crate::composer::{ComposerEdit, DashboardComposer};
use crate::dashboard::DashboardGroupMode;
use crate::filter::{arranged, find_key, found_by_key, selected_key};
use crate::loading::scroll_page_asked;
use crate::paths::{clone_optional_path, path_matches, paths_match, SessionPath};
use crate::picker::{FrameDelay, PickerState};
use crate::row::SeenRowKey;
use crate::scroll::shown;
use crate::session::{DashboardResumeState, PickerLoadRequest, SearchState, SessionSelection};
use crate::text::{trim, trimmed};

verus! {

/// How long a second press of the exit key is waited for, in milliseconds.
pub const EXIT_CONFIRMATION_TIMEOUT: u64 = 3000;

/// The hints below the composer.
pub fn default_footer_hints() -> (r: Vec<(String, String)>)
    ensures
        r@.len() == 3,
        r@[0].0@ == "enter"@ && r@[0].1@ == "start agent"@,
        r@[1].0@ == "ctrl+g"@ && r@[1].1@ == "group"@,
        r@[2].0@ == "ctrl+↑/↓"@ && r@[2].1@ == "select project"@,
{
    let mut hints: Vec<(String, String)> = Vec::new();
    hints.push(("enter".to_owned(), "start agent".to_owned()));
    hints.push(("ctrl+g".to_owned(), "group".to_owned()));
    hints.push(("ctrl+↑/↓".to_owned(), "select project".to_owned()));
    hints
}

/// The hints are the ones that stand below the composer by default.
pub open spec fn are_default_hints(hints: Seq<(String, String)>) -> bool {
    &&& hints.len() == 3
    &&& hints[0].0@ == "enter"@ && hints[0].1@ == "start agent"@
    &&& hints[1].0@ == "ctrl+g"@ && hints[1].1@ == "group"@
    &&& hints[2].0@ == "ctrl+↑/↓"@ && hints[2].1@ == "select project"@
}

/// The hint asks for a second press of the exit key.
pub open spec fn is_exit_hint(hints: Seq<(String, String)>) -> bool {
    hints.len() == 1 && hints[0].0@ == "ctrl+c"@ && hints[0].1@ == "again to exit"@
}

/// The directory of the selected row.
pub open spec fn selected_cwd(state: PickerState) -> Option<SessionPath> {
    if state.selected < state.filtered_rows@.len() {
        state.filtered_rows@[state.selected as int].cwd
    } else {
        None
    }
}

/// `cwd` is the directory that an agent is started in: that of the selected row, else the one that
/// the dashboard was opened in, else `.`.
pub open spec fn is_project_cwd(state: PickerState, cwd: SessionPath) -> bool {
    if selected_cwd(state) is Some {
        cwd == selected_cwd(state)->0
    } else if state.dashboard_fallback_cwd is Some {
        cwd == state.dashboard_fallback_cwd->0
    } else {
        cwd.text@ == "."@ && cwd.canonical is None && cwd.label@ == "."@
    }
}

/// The group mode that a command asks for, if it does.
pub open spec fn group_command(text: Seq<char>) -> Option<DashboardGroupMode> {
    if trimmed(text) == "/group project"@ {
        Some(DashboardGroupMode::Project)
    } else if trimmed(text) == "/group status"@ {
        Some(DashboardGroupMode::Status)
    } else {
        None
    }
}

/// The group mode that a command asks for, if it does.
pub fn parse_group_command(text: &str) -> (r: Option<DashboardGroupMode>)
    ensures
        r == group_command(text@),
{
    let command = trim(text);
    if command == "/group project".to_owned() {
        Some(DashboardGroupMode::Project)
    } else if command == "/group status".to_owned() {
        Some(DashboardGroupMode::Status)
    } else {
        None
    }
}

/// `after` is `before` grouped by `mode`. The selected session stays selected, at the top of the
/// view.
pub open spec fn regrouped(
    before: PickerState,
    after: PickerState,
    mode: DashboardGroupMode,
) -> bool {
    let rows = after.filtered_rows@;
    let selected = match found_by_key(selected_key(before), rows) {
        Some(index) => index as usize,
        None => before.selected,
    };
    &&& rows == arranged(
        PickerState { dashboard_group_mode: mode, ..before },
        before.filtered_rows@,
    )
    &&& after == PickerState {
        frame_requested: true,
        ..shown(
            PickerState {
                dashboard_group_mode: mode,
                filtered_rows: after.filtered_rows,
                selected,
                scroll_top: selected,
                ..before
            },
        )
    }
}

/// The inventory of the project in `cwd` is not loaded.
pub open spec fn lacks_inventory(state: PickerState, cwd: SessionPath) -> bool {
    state.is_dashboard() && !(state.dashboard_inventory_cwd is Some && path_matches(
        state.dashboard_inventory_cwd->0,
        cwd,
    ))
}

/// `after` is `before` with the inventory of the project in `cwd` asked for, unless it is loaded.
pub open spec fn inventory_of_asked(
    before: PickerState,
    after: PickerState,
    cwd: SessionPath,
) -> bool {
    if lacks_inventory(before, cwd) {
        &&& after == PickerState {
            dashboard_inventory_cwd: Some(cwd),
            requests: after.requests,
            ..before
        }
        &&& after.requests@ == before.requests@.push(
            PickerLoadRequest::DashboardComposerInventory { cwd },
        )
    } else {
        after == before
    }
}

/// `after` is `before` with the inventory of the selected project asked for, unless it is loaded.
pub open spec fn inventory_asked(before: PickerState, after: PickerState) -> bool {
    exists|cwd: SessionPath| #[trigger]
        is_project_cwd(before, cwd) && inventory_of_asked(before, after, cwd)
}

/// `state` with the selection moved by a row, before the view follows.
pub open spec fn selection_moved(state: PickerState, down: bool) -> PickerState {
    PickerState {
        dashboard_restore_thread_id: None,
        dashboard_restore_cwd: None,
        selected: if down && state.selected + 1 < state.filtered_rows@.len() {
            (state.selected + 1) as usize
        } else if !down && state.selected > 0 {
            (state.selected - 1) as usize
        } else {
            state.selected
        },
        ..state
    }
}

/// `after` is `moved`, in which the selection was moved, with its row in view and its project's
/// inventory asked for.
pub open spec fn selection_followed(moved: PickerState, after: PickerState) -> bool {
    inventory_asked(PickerState { frame_requested: true, ..shown(moved) }, after)
}

/// `after` is `before` with the selection of the dashboard moved by a row. Downwards, the next page
/// is asked for near the end.
pub open spec fn dashboard_moved(before: PickerState, after: PickerState, down: bool) -> bool {
    exists|moved: PickerState|
        #![trigger selection_followed(moved, after)]
        selection_followed(moved, after) && if down {
            scroll_page_asked(selection_moved(before, true), moved)
        } else {
            moved == selection_moved(before, false)
        }
}

/// `after` is `before` with a submitted message taken: a command changes the grouping, another
/// message starts an agent in the selected project.
pub open spec fn submission_taken(
    before: PickerState,
    after: PickerState,
    chosen: Option<SessionSelection>,
) -> bool {
    match before.pending_dashboard_submission {
        None => after == before && chosen is None,
        Some(message) => {
            let rest = PickerState { pending_dashboard_submission: None, ..before };
            match group_command(message.text@) {
                Some(mode) => regrouped(rest, after, mode) && chosen is None,
                None => {
                    &&& after == rest
                    &&& chosen matches Some(SessionSelection::StartFreshIn { cwd, user_message })
                    &&& is_project_cwd(before, cwd)
                    &&& user_message == message
                },
            }
        },
    }
}

/// `after` is `before` with a group command in the query carried out; without one, nothing
/// changes.
pub open spec fn query_command_run(before: PickerState, after: PickerState, run: bool) -> bool {
    if before.is_dashboard() && group_command(before.query@) is Some {
        &&& run
        &&& after.query@.len() == 0
        &&& regrouped(
            PickerState { query: after.query, search_state: SearchState::Idle, ..before },
            after,
            group_command(before.query@)->0,
        )
    } else {
        !run && after == before
    }
}

/// What a dashboard keeps over a lost connection.
pub open spec fn is_resume_state(resume: DashboardResumeState, state: PickerState) -> bool {
    &&& resume.draft@ == match state.dashboard_composer {
        Some(dashboard) => dashboard.text@,
        None => ""@,
    }
    &&& resume.group_mode == state.dashboard_group_mode
    &&& resume.selected_thread_id == if state.selected < state.filtered_rows@.len() {
        state.filtered_rows@[state.selected as int].thread_id
    } else {
        None
    }
    &&& resume.selected_cwd == selected_cwd(state)
}

/// `after` is `before`, where that is a dashboard with an empty composer and the directory that it
/// was opened in.
pub open spec fn composer_given(
    before: PickerState,
    after: PickerState,
    fallback_cwd: SessionPath,
) -> bool {
    if before.is_dashboard() {
        &&& after == PickerState {
            dashboard_composer: after.dashboard_composer,
            dashboard_fallback_cwd: Some(fallback_cwd),
            ..before
        }
        &&& after.dashboard_composer matches Some(dashboard)
        &&& dashboard.is_idle()
        &&& dashboard.text@.len() == 0
        &&& !dashboard.in_paste_burst
        &&& dashboard.edits@.len() == 1
        &&& dashboard.edits@[0] matches ComposerEdit::SetFooterHints(hints)
        &&& are_default_hints(hints@)
    } else {
        after == before
    }
}

/// `after` is `before` with what a dashboard kept over a lost connection.
pub open spec fn dashboard_restored(
    before: PickerState,
    after: PickerState,
    resume: DashboardResumeState,
) -> bool {
    match before.dashboard_composer {
        Some(composer) => {
            &&& after == PickerState {
                dashboard_composer: after.dashboard_composer,
                dashboard_group_mode: resume.group_mode,
                dashboard_restore_thread_id: resume.selected_thread_id,
                dashboard_restore_cwd: resume.selected_cwd,
                ..before
            }
            &&& after.dashboard_composer matches Some(restored)
            &&& restored == DashboardComposer {
                text: restored.text,
                is_empty: composer.is_empty && resume.draft@.len() == 0,
                edits: restored.edits,
                ..composer
            }
            &&& restored.text@ == composer.text@ + resume.draft@
            &&& restored.edits@ == composer.edits@.push(ComposerEdit::InsertText(resume.draft))
        },
        None => after == before,
    }
}

impl PickerState {
    pub fn dashboard_resume_state(&self) -> (r: DashboardResumeState)
        ensures
            is_resume_state(r, *self),
    {
        let draft = match &self.dashboard_composer {
            Some(dashboard) => dashboard.text.clone(),
            None => "".to_owned(),
        };
        if self.selected < self.filtered_rows.len() {
            let row = &self.filtered_rows[self.selected];
            DashboardResumeState {
                draft,
                group_mode: self.dashboard_group_mode,
                selected_thread_id: row.thread_id,
                selected_cwd: clone_optional_path(&row.cwd),
            }
        } else {
            DashboardResumeState {
                draft,
                group_mode: self.dashboard_group_mode,
                selected_thread_id: None,
                selected_cwd: None,
            }
        }
    }

    /// Gives the dashboard a composer and the directory that it was opened in.
    pub fn initialize_dashboard_composer(&mut self, fallback_cwd: &SessionPath)
        ensures
            composer_given(*old(self), *final(self), *fallback_cwd),
    {
        if !self.is_agents_dashboard() {
            return;
        }
        let mut dashboard = DashboardComposer::new();
        dashboard.queue(ComposerEdit::SetFooterHints(default_footer_hints()));
        self.dashboard_composer = Some(dashboard);
        self.dashboard_fallback_cwd = Some(fallback_cwd.clone());
    }

    /// Takes up what a dashboard kept over a lost connection.
    pub fn restore_dashboard(&mut self, resume: &DashboardResumeState)
        ensures
            dashboard_restored(*old(self), *final(self), *resume),
    {
        match self.dashboard_composer.take() {
            Some(dashboard) => {
                let mut dashboard = dashboard;
                dashboard.text.append(resume.draft.as_str());
                dashboard.is_empty = dashboard.is_empty && resume.draft.as_str().is_empty();
                dashboard.queue(ComposerEdit::InsertText(resume.draft.clone()));
                self.dashboard_composer = Some(dashboard);
                self.dashboard_group_mode = resume.group_mode;
                self.dashboard_restore_thread_id = resume.selected_thread_id;
                self.dashboard_restore_cwd = clone_optional_path(&resume.selected_cwd);
            },
            None => {},
        }
    }

    fn set_footer_hints(&mut self, hints: Vec<(String, String)>)
        ensures
            *final(self) == (PickerState {
                dashboard_composer: final(self).dashboard_composer,
                ..*old(self)
            }),
            composer_queued(
                old(self).dashboard_composer,
                final(self).dashboard_composer,
                ComposerEdit::SetFooterHints(hints),
            ),
    {
        self.queue_edit(ComposerEdit::SetFooterHints(hints));
    }

    pub fn queue_edit(&mut self, edit: ComposerEdit)
        ensures
            *final(self) == (PickerState {
                dashboard_composer: final(self).dashboard_composer,
                ..*old(self)
            }),
            composer_queued(old(self).dashboard_composer, final(self).dashboard_composer, edit),
    {
        match self.dashboard_composer.take() {
            Some(dashboard) => {
                let mut dashboard = dashboard;
                dashboard.queue(edit);
                self.dashboard_composer = Some(dashboard);
            },
            None => {},
        }
    }

    /// Handles the exit key at `now`, in milliseconds. A second press in time exits; a first one
    /// asks for it.
    pub fn handle_dashboard_exit_shortcut(&mut self, now: u64) -> (r: Option<SessionSelection>)
        ensures
            exit_pressed(*old(self), *final(self), now, r),
    {
        if let Some(expires_at) = self.dashboard_exit_confirmation_expires_at {
            if now < expires_at {
                self.dashboard_exit_confirmation_expires_at = None;
                return Some(SessionSelection::Exit);
            }
        }
        self.dashboard_exit_confirmation_expires_at = Some(
            now.saturating_add(EXIT_CONFIRMATION_TIMEOUT),
        );
        let mut hints: Vec<(String, String)> = Vec::new();
        hints.push(("ctrl+c".to_owned(), "again to exit".to_owned()));
        proof {
            assert(is_exit_hint(hints@));
        }
        self.set_footer_hints(hints);
        self.delayed_frames.push(FrameDelay::Millis(EXIT_CONFIRMATION_TIMEOUT));
        self.request_frame();
        None
    }

    /// Drops the wait for a second press of the exit key once it is over.
    pub fn expire_dashboard_exit_confirmation(&mut self, now: u64)
        ensures
            exit_wait_expired(*old(self), *final(self), now),
    {
        match self.dashboard_exit_confirmation_expires_at {
            Some(expires_at) => {
                if now < expires_at {
                    return;
                }
            },
            None => {
                return;
            },
        }
        self.dashboard_exit_confirmation_expires_at = None;
        let hints = default_footer_hints();
        proof {
            assert(are_default_hints(hints@));
        }
        self.set_footer_hints(hints);
    }

    pub fn selected_project_cwd(&self, fallback: &SessionPath) -> (r: SessionPath)
        ensures
            r == match selected_cwd(*self) {
                Some(cwd) => cwd,
                None => *fallback,
            },
    {
        if self.selected < self.filtered_rows.len() {
            if let Some(cwd) = &self.filtered_rows[self.selected].cwd {
                return cwd.clone();
            }
        }
        fallback.clone()
    }

    pub fn dashboard_project_cwd(&self) -> (r: SessionPath)
        ensures
            is_project_cwd(*self, r),
    {
        match &self.dashboard_fallback_cwd {
            Some(fallback) => self.selected_project_cwd(fallback),
            None => {
                let here = SessionPath::new(".");
                self.selected_project_cwd(&here)
            },
        }
    }

    /// Asks for the inventory of the selected project, unless it is loaded.
    pub fn load_dashboard_composer_inventory(&mut self)
        ensures
            inventory_asked(*old(self), *final(self)),
    {
        let cwd = self.dashboard_project_cwd();
        proof {
            assert(is_project_cwd(*self, cwd));
        }
        if !self.is_agents_dashboard() {
            return;
        }
        if let Some(loaded) = &self.dashboard_inventory_cwd {
            if paths_match(loaded, &cwd) {
                return;
            }
        }
        self.dashboard_inventory_cwd = Some(cwd.clone());
        self.requests.push(PickerLoadRequest::DashboardComposerInventory { cwd });
    }

    /// Moves the selection of the dashboard by a row.
    pub fn move_dashboard_selection(&mut self, down: bool)
        ensures
            dashboard_moved(*old(self), *final(self), down),
    {
        self.dashboard_restore_thread_id = None;
        self.dashboard_restore_cwd = None;
        if down {
            if self.filtered_rows.len() > 0 && self.selected < self.filtered_rows.len() - 1 {
                self.selected += 1;
            }
            self.maybe_load_more_for_scroll();
        } else if self.selected > 0 {
            self.selected -= 1;
        }
        let ghost moved = *self;
        self.ensure_selected_visible();
        self.request_frame();
        self.load_dashboard_composer_inventory();
        proof {
            assert(selection_followed(moved, *self));
        }
    }

    /// Takes a submitted message.
    pub fn take_dashboard_submission(&mut self) -> (r: Option<SessionSelection>)
        ensures
            submission_taken(*old(self), *final(self), r),
    {
        match self.pending_dashboard_submission.take() {
            Some(user_message) => {
                match parse_group_command(user_message.text.as_str()) {
                    Some(mode) => {
                        self.set_dashboard_group_mode(mode);
                        None
                    },
                    None => Some(
                        SessionSelection::StartFreshIn {
                            cwd: self.dashboard_project_cwd(),
                            user_message,
                        },
                    ),
                }
            },
            None => None,
        }
    }

    /// Carries out a group command in the query; whether there was one.
    pub fn handle_dashboard_command(&mut self) -> (r: bool)
        ensures
            query_command_run(*old(self), *final(self), r),
    {
        if !self.is_agents_dashboard() {
            return false;
        }
        let mode = match parse_group_command(self.query.as_str()) {
            Some(mode) => mode,
            None => {
                return false;
            },
        };
        self.query = String::new();
        self.search_state = SearchState::Idle;
        self.set_dashboard_group_mode(mode);
        true
    }

    pub fn toggle_dashboard_group_mode(&mut self)
        ensures
            regrouped(*old(self), *final(self), old(self).dashboard_group_mode.other()),
    {
        self.set_dashboard_group_mode(self.dashboard_group_mode.toggle());
    }

    /// Groups the sessions by `group_mode`; the selected one stays selected.
    pub fn set_dashboard_group_mode(&mut self, group_mode: DashboardGroupMode)
        ensures
            regrouped(*old(self), *final(self), group_mode),
    {
        let key = self.key_of_selected();
        self.dashboard_group_mode = group_mode;
        self.sort_dashboard_rows();
        let selected: usize = self.place_of_key(&key);
        self.selected = selected;
        self.scroll_top = selected;
        self.ensure_selected_visible();
        self.request_frame();
    }

    /// Where the session with the key stands; the selected place without it.
    fn place_of_key(&self, key: &Option<SeenRowKey>) -> (r: usize)
        ensures
            r == match found_by_key(*key, self.filtered_rows@) {
                Some(index) => index as usize,
                None => self.selected,
            },
    {
        match key {
            Some(key) => match find_key(&self.filtered_rows, key) {
                Some(index) => index,
                None => self.selected,
            },
            None => self.selected,
        }
    }
}

/// A press of the exit key at `now` comes in time to confirm the one before.
pub open spec fn confirms_exit(state: PickerState, now: u64) -> bool {
    state.dashboard_exit_confirmation_expires_at is Some && now
        < state.dashboard_exit_confirmation_expires_at->0
}

/// When the wait for a second press is over that begins at `now`.
pub open spec fn exit_wait_end(now: u64) -> u64 {
    if now + EXIT_CONFIRMATION_TIMEOUT <= u64::MAX {
        (now + EXIT_CONFIRMATION_TIMEOUT) as u64
    } else {
        u64::MAX
    }
}

/// `after` is `before` with the exit key pressed at `now`: a second press in time exits; a first
/// one asks for it below the composer, for a while.
pub open spec fn exit_pressed(
    before: PickerState,
    after: PickerState,
    now: u64,
    chosen: Option<SessionSelection>,
) -> bool {
    if confirms_exit(before, now) {
        &&& chosen == Some(SessionSelection::Exit)
        &&& after == PickerState { dashboard_exit_confirmation_expires_at: None, ..before }
    } else {
        &&& chosen is None
        &&& after == PickerState {
            dashboard_exit_confirmation_expires_at: Some(exit_wait_end(now)),
            dashboard_composer: after.dashboard_composer,
            delayed_frames: after.delayed_frames,
            frame_requested: true,
            ..before
        }
        &&& after.delayed_frames@ == before.delayed_frames@.push(
            FrameDelay::Millis(EXIT_CONFIRMATION_TIMEOUT),
        )
        &&& exists|hints: Vec<(String, String)>| #[trigger]
            is_exit_hint(hints@) && composer_queued(
                before.dashboard_composer,
                after.dashboard_composer,
                ComposerEdit::SetFooterHints(hints),
            )
    }
}

/// `after` is `before` without a wait for a second press of the exit key that is over at `now`;
/// the hint that asked for it goes with it.
pub open spec fn exit_wait_expired(before: PickerState, after: PickerState, now: u64) -> bool {
    match before.dashboard_exit_confirmation_expires_at {
        Some(expires_at) if now >= expires_at => {
            &&& after == PickerState {
                dashboard_exit_confirmation_expires_at: None,
                dashboard_composer: after.dashboard_composer,
                ..before
            }
            &&& exists|hints: Vec<(String, String)>| #[trigger]
                are_default_hints(hints@) && composer_queued(
                    before.dashboard_composer,
                    after.dashboard_composer,
                    ComposerEdit::SetFooterHints(hints),
                )
        },
        _ => after == before,
    }
}

/// `after` is `before` with an edit queued, where there is a composer.
pub open spec fn composer_queued(
    before: Option<DashboardComposer>,
    after: Option<DashboardComposer>,
    edit: ComposerEdit,
) -> bool {
    match before {
        Some(dashboard) => after is Some && dashboard.queued(after->0, edit),
        None => after is None,
    }
}

} // verus!
