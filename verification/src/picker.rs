//! The state of the session picker.

use vstd::prelude::*;
use std::collections::{HashMap, HashSet};
use crate::archive::ArchiveState;
use crate::composer::DashboardComposer;
use crate::dashboard::DashboardGroupMode;
use crate::ids::ThreadId;
use crate::keys::{KeyChordMatch, KeyEvent, KeymapContext, ListKeymap};
use crate::pagination::PaginationState;
use crate::progress::ScrollProgress;
use crate::paths::{clone_optional_path, SessionPath};
use crate::protocol::ThreadSortKey;
use crate::render_row::Palette;
use crate::row::{Row, SeenRowKey};
use crate::session::{
    PageLoadMode, PickerLoadRequest, ProviderFilter, SearchState, SessionFilterMode,
    SessionListDensity, SessionPickerAction, SessionPickerLaunchContext, SessionStatus,
    SessionTranscriptState, ToolbarControl, TranscriptCells, TranscriptPreviewState, UserMessage,
};
use crate::style::Line;
use crate::time::Timestamp;

verus! {

/// Where the density of the list is kept.
#[derive(Debug)]
pub struct SessionPickerViewPersistence {
    pub codex_home: SessionPath,
}

/// The wrapped lines of a conversation for one width: for each line of the conversation, the lines
/// on the screen. Markdown and wrapping are the front end's work.
#[derive(Debug)]
pub struct PreviewLayout {
    pub width: u16,
    pub content: Vec<Vec<Line>>,
}

/// A frame that is due later.
#[derive(Clone, Copy, Debug, PartialEq, Eq, Structural)]
pub enum FrameDelay {
    /// When a burst of pasted keys may have ended.
    PasteFlush,
    /// After some milliseconds.
    Millis(u64),
}

/// The state of the picker.
///
/// What it wants done is queued: `requests` are for the loader, `frame_requested` and
/// `delayed_frames` for the terminal, and the composer's edits for the composer. The clocks and
/// the colors of the terminal are handed in.
#[derive(Debug)]
pub struct PickerState {
    pub current_time: Timestamp,
    /// The milliseconds that passed since some instant, by a clock that never goes back.
    pub clock_millis: u64,
    pub palette: Palette,
    pub frame_requested: bool,
    pub delayed_frames: Vec<FrameDelay>,
    pub requests: Vec<PickerLoadRequest>,
    pub relative_time_reference: Option<Timestamp>,
    pub pagination: PaginationState,
    pub all_rows: Vec<Row>,
    pub filtered_rows: Vec<Row>,
    pub seen_rows: Vec<SeenRowKey>,
    pub selected: usize,
    pub scroll_top: usize,
    pub dashboard_scroll_offset: usize,
    pub pending_page_down_target: Option<usize>,
    pub frozen_footer_percent: Option<ScrollProgress>,
    pub query: String,
    pub search_state: SearchState,
    pub next_request_token: usize,
    pub next_search_token: usize,
    pub next_cancellation: u64,
    pub view_rows: Option<usize>,
    pub view_width: Option<u16>,
    pub provider_filter: ProviderFilter,
    pub filter_mode: SessionFilterMode,
    pub status: SessionStatus,
    pub filter_cwd: Option<SessionPath>,
    pub local_filter_cwd: Option<SessionPath>,
    pub toolbar_focus: ToolbarControl,
    pub density: SessionListDensity,
    pub launch_context: SessionPickerLaunchContext,
    pub dashboard_group_mode: DashboardGroupMode,
    pub view_persistence: Option<SessionPickerViewPersistence>,
    pub action: SessionPickerAction,
    pub sort_key: ThreadSortKey,
    pub inline_error: Option<String>,
    pub archive_state: ArchiveState,
    pub expanded_thread_id: Option<ThreadId>,
    pub transcript_previews: HashMap<u128, TranscriptPreviewState>,
    pub preview_layouts: HashMap<u128, PreviewLayout>,
    pub transcript_cells: HashMap<u128, SessionTranscriptState>,
    pub pending_transcript_open: Option<ThreadId>,
    pub pending_transcript_cancellation: Option<u64>,
    pub transcript_loading_frame_shown: bool,
    /// The transcript that lies over the picker.
    pub overlay: Option<TranscriptCells>,
    pub list_keymap: ListKeymap,
    pub initial_page_mode: PageLoadMode,
    pub dashboard_composer: Option<DashboardComposer>,
    pub dashboard_search_active: bool,
    pub dashboard_fallback_cwd: Option<SessionPath>,
    pub pending_dashboard_submission: Option<UserMessage>,
    pub dashboard_system_errors: HashSet<u128>,
    pub dashboard_inventory_cwd: Option<SessionPath>,
    pub dashboard_restore_thread_id: Option<ThreadId>,
    pub dashboard_restore_cwd: Option<SessionPath>,
    /// Until when a second press of the exit key leaves the dashboard, in milliseconds.
    pub dashboard_exit_confirmation_expires_at: Option<u64>,
}

/// `r` is a picker in which nothing is loaded or chosen yet.
pub open spec fn is_new(
    r: PickerState,
    provider_filter: ProviderFilter,
    show_all: bool,
    filter_cwd: Option<SessionPath>,
    action: SessionPickerAction,
) -> bool {
    &&& r.provider_filter == provider_filter
    &&& r.filter_mode == SessionFilterMode::initial(show_all, filter_cwd is Some)
    &&& r.filter_cwd == filter_cwd
    &&& r.local_filter_cwd == filter_cwd
    &&& r.action == action
    &&& r.status is Active
    &&& r.toolbar_focus is Filter
    &&& r.density is Comfortable
    &&& r.launch_context is Startup
    &&& r.dashboard_group_mode is Project
    &&& r.sort_key is UpdatedAt
    &&& r.initial_page_mode is StoreDefault
    &&& r.palette.is_unknown()
    &&& r.pagination.is_fresh()
    &&& r.pagination.mode is StoreDefault
    &&& r.all_rows@.len() == 0
    &&& r.filtered_rows@.len() == 0
    &&& r.seen_rows@.len() == 0
    &&& r.requests@.len() == 0
    &&& r.delayed_frames@.len() == 0
    &&& !r.frame_requested
    &&& r.selected == 0
    &&& r.scroll_top == 0
    &&& r.dashboard_scroll_offset == 0
    &&& r.query@.len() == 0
    &&& r.search_state is Idle
    &&& r.next_request_token == 0
    &&& r.next_search_token == 0
    &&& r.inline_error is None
    &&& r.archive_state is Idle
    &&& r.expanded_thread_id is None
    &&& r.transcript_previews@ == Map::<u128, TranscriptPreviewState>::empty()
    &&& r.preview_layouts@ == Map::<u128, PreviewLayout>::empty()
    &&& r.transcript_cells@ == Map::<u128, SessionTranscriptState>::empty()
    &&& r.dashboard_system_errors@ == Set::<u128>::empty()
    &&& r.pending_transcript_open is None
    &&& r.pending_transcript_cancellation is None
    &&& r.pending_page_down_target is None
    &&& r.pending_dashboard_submission is None
    &&& r.frozen_footer_percent is None
    &&& r.relative_time_reference is None
    &&& r.view_rows is None
    &&& r.view_width is None
    &&& r.view_persistence is None
    &&& r.overlay is None
    &&& r.dashboard_composer is None
    &&& !r.dashboard_search_active
    &&& !r.transcript_loading_frame_shown
    &&& r.dashboard_fallback_cwd is None
    &&& r.dashboard_inventory_cwd is None
    &&& r.dashboard_restore_thread_id is None
    &&& r.dashboard_restore_cwd is None
    &&& r.dashboard_exit_confirmation_expires_at is None
    &&& r.current_time.seconds() == 0
    &&& r.current_time.nanos() == 0
    &&& r.clock_millis == 0
    &&& r.list_keymap.is_default()
    &&& r.next_cancellation == 0
}

impl PickerState {
    /// The picker is the agents dashboard.
    pub open spec fn is_dashboard(self) -> bool {
        self.launch_context is AgentsDashboard
    }

    pub fn is_agents_dashboard(&self) -> (r: bool)
        ensures
            r == self.is_dashboard(),
    {
        self.launch_context == SessionPickerLaunchContext::AgentsDashboard
    }

    pub fn new(
        provider_filter: ProviderFilter,
        show_all: bool,
        filter_cwd: Option<SessionPath>,
        action: SessionPickerAction,
    ) -> (r: Self)
        ensures
            is_new(r, provider_filter, show_all, filter_cwd, action),
    {
        broadcast use vstd::std_specs::hash::group_hash_axioms;

        let filter_mode = SessionFilterMode::from_show_all(show_all, filter_cwd.as_ref());
        let local_filter_cwd = clone_optional_path(&filter_cwd);
        PickerState {
            current_time: Timestamp::epoch(),
            clock_millis: 0,
            palette: Palette::unknown(),
            frame_requested: false,
            delayed_frames: Vec::new(),
            requests: Vec::new(),
            relative_time_reference: None,
            pagination: PaginationState::new(),
            all_rows: Vec::new(),
            filtered_rows: Vec::new(),
            seen_rows: Vec::new(),
            selected: 0,
            scroll_top: 0,
            dashboard_scroll_offset: 0,
            pending_page_down_target: None,
            frozen_footer_percent: None,
            query: String::new(),
            search_state: SearchState::Idle,
            next_request_token: 0,
            next_search_token: 0,
            next_cancellation: 0,
            view_rows: None,
            view_width: None,
            provider_filter,
            filter_mode,
            status: SessionStatus::Active,
            filter_cwd,
            local_filter_cwd,
            toolbar_focus: ToolbarControl::Filter,
            density: SessionListDensity::Comfortable,
            launch_context: SessionPickerLaunchContext::Startup,
            dashboard_group_mode: DashboardGroupMode::Project,
            view_persistence: None,
            action,
            sort_key: ThreadSortKey::UpdatedAt,
            inline_error: None,
            archive_state: ArchiveState::Idle,
            expanded_thread_id: None,
            transcript_previews: HashMap::new(),
            preview_layouts: HashMap::new(),
            transcript_cells: HashMap::new(),
            pending_transcript_open: None,
            pending_transcript_cancellation: None,
            transcript_loading_frame_shown: false,
            overlay: None,
            list_keymap: ListKeymap::defaults(),
            initial_page_mode: PageLoadMode::StoreDefault,
            dashboard_composer: None,
            dashboard_search_active: false,
            dashboard_fallback_cwd: None,
            pending_dashboard_submission: None,
            dashboard_system_errors: HashSet::new(),
            dashboard_inventory_cwd: None,
            dashboard_restore_thread_id: None,
            dashboard_restore_cwd: None,
            dashboard_exit_confirmation_expires_at: None,
        }
    }

    pub fn request_frame(&mut self)
        ensures
            *final(self) == (PickerState { frame_requested: true, ..*old(self) }),
    {
        self.frame_requested = true;
    }

    /// The chords in force: those of the transcript over the picker, of the composer while it
    /// holds a draft, or of the list.
    pub open spec fn chord_context(self) -> KeymapContext {
        if self.overlay is Some {
            KeymapContext::Pager
        } else if !self.dashboard_search_active && self.dashboard_composer is Some
            && !self.dashboard_composer->0.is_idle() {
            KeymapContext::Composer
        } else {
            KeymapContext::List
        }
    }

    pub fn key_chord_context(&self) -> (r: KeymapContext)
        ensures
            r == self.chord_context(),
    {
        if self.overlay.is_some() {
            return KeymapContext::Pager;
        }
        if !self.dashboard_search_active {
            if let Some(dashboard) = &self.dashboard_composer {
                if !dashboard.idle() {
                    return KeymapContext::Composer;
                }
            }
        }
        KeymapContext::List
    }
}

/// The key to handle where the chord matcher has seen `key`: the key itself, the one that a chord
/// stands for, or none.
pub open spec fn routed(key: KeyEvent, matched: KeyChordMatch) -> Option<KeyEvent> {
    match matched {
        KeyChordMatch::PassThrough => Some(key),
        KeyChordMatch::Completed(dispatched) => Some(dispatched),
        KeyChordMatch::Pending | KeyChordMatch::Cancelled | KeyChordMatch::Ignored => None,
    }
}

pub fn route_key_chord(key: KeyEvent, matched: KeyChordMatch) -> (r: Option<KeyEvent>)
    ensures
        r == routed(key, matched),
{
    match matched {
        KeyChordMatch::PassThrough => Some(key),
        KeyChordMatch::Completed(dispatched) => Some(dispatched),
        KeyChordMatch::Pending | KeyChordMatch::Cancelled | KeyChordMatch::Ignored => None,
    }
}

} // verus!
