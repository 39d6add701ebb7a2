//! Sessions: what the picker is asked for, what it asks for, and what is chosen in it.

use vstd::prelude::*;
use vstd::string::StringExecFns;
use crate::dashboard::DashboardGroupMode;
use crate::ids::{uuid_text, ThreadId};
use crate::paths::{clone_optional_path, SessionPath};
use crate::protocol::ThreadSortKey;

verus! {

/// The session that a choice is about.
#[derive(Debug)]
pub struct SessionTarget {
    pub path: Option<SessionPath>,
    pub thread_id: ThreadId,
}

impl Clone for SessionTarget {
    fn clone(&self) -> (r: Self)
        ensures
            r == *self,
    {
        SessionTarget { path: clone_optional_path(&self.path), thread_id: self.thread_id }
    }
}

impl SessionTarget {
    pub open spec fn label(self) -> Seq<char> {
        match self.path {
            Some(path) => path.text@,
            None => "thread "@ + uuid_text(self.thread_id.bits),
        }
    }

    /// The path of the session or, where it has none, its thread.
    pub fn display_label(&self) -> (r: String)
        ensures
            r@ == self.label(),
    {
        match &self.path {
            Some(path) => path.text.clone(),
            None => {
                let mut label = "thread ".to_owned();
                label.append(self.thread_id.text().as_str());
                label
            },
        }
    }
}

/// An image of a message that lies on this machine.
#[derive(Clone, Debug, PartialEq, Eq)]
pub struct LocalImageAttachment {
    pub placeholder: String,
    pub path: String,
}

/// A part of a message's text, by bytes, that stands for something else.
#[derive(Clone, Debug, PartialEq, Eq)]
pub struct TextElement {
    pub start: usize,
    pub end: usize,
    pub placeholder: Option<String>,
}

/// What a mention in a message is bound to.
#[derive(Clone, Debug, PartialEq, Eq)]
pub struct MentionBinding {
    pub mention: String,
    pub path: String,
}

/// A message with which an agent is started.
#[derive(Clone, Debug, PartialEq, Eq)]
pub struct UserMessage {
    pub text: String,
    pub local_images: Vec<LocalImageAttachment>,
    pub remote_image_urls: Vec<String>,
    pub text_elements: Vec<TextElement>,
    pub mention_bindings: Vec<MentionBinding>,
}

/// What the user chose.
#[derive(Clone, Debug)]
pub enum SessionSelection {
    StartFresh,
    ReconnectDashboard(DashboardResumeState),
    StartFreshIn { cwd: SessionPath, user_message: UserMessage },
    Resume(SessionTarget),
    ResumeInSessionCwd(SessionTarget),
    Fork(SessionTarget),
    Exit,
}

/// What a dashboard keeps over a lost connection.
#[derive(Debug)]
pub struct DashboardResumeState {
    pub draft: String,
    pub group_mode: DashboardGroupMode,
    pub selected_thread_id: Option<ThreadId>,
    pub selected_cwd: Option<SessionPath>,
}

impl Clone for DashboardResumeState {
    fn clone(&self) -> (r: Self)
        ensures
            r == *self,
    {
        DashboardResumeState {
            draft: self.draft.clone(),
            group_mode: self.group_mode,
            selected_thread_id: self.selected_thread_id,
            selected_cwd: clone_optional_path(&self.selected_cwd),
        }
    }
}

impl DashboardResumeState {
    /// The state of a dashboard that opens with a draft and nothing selected.
    pub fn with_draft(draft: Option<String>) -> (r: Self)
        ensures
            r.draft@ == match draft {
                Some(draft) => draft@,
                None => ""@,
            },
            r.group_mode == DashboardGroupMode::Project,
            r.selected_thread_id is None,
            r.selected_cwd is None,
    {
        DashboardResumeState {
            draft: match draft {
                Some(draft) => draft,
                None => "".to_owned(),
            },
            group_mode: DashboardGroupMode::Project,
            selected_thread_id: None,
            selected_cwd: None,
        }
    }
}

#[derive(Clone, Copy, Debug, PartialEq, Eq, Structural)]
pub enum SessionPickerAction {
    Resume,
    Fork,
}

/// Where the picker was opened from.
#[derive(Clone, Copy, Debug, PartialEq, Eq, Structural)]
pub enum SessionPickerLaunchContext {
    Startup,
    AgentsDashboard,
    ExistingSession { current_thread_id: Option<ThreadId> },
}

impl SessionPickerAction {
    pub open spec fn title_text(self) -> Seq<char> {
        match self {
            SessionPickerAction::Resume => "Resume a previous session"@,
            SessionPickerAction::Fork => "Fork a previous session"@,
        }
    }

    pub fn title(self) -> (r: &'static str)
        ensures
            r@ == self.title_text(),
    {
        match self {
            SessionPickerAction::Resume => "Resume a previous session",
            SessionPickerAction::Fork => "Fork a previous session",
        }
    }

    pub open spec fn name(self) -> Seq<char> {
        match self {
            SessionPickerAction::Resume => "resume"@,
            SessionPickerAction::Fork => "fork"@,
        }
    }

    pub fn action_label(self) -> (r: &'static str)
        ensures
            r@ == self.name(),
    {
        match self {
            SessionPickerAction::Resume => "resume",
            SessionPickerAction::Fork => "fork",
        }
    }

    /// The choice of a session by this action.
    pub open spec fn choice(
        self,
        path: Option<SessionPath>,
        thread_id: ThreadId,
    ) -> SessionSelection {
        match self {
            SessionPickerAction::Resume => SessionSelection::Resume(
                SessionTarget { path, thread_id },
            ),
            SessionPickerAction::Fork => SessionSelection::Fork(SessionTarget { path, thread_id }),
        }
    }

    pub fn selection(self, path: Option<SessionPath>, thread_id: ThreadId) -> (r: SessionSelection)
        ensures
            r == self.choice(path, thread_id),
    {
        let target = SessionTarget { path, thread_id };
        match self {
            SessionPickerAction::Resume => SessionSelection::Resume(target),
            SessionPickerAction::Fork => SessionSelection::Fork(target),
        }
    }
}

#[derive(Debug)]
pub enum ProviderFilter {
    Any,
    MatchDefault(String),
}

impl Clone for ProviderFilter {
    fn clone(&self) -> (r: Self)
        ensures
            r == *self,
    {
        match self {
            ProviderFilter::Any => ProviderFilter::Any,
            ProviderFilter::MatchDefault(provider) => ProviderFilter::MatchDefault(
                provider.clone(),
            ),
        }
    }
}

#[derive(Clone, Copy, Debug, PartialEq, Eq, Structural)]
pub enum SessionFilterMode {
    Cwd,
    All,
}

impl SessionFilterMode {
    /// Sessions are filtered by directory unless all are asked for or there is none.
    pub open spec fn initial(show_all: bool, has_cwd: bool) -> SessionFilterMode {
        if show_all || !has_cwd {
            SessionFilterMode::All
        } else {
            SessionFilterMode::Cwd
        }
    }

    pub fn from_show_all(show_all: bool, filter_cwd: Option<&SessionPath>) -> (r: Self)
        ensures
            r == SessionFilterMode::initial(show_all, filter_cwd is Some),
    {
        if show_all || filter_cwd.is_none() {
            SessionFilterMode::All
        } else {
            SessionFilterMode::Cwd
        }
    }

    /// The other mode; without a directory there is none but `All`.
    pub open spec fn other(self, has_cwd: bool) -> SessionFilterMode {
        match self {
            SessionFilterMode::Cwd => SessionFilterMode::All,
            SessionFilterMode::All => if has_cwd {
                SessionFilterMode::Cwd
            } else {
                SessionFilterMode::All
            },
        }
    }

    pub fn toggle(self, filter_cwd: Option<&SessionPath>) -> (r: Self)
        ensures
            r == self.other(filter_cwd is Some),
    {
        match self {
            SessionFilterMode::Cwd => SessionFilterMode::All,
            SessionFilterMode::All => if filter_cwd.is_some() {
                SessionFilterMode::Cwd
            } else {
                SessionFilterMode::All
            },
        }
    }
}

#[derive(Clone, Copy, Debug, PartialEq, Eq, Structural)]
pub enum SessionStatus {
    Active,
    Archived,
}

impl SessionStatus {
    pub open spec fn other(self) -> SessionStatus {
        match self {
            SessionStatus::Active => SessionStatus::Archived,
            SessionStatus::Archived => SessionStatus::Active,
        }
    }
}

#[derive(Clone, Copy, Debug, PartialEq, Eq, Structural)]
pub enum ToolbarControl {
    Filter,
    Status,
    Sort,
}

impl ToolbarControl {
    pub open spec fn before(self, action: SessionPickerAction) -> ToolbarControl {
        match self {
            ToolbarControl::Filter => ToolbarControl::Sort,
            ToolbarControl::Status => ToolbarControl::Filter,
            ToolbarControl::Sort => if action is Resume {
                ToolbarControl::Status
            } else {
                ToolbarControl::Filter
            },
        }
    }

    /// The control to the left, round the end. Only where sessions are resumed is there a control
    /// for their status.
    pub fn previous(self, action: SessionPickerAction) -> (r: Self)
        ensures
            r == self.before(action),
    {
        match self {
            ToolbarControl::Filter => ToolbarControl::Sort,
            ToolbarControl::Status => ToolbarControl::Filter,
            ToolbarControl::Sort => if action == SessionPickerAction::Resume {
                ToolbarControl::Status
            } else {
                ToolbarControl::Filter
            },
        }
    }

    pub open spec fn after(self, action: SessionPickerAction) -> ToolbarControl {
        match self {
            ToolbarControl::Filter => if action is Resume {
                ToolbarControl::Status
            } else {
                ToolbarControl::Sort
            },
            ToolbarControl::Status => ToolbarControl::Sort,
            ToolbarControl::Sort => ToolbarControl::Filter,
        }
    }

    /// The control to the right, round the end.
    pub fn next(self, action: SessionPickerAction) -> (r: Self)
        ensures
            r == self.after(action),
    {
        match self {
            ToolbarControl::Filter => if action == SessionPickerAction::Resume {
                ToolbarControl::Status
            } else {
                ToolbarControl::Sort
            },
            ToolbarControl::Status => ToolbarControl::Sort,
            ToolbarControl::Sort => ToolbarControl::Filter,
        }
    }
}

#[derive(Clone, Copy, Debug, PartialEq, Eq, Structural)]
pub enum SessionListDensity {
    Comfortable,
    Dense,
}

/// The density, as the configuration keeps it.
#[derive(Clone, Copy, Debug, PartialEq, Eq, Structural)]
pub enum SessionPickerViewMode {
    Comfortable,
    Dense,
}

impl SessionListDensity {
    pub open spec fn other(self) -> SessionListDensity {
        match self {
            SessionListDensity::Comfortable => SessionListDensity::Dense,
            SessionListDensity::Dense => SessionListDensity::Comfortable,
        }
    }

    pub fn toggle(self) -> (r: Self)
        ensures
            r == self.other(),
    {
        match self {
            SessionListDensity::Comfortable => SessionListDensity::Dense,
            SessionListDensity::Dense => SessionListDensity::Comfortable,
        }
    }

    pub open spec fn of_view_mode(mode: SessionPickerViewMode) -> SessionListDensity {
        match mode {
            SessionPickerViewMode::Comfortable => SessionListDensity::Comfortable,
            SessionPickerViewMode::Dense => SessionListDensity::Dense,
        }
    }

    pub open spec fn view_mode(self) -> SessionPickerViewMode {
        match self {
            SessionListDensity::Comfortable => SessionPickerViewMode::Comfortable,
            SessionListDensity::Dense => SessionPickerViewMode::Dense,
        }
    }
}

impl From<SessionPickerViewMode> for SessionListDensity {
    fn from(mode: SessionPickerViewMode) -> (r: Self) {
        match mode {
            SessionPickerViewMode::Comfortable => SessionListDensity::Comfortable,
            SessionPickerViewMode::Dense => SessionListDensity::Dense,
        }
    }
}

impl vstd::std_specs::convert::FromSpecImpl<SessionPickerViewMode> for SessionListDensity {
    open spec fn obeys_from_spec() -> bool {
        true
    }

    open spec fn from_spec(mode: SessionPickerViewMode) -> SessionListDensity {
        SessionListDensity::of_view_mode(mode)
    }
}

impl From<SessionListDensity> for SessionPickerViewMode {
    fn from(density: SessionListDensity) -> (r: Self) {
        match density {
            SessionListDensity::Comfortable => SessionPickerViewMode::Comfortable,
            SessionListDensity::Dense => SessionPickerViewMode::Dense,
        }
    }
}

impl vstd::std_specs::convert::FromSpecImpl<SessionListDensity> for SessionPickerViewMode {
    open spec fn obeys_from_spec() -> bool {
        true
    }

    open spec fn from_spec(density: SessionListDensity) -> SessionPickerViewMode {
        density.view_mode()
    }
}

/// Where a page of a listing begins.
#[derive(Debug)]
pub enum PageCursor {
    AppServer(String),
}

impl Clone for PageCursor {
    fn clone(&self) -> (r: Self)
        ensures
            r == *self,
    {
        match self {
            PageCursor::AppServer(cursor) => PageCursor::AppServer(cursor.clone()),
        }
    }
}

/// Which of the server's listings a page comes from.
#[derive(Clone, Copy, Debug, PartialEq, Eq, Structural)]
pub enum PageLoadMode {
    StateDbOnly,
    StoreDefault,
}

#[derive(Debug)]
pub struct PageLoadRequest {
    pub cursor: Option<PageCursor>,
    pub request_token: usize,
    pub search_token: Option<usize>,
    pub mode: PageLoadMode,
    pub cwd_filter: Option<SessionPath>,
    pub status: SessionStatus,
    pub provider_filter: ProviderFilter,
    pub sort_key: ThreadSortKey,
}

/// Work that the picker asks the loader for.
#[derive(Debug)]
pub enum PickerLoadRequest {
    Page(PageLoadRequest),
    Preview { thread_id: ThreadId },
    /// The loading can be called off by its number.
    Transcript { thread_id: ThreadId, cancellation: u64 },
    CancelTranscript { cancellation: u64 },
    Archive { thread_id: ThreadId },
    Unarchive { thread_id: ThreadId },
    DashboardComposerInventory { cwd: SessionPath },
}

#[derive(Clone, Copy, Debug, PartialEq, Eq, Structural)]
pub enum SearchState {
    Idle,
    Active { token: usize },
}

impl SearchState {
    pub open spec fn token(self) -> Option<usize> {
        match self {
            SearchState::Idle => None,
            SearchState::Active { token } => Some(token),
        }
    }

    pub fn active_token(&self) -> (r: Option<usize>)
        ensures
            r == self.token(),
    {
        match self {
            SearchState::Idle => None,
            SearchState::Active { token } => Some(*token),
        }
    }

    pub fn is_active(&self) -> (r: bool)
        ensures
            r == (self.token() is Some),
    {
        self.active_token().is_some()
    }
}

/// Why another page is asked for.
#[derive(Clone, Copy, Debug, PartialEq, Eq, Structural)]
pub enum LoadTrigger {
    Scroll,
    Search { token: usize },
}

impl LoadTrigger {
    pub open spec fn token(self) -> Option<usize> {
        match self {
            LoadTrigger::Scroll => None,
            LoadTrigger::Search { token } => Some(token),
        }
    }
}

#[derive(Clone, Copy, Debug, PartialEq, Eq, Structural)]
pub enum TranscriptPreviewSpeaker {
    User,
    Assistant,
}

/// A line of a conversation.
#[derive(Debug)]
pub struct TranscriptPreviewLine {
    pub speaker: TranscriptPreviewSpeaker,
    pub text: String,
}

/// The newest lines of a conversation, as far as they are known.
#[derive(Debug)]
pub enum TranscriptPreviewState {
    Loading,
    Loaded(Vec<TranscriptPreviewLine>),
    Failed,
}

/// A transcript that was loaded. The cells themselves are kept by whoever shows them, by number.
#[derive(Clone, Copy, Debug, PartialEq, Eq, Structural)]
pub struct TranscriptCells {
    pub handle: u64,
}

#[derive(Clone, Copy, Debug, PartialEq, Eq, Structural)]
pub enum SessionTranscriptState {
    Loading,
    Loaded(TranscriptCells),
    Failed,
}

} // verus!
