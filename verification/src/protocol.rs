//! What the app server says and is asked.

use vstd::prelude::*;
use crate::paths::SessionPath;

verus! {

#[derive(Clone, Copy, Debug, PartialEq, Eq, Structural)]
pub enum ThreadActiveFlag {
    WaitingOnApproval,
    WaitingOnUserInput,
    /// A flag that asks nothing of the user.
    Other,
}

#[derive(Debug)]
pub enum ThreadStatus {
    NotLoaded,
    Idle,
    SystemError,
    Active { active_flags: Vec<ThreadActiveFlag> },
}

#[derive(Clone, Copy, Debug, PartialEq, Eq, Structural)]
pub enum ThreadSortKey {
    CreatedAt,
    UpdatedAt,
    RecencyAt,
    SectionPosition,
}

#[derive(Clone, Copy, Debug, PartialEq, Eq, Structural)]
pub enum ThreadSourceKind {
    Cli,
    VsCode,
    Exec,
    AppServer,
}

/// A thread, as the app server lists it. Times are seconds since the Unix epoch.
#[derive(Debug)]
pub struct Thread {
    pub id: String,
    pub parent_thread_id: Option<String>,
    pub preview: String,
    pub created_at: i64,
    pub updated_at: i64,
    pub status: ThreadStatus,
    pub path: Option<SessionPath>,
    pub cwd: SessionPath,
    pub git_branch: Option<String>,
    pub name: Option<String>,
}

/// A page of threads.
#[derive(Debug)]
pub struct ThreadListResponse {
    pub data: Vec<Thread>,
    pub next_cursor: Option<String>,
}

#[derive(Clone, Copy, Debug, PartialEq, Eq, Structural)]
pub enum SortDirection {
    Asc,
    Desc,
}

#[derive(Debug)]
pub enum ThreadListCwdFilter {
    One(String),
    Many(Vec<String>),
}

#[derive(Debug)]
pub struct ThreadListParams {
    pub cursor: Option<String>,
    pub limit: Option<u32>,
    pub sort_key: Option<ThreadSortKey>,
    pub sort_direction: Option<SortDirection>,
    pub model_providers: Option<Vec<String>>,
    pub source_kinds: Option<Vec<ThreadSourceKind>>,
    pub archived: Option<bool>,
    pub section_id: Option<String>,
    pub parent_thread_id: Option<String>,
    pub ancestor_thread_id: Option<String>,
    pub cwd: Option<ThreadListCwdFilter>,
    pub use_state_db_only: bool,
    pub search_term: Option<String>,
}

/// A notification of the app server.
#[derive(Debug)]
pub enum ServerNotification {
    ThreadStatusChanged { thread_id: String, status: ThreadStatus },
    ThreadNameUpdated { thread_id: String, thread_name: Option<String> },
    ThreadArchived { thread_id: String },
    ThreadUnarchived { thread_id: String },
    ThreadDeleted { thread_id: String },
    ThreadStarted { thread: Thread },
    Other,
}

/// An event on the connection to the app server.
#[derive(Debug)]
pub enum AppServerEvent {
    Notification(ServerNotification),
    /// A request of the server, which the picker leaves to others.
    ServerRequest,
    /// Some events were lost.
    Lagged,
    Disconnected { message: String },
}

/// A part of what a user sent.
#[derive(Debug)]
pub enum UserInput {
    Text(String),
    Other,
}

/// A link in an assistant's message that was put there by a placeholder.
#[derive(Debug)]
pub struct TrustedFileLink {
    pub placeholder: String,
    pub markdown_label: String,
    pub markdown_destination_label: String,
    pub display_label: String,
    pub destination: String,
}

/// An item of a thread. The text of an agent message is its visible markdown, in which inline
/// visualizations are rewritten to links.
#[derive(Debug)]
pub enum ThreadItem {
    UserMessage { content: Vec<UserInput> },
    AgentMessage { text: String, trusted_file_links: Vec<TrustedFileLink> },
    Other,
}

/// Some items of a thread, newest first.
#[derive(Debug)]
pub struct ThreadItemsPage {
    pub data: Vec<ThreadItem>,
    pub next_cursor: Option<String>,
}

} // verus!
