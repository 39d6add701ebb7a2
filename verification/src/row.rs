//! The rows of the session list.

use vstd::prelude::*;
use crate::dashboard::{status, status_of, DashboardStatus};
use crate::ids::{thread_id_of, uuid_text, ThreadId};
use crate::paths::{clone_optional_path, is_same_path, same_path, SessionPath};
use crate::protocol::Thread;
use crate::text::{clone_optional, contains_text, lowercase_of, occurs_in, to_lowercase, trim, trimmed};
use crate::time::{is_instant, Timestamp};

verus! {

/// A session of the list.
#[derive(Debug)]
pub struct Row {
    pub path: Option<SessionPath>,
    pub preview: String,
    pub thread_id: Option<ThreadId>,
    pub thread_name: Option<String>,
    pub created_at: Option<Timestamp>,
    pub updated_at: Option<Timestamp>,
    pub cwd: Option<SessionPath>,
    pub git_branch: Option<String>,
    pub dashboard_status: Option<DashboardStatus>,
}

/// What tells sessions apart.
#[derive(Debug)]
pub enum SeenRowKey {
    Path(SessionPath),
    Thread(ThreadId),
}

/// Two keys are of one session.
pub open spec fn same_key(a: SeenRowKey, b: SeenRowKey) -> bool {
    match (a, b) {
        (SeenRowKey::Path(a), SeenRowKey::Path(b)) => same_path(a.text@, b.text@),
        (SeenRowKey::Thread(a), SeenRowKey::Thread(b)) => a == b,
        _ => false,
    }
}

impl SeenRowKey {
    pub fn is_same(&self, other: &SeenRowKey) -> (r: bool)
        ensures
            r == same_key(*self, *other),
    {
        match (self, other) {
            (SeenRowKey::Path(a), SeenRowKey::Path(b)) => is_same_path(
                a.text.as_str(),
                b.text.as_str(),
            ),
            (SeenRowKey::Thread(a), SeenRowKey::Thread(b)) => *a == *b,
            _ => false,
        }
    }
}

/// The key is among `keys`.
pub open spec fn key_in(keys: Seq<SeenRowKey>, key: SeenRowKey) -> bool {
    exists|i: int| 0 <= i < keys.len() && same_key(#[trigger] keys[i], key)
}

pub fn contains_key(keys: &Vec<SeenRowKey>, key: &SeenRowKey) -> (r: bool)
    ensures
        r == key_in(keys@, *key),
{
    let mut i: usize = 0;
    while i < keys.len()
        invariant
            i <= keys.len(),
            forall|j: int| 0 <= j < i ==> !same_key(#[trigger] keys@[j], *key),
        decreases keys.len() - i,
    {
        if keys[i].is_same(key) {
            return true;
        }
        i += 1;
    }
    false
}

impl Clone for Row {
    fn clone(&self) -> (r: Self)
        ensures
            r == *self,
    {
        Row {
            path: clone_optional_path(&self.path),
            preview: self.preview.clone(),
            thread_id: self.thread_id,
            thread_name: clone_optional(&self.thread_name),
            created_at: self.created_at,
            updated_at: self.updated_at,
            cwd: clone_optional_path(&self.cwd),
            git_branch: clone_optional(&self.git_branch),
            dashboard_status: self.dashboard_status,
        }
    }
}

/// Some field of the session holds the query, in lower case.
pub open spec fn row_has_text(row: Row, query: Seq<char>) -> bool {
    ||| occurs_in(lowercase_of(row.preview@), query)
    ||| row.thread_name is Some && occurs_in(lowercase_of(row.thread_name->0@), query)
    ||| row.thread_id is Some && occurs_in(lowercase_of(uuid_text(row.thread_id->0.bits)), query)
    ||| row.git_branch is Some && occurs_in(lowercase_of(row.git_branch->0@), query)
    ||| row.cwd is Some && occurs_in(lowercase_of(row.cwd->0.text@), query)
}

fn lower_contains(text: &str, query: &str) -> (r: bool)
    ensures
        r == occurs_in(lowercase_of(text@), query@),
{
    contains_text(to_lowercase(text).as_str(), query)
}

impl Row {
    /// The instant that counts as the session's last activity.
    pub open spec fn last_active(self) -> Option<Timestamp> {
        if self.updated_at is Some {
            self.updated_at
        } else {
            self.created_at
        }
    }

    pub fn last_activity(&self) -> (r: Option<Timestamp>)
        ensures
            r == self.last_active(),
    {
        match self.updated_at {
            Some(instant) => Some(instant),
            None => self.created_at,
        }
    }

    pub open spec fn recency(self) -> int {
        match self.last_active() {
            Some(instant) => instant.seconds() as int,
            None => 0,
        }
    }

    pub fn recency_timestamp(&self) -> (r: i64)
        ensures
            r == self.recency(),
    {
        match self.last_activity() {
            Some(instant) => instant.unix_seconds(),
            None => 0,
        }
    }

    /// What tells the session from others: its path or, without one, its thread.
    pub open spec fn key(self) -> Option<SeenRowKey> {
        if self.path is Some {
            Some(SeenRowKey::Path(self.path->0))
        } else if self.thread_id is Some {
            Some(SeenRowKey::Thread(self.thread_id->0))
        } else {
            None
        }
    }

    pub fn seen_key(&self) -> (r: Option<SeenRowKey>)
        ensures
            r == self.key(),
    {
        if let Some(path) = &self.path {
            return Some(SeenRowKey::Path(path.clone()));
        }
        match self.thread_id {
            Some(thread_id) => Some(SeenRowKey::Thread(thread_id)),
            None => None,
        }
    }

    pub open spec fn title(self) -> Seq<char> {
        match self.thread_name {
            Some(name) => name@,
            None => self.preview@,
        }
    }

    /// The name of the session or, without one, how it began.
    pub fn display_preview(&self) -> (r: &str)
        ensures
            r@ == self.title(),
    {
        match &self.thread_name {
            Some(name) => name.as_str(),
            None => self.preview.as_str(),
        }
    }

    /// Whether some field of the session holds `query`, which is in lower case.
    pub fn matches_query(&self, query: &str) -> (r: bool)
        ensures
            r == row_has_text(*self, query@),
    {
        if lower_contains(self.preview.as_str(), query) {
            return true;
        }
        if let Some(thread_name) = &self.thread_name {
            if lower_contains(thread_name.as_str(), query) {
                return true;
            }
        }
        if let Some(thread_id) = self.thread_id {
            if lower_contains(thread_id.text().as_str(), query) {
                return true;
            }
        }
        if let Some(branch) = &self.git_branch {
            if lower_contains(branch.as_str(), query) {
                return true;
            }
        }
        if let Some(cwd) = &self.cwd {
            if lower_contains(cwd.text.as_str(), query) {
                return true;
            }
        }
        false
    }
}

/// What the list shows of how a thread began.
pub open spec fn preview_of(preview: Seq<char>) -> Seq<char> {
    if trimmed(preview).len() == 0 {
        "(no message yet)"@
    } else {
        trimmed(preview)
    }
}

/// `instant` is that of `seconds`, where there is a date for it.
pub open spec fn is_instant_at(instant: Option<Timestamp>, seconds: i64) -> bool {
    &&& instant is Some <==> is_instant(seconds as int, 0)
    &&& instant is Some ==> instant->0.seconds() == seconds && instant->0.nanos() == 0
}

/// `row` is the row of `thread`, whose identifier is `thread_id`.
pub open spec fn is_row_of(
    row: Row,
    thread: Thread,
    thread_id: ThreadId,
    show_dashboard_status: bool,
) -> bool {
    &&& row.path == thread.path
    &&& row.preview@ == preview_of(thread.preview@)
    &&& row.thread_id == Some(thread_id)
    &&& row.thread_name == thread.name
    &&& is_instant_at(row.created_at, thread.created_at)
    &&& is_instant_at(row.updated_at, thread.updated_at)
    &&& row.cwd == Some(thread.cwd)
    &&& row.git_branch == thread.git_branch
    &&& row.dashboard_status == if show_dashboard_status {
        Some(status_of(thread.status))
    } else {
        None
    }
}

/// The row of a thread; none where its identifier is no identifier.
pub fn row_from_app_server_thread(thread: Thread, show_dashboard_status: bool) -> (r: Option<Row>)
    ensures
        r is Some <==> thread_id_of(thread.id@) is Some,
        r is Some ==> is_row_of(
            r->0,
            thread,
            thread_id_of(thread.id@)->0,
            show_dashboard_status,
        ),
{
    let thread_id = match ThreadId::from_string(thread.id.as_str()) {
        Some(thread_id) => thread_id,
        None => {
            return None;
        },
    };
    let preview = trim(thread.preview.as_str());
    let dashboard_status = if show_dashboard_status {
        Some(status(&thread.status))
    } else {
        None
    };
    Some(
        Row {
            path: thread.path,
            preview: if preview.as_str().is_empty() {
                "(no message yet)".to_owned()
            } else {
                preview
            },
            thread_id: Some(thread_id),
            thread_name: thread.name,
            created_at: Timestamp::from_unix(thread.created_at, 0),
            updated_at: Timestamp::from_unix(thread.updated_at, 0),
            cwd: Some(thread.cwd),
            git_branch: thread.git_branch,
            dashboard_status,
        },
    )
}

} // verus!
