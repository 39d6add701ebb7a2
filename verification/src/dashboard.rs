//! The agents dashboard: the states that it tells apart and the ways that it groups sessions.

use vstd::prelude::*;
use crate::protocol::{ThreadActiveFlag, ThreadStatus};

verus! {

/// The state of an agent, in the order in which the dashboard lists them.
#[derive(Clone, Copy, Debug, PartialEq, Eq, Structural, PartialOrd, Ord)]
pub enum DashboardStatus {
    NeedsInput,
    Working,
    Idle,
    Done,
}

#[derive(Clone, Copy, Debug, PartialEq, Eq, Structural)]
pub enum DashboardGroupMode {
    Project,
    Status,
}

impl Default for DashboardGroupMode {
    fn default() -> (r: Self)
        ensures
            r == DashboardGroupMode::Project,
    {
        DashboardGroupMode::Project
    }
}

impl DashboardGroupMode {
    pub open spec fn name(self) -> Seq<char> {
        match self {
            DashboardGroupMode::Project => "project"@,
            DashboardGroupMode::Status => "status"@,
        }
    }

    pub fn label(self) -> (r: &'static str)
        ensures
            r@ == self.name(),
    {
        match self {
            DashboardGroupMode::Project => "project",
            DashboardGroupMode::Status => "status",
        }
    }

    pub open spec fn other(self) -> DashboardGroupMode {
        match self {
            DashboardGroupMode::Project => DashboardGroupMode::Status,
            DashboardGroupMode::Status => DashboardGroupMode::Project,
        }
    }

    pub fn toggle(self) -> (r: DashboardGroupMode)
        ensures
            r == self.other(),
    {
        match self {
            DashboardGroupMode::Project => DashboardGroupMode::Status,
            DashboardGroupMode::Status => DashboardGroupMode::Project,
        }
    }
}

impl DashboardStatus {
    pub open spec fn name(self) -> Seq<char> {
        match self {
            DashboardStatus::NeedsInput => "Needs Input"@,
            DashboardStatus::Working => "Working"@,
            DashboardStatus::Idle => "Idle"@,
            DashboardStatus::Done => "Done"@,
        }
    }

    pub fn label(self) -> (r: &'static str)
        ensures
            r@ == self.name(),
    {
        match self {
            DashboardStatus::NeedsInput => "Needs Input",
            DashboardStatus::Working => "Working",
            DashboardStatus::Idle => "Idle",
            DashboardStatus::Done => "Done",
        }
    }

    /// The place of the state in the list: what needs attention comes first.
    pub open spec fn rank(self) -> int {
        match self {
            DashboardStatus::NeedsInput => 0,
            DashboardStatus::Working => 1,
            DashboardStatus::Idle => 2,
            DashboardStatus::Done => 3,
        }
    }

    pub fn place(self) -> (r: i64)
        ensures
            r == self.rank(),
    {
        match self {
            DashboardStatus::NeedsInput => 0,
            DashboardStatus::Working => 1,
            DashboardStatus::Idle => 2,
            DashboardStatus::Done => 3,
        }
    }
}

/// The thread waits for someone.
pub open spec fn is_waiting(flags: Seq<ThreadActiveFlag>) -> bool {
    exists|i: int| 0 <= i < flags.len() && !((#[trigger] flags[i]) is Other)
}

/// An active thread needs input while it waits for someone; one that failed needs it too.
pub open spec fn status_of(status: ThreadStatus) -> DashboardStatus {
    match status {
        ThreadStatus::Active { active_flags } => if is_waiting(active_flags@) {
            DashboardStatus::NeedsInput
        } else {
            DashboardStatus::Working
        },
        ThreadStatus::Idle => DashboardStatus::Idle,
        ThreadStatus::NotLoaded => DashboardStatus::Done,
        ThreadStatus::SystemError => DashboardStatus::NeedsInput,
    }
}

fn waits(flags: &Vec<ThreadActiveFlag>) -> (r: bool)
    ensures
        r == is_waiting(flags@),
{
    let mut i: usize = 0;
    while i < flags.len()
        invariant
            i <= flags.len(),
            forall|j: int| 0 <= j < i ==> (#[trigger] flags@[j]) is Other,
        decreases flags.len() - i,
    {
        match flags[i] {
            ThreadActiveFlag::WaitingOnApproval | ThreadActiveFlag::WaitingOnUserInput => {
                assert(!(flags@[i as int] is Other));
                return true;
            },
            ThreadActiveFlag::Other => {},
        }
        i += 1;
    }
    false
}

pub fn status(thread_status: &ThreadStatus) -> (r: DashboardStatus)
    ensures
        r == status_of(*thread_status),
{
    match thread_status {
        ThreadStatus::Active { active_flags } => if waits(active_flags) {
            DashboardStatus::NeedsInput
        } else {
            DashboardStatus::Working
        },
        ThreadStatus::Idle => DashboardStatus::Idle,
        ThreadStatus::NotLoaded => DashboardStatus::Done,
        ThreadStatus::SystemError => DashboardStatus::NeedsInput,
    }
}

} // verus!
