//! The lifecycle states of a task and their names in the durable table.

use vstd::prelude::*;
use crate::text::same_text;

verus! {

/// Where a task stands in its lifecycle.
#[derive(Debug, Clone, Copy, PartialEq, Eq, Structural)]
pub enum TaskStatus {
    Pending,
    Running,
    Completed,
    Failed,
    Cancelled,
}

impl TaskStatus {
    /// A task in a terminal state has ended: it completed, failed or was
    /// cancelled.
    pub open spec fn is_terminal(self) -> bool {
        self == TaskStatus::Completed || self == TaskStatus::Failed || self
            == TaskStatus::Cancelled
    }

    /// A task that is waiting or at work.
    pub open spec fn is_active(self) -> bool {
        self == TaskStatus::Pending || self == TaskStatus::Running
    }

    /// Whether the task has ended.
    pub fn ended(&self) -> (yes: bool)
        ensures
            yes == self.is_terminal(),
    {
        match self {
            TaskStatus::Completed | TaskStatus::Failed | TaskStatus::Cancelled => true,
            TaskStatus::Pending | TaskStatus::Running => false,
        }
    }

    /// Whether the task is waiting or at work.
    pub fn active(&self) -> (yes: bool)
        ensures
            yes == self.is_active(),
    {
        match self {
            TaskStatus::Pending | TaskStatus::Running => true,
            TaskStatus::Completed | TaskStatus::Failed | TaskStatus::Cancelled => false,
        }
    }
}

/// The name under which the durable table stores a status.
pub open spec fn status_name(status: TaskStatus) -> Seq<char> {
    match status {
        TaskStatus::Pending => "pending"@,
        TaskStatus::Running => "running"@,
        TaskStatus::Completed => "completed"@,
        TaskStatus::Failed => "failed"@,
        TaskStatus::Cancelled => "cancelled"@,
    }
}

/// The status that a stored name stands for. A name that the table never
/// writes reads as `Pending`.
pub open spec fn status_of_name(name: Seq<char>) -> TaskStatus {
    if name == "running"@ {
        TaskStatus::Running
    } else if name == "completed"@ {
        TaskStatus::Completed
    } else if name == "failed"@ {
        TaskStatus::Failed
    } else if name == "cancelled"@ {
        TaskStatus::Cancelled
    } else {
        TaskStatus::Pending
    }
}

/// The name under which the durable table stores `status`.
pub fn status_to_string(status: &TaskStatus) -> (name: &'static str)
    ensures
        name@ == status_name(*status),
{
    match status {
        TaskStatus::Pending => "pending",
        TaskStatus::Running => "running",
        TaskStatus::Completed => "completed",
        TaskStatus::Failed => "failed",
        TaskStatus::Cancelled => "cancelled",
    }
}

/// The status that the stored name `s` stands for; `Pending` for a name
/// that the table never writes.
pub fn string_to_status(s: &str) -> (status: TaskStatus)
    ensures
        status == status_of_name(s@),
{
    if same_text(s, "running") {
        TaskStatus::Running
    } else if same_text(s, "completed") {
        TaskStatus::Completed
    } else if same_text(s, "failed") {
        TaskStatus::Failed
    } else if same_text(s, "cancelled") {
        TaskStatus::Cancelled
    } else {
        TaskStatus::Pending
    }
}

/// The five names are distinct: reading a written status gives it back.
pub proof fn lemma_status_name_round_trip(status: TaskStatus)
    ensures
        status_of_name(status_name(status)) == status,
{
    reveal_strlit("pending");
    reveal_strlit("running");
    reveal_strlit("completed");
    reveal_strlit("failed");
    reveal_strlit("cancelled");
    assert("pending"@.len() == 7);
    assert("running"@[0] == 'r');
    assert("completed"@.len() == 9);
    assert("failed"@.len() == 6);
    assert("cancelled"@[1] == 'a');
}

} // verus!
