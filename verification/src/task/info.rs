//! The record of one task and the transitions that its lifecycle allows.

use vstd::prelude::*;
use crate::clock::now_millis;
use crate::ident::{fresh_id, is_uuid_v4_text};
use super::status::TaskStatus;

verus! {

/// The highest progress a task can report, in percent.
pub const MAX_PROGRESS: u8 = 100;

/// The retries that a new task is allowed.
pub const DEFAULT_MAX_RETRIES: u8 = 3;

/// The pause, in milliseconds, that a new task suggests before a retry.
pub const DEFAULT_RETRY_DELAY_MS: u64 = 1000;

/// The identifier of a task.
#[derive(Debug, Clone)]
pub struct TaskId(pub String);

impl TaskId {
    /// A fresh random identifier: a version-4 UUID, written in its
    /// hyphenated form in lower case.
    pub fn new() -> (id: Self)
        ensures
            is_uuid_v4_text(id.0@),
    {
        TaskId(fresh_id())
    }

    /// The identifier as text.
    pub fn as_str(&self) -> (s: &str)
        ensures
            s@ == self.0@,
    {
        self.0.as_str()
    }
}

impl Default for TaskId {
    /// A fresh random identifier, as [`TaskId::new`] gives it.
    fn default() -> (id: Self)
        ensures
            is_uuid_v4_text(id.0@),
    {
        TaskId::new()
    }
}

/// One tracked unit of background work.
#[derive(Debug)]
pub struct TaskInfo {
    pub id: String,
    pub task_type: String,
    pub status: TaskStatus,
    pub progress: u8,
    pub message: Option<String>,
    pub result: Option<serde_json::Value>,
    pub error: Option<String>,
    pub created_at: i64,
    pub updated_at: i64,
    pub completed_at: Option<i64>,
    pub retry_count: u8,
    pub max_retries: u8,
    pub retry_delay_ms: u64,
    pub input: Option<serde_json::Value>,
    pub persistent: bool,
}

/// What a [`TaskInfo`] holds, with each text as a sequence of characters.
pub struct TaskRecord {
    pub id: Seq<char>,
    pub task_type: Seq<char>,
    pub status: TaskStatus,
    pub progress: u8,
    pub message: Option<Seq<char>>,
    pub result: Option<serde_json::Value>,
    pub error: Option<Seq<char>>,
    pub created_at: i64,
    pub updated_at: i64,
    pub completed_at: Option<i64>,
    pub retry_count: u8,
    pub max_retries: u8,
    pub retry_delay_ms: u64,
    pub input: Option<serde_json::Value>,
    pub persistent: bool,
}

/// The characters of an optional text.
pub open spec fn opt_text(text: Option<String>) -> Option<Seq<char>> {
    match text {
        Some(s) => Some(s@),
        None => None,
    }
}

/// `pct` held to the range from 0 to [`MAX_PROGRESS`].
pub open spec fn clamp_progress(pct: u8) -> u8 {
    if pct > MAX_PROGRESS {
        MAX_PROGRESS
    } else {
        pct
    }
}

impl TaskRecord {
    /// The record of a task that was just created: pending, at 0 percent,
    /// kept in memory only.
    pub open spec fn created(id: Seq<char>, task_type: Seq<char>, now: i64) -> TaskRecord {
        TaskRecord {
            id,
            task_type,
            status: TaskStatus::Pending,
            progress: 0,
            message: None,
            result: None,
            error: None,
            created_at: now,
            updated_at: now,
            completed_at: None,
            retry_count: 0,
            max_retries: DEFAULT_MAX_RETRIES,
            retry_delay_ms: DEFAULT_RETRY_DELAY_MS,
            input: None,
            persistent: false,
        }
    }

    /// The record's invariant: progress is a percentage, the retries stay
    /// within their bound, and the task has a completion time exactly when
    /// it has ended.
    pub open spec fn wf(self) -> bool {
        &&& self.progress <= MAX_PROGRESS
        &&& self.retry_count <= self.max_retries
        &&& (self.completed_at.is_some() <==> self.status.is_terminal())
    }

    /// The status set to `status` at time `now`, whatever it was. A task
    /// that is set to an ended status completes at `now`; one that is set
    /// to wait or to run has no completion time.
    pub open spec fn with_status(self, status: TaskStatus, now: i64) -> TaskRecord {
        TaskRecord {
            status,
            updated_at: now,
            completed_at: if status.is_terminal() {
                Some(now)
            } else {
                None
            },
            ..self
        }
    }

    /// Progress reported at time `now`: the percentage is clamped, the
    /// message replaced, the status left alone.
    pub open spec fn with_progress(self, pct: u8, message: Option<Seq<char>>, now: i64)
        -> TaskRecord {
        TaskRecord { progress: clamp_progress(pct), message, updated_at: now, ..self }
    }

    /// The task completed at time `now` with `result`.
    pub open spec fn completed(self, result: Option<serde_json::Value>, now: i64) -> TaskRecord {
        TaskRecord {
            status: TaskStatus::Completed,
            progress: MAX_PROGRESS,
            result,
            updated_at: now,
            completed_at: Some(now),
            ..self
        }
    }

    /// The task failed at time `now` with `error`.
    pub open spec fn failed(self, error: Seq<char>, now: i64) -> TaskRecord {
        TaskRecord {
            status: TaskStatus::Failed,
            error: Some(error),
            updated_at: now,
            completed_at: Some(now),
            ..self
        }
    }

    /// Whether the task may be cancelled: only while it waits or runs.
    pub open spec fn can_cancel(self) -> bool {
        self.status.is_active()
    }

    /// The task cancelled at time `now`.
    pub open spec fn cancelled(self, now: i64) -> TaskRecord {
        TaskRecord {
            status: TaskStatus::Cancelled,
            updated_at: now,
            completed_at: Some(now),
            ..self
        }
    }

    /// Whether the task may be retried: it failed and has retries left.
    pub open spec fn can_retry(self) -> bool {
        self.status == TaskStatus::Failed && self.retry_count < self.max_retries
    }

    /// The task queued again at time `now`, one retry used up.
    pub open spec fn retried(self, now: i64) -> TaskRecord
        recommends
            self.retry_count < u8::MAX,
    {
        TaskRecord {
            retry_count: (self.retry_count + 1) as u8,
            status: TaskStatus::Pending,
            error: None,
            progress: 0,
            updated_at: now,
            completed_at: None,
            ..self
        }
    }
}

impl View for TaskInfo {
    type V = TaskRecord;

    open spec fn view(&self) -> TaskRecord {
        TaskRecord {
            id: self.id@,
            task_type: self.task_type@,
            status: self.status,
            progress: self.progress,
            message: opt_text(self.message),
            result: self.result,
            error: opt_text(self.error),
            created_at: self.created_at,
            updated_at: self.updated_at,
            completed_at: self.completed_at,
            retry_count: self.retry_count,
            max_retries: self.max_retries,
            retry_delay_ms: self.retry_delay_ms,
            input: self.input,
            persistent: self.persistent,
        }
    }
}

/// A copy of an optional text.
pub fn clone_opt_text(text: &Option<String>) -> (copy: Option<String>)
    ensures
        opt_text(copy) == opt_text(*text),
{
    match text {
        Some(s) => Some(s.clone()),
        None => None,
    }
}

/// A copy of an optional payload.
pub fn clone_opt_payload(value: &Option<serde_json::Value>) -> (copy: Option<serde_json::Value>)
    ensures
        copy == *value,
{
    match value {
        Some(v) => Some(v.clone()),
        None => None,
    }
}

impl Clone for TaskInfo {
    fn clone(&self) -> (copy: Self)
        ensures
            copy@ == self@,
    {
        TaskInfo {
            id: self.id.clone(),
            task_type: self.task_type.clone(),
            status: self.status,
            progress: self.progress,
            message: clone_opt_text(&self.message),
            result: clone_opt_payload(&self.result),
            error: clone_opt_text(&self.error),
            created_at: self.created_at,
            updated_at: self.updated_at,
            completed_at: self.completed_at,
            retry_count: self.retry_count,
            max_retries: self.max_retries,
            retry_delay_ms: self.retry_delay_ms,
            input: clone_opt_payload(&self.input),
            persistent: self.persistent,
        }
    }
}

impl TaskInfo {
    /// A new task of type `task_type`, with a fresh identifier, a random
    /// UUID, and the current time.
    pub fn new(task_type: &str) -> (task: Self)
        ensures
            exists|id: Seq<char>, now: i64| task@ == TaskRecord::created(id, task_type@, now),
            is_uuid_v4_text(task.id@),
            task@.wf(),
    {
        let id = fresh_id();
        let now = now_millis();
        let task = TaskInfo::new_at(id, task_type, now);
        assert(task@ == TaskRecord::created(id@, task_type@, now));
        task
    }

    /// A new task with the identifier `id`, created at time `now`.
    pub fn new_at(id: String, task_type: &str, now: i64) -> (task: Self)
        ensures
            task@ == TaskRecord::created(id@, task_type@, now),
            task@.wf(),
    {
        TaskInfo {
            id,
            task_type: task_type.to_owned(),
            status: TaskStatus::Pending,
            progress: 0,
            message: None,
            result: None,
            error: None,
            created_at: now,
            updated_at: now,
            completed_at: None,
            retry_count: 0,
            max_retries: DEFAULT_MAX_RETRIES,
            retry_delay_ms: DEFAULT_RETRY_DELAY_MS,
            input: None,
            persistent: false,
        }
    }

    /// The task under the identifier `id`.
    pub fn with_id(self, id: &str) -> (task: Self)
        ensures
            task@ == (TaskRecord { id: id@, ..self@ }),
    {
        let mut task = self;
        task.id = id.to_owned();
        task
    }

    /// The task with `input` as what it works on.
    pub fn with_input(self, input: serde_json::Value) -> (task: Self)
        ensures
            task@ == (TaskRecord { input: Some(input), ..self@ }),
    {
        let mut task = self;
        task.input = Some(input);
        task
    }

    /// The task with `max_retries` as the bound of its retries.
    pub fn with_max_retries(self, max_retries: u8) -> (task: Self)
        ensures
            task@ == (TaskRecord { max_retries, ..self@ }),
    {
        let mut task = self;
        task.max_retries = max_retries;
        task
    }

    /// The task with `delay_ms` as the pause that it suggests before a
    /// retry. The registry records the pause and never waits for it.
    pub fn with_retry_delay(self, delay_ms: u64) -> (task: Self)
        ensures
            task@ == (TaskRecord { retry_delay_ms: delay_ms, ..self@ }),
    {
        let mut task = self;
        task.retry_delay_ms = delay_ms;
        task
    }

    /// The task marked as persistent, or as kept in memory only.
    pub fn with_persistent(self, persistent: bool) -> (task: Self)
        ensures
            task@ == (TaskRecord { persistent, ..self@ }),
    {
        let mut task = self;
        task.persistent = persistent;
        task
    }

    /// Whether the task failed and has retries left.
    pub fn can_retry(&self) -> (yes: bool)
        ensures
            yes == self@.can_retry(),
    {
        self.status == TaskStatus::Failed && self.retry_count < self.max_retries
    }

    /// Queues the task again at the current time and counts the retry.
    pub fn increment_retry(&mut self)
        requires
            old(self).retry_count < u8::MAX,
        ensures
            exists|now: i64| final(self)@ == old(self)@.retried(now),
    {
        let now = now_millis();
        self.increment_retry_at(now);
        assert(self@ == old(self)@.retried(now));
    }

    /// Queues the task again at time `now` and counts the retry.
    pub fn increment_retry_at(&mut self, now: i64)
        requires
            old(self).retry_count < u8::MAX,
        ensures
            final(self)@ == old(self)@.retried(now),
    {
        self.retry_count = self.retry_count + 1;
        self.status = TaskStatus::Pending;
        self.error = None;
        self.progress = 0;
        self.updated_at = now;
        self.completed_at = None;
    }
}

/// What a caller gets back at once when it starts a task.
#[derive(Debug, Clone)]
pub struct TaskHandle {
    pub task_id: String,
    pub task_type: String,
    pub status: TaskStatus,
}

} // verus!
