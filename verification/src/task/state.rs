//! What the registry holds, as a value: the tasks in memory and the durable
//! table beside them, with each operation of the registry as a function
//! from one such value to the next.

use vstd::prelude::*;
use super::events::TaskNotice;
use super::info::{clamp_progress, TaskRecord, DEFAULT_MAX_RETRIES};
use super::retention::retained;
use super::status::TaskStatus;
use super::store::{
    is_pending_persistent, recovered, saved_all, selected, set_error_fields, set_result_fields,
    set_retry_fields, set_status_fields,
};
use super::table::{lookup, unique_ids, update_where_id, upsert, without_id};

verus! {

/// The change that [`TaskRecord::with_status`] makes.
pub open spec fn status_change(status: TaskStatus, now: i64) -> spec_fn(TaskRecord) -> TaskRecord {
    |r: TaskRecord| r.with_status(status, now)
}

/// The change that [`TaskRecord::with_progress`] makes.
pub open spec fn progress_change(pct: u8, message: Option<Seq<char>>, now: i64) -> spec_fn(
    TaskRecord,
) -> TaskRecord {
    |r: TaskRecord| r.with_progress(pct, message, now)
}

/// The change that [`TaskRecord::completed`] makes.
pub open spec fn completion(
    result: Option<serde_json::Value>,
    now: i64,
) -> spec_fn(TaskRecord) -> TaskRecord {
    |r: TaskRecord| r.completed(result, now)
}

/// The change that [`TaskRecord::failed`] makes.
pub open spec fn failure(error: Seq<char>, now: i64) -> spec_fn(TaskRecord) -> TaskRecord {
    |r: TaskRecord| r.failed(error, now)
}

/// The change that [`TaskRecord::cancelled`] makes.
pub open spec fn cancellation(now: i64) -> spec_fn(TaskRecord) -> TaskRecord {
    |r: TaskRecord| r.cancelled(now)
}

/// The change that [`TaskRecord::retried`] makes.
pub open spec fn retry(now: i64) -> spec_fn(TaskRecord) -> TaskRecord {
    |r: TaskRecord| r.retried(now)
}

/// The record of a new persistent task.
pub open spec fn created_persistent_record(
    id: Seq<char>,
    task_type: Seq<char>,
    input: Option<serde_json::Value>,
    max_retries: u8,
    now: i64,
) -> TaskRecord {
    TaskRecord { persistent: true, input, max_retries, ..TaskRecord::created(id, task_type, now) }
}

/// The tasks in memory and, where the registry has one, the durable table.
pub struct RegistryState {
    pub tasks: Seq<TaskRecord>,
    pub store: Option<Seq<TaskRecord>>,
}

impl RegistryState {
    /// In memory and in the table, an identifier names at most one task.
    pub open spec fn wf(self) -> bool {
        &&& unique_ids(self.tasks)
        &&& match self.store {
            Some(rows) => unique_ids(rows),
            None => true,
        }
    }

    /// The task that `id` names in memory.
    pub open spec fn task(self, id: Seq<char>) -> Option<TaskRecord> {
        lookup(self.tasks, id)
    }

    /// Whether a change of the task `id` is written to the table: the task
    /// is in memory and persistent, and there is a table.
    pub open spec fn mirrors(self, id: Seq<char>) -> bool {
        &&& self.store.is_some()
        &&& match self.task(id) {
            Some(r) => r.persistent,
            None => false,
        }
    }

    /// The table after a write for the task `id`, which happens only where
    /// the task [`mirrors`](Self::mirrors).
    pub open spec fn store_after(self, id: Seq<char>, change: spec_fn(TaskRecord) -> TaskRecord)
        -> Option<Seq<TaskRecord>> {
        if self.mirrors(id) {
            Some(update_where_id(self.store.unwrap(), id, change))
        } else {
            self.store
        }
    }

    /// A task put into memory; the table is not touched.
    pub open spec fn added(self, task: TaskRecord) -> RegistryState {
        RegistryState { tasks: upsert(self.tasks, task), ..self }
    }

    /// A task put into memory and, where there is a table, saved to it.
    pub open spec fn added_and_saved(self, task: TaskRecord) -> RegistryState {
        RegistryState {
            tasks: upsert(self.tasks, task),
            store: match self.store {
                Some(rows) => Some(upsert(rows, task)),
                None => None,
            },
        }
    }

    /// `create_task`.
    pub open spec fn created(self, id: Seq<char>, task_type: Seq<char>, now: i64) -> RegistryState {
        self.added(TaskRecord::created(id, task_type, now))
    }

    /// `create_persistent_task`.
    pub open spec fn created_persistent(self, id: Seq<char>, task_type: Seq<char>, now: i64)
        -> RegistryState {
        self.added_and_saved(
            created_persistent_record(id, task_type, None, DEFAULT_MAX_RETRIES, now),
        )
    }

    /// `create_persistent_task_with_input`.
    pub open spec fn created_persistent_with_input(
        self,
        id: Seq<char>,
        task_type: Seq<char>,
        input: serde_json::Value,
        max_retries: u8,
        now: i64,
    ) -> RegistryState {
        self.added_and_saved(created_persistent_record(id, task_type, Some(input), max_retries, now))
    }

    /// `update_status`: the status of the task `id` is set, whatever it was.
    pub open spec fn status_updated(
        self,
        id: Seq<char>,
        status: TaskStatus,
        now: i64,
    ) -> RegistryState {
        RegistryState {
            tasks: update_where_id(self.tasks, id, status_change(status, now)),
            store: match self.task(id) {
                Some(r) => self.store_after(
                    id,
                    set_status_fields(
                        status,
                        r.progress,
                        r.message,
                        now,
                        r.with_status(status, now).completed_at,
                    ),
                ),
                None => self.store,
            },
        }
    }

    /// `update_progress`: progress and message of the task `id` are
    /// replaced.
    pub open spec fn progressed(self, id: Seq<char>, pct: u8, message: Option<Seq<char>>, now: i64)
        -> RegistryState {
        RegistryState {
            tasks: update_where_id(self.tasks, id, progress_change(pct, message, now)),
            store: match self.task(id) {
                Some(r) => self.store_after(
                    id,
                    set_status_fields(
                        r.status,
                        r.with_progress(pct, message, now).progress,
                        message,
                        now,
                        r.completed_at,
                    ),
                ),
                None => self.store,
            },
        }
    }

    /// `complete`.
    pub open spec fn completed(self, id: Seq<char>, result: Option<serde_json::Value>, now: i64)
        -> RegistryState {
        RegistryState {
            tasks: update_where_id(self.tasks, id, completion(result, now)),
            store: self.store_after(id, set_result_fields(result, now, now)),
        }
    }

    /// `fail`.
    pub open spec fn failed(self, id: Seq<char>, error: Seq<char>, now: i64) -> RegistryState {
        RegistryState {
            tasks: update_where_id(self.tasks, id, failure(error, now)),
            store: self.store_after(id, set_error_fields(error, now, now)),
        }
    }

    /// Whether `cancel` applies: the task is known and waits or runs.
    pub open spec fn can_cancel(self, id: Seq<char>) -> bool {
        match self.task(id) {
            Some(r) => r.can_cancel(),
            None => false,
        }
    }

    /// `cancel`: where it applies the task becomes cancelled; where it does
    /// not, nothing changes.
    pub open spec fn cancelled(self, id: Seq<char>, now: i64) -> RegistryState {
        if self.can_cancel(id) {
            let r = self.task(id).unwrap();
            RegistryState {
                tasks: update_where_id(self.tasks, id, cancellation(now)),
                store: self.store_after(
                    id,
                    set_status_fields(TaskStatus::Cancelled, r.progress, r.message, now, Some(now)),
                ),
            }
        } else {
            self
        }
    }

    /// Whether `retry_task` applies: the task is known, failed and has
    /// retries left.
    pub open spec fn can_retry(self, id: Seq<char>) -> bool {
        match self.task(id) {
            Some(r) => r.can_retry(),
            None => false,
        }
    }

    /// `retry_task`: where it applies the task waits again; where it does
    /// not, nothing changes.
    pub open spec fn retried(self, id: Seq<char>, now: i64) -> RegistryState {
        if self.can_retry(id) {
            let r = self.task(id).unwrap();
            RegistryState {
                tasks: update_where_id(self.tasks, id, retry(now)),
                store: self.store_after(id, set_retry_fields(r.retried(now).retry_count, now)),
            }
        } else {
            self
        }
    }

    /// `remove_task`: the task leaves memory and, where it
    /// [`mirrors`](Self::mirrors), the table.
    pub open spec fn removed(self, id: Seq<char>) -> RegistryState {
        RegistryState {
            tasks: without_id(self.tasks, id),
            store: if self.mirrors(id) {
                Some(without_id(self.store.unwrap(), id))
            } else {
                self.store
            },
        }
    }

    /// `cleanup_completed`: memory drops every task that completed before
    /// `now - max_age_ms`, the table every ended row that did.
    pub open spec fn cleaned(self, max_age_ms: i64, now: i64) -> RegistryState {
        RegistryState {
            tasks: retained(self.tasks, now, max_age_ms, false),
            store: match self.store {
                Some(rows) => Some(retained(rows, now, max_age_ms, true)),
                None => None,
            },
        }
    }

    /// What `load_persistent_tasks` hands back at time `now`: the persistent
    /// rows that wait or run once the table has recovered, oldest first.
    pub open spec fn loadable(self, now: i64) -> Seq<TaskRecord> {
        match self.store {
            Some(rows) => selected(recovered(rows, now), is_pending_persistent()),
            None => Seq::empty(),
        }
    }

    /// `load_persistent_tasks`: the table recovers, and what it then hands
    /// back is put into memory.
    pub open spec fn loaded(self, now: i64) -> RegistryState {
        RegistryState {
            tasks: saved_all(self.tasks, self.loadable(now)),
            store: match self.store {
                Some(rows) => Some(recovered(rows, now)),
                None => None,
            },
        }
    }

    /// What `complete_with_emit` reports: the completion of a known task.
    pub open spec fn completion_notice(self, id: Seq<char>, result: Option<serde_json::Value>)
        -> Option<TaskNotice> {
        match self.task(id) {
            Some(r) => Some(TaskNotice::Completed { task_id: id, task_type: r.task_type, result }),
            None => None,
        }
    }

    /// What `fail_with_emit` reports: the failure of a known task.
    pub open spec fn failure_notice(self, id: Seq<char>, error: Seq<char>) -> Option<TaskNotice> {
        match self.task(id) {
            Some(r) => Some(TaskNotice::Failed { task_id: id, task_type: r.task_type, error }),
            None => None,
        }
    }

    /// What `cancel_with_emit` reports: a cancellation that applied.
    pub open spec fn cancellation_notice(self, id: Seq<char>) -> Option<TaskNotice> {
        if self.can_cancel(id) {
            Some(TaskNotice::Cancelled { task_id: id, task_type: self.task(id).unwrap().task_type })
        } else {
            None
        }
    }

    /// What `update_progress_with_emit` reports: the progress of a known
    /// task, with the percentage as it was stored.
    pub open spec fn progress_notice(self, id: Seq<char>, pct: u8, message: Option<Seq<char>>)
        -> Option<TaskNotice> {
        match self.task(id) {
            Some(r) => Some(
                TaskNotice::Progress {
                    task_id: id,
                    task_type: r.task_type,
                    progress: clamp_progress(pct),
                    message,
                },
            ),
            None => None,
        }
    }

    /// What `retry_task_with_emit` reports: a retry that applied, with the
    /// new count.
    pub open spec fn retry_notice(self, id: Seq<char>) -> Option<TaskNotice> {
        if self.can_retry(id) {
            let r = self.task(id).unwrap();
            Some(
                TaskNotice::Retry {
                    task_id: id,
                    task_type: r.task_type,
                    retry_count: (r.retry_count + 1) as u8,
                    max_retries: r.max_retries,
                },
            )
        } else {
            None
        }
    }
}

} // verus!
