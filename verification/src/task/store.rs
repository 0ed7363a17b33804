//! The durable table of tasks: one row for each identifier, with the
//! operations that save, change, list and drop rows, and the recovery step
//! that a restart begins with.
//!
//! The table lives in memory. A host that wants it to outlast the process
//! writes [`TaskStateManager::rows`] to disk and hands them back to
//! [`TaskStateManager::from_rows`] at the next start.

use vstd::prelude::*;
use crate::sequences::lemma_filter_take_step;
use crate::clock::now_millis;
use crate::text::same_text;
use super::info::{TaskInfo, TaskRecord, MAX_PROGRESS};
use super::order::{insert_task_by_created, reverse_tasks, sort_by_created};
use super::retention::{remove_expired, retained};
use super::status::TaskStatus;
use super::table::{
    clone_tasks, find_index, get_by_id, has_id, lemma_update_absent, lemma_update_at,
    lemma_update_where_id, lemma_upsert, lookup, records, remove_by_id, unique_ids,
    update_where_id, upsert, upsert_task, without_id,
};

verus! {

/// The rows that a default listing shows.
pub const DEFAULT_LIST_LIMIT: u32 = 100;

/// The characters of an optional string slice.
pub open spec fn opt_str_text(text: Option<&str>) -> Option<Seq<char>> {
    match text {
        Some(s) => Some(s@),
        None => None,
    }
}

/// The payload behind an optional reference.
pub open spec fn opt_payload(value: Option<&serde_json::Value>) -> Option<serde_json::Value> {
    match value {
        Some(v) => Some(*v),
        None => None,
    }
}

/// A status update: status, progress, message and both times are
/// overwritten.
pub open spec fn set_status_fields(
    status: TaskStatus,
    progress: u8,
    message: Option<Seq<char>>,
    updated_at: i64,
    completed_at: Option<i64>,
) -> spec_fn(TaskRecord) -> TaskRecord {
    |r: TaskRecord| TaskRecord { status, progress, message, updated_at, completed_at, ..r }
}

/// A result update: the row becomes completed at full progress.
pub open spec fn set_result_fields(
    result: Option<serde_json::Value>,
    updated_at: i64,
    completed_at: i64,
) -> spec_fn(TaskRecord) -> TaskRecord {
    |r: TaskRecord|
        TaskRecord {
            status: TaskStatus::Completed,
            progress: MAX_PROGRESS,
            result,
            updated_at,
            completed_at: Some(completed_at),
            ..r
        }
}

/// An error update: the row becomes failed.
pub open spec fn set_error_fields(error: Seq<char>, updated_at: i64, completed_at: i64) -> spec_fn(
    TaskRecord,
) -> TaskRecord {
    |r: TaskRecord|
        TaskRecord {
            status: TaskStatus::Failed,
            error: Some(error),
            updated_at,
            completed_at: Some(completed_at),
            ..r
        }
}

/// A retry update: the row is queued again with the new count.
pub open spec fn set_retry_fields(
    retry_count: u8,
    updated_at: i64,
) -> spec_fn(TaskRecord) -> TaskRecord {
    |r: TaskRecord|
        TaskRecord {
            retry_count,
            status: TaskStatus::Pending,
            error: None,
            progress: 0,
            completed_at: None,
            updated_at,
            ..r
        }
}

/// The test for a persistent row that waits or runs.
pub open spec fn is_pending_persistent() -> spec_fn(TaskRecord) -> bool {
    |r: TaskRecord| r.persistent && r.status.is_active()
}

/// The test for a persistent row that failed and has retries left.
pub open spec fn is_retryable_persistent() -> spec_fn(TaskRecord) -> bool {
    |r: TaskRecord| r.persistent && r.can_retry()
}

/// The test for a row of type `task_type`.
pub open spec fn has_type(task_type: Seq<char>) -> spec_fn(TaskRecord) -> bool {
    |r: TaskRecord| r.task_type == task_type
}

/// The test that passes every row.
pub open spec fn any_row() -> spec_fn(TaskRecord) -> bool {
    |r: TaskRecord| true
}

/// The test for a row that a stopped process left running: it is in
/// state `Running`, and the routine that ran it is gone.
pub open spec fn is_stranded() -> spec_fn(TaskRecord) -> bool {
    |r: TaskRecord| r.status == TaskStatus::Running
}

/// Recovery of one row at time `now`: a stranded row waits again; any other
/// row stays as it is.
pub open spec fn requeue(now: i64) -> spec_fn(TaskRecord) -> TaskRecord {
    |r: TaskRecord|
        if is_stranded()(r) {
            TaskRecord { status: TaskStatus::Pending, updated_at: now, ..r }
        } else {
            r
        }
}

/// The table after recovery at time `now`.
pub open spec fn recovered(rows: Seq<TaskRecord>, now: i64) -> Seq<TaskRecord> {
    rows.map_values(requeue(now))
}

/// The rows that pass `test`, oldest first.
pub open spec fn selected(rows: Seq<TaskRecord>, test: spec_fn(TaskRecord) -> bool) -> Seq<TaskRecord> {
    sort_by_created(rows.filter(test))
}

/// At most `limit` rows of `s` from position `offset` on.
pub open spec fn page(s: Seq<TaskRecord>, offset: nat, limit: nat) -> Seq<TaskRecord> {
    let start = if offset < s.len() {
        offset
    } else {
        s.len()
    };
    let rest = s.skip(start as int);
    if limit < rest.len() {
        rest.take(limit as int)
    } else {
        rest
    }
}

/// The table after each task of `tasks` was saved in turn.
pub open spec fn saved_all(rows: Seq<TaskRecord>, tasks: Seq<TaskRecord>) -> Seq<TaskRecord>
    decreases tasks.len(),
{
    if tasks.len() == 0 {
        rows
    } else {
        upsert(saved_all(rows, tasks.drop_last()), tasks.last())
    }
}

/// Saving tasks keeps identifiers distinct.
pub proof fn lemma_saved_all_unique(rows: Seq<TaskRecord>, tasks: Seq<TaskRecord>)
    requires
        unique_ids(rows),
    ensures
        unique_ids(saved_all(rows, tasks)),
    decreases tasks.len(),
{
    if tasks.len() > 0 {
        lemma_saved_all_unique(rows, tasks.drop_last());
        lemma_upsert(saved_all(rows, tasks.drop_last()), tasks.last());
    }
}

/// Which rows a listing wants.
enum Selection<'a> {
    PendingPersistent,
    RetryablePersistent,
    OfType(&'a str),
    Any,
}

impl<'a> Selection<'a> {
    spec fn test(self) -> spec_fn(TaskRecord) -> bool {
        match self {
            Selection::PendingPersistent => is_pending_persistent(),
            Selection::RetryablePersistent => is_retryable_persistent(),
            Selection::OfType(t) => has_type(t@),
            Selection::Any => any_row(),
        }
    }

    fn accepts(&self, task: &TaskInfo) -> (yes: bool)
        ensures
            yes == self.test()(task@),
    {
        match self {
            Selection::PendingPersistent => task.persistent && task.status.active(),
            Selection::RetryablePersistent => task.persistent && task.can_retry(),
            Selection::OfType(t) => same_text(task.task_type.as_str(), t),
            Selection::Any => true,
        }
    }
}

/// Copies of the tasks that `which` wants, oldest first.
fn select_by_created(rows: &Vec<TaskInfo>, which: Selection<'_>) -> (out: Vec<TaskInfo>)
    ensures
        records(out@) == selected(records(rows@), which.test()),
{
    let ghost all = records(rows@);
    let ghost test = which.test();
    let mut out: Vec<TaskInfo> = Vec::new();
    let mut i: usize = 0;
    proof {
        reveal(Seq::filter);
        assert(all.take(0).filter(test) =~= Seq::<TaskRecord>::empty());
    }
    while i < rows.len()
        invariant
            i <= rows.len(),
            all == records(rows@),
            test == which.test(),
            records(out@) == sort_by_created(all.take(i as int).filter(test)),
        decreases rows.len() - i,
    {
        proof {
            lemma_filter_take_step(all, test, i as int);
        }
        if which.accepts(&rows[i]) {
            let ghost before = all.take(i as int).filter(test);
            assert(before.push(all[i as int]).drop_last() =~= before);
            insert_task_by_created(&mut out, rows[i].clone());
        }
        i = i + 1;
    }
    assert(all.take(i as int) =~= all);
    out
}

/// The durable table of tasks.
pub struct TaskStateManager {
    rows: Vec<TaskInfo>,
}

impl View for TaskStateManager {
    type V = Seq<TaskRecord>;

    /// The rows, in the order in which they were last saved.
    closed spec fn view(&self) -> Seq<TaskRecord> {
        records(self.rows@)
    }
}

impl TaskStateManager {
    /// The table's invariant: an identifier names at most one row.
    pub open spec fn wf(&self) -> bool {
        unique_ids(self@)
    }

    /// An empty table.
    pub fn new() -> (store: Self)
        ensures
            store@ == Seq::<TaskRecord>::empty(),
            store.wf(),
    {
        let store = TaskStateManager { rows: Vec::new() };
        assert(store@ =~= Seq::<TaskRecord>::empty());
        store
    }

    /// The table that holds `rows`, each saved in turn: of two rows with one
    /// identifier the later stays.
    pub fn from_rows(rows: Vec<TaskInfo>) -> (store: Self)
        ensures
            store@ == saved_all(Seq::<TaskRecord>::empty(), records(rows@)),
            store.wf(),
    {
        let mut store = TaskStateManager::new();
        let mut i: usize = 0;
        while i < rows.len()
            invariant
                i <= rows.len(),
                store.wf(),
                store@ == saved_all(Seq::<TaskRecord>::empty(), records(rows@).take(i as int)),
            decreases rows.len() - i,
        {
            assert(records(rows@).take(i + 1).drop_last() =~= records(rows@).take(i as int));
            store.save_task(&rows[i]);
            i = i + 1;
        }
        assert(records(rows@).take(i as int) =~= records(rows@));
        store
    }

    /// A copy of every row, in the table's order.
    pub fn rows(&self) -> (rows: Vec<TaskInfo>)
        ensures
            records(rows@) == self@,
    {
        clone_tasks(&self.rows)
    }

    /// Saves `task` whole: it becomes the row of its identifier.
    pub fn save_task(&mut self, task: &TaskInfo)
        requires
            old(self).wf(),
        ensures
            final(self)@ == upsert(old(self)@, task@),
            final(self).wf(),
    {
        upsert_task(&mut self.rows, task.clone());
    }

    /// Overwrites status, progress, message and both times in the row of
    /// `task_id`. Without such a row nothing changes.
    pub fn update_task_status(
        &mut self,
        task_id: &str,
        status: &TaskStatus,
        progress: u8,
        message: Option<&str>,
        updated_at: i64,
        completed_at: Option<i64>,
    )
        requires
            old(self).wf(),
        ensures
            final(self)@ == update_where_id(
                old(self)@,
                task_id@,
                set_status_fields(*status, progress, opt_str_text(message), updated_at, completed_at),
            ),
            final(self).wf(),
    {
        let ghost change = set_status_fields(
            *status,
            progress,
            opt_str_text(message),
            updated_at,
            completed_at,
        );
        proof {
            lemma_update_where_id(self@, task_id@, change);
        }
        match find_index(&self.rows, task_id) {
            Some(i) => {
                proof {
                    lemma_update_at(self@, i as int, change);
                }
                self.rows[i].status = *status;
                self.rows[i].progress = progress;
                self.rows[i].message = match message {
                    Some(m) => Some(m.to_owned()),
                    None => None,
                };
                self.rows[i].updated_at = updated_at;
                self.rows[i].completed_at = completed_at;
                assert(self@ =~= old(self)@.update(i as int, change(old(self)@[i as int])));
            },
            None => {
                proof {
                    lemma_update_absent(self@, task_id@, change);
                }
            },
        }
    }

    /// Marks the row of `task_id` completed, at full progress, with
    /// `result`. Without such a row nothing changes.
    pub fn update_task_result(
        &mut self,
        task_id: &str,
        result: Option<&serde_json::Value>,
        updated_at: i64,
        completed_at: i64,
    )
        requires
            old(self).wf(),
        ensures
            final(self)@ == update_where_id(
                old(self)@,
                task_id@,
                set_result_fields(opt_payload(result), updated_at, completed_at),
            ),
            final(self).wf(),
    {
        let ghost change = set_result_fields(opt_payload(result), updated_at, completed_at);
        proof {
            lemma_update_where_id(self@, task_id@, change);
        }
        match find_index(&self.rows, task_id) {
            Some(i) => {
                proof {
                    lemma_update_at(self@, i as int, change);
                }
                self.rows[i].status = TaskStatus::Completed;
                self.rows[i].progress = MAX_PROGRESS;
                self.rows[i].result = match result {
                    Some(v) => Some(v.clone()),
                    None => None,
                };
                self.rows[i].updated_at = updated_at;
                self.rows[i].completed_at = Some(completed_at);
                assert(self@ =~= old(self)@.update(i as int, change(old(self)@[i as int])));
            },
            None => {
                proof {
                    lemma_update_absent(self@, task_id@, change);
                }
            },
        }
    }

    /// Marks the row of `task_id` failed with `error`. Without such a row
    /// nothing changes.
    pub fn update_task_error(&mut self, task_id: &str, error: &str, updated_at: i64, completed_at: i64)
        requires
            old(self).wf(),
        ensures
            final(self)@ == update_where_id(
                old(self)@,
                task_id@,
                set_error_fields(error@, updated_at, completed_at),
            ),
            final(self).wf(),
    {
        let ghost change = set_error_fields(error@, updated_at, completed_at);
        proof {
            lemma_update_where_id(self@, task_id@, change);
        }
        match find_index(&self.rows, task_id) {
            Some(i) => {
                proof {
                    lemma_update_at(self@, i as int, change);
                }
                self.rows[i].status = TaskStatus::Failed;
                self.rows[i].error = Some(error.to_owned());
                self.rows[i].updated_at = updated_at;
                self.rows[i].completed_at = Some(completed_at);
                assert(self@ =~= old(self)@.update(i as int, change(old(self)@[i as int])));
            },
            None => {
                proof {
                    lemma_update_absent(self@, task_id@, change);
                }
            },
        }
    }

    /// Queues the row of `task_id` again with `retry_count`: pending, no
    /// error, no progress, no completion time. Without such a row nothing
    /// changes.
    pub fn update_retry_count(&mut self, task_id: &str, retry_count: u8, updated_at: i64)
        requires
            old(self).wf(),
        ensures
            final(self)@ == update_where_id(
                old(self)@,
                task_id@,
                set_retry_fields(retry_count, updated_at),
            ),
            final(self).wf(),
    {
        let ghost change = set_retry_fields(retry_count, updated_at);
        proof {
            lemma_update_where_id(self@, task_id@, change);
        }
        match find_index(&self.rows, task_id) {
            Some(i) => {
                proof {
                    lemma_update_at(self@, i as int, change);
                }
                self.rows[i].retry_count = retry_count;
                self.rows[i].status = TaskStatus::Pending;
                self.rows[i].error = None;
                self.rows[i].progress = 0;
                self.rows[i].completed_at = None;
                self.rows[i].updated_at = updated_at;
                assert(self@ =~= old(self)@.update(i as int, change(old(self)@[i as int])));
            },
            None => {
                proof {
                    lemma_update_absent(self@, task_id@, change);
                }
            },
        }
    }

    /// A copy of the row of `task_id`.
    pub fn get_task(&self, task_id: &str) -> (found: Option<TaskInfo>)
        requires
            self.wf(),
        ensures
            match found {
                Some(t) => lookup(self@, task_id@) == Some(t@),
                None => lookup(self@, task_id@).is_none(),
            },
    {
        get_by_id(&self.rows, task_id)
    }

    /// The persistent rows that wait or run, oldest first: what a restart
    /// puts back into the registry.
    pub fn load_pending_persistent_tasks(&self) -> (tasks: Vec<TaskInfo>)
        ensures
            records(tasks@) == selected(self@, is_pending_persistent()),
    {
        select_by_created(&self.rows, Selection::PendingPersistent)
    }

    /// The persistent rows that failed and have retries left, oldest first.
    pub fn load_retryable_tasks(&self) -> (tasks: Vec<TaskInfo>)
        ensures
            records(tasks@) == selected(self@, is_retryable_persistent()),
    {
        select_by_created(&self.rows, Selection::RetryablePersistent)
    }

    /// One page of all rows, youngest first. Without a limit the page holds
    /// up to [`DEFAULT_LIST_LIMIT`] rows; without an offset it starts at the
    /// youngest.
    pub fn list_tasks(&self, limit: Option<u32>, offset: Option<u32>) -> (tasks: Vec<TaskInfo>)
        ensures
            records(tasks@) == page(
                selected(self@, any_row()).reverse(),
                match offset {
                    Some(o) => o as nat,
                    None => 0,
                },
                match limit {
                    Some(l) => l as nat,
                    None => DEFAULT_LIST_LIMIT as nat,
                },
            ),
    {
        let limit: usize = match limit {
            Some(l) => l as usize,
            None => DEFAULT_LIST_LIMIT as usize,
        };
        let offset: usize = match offset {
            Some(o) => o as usize,
            None => 0,
        };
        let mut all = reverse_tasks(select_by_created(&self.rows, Selection::Any));
        let ghost listed = records(all@);
        let start: usize = if offset < all.len() {
            offset
        } else {
            all.len()
        };
        if limit < all.len() - start {
            all.truncate(start + limit);
        }
        let tasks = all.split_off(start);
        assert(records(tasks@) =~= page(listed, offset as nat, limit as nat));
        tasks
    }

    /// The rows of type `task_type`, youngest first.
    pub fn list_tasks_by_type(&self, task_type: &str) -> (tasks: Vec<TaskInfo>)
        ensures
            records(tasks@) == selected(self@, has_type(task_type@)).reverse(),
    {
        reverse_tasks(select_by_created(&self.rows, Selection::OfType(task_type)))
    }

    /// Drops the row of `task_id` and says whether there was one.
    pub fn delete_task(&mut self, task_id: &str) -> (deleted: bool)
        requires
            old(self).wf(),
        ensures
            final(self)@ == without_id(old(self)@, task_id@),
            deleted == has_id(old(self)@, task_id@),
            final(self).wf(),
    {
        remove_by_id(&mut self.rows, task_id).is_some()
    }

    /// Drops every ended row that completed before the current time less
    /// `max_age_ms`, and says how many rows left.
    pub fn cleanup_completed_tasks(&mut self, max_age_ms: i64) -> (removed: usize)
        requires
            old(self).wf(),
        ensures
            exists|now: i64| final(self)@ == retained(old(self)@, now, max_age_ms, true),
            removed == old(self)@.len() - final(self)@.len(),
            final(self).wf(),
    {
        let now = now_millis();
        let removed = self.cleanup_completed_tasks_at(max_age_ms, now);
        assert(self@ == retained(old(self)@, now, max_age_ms, true));
        removed
    }

    /// Drops every ended row that completed before `now - max_age_ms`, and
    /// says how many rows left. A row without a completion time stays.
    pub fn cleanup_completed_tasks_at(&mut self, max_age_ms: i64, now: i64) -> (removed: usize)
        requires
            old(self).wf(),
        ensures
            final(self)@ == retained(old(self)@, now, max_age_ms, true),
            removed == old(self)@.len() - final(self)@.len(),
            final(self).wf(),
    {
        remove_expired(&mut self.rows, now, max_age_ms, true)
    }

    /// Recovery after a restart, at the current time: every stranded row
    /// waits again. Says how many rows changed.
    pub fn mark_running_as_pending(&mut self) -> (changed: usize)
        requires
            old(self).wf(),
        ensures
            exists|now: i64| final(self)@ == recovered(old(self)@, now),
            changed == old(self)@.filter(is_stranded()).len(),
            final(self).wf(),
    {
        let now = now_millis();
        let changed = self.mark_running_as_pending_at(now);
        assert(self@ == recovered(old(self)@, now));
        changed
    }

    /// Recovery after a restart, at time `now`: every row in state
    /// `Running` becomes `Pending` and is changed at `now`; no other row
    /// and no other field changes, and no row comes or goes. Says how many
    /// rows changed.
    pub fn mark_running_as_pending_at(&mut self, now: i64) -> (changed: usize)
        requires
            old(self).wf(),
        ensures
            final(self)@ == recovered(old(self)@, now),
            changed == old(self)@.filter(is_stranded()).len(),
            final(self).wf(),
    {
        let ghost before = self@;
        let mut changed: usize = 0;
        let mut i: usize = 0;
        proof {
            reveal(Seq::filter);
            assert(before.take(0).filter(is_stranded()) =~= Seq::<TaskRecord>::empty());
        }
        while i < self.rows.len()
            invariant
                i <= self.rows.len(),
                self@.len() == before.len(),
                changed == before.take(i as int).filter(is_stranded()).len(),
                changed <= i,
                forall|j: int| 0 <= j < i ==> self@[j] == requeue(now)(before[j]),
                forall|j: int| i <= j < before.len() ==> self@[j] == before[j],
            decreases self.rows.len() - i,
        {
            let ghost prev = self@;
            proof {
                lemma_filter_take_step(before, is_stranded(), i as int);
                assert(prev[i as int] == before[i as int]);
            }
            if self.rows[i].status == TaskStatus::Running {
                self.rows[i].status = TaskStatus::Pending;
                self.rows[i].updated_at = now;
                changed = changed + 1;
            }
            assert(self@ =~= prev.update(i as int, requeue(now)(before[i as int])));
            i = i + 1;
        }
        proof {
            assert(before.take(i as int) =~= before);
            assert(self@ =~= recovered(before, now));
            assert forall|a: int, b: int| 0 <= a < b < self@.len() implies self@[a].id != self@[b].id by {
                assert(before[a].id != before[b].id);
            }
        }
        changed
    }
}

} // verus!
