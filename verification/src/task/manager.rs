//! The task registry: every task of the process by its identifier, the
//! lifecycle operations on them, and the mirror of persistent tasks in the
//! durable table.

use vstd::prelude::*;
use crate::sequences::lemma_filter_take_step;
use crate::clock::now_millis;
use crate::ident::{fresh_id, is_uuid_v4_text};
use crate::text::same_text;
use super::events::{opt_notice, TaskEvent};
use super::info::{
    clone_opt_payload, clone_opt_text, opt_text, TaskInfo, TaskRecord, DEFAULT_MAX_RETRIES,
    MAX_PROGRESS,
};
use super::state::{
    cancellation, completion, created_persistent_record, failure, progress_change, retry,
    status_change, RegistryState,
};
use super::retention::remove_expired;
use super::status::TaskStatus;
use super::store::{
    has_type, is_retryable_persistent, saved_all, selected, set_error_fields, set_result_fields,
    set_retry_fields, set_status_fields, TaskStateManager,
};
use super::table::{
    clone_tasks, find_index, get_by_id, lemma_lookup_at, lemma_records_push, lemma_update_absent,
    lemma_update_at, lemma_update_where_id, lookup, records, remove_by_id, upsert_task,
};

verus! {

/// The registry of tasks. The tasks stand in a vector in which no
/// identifier occurs twice, in the order in which they came: every
/// operation is stated and proved over that sequence.
pub struct TaskManager {
    tasks: Vec<TaskInfo>,
    persistence: Option<TaskStateManager>,
}

impl View for TaskManager {
    type V = RegistryState;

    closed spec fn view(&self) -> RegistryState {
        RegistryState {
            tasks: records(self.tasks@),
            store: match self.persistence {
                Some(store) => Some(store@),
                None => None,
            },
        }
    }
}

impl Default for TaskManager {
    /// A registry without tasks and without a durable table.
    fn default() -> (manager: Self)
        ensures
            manager@ == (RegistryState { tasks: Seq::empty(), store: None }),
            manager@.wf(),
    {
        TaskManager::new()
    }
}

impl TaskManager {
    /// A registry without tasks and without a durable table.
    pub fn new() -> (manager: Self)
        ensures
            manager@ == (RegistryState { tasks: Seq::empty(), store: None }),
            manager@.wf(),
    {
        let manager = TaskManager { tasks: Vec::new(), persistence: None };
        assert(manager@.tasks =~= Seq::<TaskRecord>::empty());
        manager
    }

    /// A registry without tasks that mirrors persistent tasks to `store`.
    pub fn with_persistence(store: TaskStateManager) -> (manager: Self)
        requires
            store.wf(),
        ensures
            manager@ == (RegistryState { tasks: Seq::empty(), store: Some(store@) }),
            manager@.wf(),
    {
        let manager = TaskManager { tasks: Vec::new(), persistence: Some(store) };
        assert(manager@.tasks =~= Seq::<TaskRecord>::empty());
        manager
    }

    /// Gives up the registry and keeps its durable table: all that is left
    /// of it when the process stops.
    pub fn into_persistence(self) -> (store: Option<TaskStateManager>)
        requires
            self@.wf(),
        ensures
            match store {
                Some(s) => self@.store == Some(s@) && s.wf(),
                None => self@.store.is_none(),
            },
    {
        self.persistence
    }

    /// A copy of every row of the durable table, for the caller to write to
    /// disk. Without a durable table there is none.
    pub fn durable_rows(&self) -> (rows: Option<Vec<TaskInfo>>)
        ensures
            match rows {
                Some(r) => self@.store == Some(records(r@)),
                None => self@.store.is_none(),
            },
    {
        match &self.persistence {
            Some(store) => Some(store.rows()),
            None => None,
        }
    }

    /// A copy of the row of `task_id` in the durable table, for the caller to
    /// write to disk. Without a durable table, and without such a row,
    /// there is none.
    pub fn durable_task(&self, task_id: &str) -> (row: Option<TaskInfo>)
        requires
            self@.wf(),
        ensures
            match row {
                Some(t) => self@.store.is_some() && lookup(self@.store.unwrap(), task_id@) == Some(
                    t@,
                ),
                None => self@.store.is_none() || lookup(self@.store.unwrap(), task_id@).is_none(),
            },
    {
        match &self.persistence {
            Some(store) => store.get_task(task_id),
            None => None,
        }
    }

    /// Puts `task` into memory and, with `save`, into the durable table.
    fn insert(&mut self, task: TaskInfo, save: bool)
        requires
            old(self)@.wf(),
        ensures
            final(self)@ == if save {
                old(self)@.added_and_saved(task@)
            } else {
                old(self)@.added(task@)
            },
            final(self)@.wf(),
    {
        if save {
            match &mut self.persistence {
                Some(store) => {
                    store.save_task(&task);
                },
                None => {},
            }
        }
        upsert_task(&mut self.tasks, task);
    }

    /// Creates a task of type `task_type` with a fresh identifier at the
    /// current time. It is kept in memory only.
    pub fn create_task(&mut self, task_type: &str) -> (task: TaskInfo)
        requires
            old(self)@.wf(),
        ensures
            exists|id: Seq<char>, now: i64|
                final(self)@ == old(self)@.created(id, task_type@, now) && task@
                    == TaskRecord::created(id, task_type@, now),
            is_uuid_v4_text(task.id@),
            final(self)@.wf(),
    {
        let id = fresh_id();
        let now = now_millis();
        let task = self.create_task_at(id, task_type, now);
        assert(self@ == old(self)@.created(id@, task_type@, now) && task@ == TaskRecord::created(
            id@,
            task_type@,
            now,
        ));
        task
    }

    /// Creates a task of type `task_type` with the identifier `id` at time
    /// `now`: pending, at 0 percent, kept in memory only. An older task of
    /// that identifier is replaced.
    pub fn create_task_at(&mut self, id: String, task_type: &str, now: i64) -> (task: TaskInfo)
        requires
            old(self)@.wf(),
        ensures
            final(self)@ == old(self)@.created(id@, task_type@, now),
            task@ == TaskRecord::created(id@, task_type@, now),
            final(self)@.wf(),
    {
        let task = TaskInfo::new_at(id, task_type, now);
        self.insert(task.clone(), false);
        task
    }

    /// Creates a persistent task with a fresh identifier at the current time
    /// and saves it to the durable table.
    pub fn create_persistent_task(&mut self, task_type: &str) -> (task: TaskInfo)
        requires
            old(self)@.wf(),
        ensures
            exists|id: Seq<char>, now: i64|
                final(self)@ == old(self)@.created_persistent(id, task_type@, now) && task@
                    == created_persistent_record(id, task_type@, None, DEFAULT_MAX_RETRIES, now),
            is_uuid_v4_text(task.id@),
            final(self)@.wf(),
    {
        let id = fresh_id();
        let now = now_millis();
        let task = self.create_persistent_task_at(id, task_type, now);
        assert(self@ == old(self)@.created_persistent(id@, task_type@, now) && task@
            == created_persistent_record(id@, task_type@, None, DEFAULT_MAX_RETRIES, now));
        task
    }

    /// Creates a persistent task with the identifier `id` at time `now` and
    /// saves it to the durable table.
    pub fn create_persistent_task_at(&mut self, id: String, task_type: &str, now: i64) -> (task:
        TaskInfo)
        requires
            old(self)@.wf(),
        ensures
            final(self)@ == old(self)@.created_persistent(id@, task_type@, now),
            task@ == created_persistent_record(id@, task_type@, None, DEFAULT_MAX_RETRIES, now),
            final(self)@.wf(),
    {
        let task = TaskInfo::new_at(id, task_type, now).with_persistent(true);
        self.insert(task.clone(), true);
        task
    }

    /// Creates a persistent task that carries `input` and may be retried
    /// `max_retries` times, with a fresh identifier at the current time, and
    /// saves it to the durable table.
    pub fn create_persistent_task_with_input(
        &mut self,
        task_type: &str,
        input: serde_json::Value,
        max_retries: u8,
    ) -> (task: TaskInfo)
        requires
            old(self)@.wf(),
        ensures
            exists|id: Seq<char>, now: i64|
                final(self)@ == old(self)@.created_persistent_with_input(
                    id,
                    task_type@,
                    input,
                    max_retries,
                    now,
                ) && task@ == created_persistent_record(
                    id,
                    task_type@,
                    Some(input),
                    max_retries,
                    now,
                ),
            is_uuid_v4_text(task.id@),
            final(self)@.wf(),
    {
        let id = fresh_id();
        let now = now_millis();
        let task = self.create_persistent_task_with_input_at(id, task_type, input, max_retries, now);
        assert(self@ == old(self)@.created_persistent_with_input(
            id@,
            task_type@,
            input,
            max_retries,
            now,
        ) && task@ == created_persistent_record(id@, task_type@, Some(input), max_retries, now));
        task
    }

    /// Creates a persistent task that carries `input` and may be retried
    /// `max_retries` times, with the identifier `id` at time `now`, and
    /// saves it to the durable table.
    pub fn create_persistent_task_with_input_at(
        &mut self,
        id: String,
        task_type: &str,
        input: serde_json::Value,
        max_retries: u8,
        now: i64,
    ) -> (task: TaskInfo)
        requires
            old(self)@.wf(),
        ensures
            final(self)@ == old(self)@.created_persistent_with_input(
                id@,
                task_type@,
                input,
                max_retries,
                now,
            ),
            task@ == created_persistent_record(id@, task_type@, Some(input), max_retries, now),
            final(self)@.wf(),
    {
        let task = TaskInfo::new_at(id, task_type, now).with_persistent(true).with_input(
            input,
        ).with_max_retries(max_retries);
        self.insert(task.clone(), true);
        task
    }

    /// Puts a task that exists already into memory, as the task of its
    /// identifier. The durable table is not touched.
    pub fn add_task(&mut self, task: TaskInfo)
        requires
            old(self)@.wf(),
        ensures
            final(self)@ == old(self)@.added(task@),
            final(self)@.wf(),
    {
        self.insert(task, false);
    }

    /// A copy of the task of `task_id`.
    pub fn get_task(&self, task_id: &str) -> (found: Option<TaskInfo>)
        requires
            self@.wf(),
        ensures
            match found {
                Some(t) => self@.task(task_id@) == Some(t@),
                None => self@.task(task_id@).is_none(),
            },
    {
        get_by_id(&self.tasks, task_id)
    }

    /// A copy of every task in memory.
    pub fn list_tasks(&self) -> (tasks: Vec<TaskInfo>)
        ensures
            records(tasks@) == self@.tasks,
    {
        clone_tasks(&self.tasks)
    }

    /// A copy of every task in memory of type `task_type`.
    pub fn list_tasks_by_type(&self, task_type: &str) -> (tasks: Vec<TaskInfo>)
        ensures
            records(tasks@) == self@.tasks.filter(has_type(task_type@)),
    {
        let ghost all = records(self.tasks@);
        let ghost test = has_type(task_type@);
        let mut out: Vec<TaskInfo> = Vec::new();
        let mut i: usize = 0;
        proof {
            reveal(Seq::filter);
            assert(all.take(0).filter(test) =~= Seq::<TaskRecord>::empty());
        }
        while i < self.tasks.len()
            invariant
                i <= self.tasks.len(),
                all == records(self.tasks@),
                test == has_type(task_type@),
                records(out@) == all.take(i as int).filter(test),
            decreases self.tasks.len() - i,
        {
            proof {
                lemma_filter_take_step(all, test, i as int);
            }
            if same_text(self.tasks[i].task_type.as_str(), task_type) {
                let task = self.tasks[i].clone();
                proof {
                    lemma_records_push(out@, task);
                }
                out.push(task);
            }
            i = i + 1;
        }
        assert(all.take(i as int) =~= all);
        out
    }

    /// Sets the status of the task of `task_id` at the current time.
    pub fn update_status(&mut self, task_id: &str, status: TaskStatus)
        requires
            old(self)@.wf(),
        ensures
            exists|now: i64| final(self)@ == old(self)@.status_updated(task_id@, status, now),
            final(self)@.wf(),
    {
        let now = now_millis();
        self.update_status_at(task_id, status, now);
        assert(self@ == old(self)@.status_updated(task_id@, status, now));
    }

    /// Sets the status of the task of `task_id` at time `now`, whatever the
    /// status was. A task that is set to an ended status completes at
    /// `now`; one that is set to wait or to run loses its completion time.
    /// An unknown identifier changes nothing.
    pub fn update_status_at(&mut self, task_id: &str, status: TaskStatus, now: i64)
        requires
            old(self)@.wf(),
        ensures
            final(self)@ == old(self)@.status_updated(task_id@, status, now),
            final(self)@.wf(),
    {
        let ghost change = status_change(status, now);
        proof {
            lemma_update_where_id(self@.tasks, task_id@, change);
        }
        match find_index(&self.tasks, task_id) {
            Some(i) => {
                let ghost before = self@.tasks[i as int];
                proof {
                    lemma_lookup_at(self@.tasks, i as int);
                    lemma_update_at(self@.tasks, i as int, change);
                }
                self.tasks[i].status = status;
                self.tasks[i].updated_at = now;
                self.tasks[i].completed_at = if status.ended() {
                    Some(now)
                } else {
                    None
                };
                assert(self@.tasks =~= old(self)@.tasks.update(i as int, change(before)));
                if self.tasks[i].persistent {
                    let progress = self.tasks[i].progress;
                    let completed_at = self.tasks[i].completed_at;
                    match &mut self.persistence {
                        Some(store) => {
                            proof {
                                lemma_update_where_id(
                                    store@,
                                    task_id@,
                                    set_status_fields(
                                        status,
                                        progress,
                                        before.message,
                                        now,
                                        completed_at,
                                    ),
                                );
                            }
                            let message = match &self.tasks[i].message {
                                Some(m) => Some(m.as_str()),
                                None => None,
                            };
                            store.update_task_status(
                                task_id,
                                &status,
                                progress,
                                message,
                                now,
                                completed_at,
                            );
                        },
                        None => {},
                    }
                }
            },
            None => {
                proof {
                    lemma_update_absent(self@.tasks, task_id@, change);
                }
            },
        }
    }

    /// Marks the task of `task_id` as running, at the current time.
    pub fn set_running(&mut self, task_id: &str)
        requires
            old(self)@.wf(),
        ensures
            exists|now: i64|
                final(self)@ == old(self)@.status_updated(task_id@, TaskStatus::Running, now),
            final(self)@.wf(),
    {
        self.update_status(task_id, TaskStatus::Running);
    }

    /// Marks the task of `task_id` as running, at time `now`.
    pub fn set_running_at(&mut self, task_id: &str, now: i64)
        requires
            old(self)@.wf(),
        ensures
            final(self)@ == old(self)@.status_updated(task_id@, TaskStatus::Running, now),
            final(self)@.wf(),
    {
        self.update_status_at(task_id, TaskStatus::Running, now);
    }

    /// Reports progress of the task of `task_id` at the current time.
    pub fn update_progress(&mut self, task_id: &str, progress: u8, message: Option<String>)
        requires
            old(self)@.wf(),
        ensures
            exists|now: i64|
                final(self)@ == old(self)@.progressed(task_id@, progress, opt_text(message), now),
            final(self)@.wf(),
    {
        let now = now_millis();
        self.update_progress_at(task_id, progress, message, now);
        assert(self@ == old(self)@.progressed(task_id@, progress, opt_text(message), now));
    }

    /// Reports progress of the task of `task_id` at time `now`: the
    /// percentage is held to 100 at most, the message is replaced, the
    /// status stays. An unknown identifier changes nothing.
    pub fn update_progress_at(&mut self, task_id: &str, progress: u8, message: Option<String>, now: i64)
        requires
            old(self)@.wf(),
        ensures
            final(self)@ == old(self)@.progressed(task_id@, progress, opt_text(message), now),
            final(self)@.wf(),
    {
        let ghost change = progress_change(progress, opt_text(message), now);
        proof {
            lemma_update_where_id(self@.tasks, task_id@, change);
        }
        match find_index(&self.tasks, task_id) {
            Some(i) => {
                let ghost before = self@.tasks[i as int];
                proof {
                    lemma_lookup_at(self@.tasks, i as int);
                    lemma_update_at(self@.tasks, i as int, change);
                }
                let clamped: u8 = if progress > MAX_PROGRESS {
                    MAX_PROGRESS
                } else {
                    progress
                };
                if self.tasks[i].persistent {
                    let status = self.tasks[i].status;
                    let completed_at = self.tasks[i].completed_at;
                    match &mut self.persistence {
                        Some(store) => {
                            proof {
                                lemma_update_where_id(
                                    store@,
                                    task_id@,
                                    set_status_fields(
                                        status,
                                        clamped,
                                        opt_text(message),
                                        now,
                                        completed_at,
                                    ),
                                );
                            }
                            let text = match &message {
                                Some(m) => Some(m.as_str()),
                                None => None,
                            };
                            store.update_task_status(
                                task_id,
                                &status,
                                clamped,
                                text,
                                now,
                                completed_at,
                            );
                        },
                        None => {},
                    }
                }
                self.tasks[i].progress = clamped;
                self.tasks[i].message = message;
                self.tasks[i].updated_at = now;
                assert(self@.tasks =~= old(self)@.tasks.update(i as int, change(before)));
            },
            None => {
                proof {
                    lemma_update_absent(self@.tasks, task_id@, change);
                }
            },
        }
    }

    /// Completes the task of `task_id` with `result`, at the current time.
    pub fn complete(&mut self, task_id: &str, result: Option<serde_json::Value>)
        requires
            old(self)@.wf(),
        ensures
            exists|now: i64| final(self)@ == old(self)@.completed(task_id@, result, now),
            final(self)@.wf(),
    {
        let now = now_millis();
        self.complete_at(task_id, result, now);
        assert(self@ == old(self)@.completed(task_id@, result, now));
    }

    /// Completes the task of `task_id` with `result`, at time `now`: the
    /// status becomes `Completed` and the progress 100, whatever they were.
    /// An unknown identifier changes nothing.
    pub fn complete_at(&mut self, task_id: &str, result: Option<serde_json::Value>, now: i64)
        requires
            old(self)@.wf(),
        ensures
            final(self)@ == old(self)@.completed(task_id@, result, now),
            final(self)@.wf(),
    {
        let ghost change = completion(result, now);
        proof {
            lemma_update_where_id(self@.tasks, task_id@, change);
        }
        match find_index(&self.tasks, task_id) {
            Some(i) => {
                let ghost before = self@.tasks[i as int];
                proof {
                    lemma_lookup_at(self@.tasks, i as int);
                    lemma_update_at(self@.tasks, i as int, change);
                }
                if self.tasks[i].persistent {
                    match &mut self.persistence {
                        Some(store) => {
                            proof {
                                lemma_update_where_id(
                                    store@,
                                    task_id@,
                                    set_result_fields(result, now, now),
                                );
                            }
                            store.update_task_result(task_id, result.as_ref(), now, now);
                        },
                        None => {},
                    }
                }
                self.tasks[i].status = TaskStatus::Completed;
                self.tasks[i].progress = MAX_PROGRESS;
                self.tasks[i].result = result;
                self.tasks[i].updated_at = now;
                self.tasks[i].completed_at = Some(now);
                assert(self@.tasks =~= old(self)@.tasks.update(i as int, change(before)));
            },
            None => {
                proof {
                    lemma_update_absent(self@.tasks, task_id@, change);
                }
            },
        }
    }

    /// Fails the task of `task_id` with `error`, at the current time.
    pub fn fail(&mut self, task_id: &str, error: &str)
        requires
            old(self)@.wf(),
        ensures
            exists|now: i64| final(self)@ == old(self)@.failed(task_id@, error@, now),
            final(self)@.wf(),
    {
        let now = now_millis();
        self.fail_at(task_id, error, now);
        assert(self@ == old(self)@.failed(task_id@, error@, now));
    }

    /// Fails the task of `task_id` with `error`, at time `now`: the status
    /// becomes `Failed`, whatever it was. An unknown identifier changes
    /// nothing.
    pub fn fail_at(&mut self, task_id: &str, error: &str, now: i64)
        requires
            old(self)@.wf(),
        ensures
            final(self)@ == old(self)@.failed(task_id@, error@, now),
            final(self)@.wf(),
    {
        let ghost change = failure(error@, now);
        proof {
            lemma_update_where_id(self@.tasks, task_id@, change);
        }
        match find_index(&self.tasks, task_id) {
            Some(i) => {
                let ghost before = self@.tasks[i as int];
                proof {
                    lemma_lookup_at(self@.tasks, i as int);
                    lemma_update_at(self@.tasks, i as int, change);
                }
                self.tasks[i].status = TaskStatus::Failed;
                self.tasks[i].error = Some(error.to_owned());
                self.tasks[i].updated_at = now;
                self.tasks[i].completed_at = Some(now);
                assert(self@.tasks =~= old(self)@.tasks.update(i as int, change(before)));
                if self.tasks[i].persistent {
                    match &mut self.persistence {
                        Some(store) => {
                            proof {
                                lemma_update_where_id(
                                    store@,
                                    task_id@,
                                    set_error_fields(error@, now, now),
                                );
                            }
                            store.update_task_error(task_id, error, now, now);
                        },
                        None => {},
                    }
                }
            },
            None => {
                proof {
                    lemma_update_absent(self@.tasks, task_id@, change);
                }
            },
        }
    }

    /// Cancels the task of `task_id` at the current time, and says whether
    /// it did.
    pub fn cancel(&mut self, task_id: &str) -> (done: bool)
        requires
            old(self)@.wf(),
        ensures
            done == old(self)@.can_cancel(task_id@),
            exists|now: i64| final(self)@ == old(self)@.cancelled(task_id@, now),
            !done ==> final(self)@ == old(self)@,
            final(self)@.wf(),
    {
        let now = now_millis();
        let done = self.cancel_at(task_id, now);
        assert(self@ == old(self)@.cancelled(task_id@, now));
        done
    }

    /// Cancels the task of `task_id` at time `now`. Only a task that waits
    /// or runs can be cancelled: then the answer is `true`. For a task that
    /// has ended and for an unknown identifier the answer is `false` and
    /// nothing changes.
    pub fn cancel_at(&mut self, task_id: &str, now: i64) -> (done: bool)
        requires
            old(self)@.wf(),
        ensures
            done == old(self)@.can_cancel(task_id@),
            final(self)@ == old(self)@.cancelled(task_id@, now),
            final(self)@.wf(),
    {
        let ghost change = cancellation(now);
        proof {
            lemma_update_where_id(self@.tasks, task_id@, change);
        }
        match find_index(&self.tasks, task_id) {
            Some(i) => {
                let ghost before = self@.tasks[i as int];
                proof {
                    lemma_lookup_at(self@.tasks, i as int);
                    lemma_update_at(self@.tasks, i as int, change);
                }
                if !self.tasks[i].status.active() {
                    return false;
                }
                self.tasks[i].status = TaskStatus::Cancelled;
                self.tasks[i].updated_at = now;
                self.tasks[i].completed_at = Some(now);
                assert(self@.tasks =~= old(self)@.tasks.update(i as int, change(before)));
                if self.tasks[i].persistent {
                    let progress = self.tasks[i].progress;
                    match &mut self.persistence {
                        Some(store) => {
                            proof {
                                lemma_update_where_id(
                                    store@,
                                    task_id@,
                                    set_status_fields(
                                        TaskStatus::Cancelled,
                                        progress,
                                        before.message,
                                        now,
                                        Some(now),
                                    ),
                                );
                            }
                            let message = match &self.tasks[i].message {
                                Some(m) => Some(m.as_str()),
                                None => None,
                            };
                            store.update_task_status(
                                task_id,
                                &TaskStatus::Cancelled,
                                progress,
                                message,
                                now,
                                Some(now),
                            );
                        },
                        None => {},
                    }
                }
                true
            },
            None => false,
        }
    }

    /// Queues the failed task of `task_id` again at the current time, and
    /// hands back a copy of it where it did.
    pub fn retry_task(&mut self, task_id: &str) -> (retried: Option<TaskInfo>)
        requires
            old(self)@.wf(),
        ensures
            retried.is_some() == old(self)@.can_retry(task_id@),
            exists|now: i64|
                final(self)@ == old(self)@.retried(task_id@, now) && (match retried {
                    Some(t) => t@ == old(self)@.task(task_id@).unwrap().retried(now),
                    None => true,
                }),
            retried.is_none() ==> final(self)@ == old(self)@,
            final(self)@.wf(),
    {
        let now = now_millis();
        let retried = self.retry_task_at(task_id, now);
        assert(self@ == old(self)@.retried(task_id@, now) && (match retried {
            Some(t) => t@ == old(self)@.task(task_id@).unwrap().retried(now),
            None => true,
        }));
        retried
    }

    /// Queues the task of `task_id` again at time `now`. Only a failed task
    /// with retries left can be retried: it then waits again with one more
    /// retry counted, no error, no progress and no completion time, and a
    /// copy of it comes back. Otherwise `None` comes back and nothing
    /// changes.
    pub fn retry_task_at(&mut self, task_id: &str, now: i64) -> (retried: Option<TaskInfo>)
        requires
            old(self)@.wf(),
        ensures
            retried.is_some() == old(self)@.can_retry(task_id@),
            final(self)@ == old(self)@.retried(task_id@, now),
            match retried {
                Some(t) => t@ == old(self)@.task(task_id@).unwrap().retried(now),
                None => true,
            },
            final(self)@.wf(),
    {
        let ghost change = retry(now);
        proof {
            lemma_update_where_id(self@.tasks, task_id@, change);
        }
        match find_index(&self.tasks, task_id) {
            Some(i) => {
                let ghost before = self@.tasks[i as int];
                proof {
                    lemma_lookup_at(self@.tasks, i as int);
                    lemma_update_at(self@.tasks, i as int, change);
                }
                if !self.tasks[i].can_retry() {
                    return None;
                }
                let retry_count: u8 = self.tasks[i].retry_count + 1;
                self.tasks[i].retry_count = retry_count;
                self.tasks[i].status = TaskStatus::Pending;
                self.tasks[i].error = None;
                self.tasks[i].progress = 0;
                self.tasks[i].updated_at = now;
                self.tasks[i].completed_at = None;
                assert(self@.tasks =~= old(self)@.tasks.update(i as int, change(before)));
                if self.tasks[i].persistent {
                    match &mut self.persistence {
                        Some(store) => {
                            proof {
                                lemma_update_where_id(
                                    store@,
                                    task_id@,
                                    set_retry_fields(retry_count, now),
                                );
                            }
                            store.update_retry_count(task_id, retry_count, now);
                        },
                        None => {},
                    }
                }
                Some(self.tasks[i].clone())
            },
            None => None,
        }
    }

    /// Takes the task of `task_id` out of memory and, where it is
    /// persistent, out of the durable table, and hands it back.
    pub fn remove_task(&mut self, task_id: &str) -> (removed: Option<TaskInfo>)
        requires
            old(self)@.wf(),
        ensures
            final(self)@ == old(self)@.removed(task_id@),
            match removed {
                Some(t) => old(self)@.task(task_id@) == Some(t@),
                None => old(self)@.task(task_id@).is_none(),
            },
            final(self)@.wf(),
    {
        let removed = remove_by_id(&mut self.tasks, task_id);
        match &removed {
            Some(task) => {
                if task.persistent {
                    match &mut self.persistence {
                        Some(store) => {
                            let _ = store.delete_task(task_id);
                        },
                        None => {},
                    }
                }
            },
            None => {},
        }
        removed
    }

    /// Drops the tasks that completed more than `max_age_ms` before the
    /// current time.
    pub fn cleanup_completed(&mut self, max_age_ms: i64)
        requires
            old(self)@.wf(),
        ensures
            exists|now: i64| final(self)@ == old(self)@.cleaned(max_age_ms, now),
            final(self)@.wf(),
    {
        let now = now_millis();
        self.cleanup_completed_at(max_age_ms, now);
        assert(self@ == old(self)@.cleaned(max_age_ms, now));
    }

    /// Drops from memory every task whose completion time lies before
    /// `now - max_age_ms`, and from the durable table every ended row of
    /// that age. A task without a completion time stays, however old.
    pub fn cleanup_completed_at(&mut self, max_age_ms: i64, now: i64)
        requires
            old(self)@.wf(),
        ensures
            final(self)@ == old(self)@.cleaned(max_age_ms, now),
            final(self)@.wf(),
    {
        let _ = remove_expired(&mut self.tasks, now, max_age_ms, false);
        match &mut self.persistence {
            Some(store) => {
                let _ = store.cleanup_completed_tasks_at(max_age_ms, now);
            },
            None => {},
        }
    }

    /// Recovery at the start of the process, at the current time.
    pub fn load_persistent_tasks(&mut self) -> (loaded: Vec<TaskInfo>)
        requires
            old(self)@.wf(),
        ensures
            exists|now: i64|
                final(self)@ == old(self)@.loaded(now) && records(loaded@) == old(self)@.loadable(
                    now,
                ),
            final(self)@.wf(),
    {
        let now = now_millis();
        let loaded = self.load_persistent_tasks_at(now);
        assert(self@ == old(self)@.loaded(now) && records(loaded@) == old(self)@.loadable(now));
        loaded
    }

    /// Recovery at the start of the process, at time `now`. First every row
    /// that a stopped process left running waits again. Then the persistent
    /// rows that wait or run are put into memory, oldest first, and handed
    /// back. Without a durable table nothing happens.
    pub fn load_persistent_tasks_at(&mut self, now: i64) -> (loaded: Vec<TaskInfo>)
        requires
            old(self)@.wf(),
        ensures
            final(self)@ == old(self)@.loaded(now),
            records(loaded@) == old(self)@.loadable(now),
            final(self)@.wf(),
    {
        let loaded = match &mut self.persistence {
            Some(store) => {
                let _ = store.mark_running_as_pending_at(now);
                store.load_pending_persistent_tasks()
            },
            None => Vec::new(),
        };
        assert(records(loaded@) =~= old(self)@.loadable(now));
        let mut i: usize = 0;
        while i < loaded.len()
            invariant
                i <= loaded.len(),
                self@.store == old(self)@.loaded(now).store,
                self@.wf(),
                self@.tasks == saved_all(old(self)@.tasks, records(loaded@).take(i as int)),
            decreases loaded.len() - i,
        {
            assert(records(loaded@).take(i + 1).drop_last() =~= records(loaded@).take(i as int));
            upsert_task(&mut self.tasks, loaded[i].clone());
            i = i + 1;
        }
        assert(records(loaded@).take(i as int) =~= records(loaded@));
        loaded
    }

    /// The persistent tasks in the durable table that failed and have
    /// retries left, oldest first. Without a durable table there are none.
    pub fn load_retryable_tasks(&self) -> (tasks: Vec<TaskInfo>)
        ensures
            records(tasks@) == match self@.store {
                Some(rows) => selected(rows, is_retryable_persistent()),
                None => Seq::empty(),
            },
    {
        match &self.persistence {
            Some(store) => store.load_retryable_tasks(),
            None => {
                let tasks: Vec<TaskInfo> = Vec::new();
                assert(records(tasks@) =~= Seq::<TaskRecord>::empty());
                tasks
            },
        }
    }

    /// A copy of the type of the task of `task_id`.
    fn task_type_of(&self, task_id: &str) -> (task_type: Option<String>)
        requires
            self@.wf(),
        ensures
            opt_text(task_type) == match self@.task(task_id@) {
                Some(r) => Some(r.task_type),
                None => None,
            },
    {
        match find_index(&self.tasks, task_id) {
            Some(i) => {
                proof {
                    lemma_lookup_at(self@.tasks, i as int);
                }
                Some(self.tasks[i].task_type.clone())
            },
            None => None,
        }
    }

    /// Completes the task as [`complete`](Self::complete) does, and hands
    /// back the event to send. For an unknown identifier there is none.
    pub fn complete_with_emit(&mut self, task_id: &str, result: Option<serde_json::Value>) -> (event:
        Option<TaskEvent>)
        requires
            old(self)@.wf(),
        ensures
            exists|now: i64| final(self)@ == old(self)@.completed(task_id@, result, now),
            opt_notice(event) == old(self)@.completion_notice(task_id@, result),
            final(self)@.wf(),
    {
        let task_type = self.task_type_of(task_id);
        let reported = clone_opt_payload(&result);
        self.complete(task_id, result);
        match task_type {
            Some(task_type) => Some(
                TaskEvent::Completed { task_id: task_id.to_owned(), task_type, result: reported },
            ),
            None => None,
        }
    }

    /// Fails the task as [`fail`](Self::fail) does, and hands back the event
    /// to send. For an unknown identifier there is none.
    pub fn fail_with_emit(&mut self, task_id: &str, error: &str) -> (event: Option<TaskEvent>)
        requires
            old(self)@.wf(),
        ensures
            exists|now: i64| final(self)@ == old(self)@.failed(task_id@, error@, now),
            opt_notice(event) == old(self)@.failure_notice(task_id@, error@),
            final(self)@.wf(),
    {
        let task_type = self.task_type_of(task_id);
        self.fail(task_id, error);
        match task_type {
            Some(task_type) => Some(
                TaskEvent::Failed {
                    task_id: task_id.to_owned(),
                    task_type,
                    error: error.to_owned(),
                },
            ),
            None => None,
        }
    }

    /// Cancels the task as [`cancel`](Self::cancel) does, and hands back the
    /// event to send: there is one exactly when the task was cancelled.
    pub fn cancel_with_emit(&mut self, task_id: &str) -> (event: Option<TaskEvent>)
        requires
            old(self)@.wf(),
        ensures
            exists|now: i64| final(self)@ == old(self)@.cancelled(task_id@, now),
            opt_notice(event) == old(self)@.cancellation_notice(task_id@),
            event.is_some() == old(self)@.can_cancel(task_id@),
            final(self)@.wf(),
    {
        let task_type = self.task_type_of(task_id);
        let done = self.cancel(task_id);
        match task_type {
            Some(task_type) => {
                if done {
                    Some(TaskEvent::Cancelled { task_id: task_id.to_owned(), task_type })
                } else {
                    None
                }
            },
            None => None,
        }
    }

    /// Reports progress as [`update_progress`](Self::update_progress) does,
    /// and hands back the event to send. For an unknown identifier there is
    /// none.
    pub fn update_progress_with_emit(&mut self, task_id: &str, progress: u8, message: Option<String>)
        -> (event: Option<TaskEvent>)
        requires
            old(self)@.wf(),
        ensures
            exists|now: i64|
                final(self)@ == old(self)@.progressed(task_id@, progress, opt_text(message), now),
            opt_notice(event) == old(self)@.progress_notice(task_id@, progress, opt_text(message)),
            final(self)@.wf(),
    {
        let task_type = self.task_type_of(task_id);
        let reported = clone_opt_text(&message);
        self.update_progress(task_id, progress, message);
        match task_type {
            Some(task_type) => Some(
                TaskEvent::Progress {
                    task_id: task_id.to_owned(),
                    task_type,
                    progress: if progress > MAX_PROGRESS {
                        MAX_PROGRESS
                    } else {
                        progress
                    },
                    message: reported,
                },
            ),
            None => None,
        }
    }

    /// Retries the task as [`retry_task`](Self::retry_task) does, and hands
    /// back the task with the event to send: both exactly when the retry
    /// applied.
    pub fn retry_task_with_emit(&mut self, task_id: &str) -> (outcome: (
        Option<TaskInfo>,
        Option<TaskEvent>,
    ))
        requires
            old(self)@.wf(),
        ensures
            outcome.0.is_some() == old(self)@.can_retry(task_id@),
            exists|now: i64|
                final(self)@ == old(self)@.retried(task_id@, now) && (match outcome.0 {
                    Some(t) => t@ == old(self)@.task(task_id@).unwrap().retried(now),
                    None => true,
                }),
            opt_notice(outcome.1) == old(self)@.retry_notice(task_id@),
            final(self)@.wf(),
    {
        let retried = self.retry_task(task_id);
        let event = match &retried {
            Some(task) => Some(
                TaskEvent::Retry {
                    task_id: task_id.to_owned(),
                    task_type: task.task_type.clone(),
                    retry_count: task.retry_count,
                    max_retries: task.max_retries,
                },
            ),
            None => None,
        };
        (retried, event)
    }
}

} // verus!
