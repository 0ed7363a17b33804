//! The row of a task as a durable backend stores it: the status by its
//! name, each payload as JSON text, the persistence flag as a number.

use vstd::prelude::*;
use crate::payload::{json_reading, json_text, payload_from_text, payload_to_text};
use super::info::{clone_opt_text, opt_text, TaskInfo, TaskRecord};
use super::status::{status_name, status_of_name, status_to_string, string_to_status};

verus! {

/// One row of the durable schema.
#[derive(Debug)]
pub struct TaskRow {
    pub id: String,
    pub task_type: String,
    pub status: String,
    pub progress: u8,
    pub message: Option<String>,
    pub result: Option<String>,
    pub error: Option<String>,
    pub retry_count: u8,
    pub max_retries: u8,
    pub retry_delay_ms: u64,
    pub input: Option<String>,
    pub persistent: i32,
    pub created_at: i64,
    pub updated_at: i64,
    pub completed_at: Option<i64>,
}

/// What a [`TaskRow`] holds, with each text as a sequence of characters.
pub struct RowRecord {
    pub id: Seq<char>,
    pub task_type: Seq<char>,
    pub status: Seq<char>,
    pub progress: u8,
    pub message: Option<Seq<char>>,
    pub result: Option<Seq<char>>,
    pub error: Option<Seq<char>>,
    pub retry_count: u8,
    pub max_retries: u8,
    pub retry_delay_ms: u64,
    pub input: Option<Seq<char>>,
    pub persistent: i32,
    pub created_at: i64,
    pub updated_at: i64,
    pub completed_at: Option<i64>,
}

impl View for TaskRow {
    type V = RowRecord;

    open spec fn view(&self) -> RowRecord {
        RowRecord {
            id: self.id@,
            task_type: self.task_type@,
            status: self.status@,
            progress: self.progress,
            message: opt_text(self.message),
            result: opt_text(self.result),
            error: opt_text(self.error),
            retry_count: self.retry_count,
            max_retries: self.max_retries,
            retry_delay_ms: self.retry_delay_ms,
            input: opt_text(self.input),
            persistent: self.persistent,
            created_at: self.created_at,
            updated_at: self.updated_at,
            completed_at: self.completed_at,
        }
    }
}

/// The JSON text of an optional payload.
pub open spec fn opt_json_text(value: Option<serde_json::Value>) -> Option<Seq<char>> {
    match value {
        Some(v) => Some(json_text(v)),
        None => None,
    }
}

/// What reading a stored payload gives: the text of the value read, or
/// nothing where no payload was stored or the stored text is no JSON.
pub open spec fn opt_json_reading(text: Option<Seq<char>>) -> Option<Seq<char>> {
    match text {
        Some(t) => json_reading(t),
        None => None,
    }
}

/// The row that stores the record `r`.
pub open spec fn row_of(r: TaskRecord) -> RowRecord {
    RowRecord {
        id: r.id,
        task_type: r.task_type,
        status: status_name(r.status),
        progress: r.progress,
        message: r.message,
        result: opt_json_text(r.result),
        error: r.error,
        retry_count: r.retry_count,
        max_retries: r.max_retries,
        retry_delay_ms: r.retry_delay_ms,
        input: opt_json_text(r.input),
        persistent: if r.persistent {
            1
        } else {
            0
        },
        created_at: r.created_at,
        updated_at: r.updated_at,
        completed_at: r.completed_at,
    }
}

/// Whether the record `r` is what the row `row` reads as: the status by its
/// name, with `Pending` for an unknown name; persistent unless the flag is
/// 0; each payload as `serde_json` reads its text; every other column as it
/// stands.
pub open spec fn reads_as(row: RowRecord, r: TaskRecord) -> bool {
    &&& r.id == row.id
    &&& r.task_type == row.task_type
    &&& r.status == status_of_name(row.status)
    &&& r.progress == row.progress
    &&& r.message == row.message
    &&& opt_json_text(r.result) == opt_json_reading(row.result)
    &&& r.error == row.error
    &&& r.retry_count == row.retry_count
    &&& r.max_retries == row.max_retries
    &&& r.retry_delay_ms == row.retry_delay_ms
    &&& opt_json_text(r.input) == opt_json_reading(row.input)
    &&& r.persistent == (row.persistent != 0)
    &&& r.created_at == row.created_at
    &&& r.updated_at == row.updated_at
    &&& r.completed_at == row.completed_at
}

/// The JSON text of an optional payload.
fn write_payload(value: &Option<serde_json::Value>) -> (text: Option<String>)
    ensures
        opt_text(text) == opt_json_text(*value),
{
    match value {
        Some(v) => Some(payload_to_text(v)),
        None => None,
    }
}

/// The payload that a stored text holds.
fn read_payload(text: &Option<String>) -> (value: Option<serde_json::Value>)
    ensures
        opt_json_text(value) == opt_json_reading(opt_text(*text)),
{
    match text {
        Some(t) => payload_from_text(t.as_str()),
        None => None,
    }
}

/// The row that stores `task`.
pub fn task_to_row(task: &TaskInfo) -> (row: TaskRow)
    ensures
        row@ == row_of(task@),
{
    TaskRow {
        id: task.id.clone(),
        task_type: task.task_type.clone(),
        status: status_to_string(&task.status).to_owned(),
        progress: task.progress,
        message: clone_opt_text(&task.message),
        result: write_payload(&task.result),
        error: clone_opt_text(&task.error),
        retry_count: task.retry_count,
        max_retries: task.max_retries,
        retry_delay_ms: task.retry_delay_ms,
        input: write_payload(&task.input),
        persistent: if task.persistent {
            1
        } else {
            0
        },
        created_at: task.created_at,
        updated_at: task.updated_at,
        completed_at: task.completed_at,
    }
}

/// The task that `row` stores.
pub fn row_to_task_info(row: &TaskRow) -> (task: TaskInfo)
    ensures
        reads_as(row@, task@),
{
    TaskInfo {
        id: row.id.clone(),
        task_type: row.task_type.clone(),
        status: string_to_status(row.status.as_str()),
        progress: row.progress,
        message: clone_opt_text(&row.message),
        result: read_payload(&row.result),
        error: clone_opt_text(&row.error),
        retry_count: row.retry_count,
        max_retries: row.max_retries,
        retry_delay_ms: row.retry_delay_ms,
        input: read_payload(&row.input),
        persistent: row.persistent != 0,
        created_at: row.created_at,
        updated_at: row.updated_at,
        completed_at: row.completed_at,
    }
}

/// The rows that store `tasks`, one for each task and in their order.
pub fn tasks_to_rows(tasks: &Vec<TaskInfo>) -> (rows: Vec<TaskRow>)
    ensures
        rows.len() == tasks.len(),
        forall|i: int| 0 <= i < rows.len() ==> (#[trigger] rows[i])@ == row_of(tasks[i]@),
{
    let mut rows: Vec<TaskRow> = Vec::new();
    let mut i: usize = 0;
    while i < tasks.len()
        invariant
            i <= tasks.len(),
            rows.len() == i,
            forall|j: int| 0 <= j < i ==> (#[trigger] rows[j])@ == row_of(tasks[j]@),
        decreases tasks.len() - i,
    {
        rows.push(task_to_row(&tasks[i]));
        i = i + 1;
    }
    rows
}

/// The tasks that `rows` store, one for each row and in their order.
pub fn rows_to_tasks(rows: &Vec<TaskRow>) -> (tasks: Vec<TaskInfo>)
    ensures
        tasks.len() == rows.len(),
        forall|i: int| 0 <= i < tasks.len() ==> reads_as(rows[i]@, (#[trigger] tasks[i])@),
{
    let mut tasks: Vec<TaskInfo> = Vec::new();
    let mut i: usize = 0;
    while i < rows.len()
        invariant
            i <= rows.len(),
            tasks.len() == i,
            forall|j: int| 0 <= j < i ==> reads_as(rows[j]@, (#[trigger] tasks[j])@),
        decreases rows.len() - i,
    {
        tasks.push(row_to_task_info(&rows[i]));
        i = i + 1;
    }
    tasks
}

/// Writing a task to a row and reading the row gives the task back in every
/// column that is no payload, and each payload as `serde_json` reads the
/// text that it wrote.
pub proof fn law_row_round_trip(written: TaskRecord, read: TaskRecord)
    requires
        reads_as(row_of(written), read),
    ensures
        read.id == written.id,
        read.task_type == written.task_type,
        read.status == written.status,
        read.progress == written.progress,
        read.message == written.message,
        read.error == written.error,
        read.retry_count == written.retry_count,
        read.max_retries == written.max_retries,
        read.retry_delay_ms == written.retry_delay_ms,
        read.persistent == written.persistent,
        read.created_at == written.created_at,
        read.updated_at == written.updated_at,
        read.completed_at == written.completed_at,
        opt_json_text(read.result) == opt_json_reading(opt_json_text(written.result)),
        opt_json_text(read.input) == opt_json_reading(opt_json_text(written.input)),
{
    super::status::lemma_status_name_round_trip(written.status);
}

} // verus!
