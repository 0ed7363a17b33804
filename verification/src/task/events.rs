//! What the registry reports to a listener when a task moves on.

use vstd::prelude::*;
use super::info::opt_text;

verus! {

/// One notification about a task. The registry hands it back; sending it
/// is the caller's business, and a failed delivery changes nothing here.
#[derive(Debug)]
pub enum TaskEvent {
    Completed { task_id: String, task_type: String, result: Option<serde_json::Value> },
    Failed { task_id: String, task_type: String, error: String },
    Cancelled { task_id: String, task_type: String },
    Progress { task_id: String, task_type: String, progress: u8, message: Option<String> },
    Retry { task_id: String, task_type: String, retry_count: u8, max_retries: u8 },
}

/// What a [`TaskEvent`] holds, with each text as a sequence of characters.
pub enum TaskNotice {
    Completed { task_id: Seq<char>, task_type: Seq<char>, result: Option<serde_json::Value> },
    Failed { task_id: Seq<char>, task_type: Seq<char>, error: Seq<char> },
    Cancelled { task_id: Seq<char>, task_type: Seq<char> },
    Progress { task_id: Seq<char>, task_type: Seq<char>, progress: u8, message: Option<Seq<char>> },
    Retry { task_id: Seq<char>, task_type: Seq<char>, retry_count: u8, max_retries: u8 },
}

impl TaskNotice {
    /// What goes out with the notice: the task's identifier and type
    /// first, then what the kind of notice adds.
    pub open spec fn payload(self) -> Seq<PayloadEntry> {
        match self {
            TaskNotice::Completed { task_id, task_type, result } => seq![
                text_entry("taskId"@, task_id),
                text_entry("taskType"@, task_type),
                opt_json_entry("result"@, result),
            ],
            TaskNotice::Failed { task_id, task_type, error } => seq![
                text_entry("taskId"@, task_id),
                text_entry("taskType"@, task_type),
                text_entry("error"@, error),
            ],
            TaskNotice::Cancelled { task_id, task_type } => seq![
                text_entry("taskId"@, task_id),
                text_entry("taskType"@, task_type),
            ],
            TaskNotice::Progress { task_id, task_type, progress, message } => seq![
                text_entry("taskId"@, task_id),
                text_entry("taskType"@, task_type),
                number_entry("progress"@, progress as u64),
                opt_text_entry("message"@, message),
            ],
            TaskNotice::Retry { task_id, task_type, retry_count, max_retries } => seq![
                text_entry("taskId"@, task_id),
                text_entry("taskType"@, task_type),
                number_entry("retryCount"@, retry_count as u64),
                number_entry("maxRetries"@, max_retries as u64),
            ],
        }
    }

    /// The name of the channel on which the notice goes out.
    pub open spec fn name(self) -> Seq<char> {
        match self {
            TaskNotice::Completed { .. } => "task:completed"@,
            TaskNotice::Failed { .. } => "task:failed"@,
            TaskNotice::Cancelled { .. } => "task:cancelled"@,
            TaskNotice::Progress { .. } => "task:progress"@,
            TaskNotice::Retry { .. } => "task:retry"@,
        }
    }
}

impl View for TaskEvent {
    type V = TaskNotice;

    open spec fn view(&self) -> TaskNotice {
        match *self {
            TaskEvent::Completed { task_id, task_type, result } => TaskNotice::Completed {
                task_id: task_id@,
                task_type: task_type@,
                result,
            },
            TaskEvent::Failed { task_id, task_type, error } => TaskNotice::Failed {
                task_id: task_id@,
                task_type: task_type@,
                error: error@,
            },
            TaskEvent::Cancelled { task_id, task_type } => TaskNotice::Cancelled {
                task_id: task_id@,
                task_type: task_type@,
            },
            TaskEvent::Progress { task_id, task_type, progress, message } => TaskNotice::Progress {
                task_id: task_id@,
                task_type: task_type@,
                progress,
                message: opt_text(message),
            },
            TaskEvent::Retry { task_id, task_type, retry_count, max_retries } => TaskNotice::Retry {
                task_id: task_id@,
                task_type: task_type@,
                retry_count,
                max_retries,
            },
        }
    }
}

/// One value of a payload that goes to the user interface.
#[derive(Debug)]
pub enum PayloadValue {
    Null,
    Text(String),
    Number(u64),
    Json(serde_json::Value),
}

/// One entry of a payload: a key and its value.
#[derive(Debug)]
pub struct PayloadField {
    pub key: String,
    pub value: PayloadValue,
}

/// What a [`PayloadValue`] holds, with text as a sequence of characters.
pub enum PayloadItem {
    Null,
    Text(Seq<char>),
    Number(u64),
    Json(serde_json::Value),
}

/// What a [`PayloadField`] holds.
pub struct PayloadEntry {
    pub key: Seq<char>,
    pub value: PayloadItem,
}

impl View for PayloadValue {
    type V = PayloadItem;

    open spec fn view(&self) -> PayloadItem {
        match *self {
            PayloadValue::Null => PayloadItem::Null,
            PayloadValue::Text(t) => PayloadItem::Text(t@),
            PayloadValue::Number(n) => PayloadItem::Number(n),
            PayloadValue::Json(v) => PayloadItem::Json(v),
        }
    }
}

impl View for PayloadField {
    type V = PayloadEntry;

    open spec fn view(&self) -> PayloadEntry {
        PayloadEntry { key: self.key@, value: self.value@ }
    }
}

/// The entries of a vector of fields, in its order.
pub open spec fn entries(fields: Seq<PayloadField>) -> Seq<PayloadEntry> {
    fields.map_values(|f: PayloadField| f@)
}

/// The entry of a text under `key`.
pub open spec fn text_entry(key: Seq<char>, text: Seq<char>) -> PayloadEntry {
    PayloadEntry { key, value: PayloadItem::Text(text) }
}

/// The entry of a number under `key`.
pub open spec fn number_entry(key: Seq<char>, number: u64) -> PayloadEntry {
    PayloadEntry { key, value: PayloadItem::Number(number) }
}

/// The entry of an optional text under `key`: null where there is none.
pub open spec fn opt_text_entry(key: Seq<char>, text: Option<Seq<char>>) -> PayloadEntry {
    PayloadEntry {
        key,
        value: match text {
            Some(t) => PayloadItem::Text(t),
            None => PayloadItem::Null,
        },
    }
}

/// The entry of an optional JSON value under `key`: null where there is
/// none.
pub open spec fn opt_json_entry(key: Seq<char>, value: Option<serde_json::Value>) -> PayloadEntry {
    PayloadEntry {
        key,
        value: match value {
            Some(v) => PayloadItem::Json(v),
            None => PayloadItem::Null,
        },
    }
}

/// A field that holds `text` under `key`.
pub fn text_field(key: &str, text: &str) -> (field: PayloadField)
    ensures
        field@ == text_entry(key@, text@),
{
    PayloadField { key: key.to_owned(), value: PayloadValue::Text(text.to_owned()) }
}

/// A field that holds `number` under `key`.
pub fn number_field(key: &str, number: u64) -> (field: PayloadField)
    ensures
        field@ == number_entry(key@, number),
{
    PayloadField { key: key.to_owned(), value: PayloadValue::Number(number) }
}

/// The notice of an event that may be absent.
pub open spec fn opt_notice(event: Option<TaskEvent>) -> Option<TaskNotice> {
    match event {
        Some(e) => Some(e@),
        None => None,
    }
}

impl TaskEvent {
    /// What goes out with the event, entry by entry.
    pub fn payload(&self) -> (fields: Vec<PayloadField>)
        ensures
            entries(fields@) == self@.payload(),
    {
        let mut fields: Vec<PayloadField> = Vec::new();
        match self {
            TaskEvent::Completed { task_id, task_type, result } => {
                fields.push(text_field("taskId", task_id.as_str()));
                fields.push(text_field("taskType", task_type.as_str()));
                fields.push(
                    PayloadField {
                        key: "result".to_owned(),
                        value: match result {
                            Some(v) => PayloadValue::Json(v.clone()),
                            None => PayloadValue::Null,
                        },
                    },
                );
            },
            TaskEvent::Failed { task_id, task_type, error } => {
                fields.push(text_field("taskId", task_id.as_str()));
                fields.push(text_field("taskType", task_type.as_str()));
                fields.push(text_field("error", error.as_str()));
            },
            TaskEvent::Cancelled { task_id, task_type } => {
                fields.push(text_field("taskId", task_id.as_str()));
                fields.push(text_field("taskType", task_type.as_str()));
            },
            TaskEvent::Progress { task_id, task_type, progress, message } => {
                fields.push(text_field("taskId", task_id.as_str()));
                fields.push(text_field("taskType", task_type.as_str()));
                fields.push(number_field("progress", *progress as u64));
                fields.push(
                    PayloadField {
                        key: "message".to_owned(),
                        value: match message {
                            Some(m) => PayloadValue::Text(m.clone()),
                            None => PayloadValue::Null,
                        },
                    },
                );
            },
            TaskEvent::Retry { task_id, task_type, retry_count, max_retries } => {
                fields.push(text_field("taskId", task_id.as_str()));
                fields.push(text_field("taskType", task_type.as_str()));
                fields.push(number_field("retryCount", *retry_count as u64));
                fields.push(number_field("maxRetries", *max_retries as u64));
            },
        }
        assert(entries(fields@) =~= self@.payload());
        fields
    }

    /// The name of the channel on which the event goes out.
    pub fn event_name(&self) -> (name: &'static str)
        ensures
            name@ == self@.name(),
    {
        match self {
            TaskEvent::Completed { .. } => "task:completed",
            TaskEvent::Failed { .. } => "task:failed",
            TaskEvent::Cancelled { .. } => "task:cancelled",
            TaskEvent::Progress { .. } => "task:progress",
            TaskEvent::Retry { .. } => "task:retry",
        }
    }
}

} // verus!
