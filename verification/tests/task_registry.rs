use open_context::task::commands::{
    cancel_task, cleanup_tasks, clone_branch, clone_repository_task, get_task, import_files_task,
    import_progress, index_repository_task, list_tasks, routine_completed,
};
use open_context::task::events::{PayloadField, PayloadValue};
use open_context::task::row::{rows_to_tasks, tasks_to_rows};
use open_context::dto::{CloneRepositoryTaskDto, ImportFilesTaskDto, IndexRepositoryTaskDto};
use open_context::task::events::TaskEvent;
use open_context::task::info::{TaskId, TaskInfo};
use open_context::task::manager::TaskManager;
use open_context::task::status::TaskStatus;
use open_context::task::store::TaskStateManager;
use serde_json::{Number, Value};
use std::sync::{Arc, Mutex};

fn shown(fields: &[PayloadField]) -> Vec<(String, String)> {
    fields
        .iter()
        .map(|f| {
            let value = match &f.value {
                PayloadValue::Null => "null".to_string(),
                PayloadValue::Text(t) => format!("text {}", t),
                PayloadValue::Number(n) => format!("number {}", n),
                PayloadValue::Json(v) => format!("json {}", v),
            };
            (f.key.clone(), value)
        })
        .collect()
}

fn pairs(entries: &[(&str, &str)]) -> Vec<(String, String)> {
    entries.iter().map(|(k, v)| (k.to_string(), v.to_string())).collect()
}

fn object(key: &str, value: Value) -> Value {
    let mut map = serde_json::Map::new();
    map.insert(key.to_string(), value);
    Value::Object(map)
}

#[test]
fn app_task_test_task_lifecycle() {
    let mut manager = TaskManager::new();

    let task = manager.create_task("test_task");
    assert_eq!(task.status, TaskStatus::Pending);

    manager.set_running(&task.id);
    let updated = manager.get_task(&task.id).unwrap();
    assert_eq!(updated.status, TaskStatus::Running);

    manager.update_progress(&task.id, 50, Some("Half done".to_string()));
    let updated = manager.get_task(&task.id).unwrap();
    assert_eq!(updated.progress, 50);

    manager.complete(&task.id, Some(object("result", Value::String("success".to_string()))));
    let completed = manager.get_task(&task.id).unwrap();
    assert_eq!(completed.status, TaskStatus::Completed);
    assert_eq!(completed.progress, 100);
}

#[test]
fn app_task_test_task_failure() {
    let mut manager = TaskManager::new();
    let task = manager.create_task("failing_task");

    manager.set_running(&task.id);
    manager.fail(&task.id, "Something went wrong");

    let failed = manager.get_task(&task.id).unwrap();
    assert_eq!(failed.status, TaskStatus::Failed);
    assert_eq!(failed.error, Some("Something went wrong".to_string()));
}

#[test]
fn app_task_test_task_cancellation() {
    let mut manager = TaskManager::new();
    let task = manager.create_task("cancellable_task");

    assert!(manager.cancel(&task.id));
    let cancelled = manager.get_task(&task.id).unwrap();
    assert_eq!(cancelled.status, TaskStatus::Cancelled);
}

#[test]
fn new_task_starts_pending_with_defaults() {
    let task = TaskInfo::new_at("t-1".to_string(), "import_files", 1_000);
    assert_eq!(task.id, "t-1");
    assert_eq!(task.task_type, "import_files");
    assert_eq!(task.status, TaskStatus::Pending);
    assert_eq!(task.progress, 0);
    assert_eq!(task.message, None);
    assert_eq!(task.result, None);
    assert_eq!(task.error, None);
    assert_eq!(task.created_at, 1_000);
    assert_eq!(task.updated_at, 1_000);
    assert_eq!(task.completed_at, None);
    assert_eq!(task.retry_count, 0);
    assert_eq!(task.max_retries, 3);
    assert_eq!(task.retry_delay_ms, 1000);
    assert_eq!(task.input, None);
    assert!(!task.persistent);
}

#[test]
fn fresh_identifiers_differ_and_are_hyphenated() {
    let a = TaskId::new();
    let b = TaskId::default();
    assert_ne!(a.as_str(), b.as_str());
    assert_eq!(a.as_str().len(), 36);
    let task = TaskInfo::new("kind");
    assert_eq!(task.id.len(), 36);
    assert!(task.created_at > 0);
    assert_eq!(task.created_at, task.updated_at);
}

#[test]
fn fresh_identifiers_are_random_uuids_in_lower_case() {
    for _ in 0..200 {
        let id = TaskId::new();
        let text: Vec<char> = id.as_str().chars().collect();
        assert_eq!(text.len(), 36);
        for (i, c) in text.iter().enumerate() {
            if i == 8 || i == 13 || i == 18 || i == 23 {
                assert_eq!(*c, '-');
            } else {
                assert!(matches!(*c, '0'..='9' | 'a'..='f'));
            }
        }
        assert_eq!(text[14], '4');
        assert!(matches!(text[19], '8' | '9' | 'a' | 'b'));
    }
}

#[test]
fn builders_set_one_field_each() {
    let task = TaskInfo::new_at("a".to_string(), "kind", 5)
        .with_id("b")
        .with_input(Value::Bool(true))
        .with_max_retries(9)
        .with_retry_delay(250)
        .with_persistent(true);
    assert_eq!(task.id, "b");
    assert_eq!(task.input, Some(Value::Bool(true)));
    assert_eq!(task.max_retries, 9);
    assert_eq!(task.retry_delay_ms, 250);
    assert!(task.persistent);
    assert_eq!(task.task_type, "kind");
    assert_eq!(task.created_at, 5);
}

#[test]
fn import_files_runs_to_completion() {
    let mut manager = TaskManager::new();
    let task = manager.create_task_at("s-a".to_string(), "import_files", 10);
    assert_eq!(task.status, TaskStatus::Pending);
    assert_eq!(task.progress, 0);

    manager.set_running_at("s-a", 11);
    let running = manager.get_task("s-a").unwrap();
    assert_eq!(running.status, TaskStatus::Running);
    assert_eq!(running.updated_at, 11);
    assert_eq!(running.completed_at, None);

    manager.update_progress_at("s-a", 50, Some("halfway".to_string()), 12);
    let half = manager.get_task("s-a").unwrap();
    assert_eq!(half.progress, 50);
    assert_eq!(half.message, Some("halfway".to_string()));
    assert_eq!(half.status, TaskStatus::Running);

    let result = object("imported", Value::Number(Number::from(3)));
    manager.complete_at("s-a", Some(result.clone()), 13);
    let done = manager.get_task("s-a").unwrap();
    assert_eq!(done.status, TaskStatus::Completed);
    assert_eq!(done.progress, 100);
    assert_eq!(done.result, Some(result));
    assert_eq!(done.completed_at, Some(13));
    assert_eq!(done.updated_at, 13);
    assert_eq!(done.message, Some("halfway".to_string()));
}

#[test]
fn retries_are_bounded() {
    let mut manager = TaskManager::with_persistence(TaskStateManager::new());
    let input = object("url", Value::String("https://example.com/repo.git".to_string()));
    let task = manager.create_persistent_task_with_input("clone_repo", input.clone(), 3);
    assert!(task.persistent);
    assert_eq!(task.max_retries, 3);
    assert_eq!(task.input, Some(input));

    for expected in 1..=3u8 {
        manager.fail(&task.id, "network error");
        let failed = manager.get_task(&task.id).unwrap();
        assert_eq!(failed.status, TaskStatus::Failed);
        assert_eq!(failed.error, Some("network error".to_string()));
        assert!(failed.completed_at.is_some());

        let retried = manager.retry_task(&task.id).unwrap();
        assert_eq!(retried.retry_count, expected);
        assert_eq!(retried.status, TaskStatus::Pending);
        assert_eq!(retried.error, None);
        assert_eq!(retried.progress, 0);
        assert_eq!(retried.completed_at, None);
    }

    manager.fail(&task.id, "network error");
    let before = manager.get_task(&task.id).unwrap();
    assert!(manager.retry_task(&task.id).is_none());
    let after = manager.get_task(&task.id).unwrap();
    assert_eq!(after.retry_count, 3);
    assert_eq!(after.status, TaskStatus::Failed);
    assert_eq!(after.updated_at, before.updated_at);
}

#[test]
fn concurrent_progress_is_one_of_the_two() {
    for order in [[40u8, 60u8], [60u8, 40u8]] {
        let mut manager = TaskManager::new();
        manager.create_task_at("s-c".to_string(), "index", 1);
        let shared = Arc::new(Mutex::new(manager));
        for pct in order {
            let registry = Arc::clone(&shared);
            registry.lock().unwrap().update_progress("s-c", pct, None);
        }
        let progress = shared.lock().unwrap().get_task("s-c").unwrap().progress;
        assert!(progress == 40 || progress == 60);
        assert_eq!(progress, order[1]);
    }
}

#[test]
fn progress_is_clamped_to_100() {
    let mut manager = TaskManager::new();
    manager.create_task_at("p".to_string(), "kind", 1);
    for (pct, stored) in [(0u8, 0u8), (1, 1), (99, 99), (100, 100), (101, 100), (255, 100)] {
        manager.update_progress_at("p", pct, None, 2);
        assert_eq!(manager.get_task("p").unwrap().progress, stored);
    }
    manager.update_progress_at("p", 30, Some("first".to_string()), 3);
    manager.update_progress_at("p", 20, None, 4);
    let task = manager.get_task("p").unwrap();
    assert_eq!(task.progress, 20);
    assert_eq!(task.message, None);
    assert_eq!(task.status, TaskStatus::Pending);
    assert_eq!(task.updated_at, 4);
}

#[test]
fn unknown_identifier_changes_nothing() {
    let mut manager = TaskManager::new();
    manager.create_task_at("known".to_string(), "kind", 1);
    manager.set_running_at("ghost", 2);
    manager.update_progress_at("ghost", 50, None, 2);
    manager.complete_at("ghost", None, 2);
    manager.fail_at("ghost", "x", 2);
    assert!(!manager.cancel_at("ghost", 2));
    assert!(manager.retry_task_at("ghost", 2).is_none());
    assert!(manager.remove_task("ghost").is_none());
    assert!(manager.get_task("ghost").is_none());
    let known = manager.get_task("known").unwrap();
    assert_eq!(known.status, TaskStatus::Pending);
    assert_eq!(known.updated_at, 1);
    assert_eq!(manager.list_tasks().len(), 1);
}

#[test]
fn complete_overrides_any_prior_state() {
    let mut manager = TaskManager::new();
    manager.create_task_at("c".to_string(), "kind", 1);
    manager.update_progress_at("c", 7, None, 2);
    manager.fail_at("c", "boom", 3);
    manager.complete_at("c", None, 4);
    let task = manager.get_task("c").unwrap();
    assert_eq!(task.status, TaskStatus::Completed);
    assert_eq!(task.progress, 100);
    assert_eq!(task.result, None);
    assert_eq!(task.completed_at, Some(4));
    assert_eq!(task.error, Some("boom".to_string()));
}

#[test]
fn cancel_applies_only_to_pending_and_running() {
    let mut manager = TaskManager::new();
    manager.create_task_at("pending".to_string(), "kind", 1);
    manager.create_task_at("running".to_string(), "kind", 1);
    manager.create_task_at("completed".to_string(), "kind", 1);
    manager.create_task_at("failed".to_string(), "kind", 1);
    manager.create_task_at("cancelled".to_string(), "kind", 1);
    manager.set_running_at("running", 2);
    manager.complete_at("completed", None, 2);
    manager.fail_at("failed", "e", 2);
    assert!(manager.cancel_at("cancelled", 2));

    assert!(manager.cancel_at("pending", 9));
    assert!(manager.cancel_at("running", 9));
    for id in ["pending", "running"] {
        let task = manager.get_task(id).unwrap();
        assert_eq!(task.status, TaskStatus::Cancelled);
        assert_eq!(task.completed_at, Some(9));
        assert_eq!(task.updated_at, 9);
    }
    for (id, status) in [
        ("completed", TaskStatus::Completed),
        ("failed", TaskStatus::Failed),
        ("cancelled", TaskStatus::Cancelled),
    ] {
        assert!(!manager.cancel_at(id, 9));
        let task = manager.get_task(id).unwrap();
        assert_eq!(task.status, status);
        assert_eq!(task.completed_at, Some(2));
        assert_eq!(task.updated_at, 2);
    }
    assert!(!manager.cancel_at("unknown", 9));
}

#[test]
fn retry_needs_a_failed_task_with_retries_left() {
    let mut manager = TaskManager::new();
    manager.create_task_at("r".to_string(), "kind", 1);
    assert!(manager.retry_task_at("r", 2).is_none());
    manager.set_running_at("r", 2);
    assert!(manager.retry_task_at("r", 3).is_none());
    manager.complete_at("r", None, 3);
    assert!(manager.retry_task_at("r", 4).is_none());
    assert_eq!(manager.get_task("r").unwrap().status, TaskStatus::Completed);

    manager.add_task(TaskInfo::new_at("z".to_string(), "kind", 1).with_max_retries(0));
    manager.fail_at("z", "e", 2);
    assert!(manager.retry_task_at("z", 3).is_none());
    assert_eq!(manager.get_task("z").unwrap().retry_count, 0);

    manager.fail_at("r", "late", 5);
    manager.update_progress_at("r", 80, None, 6);
    let retried = manager.retry_task_at("r", 7).unwrap();
    assert_eq!(retried.retry_count, 1);
    assert_eq!(retried.status, TaskStatus::Pending);
    assert_eq!(retried.error, None);
    assert_eq!(retried.progress, 0);
    assert_eq!(retried.completed_at, None);
    assert_eq!(retried.updated_at, 7);
}

#[test]
fn increment_retry_counts_one() {
    let mut task = TaskInfo::new_at("i".to_string(), "kind", 1);
    assert!(!task.can_retry());
    task.status = TaskStatus::Failed;
    task.error = Some("e".to_string());
    task.progress = 40;
    task.completed_at = Some(2);
    assert!(task.can_retry());
    task.increment_retry_at(3);
    assert_eq!(task.retry_count, 1);
    assert_eq!(task.status, TaskStatus::Pending);
    assert_eq!(task.error, None);
    assert_eq!(task.progress, 0);
    assert_eq!(task.completed_at, None);
    assert_eq!(task.updated_at, 3);
    task.status = TaskStatus::Failed;
    task.increment_retry();
    assert_eq!(task.retry_count, 2);
    task.status = TaskStatus::Failed;
    task.retry_count = 3;
    assert!(!task.can_retry());
}

#[test]
fn update_status_keeps_the_completion_time_in_step() {
    let mut manager = TaskManager::new();
    manager.create_task_at("u".to_string(), "kind", 1);
    manager.update_status_at("u", TaskStatus::Running, 2);
    assert_eq!(manager.get_task("u").unwrap().completed_at, None);
    manager.update_status_at("u", TaskStatus::Cancelled, 3);
    assert_eq!(manager.get_task("u").unwrap().completed_at, Some(3));
    manager.update_status_at("u", TaskStatus::Running, 4);
    let task = manager.get_task("u").unwrap();
    assert_eq!((task.status, task.completed_at, task.updated_at), (TaskStatus::Running, None, 4));
    manager.update_status_at("u", TaskStatus::Failed, 5);
    assert_eq!(manager.get_task("u").unwrap().completed_at, Some(5));
    manager.update_status_at("u", TaskStatus::Completed, 6);
    let task = manager.get_task("u").unwrap();
    assert_eq!(task.completed_at, Some(6));
    assert_eq!(task.progress, 0);
    manager.update_status("u", TaskStatus::Pending);
    let task = manager.get_task("u").unwrap();
    assert_eq!(task.status, TaskStatus::Pending);
    assert_eq!(task.completed_at, None);
    for status in [
        TaskStatus::Pending,
        TaskStatus::Running,
        TaskStatus::Completed,
        TaskStatus::Failed,
        TaskStatus::Cancelled,
    ] {
        manager.update_status("u", status);
        let task = manager.get_task("u").unwrap();
        assert_eq!(task.status, status);
        assert_eq!(task.completed_at.is_some(), status.ended());
    }
}

#[test]
fn cleanup_drops_exactly_the_expired() {
    let mut manager = TaskManager::new();
    for id in ["old", "edge", "young", "open"] {
        manager.create_task_at(id.to_string(), "kind", 0);
    }
    manager.complete_at("old", None, 899);
    manager.fail_at("edge", "e", 900);
    manager.complete_at("young", None, 901);
    manager.set_running_at("open", 1);

    manager.cleanup_completed_at(100, 1_000);
    assert!(manager.get_task("old").is_none());
    assert!(manager.get_task("edge").is_some());
    assert!(manager.get_task("young").is_some());
    assert!(manager.get_task("open").is_some());

    manager.cleanup_completed_at(0, i64::MAX);
    assert!(manager.get_task("edge").is_none());
    assert!(manager.get_task("young").is_none());
    assert_eq!(manager.list_tasks().len(), 1);
    assert_eq!(manager.list_tasks()[0].id, "open");

    manager.cleanup_completed_at(i64::MIN, i64::MAX);
    manager.cleanup_completed_at(i64::MAX, i64::MIN);
    assert_eq!(manager.list_tasks().len(), 1);
    manager.cleanup_completed(0);
    assert_eq!(manager.list_tasks().len(), 1);
}

#[test]
fn one_record_for_each_identifier() {
    let mut manager = TaskManager::new();
    manager.create_task_at("same".to_string(), "first", 1);
    manager.create_task_at("other".to_string(), "first", 2);
    manager.create_task_at("same".to_string(), "second", 3);
    let all = manager.list_tasks();
    assert_eq!(all.len(), 2);
    assert_eq!(manager.get_task("same").unwrap().task_type, "second");
    assert_eq!(manager.list_tasks_by_type("first").len(), 1);
    assert_eq!(manager.list_tasks_by_type("first")[0].id, "other");
    assert_eq!(manager.list_tasks_by_type("none").len(), 0);
    let removed = manager.remove_task("same").unwrap();
    assert_eq!(removed.task_type, "second");
    assert!(manager.get_task("same").is_none());
    assert_eq!(manager.list_tasks().len(), 1);
}

#[test]
fn persistent_tasks_are_mirrored_and_others_are_not() {
    let mut manager = TaskManager::with_persistence(TaskStateManager::new());
    manager.create_task_at("mem".to_string(), "kind", 1);
    manager.create_persistent_task_at("disk".to_string(), "kind", 2);
    manager.set_running_at("mem", 3);
    manager.set_running_at("disk", 3);
    manager.update_progress_at("disk", 120, Some("going".to_string()), 4);
    manager.complete_at("mem", None, 5);

    let registry_view = manager.get_task("disk").unwrap();
    assert!(manager.durable_task("mem").is_none());
    assert_eq!(manager.durable_task("disk").unwrap().progress, 100);
    assert_eq!(manager.durable_rows().unwrap().len(), 1);
    assert!(TaskManager::new().durable_rows().is_none());
    assert!(TaskManager::new().durable_task("disk").is_none());
    let store = manager.into_persistence().unwrap();
    assert!(store.get_task("mem").is_none());
    let row = store.get_task("disk").unwrap();
    assert_eq!(row.status, TaskStatus::Running);
    assert_eq!(row.progress, 100);
    assert_eq!(row.message, Some("going".to_string()));
    assert_eq!(row.updated_at, 4);
    assert_eq!(row.updated_at, registry_view.updated_at);
    assert!(row.persistent);
    assert_eq!(store.rows().len(), 1);
}

#[test]
fn every_mutation_of_a_persistent_task_reaches_the_table() {
    let mut manager = TaskManager::with_persistence(TaskStateManager::new());
    let result = Value::String("ok".to_string());
    manager.create_persistent_task_at("a".to_string(), "kind", 1);
    manager.complete_at("a", Some(result.clone()), 2);
    manager.create_persistent_task_at("b".to_string(), "kind", 1);
    manager.fail_at("b", "broken", 3);
    manager.create_persistent_task_at("c".to_string(), "kind", 1);
    manager.cancel_at("c", 4);
    manager.create_persistent_task_at("d".to_string(), "kind", 1);
    manager.fail_at("d", "again", 5);
    manager.retry_task_at("d", 6);
    manager.create_persistent_task_at("e".to_string(), "kind", 1);
    manager.remove_task("e");

    let memory = manager.list_tasks();
    let store = manager.into_persistence().unwrap();
    for task in &memory {
        let row = store.get_task(&task.id).unwrap();
        assert_eq!(row.status, task.status);
        assert_eq!(row.progress, task.progress);
        assert_eq!(row.result, task.result);
        assert_eq!(row.error, task.error);
        assert_eq!(row.retry_count, task.retry_count);
        assert_eq!(row.updated_at, task.updated_at);
        assert_eq!(row.completed_at, task.completed_at);
    }
    assert_eq!(store.get_task("a").unwrap().result, Some(result));
    assert_eq!(store.get_task("b").unwrap().error, Some("broken".to_string()));
    assert_eq!(store.get_task("c").unwrap().status, TaskStatus::Cancelled);
    assert_eq!(store.get_task("d").unwrap().retry_count, 1);
    assert!(store.get_task("e").is_none());
}

#[test]
fn persistent_task_survives_restart() {
    let mut manager = TaskManager::with_persistence(TaskStateManager::new());
    let input = object("path", Value::String("/tmp/repo".to_string()));
    let created = manager.create_persistent_task_with_input("clone_repo", input.clone(), 5);
    manager.create_task("ephemeral");

    let store = manager.into_persistence().unwrap();
    let mut restarted = TaskManager::with_persistence(store);
    assert!(restarted.get_task(&created.id).is_none());
    let loaded = restarted.load_persistent_tasks();
    assert_eq!(loaded.len(), 1);
    let task = restarted.get_task(&created.id).unwrap();
    assert_eq!(task.id, created.id);
    assert_eq!(task.task_type, "clone_repo");
    assert_eq!(task.status, TaskStatus::Pending);
    assert_eq!(task.progress, 0);
    assert_eq!(task.retry_count, 0);
    assert_eq!(task.max_retries, 5);
    assert_eq!(task.input, Some(input));
    assert_eq!(task.created_at, created.created_at);
    assert!(task.persistent);
    assert_eq!(restarted.list_tasks().len(), 1);
}

#[test]
fn persistent_tasks_survive_a_restart_through_stored_rows() {
    let mut manager = TaskManager::with_persistence(TaskStateManager::new());
    let input = object("path", Value::String("/tmp/repo".to_string()));
    let waiting = manager.create_persistent_task_with_input("clone_repo", input.clone(), 5);
    let running = manager.create_persistent_task_at("run".to_string(), "index", 7);
    manager.set_running_at("run", 8);
    manager.update_progress_at("run", 40, Some("going".to_string()), 9);
    manager.create_persistent_task_at("done".to_string(), "index", 7);
    manager.complete_at("done", None, 9);

    let rows = tasks_to_rows(&manager.durable_rows().unwrap());
    assert_eq!(rows.len(), 3);
    let table = TaskStateManager::from_rows(rows_to_tasks(&rows));
    let mut restarted = TaskManager::with_persistence(table);
    let loaded = restarted.load_persistent_tasks_at(100);
    assert_eq!(loaded.len(), 2);

    let back = restarted.get_task(&waiting.id).unwrap();
    assert_eq!(back.id, waiting.id);
    assert_eq!(back.task_type, "clone_repo");
    assert_eq!(back.status, TaskStatus::Pending);
    assert_eq!(back.progress, 0);
    assert_eq!(back.retry_count, 0);
    assert_eq!(back.max_retries, 5);
    assert_eq!(back.input, Some(input));
    assert_eq!(back.updated_at, waiting.updated_at);

    let back = restarted.get_task(&running.id).unwrap();
    assert_eq!(back.status, TaskStatus::Pending);
    assert_eq!(back.progress, 40);
    assert_eq!(back.message, Some("going".to_string()));
    assert_eq!(back.updated_at, 100);
    assert_eq!(back.created_at, 7);
    assert!(restarted.get_task("done").is_none());
}

#[test]
fn restart_requeues_running_tasks_before_loading() {
    let mut manager = TaskManager::with_persistence(TaskStateManager::new());
    manager.create_persistent_task_at("late".to_string(), "kind", 30);
    manager.create_persistent_task_at("early".to_string(), "kind", 10);
    manager.create_persistent_task_at("done".to_string(), "kind", 20);
    manager.create_persistent_task_at("failed".to_string(), "kind", 25);
    manager.set_running_at("late", 31);
    manager.complete_at("done", None, 32);
    manager.fail_at("failed", "e", 33);

    let mut restarted = TaskManager::with_persistence(manager.into_persistence().unwrap());
    let loaded = restarted.load_persistent_tasks_at(100);
    let ids: Vec<&str> = loaded.iter().map(|t| t.id.as_str()).collect();
    assert_eq!(ids, vec!["early", "late"]);
    assert_eq!(loaded[0].status, TaskStatus::Pending);
    assert_eq!(loaded[0].updated_at, 10);
    assert_eq!(loaded[1].status, TaskStatus::Pending);
    assert_eq!(loaded[1].updated_at, 100);
    assert_eq!(restarted.get_task("late").unwrap().status, TaskStatus::Pending);
    assert!(restarted.get_task("done").is_none());

    let retryable = restarted.load_retryable_tasks();
    assert_eq!(retryable.len(), 1);
    assert_eq!(retryable[0].id, "failed");

    let mut plain = TaskManager::default();
    assert!(plain.load_persistent_tasks().is_empty());
    assert!(plain.load_retryable_tasks().is_empty());
    assert!(plain.into_persistence().is_none());
}

#[test]
fn events_report_what_happened() {
    let mut manager = TaskManager::new();
    manager.create_task_at("e".to_string(), "index", 1);

    let progress = manager.update_progress_with_emit("e", 130, Some("far".to_string())).unwrap();
    assert_eq!(progress.event_name(), "task:progress");
    assert_eq!(
        shown(&progress.payload()),
        pairs(&[
            ("taskId", "text e"),
            ("taskType", "text index"),
            ("progress", "number 100"),
            ("message", "text far"),
        ])
    );
    match progress {
        TaskEvent::Progress { task_id, task_type, progress, message } => {
            assert_eq!(task_id, "e");
            assert_eq!(task_type, "index");
            assert_eq!(progress, 100);
            assert_eq!(message, Some("far".to_string()));
        }
        other => panic!("unexpected event {:?}", other),
    }

    let failed = manager.fail_with_emit("e", "disk full").unwrap();
    assert_eq!(failed.event_name(), "task:failed");
    assert_eq!(
        shown(&failed.payload()),
        pairs(&[("taskId", "text e"), ("taskType", "text index"), ("error", "text disk full")])
    );
    match failed {
        TaskEvent::Failed { task_id, task_type, error } => {
            assert_eq!(task_id, "e");
            assert_eq!(task_type, "index");
            assert_eq!(error, "disk full");
        }
        other => panic!("unexpected event {:?}", other),
    }
    assert!(manager.cancel_with_emit("e").is_none());

    let (task, retry) = manager.retry_task_with_emit("e");
    assert_eq!(task.unwrap().retry_count, 1);
    let retry = retry.unwrap();
    assert_eq!(retry.event_name(), "task:retry");
    assert_eq!(
        shown(&retry.payload()),
        pairs(&[
            ("taskId", "text e"),
            ("taskType", "text index"),
            ("retryCount", "number 1"),
            ("maxRetries", "number 3"),
        ])
    );
    match retry {
        TaskEvent::Retry { task_id, task_type, retry_count, max_retries } => {
            assert_eq!(task_id, "e");
            assert_eq!(task_type, "index");
            assert_eq!(retry_count, 1);
            assert_eq!(max_retries, 3);
        }
        other => panic!("unexpected event {:?}", other),
    }
    let (none_task, none_event) = manager.retry_task_with_emit("e");
    assert!(none_task.is_none());
    assert!(none_event.is_none());

    let cancelled = manager.cancel_with_emit("e").unwrap();
    assert_eq!(cancelled.event_name(), "task:cancelled");
    assert_eq!(
        shown(&cancelled.payload()),
        pairs(&[("taskId", "text e"), ("taskType", "text index")])
    );
    assert_eq!(manager.get_task("e").unwrap().status, TaskStatus::Cancelled);

    let completed = manager.complete_with_emit("e", Some(Value::Bool(true))).unwrap();
    assert_eq!(completed.event_name(), "task:completed");
    assert_eq!(
        shown(&completed.payload()),
        pairs(&[("taskId", "text e"), ("taskType", "text index"), ("result", "json true")])
    );
    manager.create_task_at("q".to_string(), "index", 1);
    let quiet = manager.update_progress_with_emit("q", 5, None).unwrap();
    assert_eq!(shown(&quiet.payload())[3], ("message".to_string(), "null".to_string()));
    let bare = manager.complete_with_emit("q", None).unwrap();
    assert_eq!(shown(&bare.payload())[2], ("result".to_string(), "null".to_string()));
    match completed {
        TaskEvent::Completed { task_id, task_type, result } => {
            assert_eq!(task_id, "e");
            assert_eq!(task_type, "index");
            assert_eq!(result, Some(Value::Bool(true)));
        }
        other => panic!("unexpected event {:?}", other),
    }

    assert!(manager.complete_with_emit("ghost", None).is_none());
    assert!(manager.fail_with_emit("ghost", "x").is_none());
    assert!(manager.update_progress_with_emit("ghost", 1, None).is_none());
}

#[test]
fn commands_answer_with_messages() {
    let mut manager = TaskManager::new();
    manager.create_task_at("k".to_string(), "clone_repository", 1);
    manager.create_task_at("l".to_string(), "import_files", 2);

    assert_eq!(get_task("k".to_string(), &manager).unwrap().task_type, "clone_repository");
    assert_eq!(
        get_task("nope".to_string(), &manager).unwrap_err(),
        "Task not found: nope"
    );
    assert_eq!(list_tasks(None, &manager).len(), 2);
    let imports = list_tasks(Some("import_files".to_string()), &manager);
    assert_eq!(imports.len(), 1);
    assert_eq!(imports[0].id, "l");

    assert_eq!(cancel_task("k".to_string(), &mut manager), Ok(true));
    assert_eq!(
        cancel_task("k".to_string(), &mut manager),
        Err("Cannot cancel task: k".to_string())
    );
    assert_eq!(
        cancel_task("nope".to_string(), &mut manager),
        Err("Cannot cancel task: nope".to_string())
    );

    manager.complete_at("l", None, 0);
    assert_eq!(cleanup_tasks(None, &mut manager), Ok(()));
    assert!(manager.get_task("l").is_none());
    assert!(manager.get_task("k").is_some());
    assert_eq!(cleanup_tasks(Some(-1), &mut manager), Ok(()));
    assert!(manager.get_task("k").is_none());
}

#[test]
fn routines_plan_their_reports() {
    let mut manager = TaskManager::new();
    let dto = CloneRepositoryTaskDto {
        workspace_id: "w".to_string(),
        url: "https://example.com/r.git".to_string(),
        branch: None,
    };
    let plan = clone_repository_task(&mut manager, &dto);
    assert_eq!(plan.handle.task_type, "clone_repository");
    assert_eq!(plan.handle.status, TaskStatus::Pending);
    assert_eq!(manager.get_task(&plan.handle.task_id).unwrap().status, TaskStatus::Pending);
    let steps: Vec<(u8, &str, u64)> =
        plan.steps.iter().map(|s| (s.progress, s.message.as_str(), s.pause_ms)).collect();
    assert_eq!(
        steps,
        vec![
            (10, "Preparing to clone...", 0),
            (30, "Cloning repository...", 100),
            (60, "Processing files...", 100),
            (90, "Finalizing...", 0),
        ]
    );
    assert_eq!(
        shown(&plan.result),
        pairs(&[
            ("url", "text https://example.com/r.git"),
            ("branch", "text main"),
            ("status", "text cloned"),
        ])
    );
    assert_eq!(
        shown(&routine_completed(&plan.handle)),
        vec![
            ("taskId".to_string(), format!("text {}", plan.handle.task_id)),
            ("taskType".to_string(), "text clone_repository".to_string()),
        ]
    );
    assert_eq!(plan.handle.task_id.len(), 36);
    assert_eq!(clone_branch(&dto), "main");
    let named = CloneRepositoryTaskDto { branch: Some("dev".to_string()), ..dto };
    assert_eq!(clone_branch(&named), "dev");

    let plan = index_repository_task(
        &mut manager,
        &IndexRepositoryTaskDto { repository_id: "r".to_string() },
    );
    assert_eq!(plan.handle.task_type, "index_repository");
    assert_eq!(
        shown(&plan.result),
        pairs(&[("repositoryId", "text r"), ("status", "text indexed")])
    );
    let steps: Vec<(u8, &str, u64)> =
        plan.steps.iter().map(|s| (s.progress, s.message.as_str(), s.pause_ms)).collect();
    assert_eq!(
        steps,
        vec![
            (10, "Scanning files...", 100),
            (30, "Parsing AST...", 100),
            (60, "Building index...", 100),
            (80, "Generating embeddings...", 100),
        ]
    );

    let plan = import_files_task(
        &mut manager,
        &ImportFilesTaskDto {
            workspace_id: "w".to_string(),
            paths: vec!["a.txt".to_string(), "b.txt".to_string(), "c.txt".to_string()],
        },
    );
    assert_eq!(plan.handle.task_type, "import_files");
    assert_eq!(
        shown(&plan.result),
        pairs(&[("imported", "number 3"), ("status", "text completed")])
    );
    let steps: Vec<(u8, &str, u64)> =
        plan.steps.iter().map(|s| (s.progress, s.message.as_str(), s.pause_ms)).collect();
    assert_eq!(
        steps,
        vec![
            (33, "Importing a.txt (1/3)", 50),
            (66, "Importing b.txt (2/3)", 50),
            (100, "Importing c.txt (3/3)", 50),
        ]
    );
    let empty = import_files_task(
        &mut manager,
        &ImportFilesTaskDto { workspace_id: "w".to_string(), paths: vec![] },
    );
    assert!(empty.steps.is_empty());
    assert_eq!(
        shown(&empty.result),
        pairs(&[("imported", "number 0"), ("status", "text completed")])
    );
    assert_eq!(manager.list_tasks().len(), 4);

    assert_eq!(import_progress(1, 7), 14);
    assert_eq!(import_progress(7, 7), 100);
    assert_eq!(import_progress(usize::MAX, usize::MAX), 100);
    assert_eq!(import_progress(1, usize::MAX), 0);
}
