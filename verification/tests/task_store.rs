use open_context::task::info::TaskInfo;
use open_context::task::row::{
    row_to_task_info, rows_to_tasks, task_to_row, tasks_to_rows, TaskRow,
};
use open_context::task::status::{status_to_string, string_to_status, TaskStatus};
use open_context::task::store::TaskStateManager;
use serde_json::{Number, Value};

fn task(id: &str, created_at: i64) -> TaskInfo {
    TaskInfo::new_at(id.to_string(), "kind", created_at).with_persistent(true)
}

fn ids(tasks: &[TaskInfo]) -> Vec<&str> {
    tasks.iter().map(|t| t.id.as_str()).collect()
}

#[test]
fn status_names_round_trip() {
    for (status, name) in [
        (TaskStatus::Pending, "pending"),
        (TaskStatus::Running, "running"),
        (TaskStatus::Completed, "completed"),
        (TaskStatus::Failed, "failed"),
        (TaskStatus::Cancelled, "cancelled"),
    ] {
        assert_eq!(status_to_string(&status), name);
        assert_eq!(string_to_status(name), status);
    }
    assert_eq!(string_to_status("unknown"), TaskStatus::Pending);
    assert_eq!(string_to_status(""), TaskStatus::Pending);
    assert_eq!(string_to_status("Running"), TaskStatus::Pending);
    assert!(TaskStatus::Completed.ended() && TaskStatus::Failed.ended());
    assert!(TaskStatus::Cancelled.ended() && !TaskStatus::Running.ended());
    assert!(TaskStatus::Pending.active() && TaskStatus::Running.active());
    assert!(!TaskStatus::Failed.active());
}

#[test]
fn save_is_a_full_upsert() {
    let mut store = TaskStateManager::new();
    store.save_task(&task("a", 1));
    store.save_task(&task("b", 2));
    store.save_task(&task("a", 3).with_max_retries(8));
    assert_eq!(store.rows().len(), 2);
    let a = store.get_task("a").unwrap();
    assert_eq!(a.created_at, 3);
    assert_eq!(a.max_retries, 8);
    assert!(store.get_task("c").is_none());
    assert!(store.delete_task("a"));
    assert!(!store.delete_task("a"));
    assert_eq!(ids(&store.rows()), vec!["b"]);
}

#[test]
fn partial_updates_touch_one_row() {
    let mut store = TaskStateManager::new();
    store.save_task(&task("a", 1));
    store.save_task(&task("b", 1));
    store.update_task_status("a", &TaskStatus::Running, 40, Some("going"), 5, None);
    let a = store.get_task("a").unwrap();
    assert_eq!(a.status, TaskStatus::Running);
    assert_eq!(a.progress, 40);
    assert_eq!(a.message, Some("going".to_string()));
    assert_eq!(a.updated_at, 5);
    assert_eq!(a.completed_at, None);

    store.update_task_result("a", Some(&Value::Bool(true)), 6, 7);
    let a = store.get_task("a").unwrap();
    assert_eq!(a.status, TaskStatus::Completed);
    assert_eq!(a.progress, 100);
    assert_eq!(a.result, Some(Value::Bool(true)));
    assert_eq!((a.updated_at, a.completed_at), (6, Some(7)));

    store.update_task_error("a", "bad", 8, 9);
    let a = store.get_task("a").unwrap();
    assert_eq!(a.status, TaskStatus::Failed);
    assert_eq!(a.error, Some("bad".to_string()));
    assert_eq!((a.updated_at, a.completed_at), (8, Some(9)));

    store.update_retry_count("a", 2, 10);
    let a = store.get_task("a").unwrap();
    assert_eq!(a.retry_count, 2);
    assert_eq!(a.status, TaskStatus::Pending);
    assert_eq!(a.error, None);
    assert_eq!(a.progress, 0);
    assert_eq!(a.completed_at, None);
    assert_eq!(a.updated_at, 10);
    assert_eq!(a.result, Some(Value::Bool(true)));

    let b = store.get_task("b").unwrap();
    assert_eq!(b.status, TaskStatus::Pending);
    assert_eq!(b.updated_at, 1);

    store.update_task_status("zz", &TaskStatus::Failed, 1, None, 1, None);
    store.update_task_result("zz", None, 1, 1);
    store.update_task_error("zz", "e", 1, 1);
    store.update_retry_count("zz", 1, 1);
    assert_eq!(store.rows().len(), 2);
}

#[test]
fn pending_rows_load_oldest_first() {
    let mut store = TaskStateManager::new();
    store.save_task(&task("c", 30));
    store.save_task(&task("a", 10));
    store.save_task(&task("tie-1", 20));
    store.save_task(&task("tie-2", 20));
    store.save_task(&task("plain", 5).with_persistent(false));
    store.save_task(&task("done", 1));
    store.update_task_result("done", None, 2, 2);
    store.save_task(&task("run", 15));
    store.update_task_status("run", &TaskStatus::Running, 0, None, 16, None);
    assert_eq!(
        ids(&store.load_pending_persistent_tasks()),
        vec!["a", "run", "tie-1", "tie-2", "c"]
    );
    assert!(store.load_retryable_tasks().is_empty());

    store.update_task_error("c", "e", 40, 40);
    store.update_task_error("a", "e", 41, 41);
    store.save_task(&task("spent", 2).with_max_retries(0));
    store.update_task_error("spent", "e", 42, 42);
    assert_eq!(ids(&store.load_retryable_tasks()), vec!["a", "c"]);
}

#[test]
fn listings_show_the_youngest_first() {
    let mut store = TaskStateManager::new();
    for (id, at) in [("a", 1), ("b", 2), ("c", 3), ("d", 4)] {
        store.save_task(&task(id, at));
    }
    store.save_task(&TaskInfo::new_at("x".to_string(), "other", 9));
    assert_eq!(ids(&store.list_tasks(None, None)), vec!["x", "d", "c", "b", "a"]);
    assert_eq!(ids(&store.list_tasks(Some(2), None)), vec!["x", "d"]);
    assert_eq!(ids(&store.list_tasks(Some(2), Some(1))), vec!["d", "c"]);
    assert_eq!(ids(&store.list_tasks(Some(10), Some(4))), vec!["a"]);
    assert!(store.list_tasks(None, Some(5)).is_empty());
    assert!(store.list_tasks(None, Some(u32::MAX)).is_empty());
    assert!(store.list_tasks(Some(0), None).is_empty());
    assert_eq!(store.list_tasks(Some(u32::MAX), Some(0)).len(), 5);
    assert_eq!(ids(&store.list_tasks_by_type("kind")), vec!["d", "c", "b", "a"]);
    assert_eq!(ids(&store.list_tasks_by_type("other")), vec!["x"]);
    assert!(store.list_tasks_by_type("none").is_empty());

    let mut many = TaskStateManager::new();
    for n in 0..150 {
        many.save_task(&task(&n.to_string(), n));
    }
    assert_eq!(many.list_tasks(None, None).len(), 100);
}

#[test]
fn recovery_requeues_running_rows_once() {
    let mut store = TaskStateManager::new();
    store.save_task(&task("run", 1));
    store.update_task_status("run", &TaskStatus::Running, 10, None, 2, None);
    store.save_task(&task("wait", 1));
    store.save_task(&task("plain", 1).with_persistent(false));
    store.update_task_status("plain", &TaskStatus::Running, 0, None, 2, None);

    store.save_task(&task("done", 1));
    store.update_task_result("done", None, 3, 3);
    assert_eq!(store.mark_running_as_pending_at(50), 2);
    let once: Vec<(String, TaskStatus, i64)> =
        store.rows().iter().map(|t| (t.id.clone(), t.status, t.updated_at)).collect();
    assert_eq!(
        once,
        vec![
            ("run".to_string(), TaskStatus::Pending, 50),
            ("wait".to_string(), TaskStatus::Pending, 1),
            ("plain".to_string(), TaskStatus::Pending, 50),
            ("done".to_string(), TaskStatus::Completed, 3),
        ]
    );
    assert!(store.rows().iter().all(|t| t.status != TaskStatus::Running));
    assert!(!store.get_task("plain").unwrap().persistent);
    assert_eq!(store.get_task("run").unwrap().progress, 10);

    assert_eq!(store.mark_running_as_pending_at(99), 0);
    let twice: Vec<(String, TaskStatus, i64)> =
        store.rows().iter().map(|t| (t.id.clone(), t.status, t.updated_at)).collect();
    assert_eq!(once, twice);
    assert_eq!(store.mark_running_as_pending(), 0);
}

#[test]
fn cleanup_drops_old_ended_rows() {
    let mut store = TaskStateManager::new();
    for id in ["old", "edge", "young", "open", "odd"] {
        store.save_task(&task(id, 0));
    }
    store.update_task_result("old", None, 899, 899);
    store.update_task_error("edge", "e", 900, 900);
    store.update_task_result("young", None, 901, 901);
    store.update_task_status("odd", &TaskStatus::Running, 0, None, 1, Some(1));
    assert_eq!(store.cleanup_completed_tasks_at(100, 1_000), 1);
    assert_eq!(ids(&store.rows()), vec!["edge", "young", "open", "odd"]);
    assert_eq!(store.cleanup_completed_tasks_at(0, i64::MAX), 2);
    assert_eq!(ids(&store.rows()), vec!["open", "odd"]);
    assert_eq!(store.cleanup_completed_tasks(0), 0);
}

#[test]
fn tables_are_rebuilt_from_rows() {
    let rows = vec![task("a", 1), task("b", 2), task("a", 3)];
    let store = TaskStateManager::from_rows(rows);
    assert_eq!(ids(&store.rows()), vec!["b", "a"]);
    assert_eq!(store.get_task("a").unwrap().created_at, 3);
    assert!(TaskStateManager::from_rows(Vec::new()).rows().is_empty());
}

#[test]
fn rows_store_names_and_json_text() {
    let mut payload = serde_json::Map::new();
    payload.insert("imported".to_string(), Value::Number(Number::from(3)));
    let mut info = task("r", 11).with_input(Value::Object(payload.clone()));
    info.status = TaskStatus::Failed;
    info.progress = 42;
    info.message = Some("m".to_string());
    info.error = Some("e".to_string());
    info.result = Some(Value::String("done".to_string()));
    info.completed_at = Some(12);
    info.retry_count = 2;

    let row = task_to_row(&info);
    assert_eq!(row.id, "r");
    assert_eq!(row.task_type, "kind");
    assert_eq!(row.status, "failed");
    assert_eq!(row.progress, 42);
    assert_eq!(row.message, Some("m".to_string()));
    assert_eq!(row.result, Some("\"done\"".to_string()));
    assert_eq!(row.error, Some("e".to_string()));
    assert_eq!(row.retry_count, 2);
    assert_eq!(row.max_retries, 3);
    assert_eq!(row.retry_delay_ms, 1000);
    assert_eq!(row.input, Some("{\"imported\":3}".to_string()));
    assert_eq!(row.persistent, 1);
    assert_eq!((row.created_at, row.updated_at, row.completed_at), (11, 11, Some(12)));

    let back = row_to_task_info(&row);
    assert_eq!(back.id, info.id);
    assert_eq!(back.status, TaskStatus::Failed);
    assert_eq!(back.result, Some(Value::String("done".to_string())));
    assert_eq!(back.input, Some(Value::Object(payload)));
    assert!(back.persistent);
    assert_eq!(back.retry_count, 2);
    assert_eq!(back.completed_at, Some(12));
}

#[test]
fn rows_read_leniently() {
    let row = TaskRow {
        id: "x".to_string(),
        task_type: "k".to_string(),
        status: "paused".to_string(),
        progress: 9,
        message: None,
        result: Some("{not json".to_string()),
        error: None,
        retry_count: 0,
        max_retries: 1,
        retry_delay_ms: 5,
        input: Some("[1,2]".to_string()),
        persistent: 7,
        created_at: 1,
        updated_at: 2,
        completed_at: None,
    };
    let info = row_to_task_info(&row);
    assert_eq!(info.status, TaskStatus::Pending);
    assert_eq!(info.result, None);
    assert_eq!(
        info.input,
        Some(Value::Array(vec![Value::Number(Number::from(1)), Value::Number(Number::from(2))]))
    );
    assert!(info.persistent);
    assert_eq!(info.retry_delay_ms, 5);

    let plain = task_to_row(&TaskInfo::new_at("p".to_string(), "k", 1));
    assert_eq!(plain.persistent, 0);
    assert_eq!(plain.result, None);
    assert_eq!(plain.input, None);
    assert_eq!(plain.status, "pending");
    assert!(!row_to_task_info(&plain).persistent);

    let rows = tasks_to_rows(&vec![task("a", 1), task("b", 2), task("c", 3)]);
    assert_eq!(rows.len(), 3);
    let tasks = rows_to_tasks(&rows);
    assert_eq!(ids(&tasks), vec!["a", "b", "c"]);
}
