use dtqs::json::Json;
use dtqs::store::{TaskStore, TaskStatus, StoreError, MAX_ATTEMPTS};
use dtqs::submit::{make_task, NewTask};

fn new_task(task_type: &str) -> NewTask {
    NewTask {
        task_type: task_type.to_string(),
        payload: Json::Obj(vec![("from".to_string(), Json::Str("a@x".to_string()))]),
        priority: Some(7),
    }
}

fn seeded_store(id: &str) -> TaskStore {
    let mut store = TaskStore::new();
    store.insert(make_task(new_task("email"), id.to_string(), 1000));
    store
}

#[test]
fn insert_then_get_returns_the_same_task() {
    let store = seeded_store("t1");
    let t = store.get(&"t1".to_string()).unwrap();
    assert_eq!(t.task_type.as_str(), "email");
    assert_eq!(
        t.payload,
        Json::Obj(vec![("from".to_string(), Json::Str("a@x".to_string()))])
    );
    assert_eq!(t.status, TaskStatus::Pending);
    assert_eq!(t.priority, 7);
    assert_eq!(t.progress, 0);
    assert_eq!(t.attempts, 0);
    assert_eq!(t.created_at, 1000);
}

#[test]
fn get_on_a_missing_id_returns_none() {
    let store = seeded_store("t1");
    assert!(store.get(&"t2".to_string()).is_none());
}

#[test]
fn set_progress_updates_value_and_timestamp() {
    let mut store = seeded_store("t1");
    assert!(store.set_progress(&"t1".to_string(), 40, 2000).is_ok());
    let t = store.get(&"t1".to_string()).unwrap();
    assert_eq!(t.progress, 40);
    assert_eq!(t.updated_at, 2000);
}

#[test]
fn set_progress_rejects_out_of_range_values() {
    let mut store = seeded_store("t1");
    assert_eq!(store.set_progress(&"t1".to_string(), 101, 2000), Err(StoreError::ProgressOutOfRange));
    assert_eq!(store.set_progress(&"t1".to_string(), -1, 2000), Err(StoreError::ProgressOutOfRange));
    assert_eq!(store.get(&"t1".to_string()).unwrap().progress, 0);
}

#[test]
fn stored_progress_never_decreases() {
    let mut store = seeded_store("t1");
    assert!(store.set_progress(&"t1".to_string(), 60, 2000).is_ok());
    // A regressing write is accepted but changes nothing.
    assert!(store.set_progress(&"t1".to_string(), 20, 3000).is_ok());
    let t = store.get(&"t1".to_string()).unwrap();
    assert_eq!(t.progress, 60);
    assert_eq!(t.updated_at, 2000);
}

#[test]
fn bump_attempts_counts_up_and_saturates_at_the_cap() {
    let mut store = seeded_store("t1");
    for expected in 1..=MAX_ATTEMPTS {
        assert_eq!(store.bump_attempts(&"t1".to_string(), 5000), Some(expected));
    }
    // At the cap the count stays, keeping the row invariant.
    assert_eq!(store.bump_attempts(&"t1".to_string(), 6000), Some(MAX_ATTEMPTS));
    assert_eq!(store.get(&"t1".to_string()).unwrap().attempts, MAX_ATTEMPTS);
}

#[test]
fn bump_attempts_on_a_missing_row_returns_none() {
    let mut store = seeded_store("t1");
    assert_eq!(store.bump_attempts(&"nope".to_string(), 5000), None);
}

#[test]
fn append_log_keeps_order_and_content() {
    let mut store = TaskStore::new();
    store.append_log(&"w1".to_string(), "first".to_string(), 10);
    store.append_log(&"w1".to_string(), "second".to_string(), 20);
    assert_eq!(store.logs.len(), 2);
    assert_eq!(store.logs[0].message.as_str(), "first");
    assert_eq!(store.logs[1].message.as_str(), "second");
    assert_eq!(store.logs[1].timestamp, 20);
    assert_eq!(store.logs[1].worker_node_id.as_deref(), Some("w1"));
}

#[test]
fn set_status_writes_the_given_status() {
    let mut store = seeded_store("t1");
    store.set_status(&"t1".to_string(), TaskStatus::Running, 2500);
    let t = store.get(&"t1".to_string()).unwrap();
    assert_eq!(t.status, TaskStatus::Running);
    assert_eq!(t.updated_at, 2500);
}

#[test]
fn status_names_match_the_stored_tags() {
    assert_eq!(TaskStatus::Pending.name().as_str(), "pending");
    assert_eq!(TaskStatus::Running.name().as_str(), "running");
    assert_eq!(TaskStatus::Completed.name().as_str(), "completed");
    assert_eq!(TaskStatus::Failed.name().as_str(), "failed");
}
