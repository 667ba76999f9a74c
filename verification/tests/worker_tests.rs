use dtqs::json::Json;
use dtqs::store::{TaskStore, TaskStatus, MAX_ATTEMPTS};
use dtqs::submit::{make_task, NewTask};
use dtqs::worker::{
    extract_priority, finalize_execution, handler_milestones, process_email_task,
    process_image_task, process_video_task, run_task, task_id_of, ExecError, FinalAction,
    Supervisor,
};

fn email_msg(task_id: &str) -> Json {
    Json::Obj(vec![
        ("task_id".to_string(), Json::Str(task_id.to_string())),
        ("task_type".to_string(), Json::Str("email".to_string())),
        ("priority".to_string(), Json::UInt(5)),
    ])
}

fn msg_with_type(task_id: &str, task_type: &str) -> Json {
    Json::Obj(vec![
        ("task_id".to_string(), Json::Str(task_id.to_string())),
        ("task_type".to_string(), Json::Str(task_type.to_string())),
    ])
}

fn store_with(id: &str) -> TaskStore {
    let mut store = TaskStore::new();
    let nt = NewTask {
        task_type: "email".to_string(),
        payload: Json::Obj(vec![]),
        priority: None,
    };
    store.insert(make_task(nt, id.to_string(), 100));
    store
}

#[test]
fn extract_priority_defaults_to_five() {
    assert_eq!(extract_priority(&Json::Obj(vec![])), 5);
    assert_eq!(
        extract_priority(&Json::Obj(vec![("priority".to_string(), Json::Str("9".to_string()))])),
        5
    );
}

#[test]
fn extract_priority_reads_the_declared_value() {
    assert_eq!(
        extract_priority(&Json::Obj(vec![("priority".to_string(), Json::UInt(9))])),
        9
    );
    // One byte is kept, as the row stores one.
    assert_eq!(
        extract_priority(&Json::Obj(vec![("priority".to_string(), Json::UInt(256))])),
        0
    );
}

#[test]
fn task_id_of_reads_only_string_ids() {
    assert_eq!(task_id_of(&email_msg("t9")).as_deref(), Some("t9"));
    assert_eq!(task_id_of(&Json::Obj(vec![("task_id".to_string(), Json::UInt(4))])), None);
    assert_eq!(task_id_of(&Json::Null), None);
}

#[test]
fn email_handler_walks_its_milestones() {
    let mut store = store_with("t1");
    let r = process_email_task(&email_msg("t1"), &mut store, &"w1".to_string(), 500);
    assert!(r.is_ok());
    let t = store.get(&"t1".to_string()).unwrap();
    assert_eq!(t.progress, 100);
    let lines: Vec<&str> = store.logs.iter().map(|l| l.message.as_str()).collect();
    assert_eq!(
        lines,
        vec![
            "Started email task t1",
            "Email task t1 progress 20%",
            "Email task t1 progress 40%",
            "Email task t1 progress 60%",
            "Email task t1 progress 80%",
            "Completed email task t1",
        ]
    );
}

#[test]
fn video_handler_walks_its_milestones() {
    let mut store = store_with("t2");
    let r = process_video_task(&msg_with_type("t2", "video"), &mut store, &"w1".to_string(), 500);
    assert!(r.is_ok());
    assert_eq!(store.get(&"t2".to_string()).unwrap().progress, 100);
    assert_eq!(store.logs.len(), 5);
    assert_eq!(store.logs[1].message.as_str(), "Video task t2 progress 25%");
    assert_eq!(store.logs[4].message.as_str(), "Completed video task t2");
}

#[test]
fn image_handler_walks_its_milestones() {
    let mut store = store_with("t3");
    let r = process_image_task(&msg_with_type("t3", "image"), &mut store, &"w1".to_string(), 500);
    assert!(r.is_ok());
    assert_eq!(store.get(&"t3".to_string()).unwrap().progress, 100);
    assert_eq!(store.logs.len(), 3);
    assert_eq!(store.logs[0].message.as_str(), "Started image task t3");
    assert_eq!(store.logs[1].message.as_str(), "Image task t3 progress 50%");
    assert_eq!(store.logs[2].message.as_str(), "Completed image task t3");
}

#[test]
fn handlers_fail_without_a_task_id() {
    let mut store = store_with("t1");
    let msg = Json::Obj(vec![("task_type".to_string(), Json::Str("email".to_string()))]);
    let r = process_email_task(&msg, &mut store, &"w1".to_string(), 500);
    assert!(r.is_err());
    assert_eq!(store.logs.len(), 0);
}

#[test]
fn milestones_match_the_handler_table() {
    assert_eq!(handler_milestones(&"email".to_string()), Some(vec![20, 40, 60, 80, 100]));
    assert_eq!(handler_milestones(&"video".to_string()), Some(vec![25, 50, 75, 100]));
    assert_eq!(handler_milestones(&"image".to_string()), Some(vec![50, 100]));
    assert_eq!(handler_milestones(&"audio".to_string()), None);
}

#[test]
fn run_task_rejects_unknown_task_types() {
    let mut store = store_with("t1");
    let r = run_task(&msg_with_type("t1", "audio"), &mut store, &"w1".to_string(), 500);
    assert_eq!(r, Err(ExecError::UnknownTaskType));
}

#[test]
fn finalize_completes_clean_runs_and_acks() {
    let mut store = store_with("t1");
    let action = finalize_execution(&mut store, &"t1".to_string(), true, 900);
    assert_eq!(action, FinalAction::Ack);
    let t = store.get(&"t1".to_string()).unwrap();
    assert_eq!(t.status, TaskStatus::Completed);
    assert_eq!(t.progress, 100);
}

#[test]
fn finalize_nacks_failures_below_the_cap() {
    let mut store = store_with("t1");
    let action = finalize_execution(&mut store, &"t1".to_string(), false, 900);
    assert_eq!(action, FinalAction::Nack);
    let t = store.get(&"t1".to_string()).unwrap();
    assert_eq!(t.status, TaskStatus::Pending);
    assert_eq!(t.attempts, 1);
}

#[test]
fn finalize_nacks_when_no_row_carries_the_id() {
    let mut store = TaskStore::new();
    let action = finalize_execution(&mut store, &"ghost".to_string(), false, 900);
    assert_eq!(action, FinalAction::Nack);
}

#[test]
fn failing_task_reaches_failed_after_five_cycles() {
    // A handler that fails every time: the task type owns no handler, so
    // every delivery of this message fails its execution.
    let mut sup = Supervisor::new(4);
    let nt = NewTask {
        task_type: "email".to_string(),
        payload: Json::Obj(vec![]),
        priority: None,
    };
    sup.store.insert(make_task(nt, "t1".to_string(), 100));

    for cycle in 0..4u64 {
        dtqs::worker::ingest_delivery(&mut sup.scheduler, Some(msg_with_type("t1", "audio")), cycle);
        let st = sup.try_dispatch().unwrap();
        let action = sup.execute(&st, &"w1".to_string(), 1000 + cycle as i64);
        assert_eq!(action, FinalAction::Nack);
        assert_eq!(sup.store.get(&"t1".to_string()).unwrap().attempts, cycle as u8 + 1);
    }
    dtqs::worker::ingest_delivery(&mut sup.scheduler, Some(msg_with_type("t1", "audio")), 99);
    let st = sup.try_dispatch().unwrap();
    let action = sup.execute(&st, &"w1".to_string(), 2000);
    assert_eq!(action, FinalAction::Ack);
    let t = sup.store.get(&"t1".to_string()).unwrap();
    assert_eq!(t.status, TaskStatus::Failed);
    assert_eq!(t.attempts, MAX_ATTEMPTS);

    // Any leftover redelivery is acked without touching the settled row.
    dtqs::worker::ingest_delivery(&mut sup.scheduler, Some(msg_with_type("t1", "audio")), 100);
    let st = sup.try_dispatch().unwrap();
    let action = sup.execute(&st, &"w1".to_string(), 3000);
    assert_eq!(action, FinalAction::Ack);
    let t = sup.store.get(&"t1".to_string()).unwrap();
    assert_eq!(t.status, TaskStatus::Failed);
    assert_eq!(t.attempts, MAX_ATTEMPTS);
    assert_eq!(t.updated_at, 2000);
}

#[test]
fn terminal_tasks_are_never_changed_again() {
    let mut sup = Supervisor::new(4);
    let nt = NewTask {
        task_type: "email".to_string(),
        payload: Json::Obj(vec![]),
        priority: None,
    };
    sup.store.insert(make_task(nt, "t1".to_string(), 100));
    sup.store.set_status(&"t1".to_string(), TaskStatus::Completed, 200);

    dtqs::worker::ingest_delivery(&mut sup.scheduler, Some(email_msg("t1")), 1);
    let st = sup.try_dispatch().unwrap();
    let action = sup.execute(&st, &"w1".to_string(), 300);
    assert_eq!(action, FinalAction::Ack);
    let t = sup.store.get(&"t1".to_string()).unwrap();
    assert_eq!(t.status, TaskStatus::Completed);
    assert_eq!(t.updated_at, 200);
    assert_eq!(t.progress, 0);
}

#[test]
fn redelivery_after_a_crash_ends_like_an_uninterrupted_run() {
    // First run crashed after writing progress 60; the broker redelivers.
    let mut sup = Supervisor::new(4);
    let nt = NewTask {
        task_type: "email".to_string(),
        payload: Json::Obj(vec![]),
        priority: None,
    };
    sup.store.insert(make_task(nt, "t1".to_string(), 100));
    assert!(sup.store.set_progress(&"t1".to_string(), 60, 150).is_ok());

    dtqs::worker::ingest_delivery(&mut sup.scheduler, Some(email_msg("t1")), 1);
    let st = sup.try_dispatch().unwrap();
    let action = sup.execute(&st, &"w1".to_string(), 400);
    assert_eq!(action, FinalAction::Ack);
    let t = sup.store.get(&"t1".to_string()).unwrap();
    assert_eq!(t.status, TaskStatus::Completed);
    assert_eq!(t.progress, 100);
}
