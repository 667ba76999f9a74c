use dtqs::gate::{Gate, CONCURRENCY};
use dtqs::json::Json;
use dtqs::store::TaskStatus;
use dtqs::submit::{handle_submit_task, task_message, NewTask};
use dtqs::worker::{ingest_delivery, FinalAction, Supervisor};

#[test]
fn the_gate_grants_at_most_its_capacity() {
    let mut g = Gate::new(CONCURRENCY);
    let mut granted = 0;
    for _ in 0..20 {
        if g.try_acquire() {
            granted += 1;
        }
        assert!(g.in_flight() <= g.capacity());
    }
    assert_eq!(granted, CONCURRENCY);
    g.release();
    assert!(g.try_acquire());
    assert!(!g.try_acquire());
}

fn email_new_task(n: u64) -> NewTask {
    NewTask {
        task_type: "email".to_string(),
        payload: Json::Obj(vec![
            ("from".to_string(), Json::Str("a@x".to_string())),
            ("to".to_string(), Json::Str("b@x".to_string())),
            ("subject".to_string(), Json::Str(format!("hello {}", n))),
            ("content".to_string(), Json::Str("ok".to_string())),
        ]),
        priority: None,
    }
}

#[test]
fn twenty_submissions_never_run_more_than_four_at_once() {
    let mut sup = Supervisor::new(CONCURRENCY);
    for n in 0..20u64 {
        let id = format!("u{}", n);
        handle_submit_task(&mut sup.store, email_new_task(n), id.clone(), 100).unwrap();
        let msg = task_message(&id, &"email".to_string(), Json::Obj(vec![]), 5);
        ingest_delivery(&mut sup.scheduler, Some(msg), n);
    }

    let mut completed = 0;
    while completed < 20 {
        // Take every free permit; the batch stays within the capacity.
        let mut batch = Vec::new();
        while let Some(st) = sup.try_dispatch() {
            batch.push(st);
        }
        assert!(batch.len() as u32 <= CONCURRENCY);
        assert!(sup.gate.in_flight() <= CONCURRENCY);
        assert!(sup.store.count_running() as u32 <= CONCURRENCY);
        if batch.is_empty() {
            break;
        }
        for st in batch {
            let action = sup.execute(&st, &"w1".to_string(), 200);
            assert_eq!(action, FinalAction::Ack);
            completed += 1;
        }
    }
    assert_eq!(completed, 20);
    for n in 0..20u64 {
        let id = format!("u{}", n);
        let t = sup.store.get(&id).unwrap();
        assert_eq!(t.status, TaskStatus::Completed);
        assert_eq!(t.progress, 100);
    }
}
