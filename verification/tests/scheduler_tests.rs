use dtqs::json::Json;
use dtqs::scheduler::{Scheduler, ScheduledTask};
use dtqs::worker::Supervisor;
use dtqs::worker::{ingest_delivery, IngestAction};

fn msg(priority: u64) -> Json {
    Json::Obj(vec![("priority".to_string(), Json::UInt(priority))])
}

fn scheduled(priority: u8, delivery: u64) -> ScheduledTask {
    ScheduledTask { priority, delivery, task_data: Json::Null }
}

#[test]
fn poll_returns_highest_priority_first() {
    let mut s = Scheduler::new();
    s.add_task(scheduled(3, 1));
    s.add_task(scheduled(9, 2));
    s.add_task(scheduled(5, 3));
    assert_eq!(s.get_next().unwrap().priority, 9);
    assert_eq!(s.get_next().unwrap().priority, 5);
    assert_eq!(s.get_next().unwrap().priority, 3);
    assert!(s.get_next().is_none());
}

#[test]
fn ties_go_to_the_longest_waiting_delivery() {
    let mut s = Scheduler::new();
    s.add_task(scheduled(7, 10));
    s.add_task(scheduled(7, 11));
    assert_eq!(s.get_next().unwrap().delivery, 10);
    assert_eq!(s.get_next().unwrap().delivery, 11);
}

#[test]
fn ingest_queues_decoded_messages_under_their_priority() {
    let mut s = Scheduler::new();
    let a = ingest_delivery(&mut s, Some(msg(9)), 1);
    assert_eq!(a, IngestAction::Queued);
    assert_eq!(s.len(), 1);
}

#[test]
fn ingest_acks_and_drops_poison_pills() {
    let mut s = Scheduler::new();
    let a = ingest_delivery(&mut s, None, 1);
    assert_eq!(a, IngestAction::AckDrop);
    assert_eq!(s.len(), 0);
}

#[test]
fn video_dispatches_before_image_when_a_permit_frees() {
    // Two long-running tasks saturate a gate of capacity 2; an image at
    // priority 1 and a video at priority 9 arrive while it is full.
    let mut sup = Supervisor::new(2);
    sup.scheduler.add_task(scheduled(8, 1));
    sup.scheduler.add_task(scheduled(8, 2));
    let first = sup.try_dispatch().unwrap();
    let second = sup.try_dispatch().unwrap();
    assert_eq!(first.delivery, 1);
    assert_eq!(second.delivery, 2);

    let image = ScheduledTask { priority: 1, delivery: 3, task_data: Json::Null };
    let video = ScheduledTask { priority: 9, delivery: 4, task_data: Json::Null };
    sup.scheduler.add_task(image);
    sup.scheduler.add_task(video);

    // Gate saturated: nothing dispatches.
    assert!(sup.try_dispatch().is_none());

    // A permit frees: the video goes first.
    sup.gate.release();
    let next = sup.try_dispatch().unwrap();
    assert_eq!(next.delivery, 4);
    assert_eq!(next.priority, 9);
}
