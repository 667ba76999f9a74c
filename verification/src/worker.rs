//! The worker pipeline: handler registry and execution supervisor.
//!
//! The I/O shell pulls deliveries from the broker, decodes them, and drives
//! the decisions here: classify, schedule, admit, execute, finalize. Every
//! store effect of those decisions is carried out on [`TaskStore`]; the shell
//! mirrors each one to SQL and performs the ack/nack the returned action
//! names.

use vstd::prelude::*;
use vstd::string::StringExecFns;
use crate::json::Json;
use crate::store::{TaskStore, TaskStatus, Task, MAX_ATTEMPTS};
use crate::scheduler::{Scheduler, ScheduledTask};
use crate::gate::Gate;

verus! {

/// Priority given to a message that names none.
pub const DEFAULT_PRIORITY: u8 = 5;

/// A handler's failure: the decoded message names no task id.
#[derive(Clone, Copy, PartialEq, Eq, Structural, Debug)]
pub enum HandlerError {
    MissingTaskId,
}

/// The task id a message names, when it carries one as a string.
pub open spec fn spec_task_id_of(msg: Json) -> Option<Seq<char>> {
    match msg.spec_get("task_id"@) {
        Option::Some(v) => v.spec_as_str(),
        Option::None => Option::None,
    }
}

/// The task type tag of a message; absent or non-string tags read as empty,
/// which no handler owns.
pub open spec fn spec_task_type_of(msg: Json) -> Seq<char> {
    match msg.spec_get("task_type"@) {
        Option::Some(v) => match v.spec_as_str() {
            Option::Some(s) => s,
            Option::None => ""@,
        },
        Option::None => ""@,
    }
}

/// The priority a message declares: its `priority` field when that is an
/// unsigned integer (taken modulo 256, as the row keeps one byte), otherwise
/// the default of `DEFAULT_PRIORITY`.
pub open spec fn spec_priority_of(msg: Json) -> u8 {
    match msg.spec_get("priority"@) {
        Option::Some(v) => match v.spec_as_u64() {
            Option::Some(p) => (p % 256) as u8,
            Option::None => DEFAULT_PRIORITY,
        },
        Option::None => DEFAULT_PRIORITY,
    }
}

/// Reads the task id string out of a decoded message.
pub fn task_id_of(task_data: &Json) -> (r: Option<String>)
    ensures
        match r {
            Some(s) => spec_task_id_of(*task_data) == Some(s@),
            None => spec_task_id_of(*task_data) is None,
        },
{
    match task_data.get(&String::from_str("task_id")) {
        Some(v) => match v.as_str() {
            Some(s) => Some(s.clone()),
            None => None,
        },
        None => None,
    }
}

/// Reads the declared priority out of a decoded message.
pub fn extract_priority(task_data: &Json) -> (r: u8)
    ensures
        r == spec_priority_of(*task_data),
{
    match task_data.get(&String::from_str("priority")) {
        Some(v) => match v.as_u64() {
            Some(p) => (p % 256) as u8,
            None => DEFAULT_PRIORITY,
        },
        None => DEFAULT_PRIORITY,
    }
}

/// `a`, then `b`.
fn join2(a: &str, b: &String) -> (r: String)
    ensures
        r@ == a@ + b@,
{
    let mut m = String::from_str(a);
    m.append(b.as_str());
    m
}

/// `a`, then `b`, then `c`.
fn join3(a: &str, b: &String, c: &str) -> (r: String)
    ensures
        r@ == a@ + b@ + c@,
{
    let mut m = String::from_str(a);
    m.append(b.as_str());
    m.append(c);
    m
}

/// One milestone: writes the progress value, then appends the given log line.
fn progress_step(store: &mut TaskStore, task_id: &String, worker_id: &String, v: i32, line: String, now: i64)
    requires
        old(store).wf(),
        0 <= v <= 100,
    ensures
        final(store).wf(),
        final(store).workers == old(store).workers,
        final(store).tasks@.len() == old(store).tasks@.len(),
        forall|k: int|
            0 <= k < old(store).tasks@.len() ==> #[trigger] final(store).tasks@[k] == (if old(
                store,
            ).tasks@[k].id@ == task_id@ {
                old(store).tasks@[k].with_progress(v as int, now)
            } else {
                old(store).tasks@[k]
            }),
        final(store).logs@.len() == old(store).logs@.len() + 1,
        forall|k: int|
            0 <= k < old(store).logs@.len() ==> #[trigger] final(store).logs@[k] == old(
                store,
            ).logs@[k],
        final(store).logs@.last().message@ == line@,
        final(store).logs@.last().worker_node_id == Some(*worker_id),
        final(store).logs@.last().timestamp == now,
{
    let _ = store.set_progress(task_id, v, now);
    store.append_log(worker_id, line, now);
}

/// The log lines one clean email execution appends, in order.
pub open spec fn spec_email_logs(id: Seq<char>) -> Seq<Seq<char>> {
    seq![
        "Started email task "@ + id,
        "Email task "@ + id + " progress 20%"@,
        "Email task "@ + id + " progress 40%"@,
        "Email task "@ + id + " progress 60%"@,
        "Email task "@ + id + " progress 80%"@,
        "Completed email task "@ + id,
    ]
}

/// The email handler: milestones 20, 40, 60, 80, then the clean exit at 100.
/// The I/O shell pauses between milestones; each milestone writes the next
/// progress value and one log line.
pub fn process_email_task(task_data: &Json, store: &mut TaskStore, worker_id: &String, now: i64) -> (r: Result<(), HandlerError>)
    requires
        old(store).wf(),
    ensures
        final(store).wf(),
        r is Ok <==> spec_task_id_of(*task_data) is Some,
        r is Err ==> *final(store) == *old(store),
        final(store).workers == old(store).workers,
        final(store).tasks@.len() == old(store).tasks@.len(),
        forall|k: int|
            0 <= k < old(store).logs@.len() ==> #[trigger] final(store).logs@[k] == old(
                store,
            ).logs@[k],
        r is Ok ==> (spec_task_id_of(*task_data) matches Some(id) && {
            &&& forall|k: int|
                0 <= k < old(store).tasks@.len() ==> #[trigger] final(store).tasks@[k] == (if old(
                    store,
                ).tasks@[k].id@ == id {
                    old(store).tasks@[k].with_progress(100, now)
                } else {
                    old(store).tasks@[k]
                })
            &&& final(store).logs@.len() == old(store).logs@.len() + 6
            &&& forall|k: int|
                0 <= k < 6 ==> {
                    &&& (#[trigger] final(store).logs@[old(store).logs@.len() + k]).message@
                        == spec_email_logs(id)[k]
                    &&& final(store).logs@[old(store).logs@.len() + k].worker_node_id == Some(
                        *worker_id,
                    )
                    &&& final(store).logs@[old(store).logs@.len() + k].timestamp == now
                }
        }),
{
    let id = match task_id_of(task_data) {
        Some(s) => s,
        None => {
            return Err(HandlerError::MissingTaskId);
        },
    };
    store.append_log(worker_id, join2("Started email task ", &id), now);
    progress_step(store, &id, worker_id, 20, join3("Email task ", &id, " progress 20%"), now);
    progress_step(store, &id, worker_id, 40, join3("Email task ", &id, " progress 40%"), now);
    progress_step(store, &id, worker_id, 60, join3("Email task ", &id, " progress 60%"), now);
    progress_step(store, &id, worker_id, 80, join3("Email task ", &id, " progress 80%"), now);
    let _ = store.set_progress(&id, 100, now);
    store.append_log(worker_id, join2("Completed email task ", &id), now);
    Ok(())
}

/// The log lines one clean video execution appends, in order.
pub open spec fn spec_video_logs(id: Seq<char>) -> Seq<Seq<char>> {
    seq![
        "Started video task "@ + id,
        "Video task "@ + id + " progress 25%"@,
        "Video task "@ + id + " progress 50%"@,
        "Video task "@ + id + " progress 75%"@,
        "Completed video task "@ + id,
    ]
}

/// The video handler: milestones 25, 50, 75, then the clean exit at 100.
pub fn process_video_task(task_data: &Json, store: &mut TaskStore, worker_id: &String, now: i64) -> (r: Result<(), HandlerError>)
    requires
        old(store).wf(),
    ensures
        final(store).wf(),
        r is Ok <==> spec_task_id_of(*task_data) is Some,
        r is Err ==> *final(store) == *old(store),
        final(store).workers == old(store).workers,
        final(store).tasks@.len() == old(store).tasks@.len(),
        forall|k: int|
            0 <= k < old(store).logs@.len() ==> #[trigger] final(store).logs@[k] == old(
                store,
            ).logs@[k],
        r is Ok ==> (spec_task_id_of(*task_data) matches Some(id) && {
            &&& forall|k: int|
                0 <= k < old(store).tasks@.len() ==> #[trigger] final(store).tasks@[k] == (if old(
                    store,
                ).tasks@[k].id@ == id {
                    old(store).tasks@[k].with_progress(100, now)
                } else {
                    old(store).tasks@[k]
                })
            &&& final(store).logs@.len() == old(store).logs@.len() + 5
            &&& forall|k: int|
                0 <= k < 5 ==> {
                    &&& (#[trigger] final(store).logs@[old(store).logs@.len() + k]).message@
                        == spec_video_logs(id)[k]
                    &&& final(store).logs@[old(store).logs@.len() + k].worker_node_id == Some(
                        *worker_id,
                    )
                    &&& final(store).logs@[old(store).logs@.len() + k].timestamp == now
                }
        }),
{
    let id = match task_id_of(task_data) {
        Some(s) => s,
        None => {
            return Err(HandlerError::MissingTaskId);
        },
    };
    store.append_log(worker_id, join2("Started video task ", &id), now);
    progress_step(store, &id, worker_id, 25, join3("Video task ", &id, " progress 25%"), now);
    progress_step(store, &id, worker_id, 50, join3("Video task ", &id, " progress 50%"), now);
    progress_step(store, &id, worker_id, 75, join3("Video task ", &id, " progress 75%"), now);
    let _ = store.set_progress(&id, 100, now);
    store.append_log(worker_id, join2("Completed video task ", &id), now);
    Ok(())
}

/// The log lines one clean image execution appends, in order.
pub open spec fn spec_image_logs(id: Seq<char>) -> Seq<Seq<char>> {
    seq![
        "Started image task "@ + id,
        "Image task "@ + id + " progress 50%"@,
        "Completed image task "@ + id,
    ]
}

/// The image handler: milestone 50, then the clean exit at 100.
pub fn process_image_task(task_data: &Json, store: &mut TaskStore, worker_id: &String, now: i64) -> (r: Result<(), HandlerError>)
    requires
        old(store).wf(),
    ensures
        final(store).wf(),
        r is Ok <==> spec_task_id_of(*task_data) is Some,
        r is Err ==> *final(store) == *old(store),
        final(store).workers == old(store).workers,
        final(store).tasks@.len() == old(store).tasks@.len(),
        forall|k: int|
            0 <= k < old(store).logs@.len() ==> #[trigger] final(store).logs@[k] == old(
                store,
            ).logs@[k],
        r is Ok ==> (spec_task_id_of(*task_data) matches Some(id) && {
            &&& forall|k: int|
                0 <= k < old(store).tasks@.len() ==> #[trigger] final(store).tasks@[k] == (if old(
                    store,
                ).tasks@[k].id@ == id {
                    old(store).tasks@[k].with_progress(100, now)
                } else {
                    old(store).tasks@[k]
                })
            &&& final(store).logs@.len() == old(store).logs@.len() + 3
            &&& forall|k: int|
                0 <= k < 3 ==> {
                    &&& (#[trigger] final(store).logs@[old(store).logs@.len() + k]).message@
                        == spec_image_logs(id)[k]
                    &&& final(store).logs@[old(store).logs@.len() + k].worker_node_id == Some(
                        *worker_id,
                    )
                    &&& final(store).logs@[old(store).logs@.len() + k].timestamp == now
                }
        }),
{
    let id = match task_id_of(task_data) {
        Some(s) => s,
        None => {
            return Err(HandlerError::MissingTaskId);
        },
    };
    store.append_log(worker_id, join2("Started image task ", &id), now);
    progress_step(store, &id, worker_id, 50, join3("Image task ", &id, " progress 50%"), now);
    let _ = store.set_progress(&id, 100, now);
    store.append_log(worker_id, join2("Completed image task ", &id), now);
    Ok(())
}

/// The progress milestones the handler for the given tag walks, in order,
/// the clean exit at 100 included; `None` for a tag no handler owns. The I/O
/// shell paces one pause before each milestone's write and log line.
pub fn handler_milestones(task_type: &String) -> (r: Option<Vec<i32>>)
    ensures
        r is Some <==> (task_type@ == "email"@ || task_type@ == "video"@ || task_type@
            == "image"@),
        task_type@ == "email"@ ==> (r matches Some(v) && v@ == seq![
            20i32,
            40i32,
            60i32,
            80i32,
            100i32,
        ]),
        task_type@ == "video"@ ==> (r matches Some(v) && v@ == seq![25i32, 50i32, 75i32, 100i32]),
        task_type@ == "image"@ ==> (r matches Some(v) && v@ == seq![50i32, 100i32]),
{
    proof {
        reveal_strlit("email");
        reveal_strlit("video");
        reveal_strlit("image");
    }
    let email = String::from_str("email");
    let video = String::from_str("video");
    let image = String::from_str("image");
    if *task_type == email {
        let mut v: Vec<i32> = Vec::new();
        v.push(20);
        v.push(40);
        v.push(60);
        v.push(80);
        v.push(100);
        proof {
            assert(v@ =~= seq![20i32, 40i32, 60i32, 80i32, 100i32]);
            assert("email"@[0] == 'e' && "video"@[0] == 'v' && "image"@[0] == 'i');
            assert("email"@ != "video"@ && "email"@ != "image"@);
        }
        Some(v)
    } else if *task_type == video {
        let mut v: Vec<i32> = Vec::new();
        v.push(25);
        v.push(50);
        v.push(75);
        v.push(100);
        proof {
            assert(v@ =~= seq![25i32, 50i32, 75i32, 100i32]);
            assert("video"@[0] == 'v' && "image"@[0] == 'i');
            assert("video"@ != "image"@);
        }
        Some(v)
    } else if *task_type == image {
        let mut v: Vec<i32> = Vec::new();
        v.push(50);
        v.push(100);
        proof {
            assert(v@ =~= seq![50i32, 100i32]);
        }
        Some(v)
    } else {
        None
    }
}

/// An execution unit's failure reasons.
#[derive(Clone, Copy, PartialEq, Eq, Structural, Debug)]
pub enum ExecError {
    /// The message's task type tag owns no handler.
    UnknownTaskType,
    /// The dispatched handler found no task id in the message.
    MissingTaskId,
}

/// Whether the handler registry owns the message's task type tag.
pub open spec fn spec_known_tag(msg: Json) -> bool {
    ||| spec_task_type_of(msg) == "email"@
    ||| spec_task_type_of(msg) == "video"@
    ||| spec_task_type_of(msg) == "image"@
}

/// Whether a message dispatches to a handler that runs cleanly: a known task
/// type tag, and a task id to report progress under.
pub open spec fn spec_handler_ok(msg: Json) -> bool {
    &&& spec_known_tag(msg)
    &&& spec_task_id_of(msg) is Some
}

/// Looks the message's task type up in the handler registry and runs the
/// handler; an unowned tag is an execution failure with reason unknown task
/// type, an owned tag without a task id fails inside the handler.
pub fn run_task(task_data: &Json, store: &mut TaskStore, worker_id: &String, now: i64) -> (r:
    Result<(), ExecError>)
    requires
        old(store).wf(),
    ensures
        final(store).wf(),
        r is Ok <==> spec_handler_ok(*task_data),
        r matches Err(e) ==> e == (if spec_known_tag(*task_data) {
            ExecError::MissingTaskId
        } else {
            ExecError::UnknownTaskType
        }),
        r is Err ==> *final(store) == *old(store),
        final(store).workers == old(store).workers,
        final(store).tasks@.len() == old(store).tasks@.len(),
        forall|k: int|
            0 <= k < old(store).logs@.len() ==> #[trigger] final(store).logs@[k] == old(
                store,
            ).logs@[k],
        final(store).logs@.len() >= old(store).logs@.len(),
        r is Ok ==> (spec_task_id_of(*task_data) matches Some(id) && forall|k: int|
            0 <= k < old(store).tasks@.len() ==> #[trigger] final(store).tasks@[k] == (if old(
                store,
            ).tasks@[k].id@ == id {
                old(store).tasks@[k].with_progress(100, now)
            } else {
                old(store).tasks@[k]
            })),
{
    let tag = match task_data.get(&String::from_str("task_type")) {
        Some(v) => match v.as_str() {
            Some(s) => s.clone(),
            None => String::from_str(""),
        },
        None => String::from_str(""),
    };
    let outcome = if tag == String::from_str("email") {
        process_email_task(task_data, store, worker_id, now)
    } else if tag == String::from_str("video") {
        process_video_task(task_data, store, worker_id, now)
    } else if tag == String::from_str("image") {
        process_image_task(task_data, store, worker_id, now)
    } else {
        return Err(ExecError::UnknownTaskType);
    };
    match outcome {
        Ok(_) => Ok(()),
        Err(HandlerError::MissingTaskId) => Err(ExecError::MissingTaskId),
    }
}

/// What the execution unit tells the I/O shell to answer the broker with.
#[derive(Clone, Copy, PartialEq, Eq, Structural, Debug)]
pub enum FinalAction {
    /// Confirm permanent removal of the delivery.
    Ack,
    /// Return the delivery to the broker for redelivery.
    Nack,
}

/// The id an execution unit reports under: the message's task id, or
/// `unknown` when the message names none.
pub open spec fn spec_msg_task_id(msg: Json) -> Seq<char> {
    match spec_task_id_of(msg) {
        Option::Some(s) => s,
        Option::None => "unknown"@,
    }
}

/// The row one finalized execution leaves behind, given the handler outcome.
/// A terminal row is left untouched; a clean run completes the task at
/// progress 100; a failure counts the attempt and either releases the task
/// for redelivery or, at the cap, fails it for good.
pub open spec fn spec_executed_row(t: Task, handler_ok: bool, now: i64) -> Task {
    if t.status.spec_is_terminal() {
        t
    } else if handler_ok {
        t.with_progress(100, now).with_status(TaskStatus::Completed, now)
    } else {
        let b = t.bumped(now);
        if b.attempts >= MAX_ATTEMPTS {
            b.with_status(TaskStatus::Failed, now)
        } else {
            b.with_status(TaskStatus::Pending, now)
        }
    }
}

/// The broker answer finalization ends with: ack everything settled (clean
/// runs, rows already terminal, and failures that exhausted the retry
/// budget), nack what should be redelivered (failures below the cap, and
/// failures whose attempt count could not be advanced).
pub open spec fn spec_final_action(s: TaskStore, id: Seq<char>, handler_ok: bool, now: i64) -> FinalAction {
    if !s.spec_has(id) {
        if handler_ok {
            FinalAction::Ack
        } else {
            FinalAction::Nack
        }
    } else {
        let t = s.spec_task_at(id);
        if t.status.spec_is_terminal() {
            FinalAction::Ack
        } else if handler_ok {
            FinalAction::Ack
        } else if t.bumped(now).attempts >= MAX_ATTEMPTS {
            FinalAction::Ack
        } else {
            FinalAction::Nack
        }
    }
}

/// Settles one finished execution in the store and names the broker answer.
///
/// A clean run is marked `completed` at progress 100 and acked. A failure
/// has its attempt counted: below `MAX_ATTEMPTS` the task goes back to
/// `pending` and the delivery is nacked for redelivery; at the cap the task
/// is marked `failed` and acked. A failure whose row is missing is nacked,
/// so broker redelivery retries the whole execution. A row already terminal
/// is never changed: its delivery is a leftover and is acked.
pub fn finalize_execution(store: &mut TaskStore, task_id: &String, handler_ok: bool, now: i64) -> (r: FinalAction)
    requires
        old(store).wf(),
    ensures
        final(store).wf(),
        final(store).workers == old(store).workers,
        final(store).logs == old(store).logs,
        final(store).tasks@.len() == old(store).tasks@.len(),
        forall|k: int|
            0 <= k < old(store).tasks@.len() ==> #[trigger] final(store).tasks@[k] == (if old(
                store,
            ).tasks@[k].id@ == task_id@ {
                spec_executed_row(old(store).tasks@[k], handler_ok, now)
            } else {
                old(store).tasks@[k]
            }),
        forall|k: int|
            0 <= k < old(store).tasks@.len() && (#[trigger] old(
                store,
            ).tasks@[k]).status.spec_is_terminal() ==> final(store).tasks@[k] == old(
                store,
            ).tasks@[k],
        r == spec_final_action(*old(store), task_id@, handler_ok, now),
{
    proof {
        assert forall|k: int|
            0 <= k < old(store).tasks@.len() && (#[trigger] old(store).tasks@[k]).id@
                == task_id@ implies old(store).tasks@[k] == old(store).spec_task_at(
            task_id@,
        ) by {
            old(store).lemma_task_at_is(task_id@, k);
        }
    }
    let settled = match store.get(task_id) {
        Some(t) => t.status.is_terminal(),
        None => false,
    };
    if settled {
        return FinalAction::Ack;
    }
    if handler_ok {
        store.set_status(task_id, TaskStatus::Completed, now);
        let _ = store.set_progress(task_id, 100, now);
        FinalAction::Ack
    } else {
        match store.bump_attempts(task_id, now) {
            Some(a) => {
                if a < MAX_ATTEMPTS {
                    store.set_status(task_id, TaskStatus::Pending, now);
                    FinalAction::Nack
                } else {
                    store.set_status(task_id, TaskStatus::Failed, now);
                    FinalAction::Ack
                }
            },
            None => FinalAction::Nack,
        }
    }
}

/// What the ingest flow tells the I/O shell to do with one delivery.
#[derive(Clone, Copy, PartialEq, Eq, Structural, Debug)]
pub enum IngestAction {
    /// The body did not decode: ack the delivery to drop the poison pill,
    /// which would otherwise loop forever.
    AckDrop,
    /// The delivery was queued for dispatch.
    Queued,
}

/// Ingest flow step for one delivery: a message that decoded is queued under
/// its declared priority; one that did not is dropped by acking it.
pub fn ingest_delivery(sched: &mut Scheduler, decoded: Option<Json>, delivery: u64) -> (r: IngestAction)
    ensures
        match decoded {
            Option::None => r is AckDrop && final(sched)@ == old(sched)@,
            Option::Some(msg) => {
                &&& r is Queued
                &&& final(sched)@.len() == old(sched)@.len() + 1
                &&& forall|k: int|
                    0 <= k < old(sched)@.len() ==> #[trigger] final(sched)@[k] == old(sched)@[k]
                &&& final(sched)@.last().priority == spec_priority_of(msg)
                &&& final(sched)@.last().delivery == delivery
                &&& final(sched)@.last().task_data == msg
            },
        },
{
    match decoded {
        None => IngestAction::AckDrop,
        Some(msg) => {
            let priority = extract_priority(&msg);
            sched.add_task(ScheduledTask { priority: priority, delivery: delivery, task_data: msg });
            IngestAction::Queued
        },
    }
}

/// The execution supervisor's state: the store, the pending deliveries, and
/// the admission gate.
pub struct Supervisor {
    pub store: TaskStore,
    pub scheduler: Scheduler,
    pub gate: Gate,
}

impl Supervisor {
    pub open spec fn wf(self) -> bool {
        &&& self.store.wf()
        &&& self.gate.wf()
    }

    pub fn new(capacity: u32) -> (r: Supervisor)
        ensures
            r.wf(),
            r.store.tasks@.len() == 0,
            r.store.logs@.len() == 0,
            r.scheduler@.len() == 0,
            r.gate.spec_capacity() == capacity,
            r.gate.spec_in_flight() == 0,
    {
        Supervisor { store: TaskStore::new(), scheduler: Scheduler::new(), gate: Gate::new(capacity) }
    }

    /// Dispatch flow step: take an admission permit, then a highest-priority
    /// pending delivery. Without a free permit or a pending delivery nothing
    /// changes, and the shell pauses before retrying.
    pub fn try_dispatch(&mut self) -> (r: Option<ScheduledTask>)
        requires
            old(self).wf(),
        ensures
            final(self).wf(),
            final(self).store == old(self).store,
            final(self).gate.spec_capacity() == old(self).gate.spec_capacity(),
            match r {
                None => {
                    &&& final(self).gate.spec_in_flight() == old(self).gate.spec_in_flight()
                    &&& final(self).scheduler@ == old(self).scheduler@
                    &&& (old(self).scheduler@.len() == 0 || old(self).gate.spec_in_flight() == old(
                        self,
                    ).gate.spec_capacity())
                },
                Some(t) => {
                    &&& old(self).gate.spec_in_flight() < old(self).gate.spec_capacity()
                    &&& final(self).gate.spec_in_flight() == old(self).gate.spec_in_flight() + 1
                    &&& exists|i: int|
                        0 <= i < old(self).scheduler@.len() && t == old(self).scheduler@[i]
                            && final(self).scheduler@ == old(self).scheduler@.remove(i)
                    &&& forall|j: int|
                        0 <= j < old(self).scheduler@.len() ==> (#[trigger] old(
                            self,
                        ).scheduler@[j]).priority <= t.priority
                },
            },
    {
        if !self.gate.try_acquire() {
            return None;
        }
        match self.scheduler.get_next() {
            Some(t) => Some(t),
            None => {
                self.gate.release();
                None
            },
        }
    }

    /// One execution unit, for a dispatched delivery whose permit this call
    /// owns: mark the task running, run its handler, finalize, and release
    /// the permit — on every path.
    ///
    /// Rows at status `running` belong to executions in flight: an execution
    /// settles its own row and marks no other running, so the count of
    /// running rows never grows across a supervised execution, while the
    /// admission permits stay bounded by the capacity.
    pub fn execute(&mut self, st: &ScheduledTask, worker_id: &String, now: i64) -> (r: FinalAction)
        requires
            old(self).wf(),
            old(self).gate.spec_in_flight() > 0,
        ensures
            final(self).wf(),
            TaskStore::spec_count_running(final(self).store.tasks@)
                <= TaskStore::spec_count_running(old(self).store.tasks@),
            final(self).scheduler@ == old(self).scheduler@,
            final(self).gate.spec_capacity() == old(self).gate.spec_capacity(),
            final(self).gate.spec_in_flight() == old(self).gate.spec_in_flight() - 1,
            final(self).store.workers == old(self).store.workers,
            final(self).store.tasks@.len() == old(self).store.tasks@.len(),
            forall|k: int|
                0 <= k < old(self).store.logs@.len() ==> #[trigger] final(self).store.logs@[k]
                    == old(self).store.logs@[k],
            forall|k: int|
                0 <= k < old(self).store.tasks@.len() ==> #[trigger] final(self).store.tasks@[k]
                    == (if old(self).store.tasks@[k].id@ == spec_msg_task_id(st.task_data) {
                    spec_executed_row(
                        old(self).store.tasks@[k],
                        spec_handler_ok(st.task_data),
                        now,
                    )
                } else {
                    old(self).store.tasks@[k]
                }),
            forall|k: int|
                0 <= k < old(self).store.tasks@.len() && (#[trigger] old(
                    self,
                ).store.tasks@[k]).status.spec_is_terminal() ==> final(self).store.tasks@[k]
                    == old(self).store.tasks@[k],
            r == spec_final_action(
                old(self).store,
                spec_msg_task_id(st.task_data),
                spec_handler_ok(st.task_data),
                now,
            ),
    {
        proof {
            assert forall|k: int|
                0 <= k < old(self).store.tasks@.len() && (#[trigger] old(self).store.tasks@[k]).id@
                    == spec_msg_task_id(st.task_data) implies old(self).store.tasks@[k] == old(
                self,
            ).store.spec_task_at(spec_msg_task_id(st.task_data)) by {
                old(self).store.lemma_task_at_is(spec_msg_task_id(st.task_data), k);
            }
        }
        let task_id = match task_id_of(&st.task_data) {
            Some(s) => s,
            None => String::from_str("unknown"),
        };
        let settled = match self.store.get(&task_id) {
            Some(t) => t.status.is_terminal(),
            None => false,
        };
        if settled {
            self.gate.release();
            return FinalAction::Ack;
        }
        self.store.set_status(&task_id, TaskStatus::Running, now);
        let outcome = run_task(&st.task_data, &mut self.store, worker_id, now);
        let handler_ok = match outcome {
            Ok(_) => true,
            Err(_) => false,
        };
        let action = finalize_execution(&mut self.store, &task_id, handler_ok, now);
        self.gate.release();
        proof {
            assert forall|k: int|
                0 <= k < self.store.tasks@.len() && (#[trigger] self.store.tasks@[k]).status
                    is Running implies old(self).store.tasks@[k].status is Running by {
                if old(self).store.tasks@[k].id@ == spec_msg_task_id(st.task_data) {
                    assert(self.store.tasks@[k] == spec_executed_row(
                        old(self).store.tasks@[k],
                        spec_handler_ok(st.task_data),
                        now,
                    ));
                }
            }
            crate::store::lemma_count_running_monotone(
                old(self).store.tasks@,
                self.store.tasks@,
            );
        }
        action
    }
}

/// Law: a task in a terminal state is never changed by any later execution.
pub proof fn lemma_terminal_is_final(t: Task, handler_ok: bool, now: i64)
    requires
        t.status.spec_is_terminal(),
    ensures
        spec_executed_row(t, handler_ok, now) == t,
{
}

/// Law: execution after a crash-induced redelivery settles the task like one
/// uninterrupted run. The handler outcome is a function of the message
/// alone, and for a clean outcome the row completes at progress 100
/// whatever progress or attempt count the interrupted execution left
/// behind; for a failing outcome two runs from the same attempt count end
/// alike.
pub proof fn lemma_redelivery_terminal_state(t1: Task, t2: Task, handler_ok: bool, now1: i64, now2: i64)
    requires
        t1.wf(),
        t2.wf(),
        !t1.status.spec_is_terminal(),
        !t2.status.spec_is_terminal(),
    ensures
        handler_ok ==> spec_executed_row(t1, handler_ok, now1).status is Completed
            && spec_executed_row(t1, handler_ok, now1).progress == 100 && spec_executed_row(
            t2,
            handler_ok,
            now2,
        ).status is Completed && spec_executed_row(t2, handler_ok, now2).progress == 100,
        !handler_ok && t1.attempts == t2.attempts ==> spec_executed_row(
            t1,
            handler_ok,
            now1,
        ).status == spec_executed_row(t2, handler_ok, now2).status,
{
}

} // verus!
