//! The submission path: validate the request, create the task row, and
//! build the broker message and the HTTP answer. The I/O shell owns the
//! HTTP endpoint, generates the task id, serializes the broker message and
//! publishes it.

use vstd::prelude::*;
use vstd::string::StringExecFns;
use crate::json::Json;
use crate::store::{Task, TaskStore, TaskStatus};
use crate::validate::{validate_payload, spec_validate, ValidationError};
use crate::worker::DEFAULT_PRIORITY;

verus! {

/// A submission request: `{task_type, payload, priority?}`.
#[derive(Debug)]
pub struct NewTask {
    pub task_type: String,
    pub payload: Json,
    pub priority: Option<u8>,
}

/// The answer a successful submission is served.
#[derive(Clone, Debug)]
pub struct TaskResponse {
    pub task_id: String,
    pub status: String,
    pub sse_url: String,
}

/// The priority a submission asked for, or the default.
pub open spec fn spec_requested_priority(p: Option<u8>) -> u8 {
    match p {
        Option::Some(v) => v,
        Option::None => DEFAULT_PRIORITY,
    }
}

/// The task row a submission creates: status `pending`, progress 0,
/// attempts 0, both timestamps at submission time.
pub fn make_task(new_task: NewTask, task_id: String, now: i64) -> (r: Task)
    ensures
        r.wf(),
        r.id == task_id,
        r.task_type == new_task.task_type,
        r.payload == new_task.payload,
        r.status is Pending,
        r.priority == spec_requested_priority(new_task.priority),
        r.progress == 0,
        r.attempts == 0,
        r.created_at == now,
        r.updated_at == now,
{
    let priority = match new_task.priority {
        Some(p) => p,
        None => DEFAULT_PRIORITY,
    };
    Task {
        id: task_id,
        task_type: new_task.task_type,
        payload: new_task.payload,
        status: TaskStatus::Pending,
        priority: priority,
        progress: 0,
        attempts: 0,
        created_at: now,
        updated_at: now,
    }
}

/// The progress-feed URL a submission is answered with.
pub fn sse_url_for(task_id: &String) -> (r: String)
    ensures
        r@ == "/sse?task_id="@ + task_id@,
{
    let mut m = String::from_str("/sse?task_id=");
    m.append(task_id.as_str());
    m
}

/// The body of a successful submission answer.
pub fn submission_response(task_id: &String) -> (r: TaskResponse)
    ensures
        r.task_id@ == task_id@,
        r.status@ == "submitted"@,
        r.sse_url@ == "/sse?task_id="@ + task_id@,
{
    TaskResponse {
        task_id: task_id.clone(),
        status: String::from_str("submitted"),
        sse_url: sse_url_for(task_id),
    }
}

/// The message enqueued for the worker:
/// `{task_id, task_type, payload, priority}`.
pub fn task_message(task_id: &String, task_type: &String, payload: Json, priority: u8) -> (r: Json)
    ensures
        crate::worker::spec_task_id_of(r) == Some(task_id@),
        crate::worker::spec_task_type_of(r) == task_type@,
        crate::worker::spec_priority_of(r) == priority,
        r.spec_get("payload"@) == Some(payload),
{
    proof {
        reveal_strlit("task_id");
        reveal_strlit("task_type");
        reveal_strlit("payload");
        reveal_strlit("priority");
    }
    let mut fields: Vec<(String, Json)> = Vec::new();
    fields.push((String::from_str("task_id"), Json::Str(task_id.clone())));
    fields.push((String::from_str("task_type"), Json::Str(task_type.clone())));
    fields.push((String::from_str("payload"), payload));
    fields.push((String::from_str("priority"), Json::UInt(priority as u64)));
    let msg = Json::Obj(fields);
    proof {
        reveal_with_fuel(Json::spec_obj_get, 5);
        let f = fields@;
        assert(f.len() == 4);
        assert(f[0].0@ == "task_id"@);
        assert(f[1].0@ == "task_type"@);
        assert(f[2].0@ == "payload"@);
        assert(f[3].0@ == "priority"@);
        assert(f.skip(1)[0] == f[1] && f.skip(1).len() == 3);
        assert(f.skip(1).skip(1) =~= f.skip(2));
        assert(f.skip(2)[0] == f[2] && f.skip(2).len() == 2);
        assert(f.skip(2).skip(1) =~= f.skip(3));
        assert(f.skip(3)[0] == f[3] && f.skip(3).len() == 1);
        assert("task_id"@[0] == 't');
        assert("payload"@[0] == 'p');
        assert("task_id"@ != "payload"@);
        assert("task_type"@ != "payload"@);
        assert(msg.spec_get("task_id"@) is Some);
        assert(msg.spec_get("task_type"@) is Some);
        assert(msg.spec_get("payload"@) == Some(payload));
        assert(msg.spec_get("priority"@) is Some);
    }
    msg
}

/// Handles one submission: rejects exactly what the validator rejects;
/// otherwise creates the row and hands back the answer body. The shell then
/// builds the broker message over [`task_message`] and publishes it.
pub fn handle_submit_task(store: &mut TaskStore, new_task: NewTask, task_id: String, now: i64) -> (r: Result<TaskResponse, ValidationError>)
    requires
        old(store).wf(),
        !old(store).spec_has(task_id@),
    ensures
        final(store).wf(),
        r is Ok <==> spec_validate(new_task.task_type@, new_task.payload) is Accepted,
        r matches Err(e) ==> *final(store) == *old(store) && e.as_verdict() == spec_validate(
            new_task.task_type@,
            new_task.payload,
        ),
        r matches Ok(ok) ==> {
            &&& final(store).tasks@.len() == old(store).tasks@.len() + 1
            &&& forall|k: int|
                0 <= k < old(store).tasks@.len() ==> #[trigger] final(store).tasks@[k] == old(
                    store,
                ).tasks@[k]
            &&& final(store).spec_has(task_id@)
            &&& final(store).spec_task_at(task_id@).task_type == new_task.task_type
            &&& final(store).spec_task_at(task_id@).payload == new_task.payload
            &&& final(store).spec_task_at(task_id@).status is Pending
            &&& final(store).spec_task_at(task_id@).progress == 0
            &&& final(store).spec_task_at(task_id@).attempts == 0
            &&& final(store).spec_task_at(task_id@).priority == spec_requested_priority(
                new_task.priority,
            )
            &&& final(store).spec_task_at(task_id@).created_at == now
            &&& final(store).spec_task_at(task_id@).updated_at == now
            &&& final(store).workers == old(store).workers
            &&& final(store).logs == old(store).logs
            &&& ok.task_id@ == task_id@
            &&& ok.status@ == "submitted"@
            &&& ok.sse_url@ == "/sse?task_id="@ + task_id@
        },
{
    if let Err(e) = validate_payload(&new_task.task_type, &new_task.payload) {
        return Err(e);
    }
    let response = submission_response(&task_id);
    let row = make_task(new_task, task_id, now);
    store.insert(row);
    Ok(response)
}

/// Law: submitting a task and then reading it by its id yields the row the
/// submission created — in particular the same task type and payload.
pub proof fn lemma_submit_read_round_trip(before: TaskStore, after: TaskStore, t: Task)
    requires
        before.wf(),
        t.wf(),
        !before.spec_has(t.id@),
        after.tasks@ == before.tasks@.push(t),
    ensures
        after.spec_has(t.id@),
        after.spec_task_at(t.id@) == t,
{
    let n = before.tasks@.len() as int;
    assert(forall|k: int|
        0 <= k < n ==> (#[trigger] after.tasks@[k]).id@ != t.id@) by {
        assert(forall|k: int| 0 <= k < n ==> after.tasks@[k] == #[trigger] before.tasks@[k]);
    }
    assert(after.wf());
    after.lemma_task_at_is(t.id@, n);
}

} // verus!
