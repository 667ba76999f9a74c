//! The progress event feed: every poll interval the I/O shell asks for the
//! event owed to a subscriber, and serves it on the server-sent-events
//! stream. The emission rule lives here.

use vstd::prelude::*;
use vstd::string::StringExecFns;
use crate::json::Json;
use crate::store::{TaskStore, TaskStatus};

verus! {

/// One emitted event: the task, its status, and its progress.
pub struct SseEvent {
    pub task_id: String,
    pub status: TaskStatus,
    pub progress: u8,
}

/// The emission rule: once the task has left `pending`, each poll emits its
/// status and progress; while it is still `pending`, or when no task carries
/// the id, nothing is emitted.
pub fn sse_event(store: &TaskStore, task_id: &String) -> (r: Option<SseEvent>)
    requires
        store.wf(),
    ensures
        match r {
            Some(e) => {
                &&& store.spec_has(task_id@)
                &&& !(store.spec_task_at(task_id@).status is Pending)
                &&& e.task_id@ == task_id@
                &&& e.status == store.spec_task_at(task_id@).status
                &&& e.progress == store.spec_task_at(task_id@).progress
            },
            None => !store.spec_has(task_id@) || store.spec_task_at(task_id@).status is Pending,
        },
{
    match store.get(task_id) {
        Some(t) => {
            let still_pending = match t.status {
                TaskStatus::Pending => true,
                _ => false,
            };
            if still_pending {
                None
            } else {
                Some(SseEvent { task_id: task_id.clone(), status: t.status, progress: t.progress })
            }
        },
        None => None,
    }
}

impl SseEvent {
    /// The JSON document served for this event:
    /// `{task_id, status, progress}`.
    pub fn to_json(&self) -> (r: Json)
        ensures
            (match r.spec_get("task_id"@) {
                Option::Some(v) => v.spec_as_str() == Some(self.task_id@),
                Option::None => false,
            }),
            (match r.spec_get("status"@) {
                Option::Some(v) => v.spec_as_str() == Some(self.status.spec_name()),
                Option::None => false,
            }),
            (match r.spec_get("progress"@) {
                Option::Some(v) => v.spec_as_u64() == Some(self.progress as u64),
                Option::None => false,
            }),
    {
        proof {
            reveal_strlit("task_id");
            reveal_strlit("status");
            reveal_strlit("progress");
        }
        let mut fields: Vec<(String, Json)> = Vec::new();
        fields.push((String::from_str("task_id"), Json::Str(self.task_id.clone())));
        fields.push((String::from_str("status"), Json::Str(self.status.name())));
        fields.push((String::from_str("progress"), Json::UInt(self.progress as u64)));
        let doc = Json::Obj(fields);
        proof {
            reveal_with_fuel(Json::spec_obj_get, 4);
            let f = fields@;
            assert(f[0].0@ == "task_id"@);
            assert(f[1].0@ == "status"@);
            assert(f[2].0@ == "progress"@);
            assert(f.skip(1)[0] == f[1] && f.skip(1).len() == 2);
            assert(f.skip(1).skip(1) =~= f.skip(2));
            assert(f.skip(2)[0] == f[2] && f.skip(2).len() == 1);
            assert(doc.spec_get("task_id"@) is Some);
            assert(doc.spec_get("status"@) is Some);
            assert(doc.spec_get("progress"@) is Some);
        }
        doc
    }
}

} // verus!
