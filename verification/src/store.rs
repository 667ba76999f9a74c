//! The task store: canonical state of every task, worker node and log line.
//!
//! The relational store owns this state in production; the I/O shell mirrors
//! each operation here to one atomic SQL statement. The operations keep the
//! row invariants: progress stays within 0..=100 and never decreases, and
//! attempts never pass `MAX_ATTEMPTS`.

use vstd::prelude::*;
use vstd::string::StringExecFns;

verus! {

/// Retry budget per task: reaching this many attempts forces `Failed`.
pub const MAX_ATTEMPTS: u8 = 5;

/// Lifecycle of one task. `Completed` and `Failed` are terminal.
#[derive(Clone, Copy, PartialEq, Eq, Structural, Debug)]
pub enum TaskStatus {
    Pending,
    Running,
    Completed,
    Failed,
}

impl TaskStatus {
    /// Terminal states admit no further transition.
    pub open spec fn spec_is_terminal(self) -> bool {
        self is Completed || self is Failed
    }

    pub fn is_terminal(&self) -> (r: bool)
        ensures
            r == self.spec_is_terminal(),
    {
        match self {
            TaskStatus::Completed => true,
            TaskStatus::Failed => true,
            _ => false,
        }
    }

    pub open spec fn spec_name(self) -> Seq<char> {
        match self {
            TaskStatus::Pending => "pending"@,
            TaskStatus::Running => "running"@,
            TaskStatus::Completed => "completed"@,
            TaskStatus::Failed => "failed"@,
        }
    }

    /// The status tag as it is stored and served.
    pub fn name(&self) -> (r: String)
        ensures
            r@ == self.spec_name(),
    {
        match self {
            TaskStatus::Pending => String::from_str("pending"),
            TaskStatus::Running => String::from_str("running"),
            TaskStatus::Completed => String::from_str("completed"),
            TaskStatus::Failed => String::from_str("failed"),
        }
    }
}

/// One task row. The identifier is the 128-bit id in its string form, unique
/// across the store and assigned at submission.
pub struct Task {
    pub id: String,
    pub task_type: String,
    pub payload: crate::json::Json,
    pub status: TaskStatus,
    /// 0..=255; higher dispatches earlier.
    pub priority: u8,
    /// 0..=100; never decreases within one execution.
    pub progress: u8,
    /// Completed executions that failed; capped at `MAX_ATTEMPTS`.
    pub attempts: u8,
    pub created_at: i64,
    pub updated_at: i64,
}

impl Task {
    /// Row invariant.
    pub open spec fn wf(self) -> bool {
        &&& self.progress <= 100
        &&& self.attempts <= MAX_ATTEMPTS
    }

    /// The row after a status transition at time `now`.
    pub open spec fn with_status(self, status: TaskStatus, now: i64) -> Task {
        Task { status: status, updated_at: now, ..self }
    }

    /// The row after a progress write of `v` at time `now`: a regressing
    /// write is rejected silently, so stored progress never decreases.
    pub open spec fn with_progress(self, v: int, now: i64) -> Task {
        if v > self.progress {
            Task { progress: v as u8, updated_at: now, ..self }
        } else {
            self
        }
    }

    /// The row after one attempt is counted: the count saturates at
    /// `MAX_ATTEMPTS`, which keeps the row invariant even when a crash makes
    /// the broker redeliver a task whose count already reached the cap.
    pub open spec fn bumped(self, now: i64) -> Task {
        if self.attempts < MAX_ATTEMPTS {
            Task { attempts: (self.attempts + 1) as u8, updated_at: now, ..self }
        } else {
            Task { updated_at: now, ..self }
        }
    }
}

/// A worker process, identified by a string id; it heartbeats via log writes.
#[derive(Clone, Debug)]
pub struct WorkerNode {
    pub node_id: String,
    pub status: String,
    pub last_health_check: i64,
    pub current_task_id: Option<String>,
}

/// One append-only log line.
#[derive(Clone, Debug)]
pub struct LogEntry {
    pub timestamp: i64,
    pub worker_node_id: Option<String>,
    pub message: String,
}

/// Rejections a store operation can answer with.
#[derive(Clone, Copy, PartialEq, Eq, Structural, Debug)]
pub enum StoreError {
    /// A progress write outside 0..=100.
    ProgressOutOfRange,
}

/// The canonical state: task rows, worker nodes, and the append-only log.
pub struct TaskStore {
    pub tasks: Vec<Task>,
    pub workers: Vec<WorkerNode>,
    pub logs: Vec<LogEntry>,
}

impl TaskStore {
    /// Every row satisfies its invariant and ids are unique.
    pub open spec fn wf(self) -> bool {
        &&& forall|k: int| 0 <= k < self.tasks@.len() ==> (#[trigger] self.tasks@[k]).wf()
        &&& forall|j: int, k: int|
            0 <= j < k < self.tasks@.len() ==> (#[trigger] self.tasks@[j]).id@ != (
            #[trigger] self.tasks@[k]).id@
    }

    pub open spec fn spec_has(self, id: Seq<char>) -> bool {
        exists|k: int| 0 <= k < self.tasks@.len() && (#[trigger] self.tasks@[k]).id@ == id
    }

    /// The unique row with the given id (meaningful only under `spec_has`
    /// and unique ids).
    pub open spec fn spec_task_at(self, id: Seq<char>) -> Task {
        self.tasks@[choose|k: int| 0 <= k < self.tasks@.len() && (#[trigger] self.tasks@[k]).id@
            == id]
    }

    /// With unique ids, the row at a matching index is the row `spec_task_at`
    /// names.
    pub proof fn lemma_task_at_is(self, id: Seq<char>, k: int)
        requires
            self.wf(),
            0 <= k < self.tasks@.len(),
            self.tasks@[k].id@ == id,
        ensures
            self.spec_has(id),
            self.spec_task_at(id) == self.tasks@[k],
    {
        assert(self.spec_has(id));
        let k2 = choose|k2: int|
            0 <= k2 < self.tasks@.len() && (#[trigger] self.tasks@[k2]).id@ == id;
        if k2 < k {
            assert(self.tasks@[k2].id@ != self.tasks@[k].id@);
        } else if k < k2 {
            assert(self.tasks@[k].id@ != self.tasks@[k2].id@);
        }
    }

    /// How many tasks stand at `Running`.
    pub open spec fn spec_count_running(tasks: Seq<Task>) -> int
        decreases tasks.len(),
    {
        if tasks.len() == 0 {
            0
        } else {
            Self::spec_count_running(tasks.drop_last()) + if tasks.last().status is Running {
                1int
            } else {
                0int
            }
        }
    }

    pub fn new() -> (r: TaskStore)
        ensures
            r.wf(),
            r.tasks@.len() == 0,
            r.workers@.len() == 0,
            r.logs@.len() == 0,
    {
        TaskStore { tasks: Vec::new(), workers: Vec::new(), logs: Vec::new() }
    }

    /// Index of the row with the given id, if one exists.
    fn index_of(&self, task_id: &String) -> (r: Option<usize>)
        ensures
            match r {
                Some(i) => i < self.tasks@.len() && self.tasks@[i as int].id@ == task_id@,
                None => forall|k: int|
                    0 <= k < self.tasks@.len() ==> (#[trigger] self.tasks@[k]).id@ != task_id@,
            },
    {
        let n = self.tasks.len();
        let mut i: usize = 0;
        while i < n
            invariant
                i <= n,
                n == self.tasks@.len(),
                forall|k: int| 0 <= k < i ==> (#[trigger] self.tasks@[k]).id@ != task_id@,
            decreases n - i,
        {
            if self.tasks[i].id == *task_id {
                return Some(i);
            }
            i = i + 1;
        }
        None
    }

    /// Point read, as the event feed uses it.
    pub fn get(&self, task_id: &String) -> (r: Option<&Task>)
        requires
            self.wf(),
        ensures
            match r {
                Some(t) => self.spec_has(task_id@) && *t == self.spec_task_at(task_id@),
                None => !self.spec_has(task_id@),
            },
    {
        match self.index_of(task_id) {
            Some(i) => {
                proof {
                    self.lemma_task_at_is(task_id@, i as int);
                }
                Some(&self.tasks[i])
            },
            None => None,
        }
    }

    /// Creates the row for a freshly submitted task: status `pending`,
    /// progress 0, attempts 0, under an id not yet present.
    pub fn insert(&mut self, task: Task)
        requires
            old(self).wf(),
            !old(self).spec_has(task.id@),
            task.status is Pending,
            task.progress == 0,
            task.attempts == 0,
        ensures
            final(self).wf(),
            final(self).tasks@ == old(self).tasks@.push(task),
            final(self).workers == old(self).workers,
            final(self).logs == old(self).logs,
            final(self).spec_has(task.id@),
            final(self).spec_task_at(task.id@) == task,
    {
        self.tasks.push(task);
        proof {
            let n = self.tasks@.len() - 1;
            assert(forall|k: int|
                0 <= k < n ==> (#[trigger] self.tasks@[k]).id@ != task.id@) by {
                assert(forall|k: int|
                    0 <= k < n ==> self.tasks@[k] == #[trigger] old(self).tasks@[k]);
            }
            self.lemma_task_at_is(task.id@, n);
        }
    }

    /// Progress write: rejects values outside 0..=100; silently keeps the
    /// stored value on a regressing write, so progress never decreases.
    pub fn set_progress(&mut self, task_id: &String, v: i32, now: i64) -> (r: Result<
        (),
        StoreError,
    >)
        requires
            old(self).wf(),
        ensures
            final(self).wf(),
            r is Ok <==> 0 <= v <= 100,
            final(self).workers == old(self).workers,
            final(self).logs == old(self).logs,
            final(self).tasks@.len() == old(self).tasks@.len(),
            forall|k: int|
                0 <= k < old(self).tasks@.len() ==> #[trigger] final(self).tasks@[k] == (
                if old(self).tasks@[k].id@ == task_id@ && 0 <= v <= 100 {
                    old(self).tasks@[k].with_progress(v as int, now)
                } else {
                    old(self).tasks@[k]
                }),
            forall|k: int|
                0 <= k < old(self).tasks@.len() ==> final(self).tasks@[k].progress >= (
                #[trigger] old(self).tasks@[k]).progress,
            forall|k: int|
                0 <= k < old(self).tasks@.len() ==> final(self).tasks@[k].status == (
                #[trigger] old(self).tasks@[k]).status,
    {
        if v < 0 || v > 100 {
            return Err(StoreError::ProgressOutOfRange);
        }
        match self.index_of(task_id) {
            Some(i) => {
                if v > self.tasks[i].progress as i32 {
                    self.tasks[i].progress = v as u8;
                    self.tasks[i].updated_at = now;
                }
                Ok(())
            },
            None => Ok(()),
        }
    }

    /// Status write with its timestamp. The store applies it as given; the
    /// supervisor is responsible for only requesting legal transitions.
    pub fn set_status(&mut self, task_id: &String, status: TaskStatus, now: i64)
        requires
            old(self).wf(),
        ensures
            final(self).wf(),
            final(self).workers == old(self).workers,
            final(self).logs == old(self).logs,
            final(self).tasks@.len() == old(self).tasks@.len(),
            forall|k: int|
                0 <= k < old(self).tasks@.len() ==> #[trigger] final(self).tasks@[k] == (
                if old(self).tasks@[k].id@ == task_id@ {
                    old(self).tasks@[k].with_status(status, now)
                } else {
                    old(self).tasks@[k]
                }),
    {
        match self.index_of(task_id) {
            Some(i) => {
                self.tasks[i].status = status;
                self.tasks[i].updated_at = now;
            },
            None => (),
        }
    }

    /// Atomic increment of the attempt count, returning the new value;
    /// `None` when no row carries the id. The count saturates at
    /// `MAX_ATTEMPTS`, keeping the row invariant.
    pub fn bump_attempts(&mut self, task_id: &String, now: i64) -> (r: Option<u8>)
        requires
            old(self).wf(),
        ensures
            final(self).wf(),
            final(self).workers == old(self).workers,
            final(self).logs == old(self).logs,
            final(self).tasks@.len() == old(self).tasks@.len(),
            forall|k: int|
                0 <= k < old(self).tasks@.len() ==> #[trigger] final(self).tasks@[k] == (
                if old(self).tasks@[k].id@ == task_id@ {
                    old(self).tasks@[k].bumped(now)
                } else {
                    old(self).tasks@[k]
                }),
            match r {
                Some(a) => old(self).spec_has(task_id@) && a == old(self).spec_task_at(
                    task_id@,
                ).bumped(now).attempts,
                None => !old(self).spec_has(task_id@),
            },
    {
        match self.index_of(task_id) {
            Some(i) => {
                proof {
                    old(self).lemma_task_at_is(task_id@, i as int);
                }
                let a = self.tasks[i].attempts;
                let new_a = if a < MAX_ATTEMPTS {
                    a + 1
                } else {
                    a
                };
                self.tasks[i].attempts = new_a;
                self.tasks[i].updated_at = now;
                Some(new_a)
            },
            None => None,
        }
    }

    /// Unconditional append of one log line at time `now`.
    pub fn append_log(&mut self, worker_id: &String, message: String, now: i64)
        requires
            old(self).wf(),
        ensures
            final(self).wf(),
            final(self).tasks == old(self).tasks,
            final(self).workers == old(self).workers,
            final(self).logs@.len() == old(self).logs@.len() + 1,
            final(self).logs@.last().timestamp == now,
            final(self).logs@.last().worker_node_id == Some(*worker_id),
            final(self).logs@.last().message@ == message@,
            forall|k: int|
                0 <= k < old(self).logs@.len() ==> #[trigger] final(self).logs@[k] == old(
                    self,
                ).logs@[k],
    {
        let entry = LogEntry {
            timestamp: now,
            worker_node_id: Some(worker_id.clone()),
            message: message,
        };
        self.logs.push(entry);
    }

    /// How many tasks stand at `Running`; the admission gate bounds this.
    pub fn count_running(&self) -> (r: usize)
        ensures
            r == Self::spec_count_running(self.tasks@),
    {
        let n = self.tasks.len();
        let mut i: usize = 0;
        let mut c: usize = 0;
        proof {
            assert(self.tasks@.take(0) =~= Seq::<Task>::empty());
        }
        while i < n
            invariant
                i <= n,
                n == self.tasks@.len(),
                c <= i,
                c == Self::spec_count_running(self.tasks@.take(i as int)),
            decreases n - i,
        {
            proof {
                assert(self.tasks@.take(i as int + 1).drop_last() =~= self.tasks@.take(i as int));
                assert(self.tasks@.take(i as int + 1).last() == self.tasks@[i as int]);
            }
            let running = match self.tasks[i].status {
                TaskStatus::Running => true,
                _ => false,
            };
            if running {
                c = c + 1;
            }
            i = i + 1;
        }
        proof {
            assert(self.tasks@.take(n as int) =~= self.tasks@);
        }
        c
    }
}

/// One row of the dashboard's task lists.
#[derive(Clone, Debug)]
pub struct TaskInfo {
    pub id: String,
    pub task_type: String,
    pub status: String,
    pub progress: u8,
    pub created_at: i64,
}

impl TaskInfo {
    /// Whether this display row reflects the given task row.
    pub open spec fn reflects(self, t: Task) -> bool {
        &&& self.id@ == t.id@
        &&& self.task_type@ == t.task_type@
        &&& self.status@ == t.status.spec_name()
        &&& self.progress == t.progress
        &&& self.created_at == t.created_at
    }
}

impl TaskStore {
    /// How many tasks stand at `Pending`.
    pub open spec fn spec_count_pending(tasks: Seq<Task>) -> int
        decreases tasks.len(),
    {
        if tasks.len() == 0 {
            0
        } else {
            Self::spec_count_pending(tasks.drop_last()) + if tasks.last().status is Pending {
                1int
            } else {
                0int
            }
        }
    }

    /// The worker nodes, as the dashboard shows them.
    pub fn list_workers(&self) -> (r: &Vec<WorkerNode>)
        ensures
            r == &self.workers,
    {
        &self.workers
    }

    /// The oldest `pending` tasks, at most `limit` of them, ordered by
    /// creation time: every pending task is either shown or created no
    /// earlier than the newest shown one.
    #[verifier::rlimit(50)]
    pub fn list_pending(&self, limit: usize) -> (r: Vec<TaskInfo>)
        requires
            self.wf(),
        ensures
            r@.len() == (if limit <= Self::spec_count_pending(self.tasks@) {
                limit as int
            } else {
                Self::spec_count_pending(self.tasks@)
            }),
            forall|a: int, b: int|
                0 <= a < b < r@.len() ==> (#[trigger] r@[a]).created_at <= (
                #[trigger] r@[b]).created_at,
            forall|a: int, b: int|
                0 <= a < b < r@.len() ==> (#[trigger] r@[a]).id@ != (#[trigger] r@[b]).id@,
            forall|j: int|
                0 <= j < r@.len() ==> exists|k: int|
                    0 <= k < self.tasks@.len() && (#[trigger] r@[j]).reflects(self.tasks@[k])
                        && self.tasks@[k].status is Pending,
            forall|k: int|
                0 <= k < self.tasks@.len() && (#[trigger] self.tasks@[k]).status is Pending
                    ==> (exists|j: int| 0 <= j < r@.len() && (#[trigger] r@[j]).id@
                    == self.tasks@[k].id@) || (r@.len() == limit && (r@.len() == 0 || r@[r@.len()
                    - 1].created_at <= self.tasks@[k].created_at)),
    {
        let n = self.tasks.len();
        let mut rest: Vec<TaskInfo> = Vec::new();
        let mut i: usize = 0;
        proof {
            assert(self.tasks@.take(0) =~= Seq::<Task>::empty());
        }
        while i < n
            invariant
                self.wf(),
                i <= n,
                n == self.tasks@.len(),
                rest@.len() == Self::spec_count_pending(self.tasks@.take(i as int)),
                forall|m: int|
                    0 <= m < rest@.len() ==> exists|k: int|
                        0 <= k < i && (#[trigger] rest@[m]).reflects(self.tasks@[k])
                            && self.tasks@[k].status is Pending,
                forall|k: int|
                    0 <= k < i && (#[trigger] self.tasks@[k]).status is Pending ==> exists|m: int|
                        0 <= m < rest@.len() && (#[trigger] rest@[m]).id@ == self.tasks@[k].id@
                            && rest@[m].created_at == self.tasks@[k].created_at,
                forall|a: int, b: int|
                    0 <= a < b < rest@.len() ==> (#[trigger] rest@[a]).id@ != (
                    #[trigger] rest@[b]).id@,
            decreases n - i,
        {
            proof {
                assert(self.tasks@.take(i as int + 1).drop_last() =~= self.tasks@.take(i as int));
                assert(self.tasks@.take(i as int + 1).last() == self.tasks@[i as int]);
                assert forall|a: int| 0 <= a < rest@.len() implies (#[trigger] rest@[a]).id@
                    != self.tasks@[i as int].id@ by {
                    assert(exists|k: int|
                        0 <= k < i && (#[trigger] rest@[a]).reflects(self.tasks@[k])
                            && self.tasks@[k].status is Pending);
                    let k = choose|k: int|
                        0 <= k < i && (#[trigger] rest@[a]).reflects(self.tasks@[k])
                            && self.tasks@[k].status is Pending;
                    assert(self.tasks@[k].id@ != self.tasks@[i as int].id@);
                }
            }
            let t = &self.tasks[i];
            let is_pending = match t.status {
                TaskStatus::Pending => true,
                _ => false,
            };
            let ghost rest0 = rest@;
            if is_pending {
                let info = TaskInfo {
                    id: t.id.clone(),
                    task_type: t.task_type.clone(),
                    status: t.status.name(),
                    progress: t.progress,
                    created_at: t.created_at,
                };
                rest.push(info);
                proof {
                    assert(rest@.last().reflects(self.tasks@[i as int]));
                    assert(forall|m: int| 0 <= m < rest0.len() ==> rest@[m] == rest0[m]);
                }
            }
            i = i + 1;
        }
        proof {
            assert(self.tasks@.take(n as int) =~= self.tasks@);
        }
        let total = rest.len();
        let mut out: Vec<TaskInfo> = Vec::new();
        while out.len() < limit && rest.len() > 0
            invariant
                self.wf(),
                out@.len() + rest@.len() == total,
                out@.len() <= limit,
                total == Self::spec_count_pending(self.tasks@),
                forall|a: int, b: int|
                    0 <= a < b < out@.len() ==> (#[trigger] out@[a]).created_at <= (
                    #[trigger] out@[b]).created_at,
                forall|a: int, m: int|
                    0 <= a < out@.len() && 0 <= m < rest@.len() ==> (#[trigger] out@[a]).created_at
                        <= (#[trigger] rest@[m]).created_at,
                forall|m: int|
                    0 <= m < out@.len() ==> exists|k: int|
                        0 <= k < self.tasks@.len() && (#[trigger] out@[m]).reflects(self.tasks@[k])
                            && self.tasks@[k].status is Pending,
                forall|m: int|
                    0 <= m < rest@.len() ==> exists|k: int|
                        0 <= k < self.tasks@.len() && (#[trigger] rest@[m]).reflects(
                            self.tasks@[k],
                        ) && self.tasks@[k].status is Pending,
                forall|k: int|
                    0 <= k < self.tasks@.len() && (#[trigger] self.tasks@[k]).status is Pending
                        ==> (exists|m: int| 0 <= m < out@.len() && (#[trigger] out@[m]).id@
                        == self.tasks@[k].id@) || (exists|m: int|
                        0 <= m < rest@.len() && (#[trigger] rest@[m]).id@ == self.tasks@[k].id@
                            && rest@[m].created_at == self.tasks@[k].created_at),
                forall|a: int, b: int|
                    0 <= a < b < out@.len() ==> (#[trigger] out@[a]).id@ != (
                    #[trigger] out@[b]).id@,
                forall|a: int, b: int|
                    0 <= a < b < rest@.len() ==> (#[trigger] rest@[a]).id@ != (
                    #[trigger] rest@[b]).id@,
                forall|a: int, m: int|
                    0 <= a < out@.len() && 0 <= m < rest@.len() ==> (#[trigger] out@[a]).id@ != (
                    #[trigger] rest@[m]).id@,
            decreases rest@.len(),
        {
            let m = rest.len();
            let mut best: usize = 0;
            let mut j: usize = 1;
            while j < m
                invariant
                    best < j <= m,
                    m == rest@.len(),
                    forall|q: int|
                        0 <= q < j ==> rest@[best as int].created_at <= (
                        #[trigger] rest@[q]).created_at,
                decreases m - j,
            {
                if rest[j].created_at < rest[best].created_at {
                    best = j;
                }
                j = j + 1;
            }
            let ghost rest0 = rest@;
            let ghost out0 = out@;
            let chosen = rest.remove(best);
            out.push(chosen);
            proof {
                assert(forall|m: int| 0 <= m < out0.len() ==> out@[m] == out0[m]);
                assert(out@.last() == rest0[best as int]);
                assert(forall|m: int| 0 <= m < best ==> rest@[m] == rest0[m]);
                assert(forall|m: int|
                    best <= m < rest@.len() ==> rest@[m] == rest0[m + 1]);
                assert forall|k: int|
                    0 <= k < self.tasks@.len() && (#[trigger] self.tasks@[k]).status
                        is Pending implies (exists|m: int|
                    0 <= m < out@.len() && (#[trigger] out@[m]).id@ == self.tasks@[k].id@) || (
                exists|m: int|
                    0 <= m < rest@.len() && (#[trigger] rest@[m]).id@ == self.tasks@[k].id@
                        && rest@[m].created_at == self.tasks@[k].created_at) by {
                    if exists|m: int|
                        0 <= m < out0.len() && (#[trigger] out0[m]).id@ == self.tasks@[k].id@ {
                        let m = choose|m: int|
                            0 <= m < out0.len() && (#[trigger] out0[m]).id@
                                == self.tasks@[k].id@;
                        assert(out@[m].id@ == self.tasks@[k].id@);
                    } else {
                        let m = choose|m: int|
                            0 <= m < rest0.len() && (#[trigger] rest0[m]).id@
                                == self.tasks@[k].id@ && rest0[m].created_at
                                == self.tasks@[k].created_at;
                        if m == best {
                            assert(out@[out@.len() - 1].id@ == self.tasks@[k].id@);
                        } else if m < best {
                            assert(rest@[m].id@ == self.tasks@[k].id@ && rest@[m].created_at
                                == self.tasks@[k].created_at);
                        } else {
                            assert(rest@[m - 1].id@ == self.tasks@[k].id@ && rest@[m
                                - 1].created_at == self.tasks@[k].created_at);
                        }
                    }
                }
            }
        }
        out
    }

    /// Whether two log lines carry the same timestamp and message.
    pub open spec fn log_matches(a: LogEntry, b: LogEntry) -> bool {
        a.timestamp == b.timestamp && a.message@ == b.message@
    }

    /// Whether some line of `s` carries `l`'s timestamp and message.
    pub open spec fn log_represented(s: Seq<LogEntry>, l: LogEntry) -> bool {
        exists|j: int| 0 <= j < s.len() && Self::log_matches(#[trigger] s[j], l)
    }

    /// The most recent log lines, at most `limit` of them, newest first:
    /// every log line is either represented in the result or no newer than
    /// the oldest returned one.
    #[verifier::rlimit(50)]
    pub fn tail_logs(&self, limit: usize) -> (r: Vec<LogEntry>)
        ensures
            r@.len() == (if limit <= self.logs@.len() {
                limit as int
            } else {
                self.logs@.len() as int
            }),
            forall|a: int, b: int|
                0 <= a < b < r@.len() ==> (#[trigger] r@[a]).timestamp >= (
                #[trigger] r@[b]).timestamp,
            forall|j: int|
                0 <= j < r@.len() ==> Self::log_represented(self.logs@, #[trigger] r@[j]),
            forall|k: int|
                0 <= k < self.logs@.len() ==> Self::log_represented(
                    r@,
                    #[trigger] self.logs@[k],
                ) || (r@.len() == limit && (r@.len() == 0 || r@[r@.len() - 1].timestamp
                    >= self.logs@[k].timestamp)),
    {
        let n = self.logs.len();
        let mut rest: Vec<LogEntry> = Vec::new();
        let mut i: usize = 0;
        while i < n
            invariant
                i <= n,
                n == self.logs@.len(),
                rest@.len() == i,
                forall|m: int|
                    0 <= m < i ==> Self::log_matches(#[trigger] rest@[m], self.logs@[m]),
            decreases n - i,
        {
            let e = &self.logs[i];
            let w = match &e.worker_node_id {
                Some(s) => Some(s.clone()),
                None => None,
            };
            rest.push(LogEntry { timestamp: e.timestamp, worker_node_id: w, message: e.message.clone() });
            i = i + 1;
        }
        proof {
            assert forall|m: int| 0 <= m < rest@.len() implies Self::log_represented(
                self.logs@,
                #[trigger] rest@[m],
            ) by {
                assert(Self::log_matches(self.logs@[m], rest@[m]));
            }
            assert forall|k: int| 0 <= k < self.logs@.len() implies Self::log_represented(
                rest@,
                #[trigger] self.logs@[k],
            ) by {
                assert(Self::log_matches(rest@[k], self.logs@[k]));
            }
        }
        let total = rest.len();
        let mut out: Vec<LogEntry> = Vec::new();
        while out.len() < limit && rest.len() > 0
            invariant
                out@.len() + rest@.len() == total,
                out@.len() <= limit,
                total == self.logs@.len(),
                forall|a: int, b: int|
                    0 <= a < b < out@.len() ==> (#[trigger] out@[a]).timestamp >= (
                    #[trigger] out@[b]).timestamp,
                forall|a: int, m: int|
                    0 <= a < out@.len() && 0 <= m < rest@.len() ==> (#[trigger] out@[a]).timestamp
                        >= (#[trigger] rest@[m]).timestamp,
                forall|j: int|
                    0 <= j < out@.len() ==> Self::log_represented(self.logs@, #[trigger] out@[j]),
                forall|m: int|
                    0 <= m < rest@.len() ==> Self::log_represented(
                        self.logs@,
                        #[trigger] rest@[m],
                    ),
                forall|k: int|
                    0 <= k < self.logs@.len() ==> Self::log_represented(
                        out@,
                        #[trigger] self.logs@[k],
                    ) || Self::log_represented(rest@, self.logs@[k]),
            decreases rest@.len(),
        {
            let m = rest.len();
            let mut best: usize = 0;
            let mut j: usize = 1;
            while j < m
                invariant
                    best < j <= m,
                    m == rest@.len(),
                    forall|q: int|
                        0 <= q < j ==> rest@[best as int].timestamp >= (
                        #[trigger] rest@[q]).timestamp,
                decreases m - j,
            {
                if rest[j].timestamp > rest[best].timestamp {
                    best = j;
                }
                j = j + 1;
            }
            let ghost rest0 = rest@;
            let ghost out0 = out@;
            let chosen = rest.remove(best);
            out.push(chosen);
            proof {
                assert(forall|m: int| 0 <= m < out0.len() ==> out@[m] == out0[m]);
                assert(out@.last() == rest0[best as int]);
                assert(forall|m: int| 0 <= m < best ==> rest@[m] == rest0[m]);
                assert(forall|m: int|
                    best <= m < rest@.len() ==> rest@[m] == rest0[m + 1]);
                assert forall|j: int| 0 <= j < out@.len() implies Self::log_represented(
                    self.logs@,
                    #[trigger] out@[j],
                ) by {
                    if j < out0.len() {
                        assert(out@[j] == out0[j]);
                    } else {
                        assert(out@[j] == rest0[best as int]);
                    }
                }
                assert forall|m: int| 0 <= m < rest@.len() implies Self::log_represented(
                    self.logs@,
                    #[trigger] rest@[m],
                ) by {
                    if m < best {
                        assert(rest@[m] == rest0[m]);
                    } else {
                        assert(rest@[m] == rest0[m + 1]);
                    }
                }
                assert forall|k: int| 0 <= k < self.logs@.len() implies Self::log_represented(
                    out@,
                    #[trigger] self.logs@[k],
                ) || Self::log_represented(rest@, self.logs@[k]) by {
                    if Self::log_represented(out0, self.logs@[k]) {
                        let j = choose|j: int|
                            0 <= j < out0.len() && Self::log_matches(
                                #[trigger] out0[j],
                                self.logs@[k],
                            );
                        assert(Self::log_matches(out@[j], self.logs@[k]));
                    } else {
                        let m2 = choose|m2: int|
                            0 <= m2 < rest0.len() && Self::log_matches(
                                #[trigger] rest0[m2],
                                self.logs@[k],
                            );
                        if m2 == best {
                            assert(Self::log_matches(out@[out@.len() - 1], self.logs@[k]));
                        } else if m2 < best {
                            assert(Self::log_matches(rest@[m2], self.logs@[k]));
                        } else {
                            assert(Self::log_matches(rest@[m2 - 1], self.logs@[k]));
                        }
                    }
                }
            }
        }
        proof {
            assert forall|k: int| 0 <= k < self.logs@.len() implies Self::log_represented(
                out@,
                #[trigger] self.logs@[k],
            ) || (out@.len() == limit && (out@.len() == 0 || out@[out@.len() - 1].timestamp
                >= self.logs@[k].timestamp)) by {
                if !Self::log_represented(out@, self.logs@[k]) {
                    let m = choose|m: int|
                        0 <= m < rest@.len() && Self::log_matches(
                            #[trigger] rest@[m],
                            self.logs@[k],
                        );
                    if out@.len() > 0 {
                        assert(out@[out@.len() - 1].timestamp >= rest@[m].timestamp);
                    }
                }
            }
        }
        out
    }
}


/// Law: where no row newly stands at `Running`, the count of running rows
/// does not grow.
pub proof fn lemma_count_running_monotone(s1: Seq<Task>, s2: Seq<Task>)
    requires
        s1.len() == s2.len(),
        forall|k: int|
            0 <= k < s2.len() && (#[trigger] s2[k]).status is Running ==> s1[k].status
                is Running,
    ensures
        TaskStore::spec_count_running(s2) <= TaskStore::spec_count_running(s1),
    decreases s1.len(),
{
    if s1.len() > 0 {
        assert(forall|k: int|
            0 <= k < s2.drop_last().len() && (#[trigger] s2.drop_last()[k]).status is Running
                ==> s1.drop_last()[k].status is Running) by {
            assert(forall|k: int|
                0 <= k < s2.len() - 1 ==> #[trigger] s2.drop_last()[k] == s2[k]
                    && s1.drop_last()[k] == s1[k]);
        }
        lemma_count_running_monotone(s1.drop_last(), s2.drop_last());
        assert(s2.last() == s2[s2.len() - 1] && s1.last() == s1[s1.len() - 1]);
    }
}

/// Law: an admitted progress write (one within 0..=100) never decreases
/// stored progress.
pub proof fn lemma_progress_monotone(t: Task, v: int, now: i64)
    requires
        0 <= v <= 100,
    ensures
        t.with_progress(v, now).progress >= t.progress,
{
}

/// Law: in a well-formed store no task has made more than `MAX_ATTEMPTS`
/// attempts.
pub proof fn lemma_attempts_bounded(s: TaskStore, k: int)
    requires
        s.wf(),
        0 <= k < s.tasks@.len(),
    ensures
        s.tasks@[k].attempts <= MAX_ATTEMPTS,
{
}

} // verus!
