//! Priority scheduler: buffers accepted deliveries inside the process and
//! hands them out highest-priority first, so dispatch respects priorities
//! without per-message broker negotiation.

use vstd::prelude::*;
use crate::json::Json;

verus! {

/// A decoded delivery waiting for dispatch: the extracted priority, the token
/// under which the I/O shell holds the broker delivery (with its ack and nack
/// primitives), and the decoded message.
pub struct ScheduledTask {
    pub priority: u8,
    pub delivery: u64,
    pub task_data: Json,
}

/// The pending deliveries, owned exclusively while they wait here. The I/O
/// shell serializes access (one lock around the whole structure); these
/// operations are the linearization points.
pub struct Scheduler {
    queue: Vec<ScheduledTask>,
}

impl View for Scheduler {
    type V = Seq<ScheduledTask>;

    closed spec fn view(&self) -> Seq<ScheduledTask> {
        self.queue@
    }
}

impl Scheduler {
    pub fn new() -> (r: Scheduler)
        ensures
            r@ == Seq::<ScheduledTask>::empty(),
    {
        Scheduler { queue: Vec::new() }
    }

    /// Accepts a delivery; never blocks, never rejects.
    pub fn add_task(&mut self, task: ScheduledTask)
        ensures
            final(self)@ == old(self)@.push(task),
    {
        self.queue.push(task);
    }

    /// Removes and returns a pending delivery of maximum priority, `None` on
    /// an empty queue. Ties go to the longest-waiting delivery, so one run
    /// breaks them deterministically.
    pub fn get_next(&mut self) -> (r: Option<ScheduledTask>)
        ensures
            match r {
                None => old(self)@.len() == 0 && final(self)@ == old(self)@,
                Some(t) => {
                    &&& old(self)@.len() > 0
                    &&& exists|i: int|
                        0 <= i < old(self)@.len() && t == old(self)@[i] && final(self)@ == old(
                            self,
                        )@.remove(i) && (forall|j: int|
                            0 <= j < i ==> (#[trigger] old(self)@[j]).priority < t.priority)
                    &&& forall|j: int|
                        0 <= j < old(self)@.len() ==> (#[trigger] old(self)@[j]).priority
                            <= t.priority
                },
            },
    {
        let n = self.queue.len();
        if n == 0 {
            return None;
        }
        let mut best: usize = 0;
        let mut i: usize = 1;
        while i < n
            invariant
                best < i <= n,
                n == self.queue@.len(),
                forall|j: int|
                    0 <= j < i ==> (#[trigger] self.queue@[j]).priority
                        <= self.queue@[best as int].priority,
                forall|j: int|
                    0 <= j < best ==> (#[trigger] self.queue@[j]).priority
                        < self.queue@[best as int].priority,
            decreases n - i,
        {
            if self.queue[i].priority > self.queue[best].priority {
                best = i;
            }
            i = i + 1;
        }
        let t = self.queue.remove(best);
        Some(t)
    }

    /// How many deliveries wait here.
    pub fn len(&self) -> (r: usize)
        ensures
            r == self@.len(),
    {
        self.queue.len()
    }
}

} // verus!
