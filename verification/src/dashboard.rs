//! The dashboard's state: the tab the operator looks at and the periodic
//! snapshot of workers, queued tasks and logs. The terminal shell draws it
//! and assembles each snapshot from the store's read helpers.

use vstd::prelude::*;
use crate::store::{WorkerNode, LogEntry, TaskInfo};

verus! {

/// How many queued tasks one snapshot previews.
pub const QUEUE_PREVIEW: usize = 5;

/// How many log lines one snapshot tails.
pub const LOG_TAIL: usize = 20;

/// The dashboard's tabs, cycled left and right.
#[derive(Clone, Copy, PartialEq, Eq, Structural, Debug)]
pub enum DashboardTab {
    Overview,
    Queue,
    Logs,
}

impl DashboardTab {
    /// The tab to the right.
    pub open spec fn spec_next(self) -> DashboardTab {
        match self {
            DashboardTab::Overview => DashboardTab::Queue,
            DashboardTab::Queue => DashboardTab::Logs,
            DashboardTab::Logs => DashboardTab::Overview,
        }
    }

    /// The tab to the left.
    pub open spec fn spec_previous(self) -> DashboardTab {
        match self {
            DashboardTab::Overview => DashboardTab::Logs,
            DashboardTab::Queue => DashboardTab::Overview,
            DashboardTab::Logs => DashboardTab::Queue,
        }
    }

    /// Position of this tab in the header row.
    pub fn index(&self) -> (r: usize)
        ensures
            r == (match *self {
                DashboardTab::Overview => 0int,
                DashboardTab::Queue => 1int,
                DashboardTab::Logs => 2int,
            }),
    {
        match self {
            DashboardTab::Overview => 0,
            DashboardTab::Queue => 1,
            DashboardTab::Logs => 2,
        }
    }
}

/// One snapshot of the system, drawn as a whole: the workers, the queued
/// tasks, the latest logs, and the broker's count of undelivered messages.
pub struct App {
    pub current_tab: DashboardTab,
    pub workers: Vec<WorkerNode>,
    pub queued_tasks: Vec<TaskInfo>,
    pub logs: Vec<LogEntry>,
    pub pending_count: u32,
}

impl App {
    pub fn new() -> (r: App)
        ensures
            r.current_tab is Overview,
            r.workers@.len() == 0,
            r.queued_tasks@.len() == 0,
            r.logs@.len() == 0,
            r.pending_count == 0,
    {
        App {
            current_tab: DashboardTab::Overview,
            workers: Vec::new(),
            queued_tasks: Vec::new(),
            logs: Vec::new(),
            pending_count: 0,
        }
    }

    /// Cycles one tab to the right.
    pub fn next_tab(&mut self)
        ensures
            final(self).current_tab == old(self).current_tab.spec_next(),
            final(self).workers == old(self).workers,
            final(self).queued_tasks == old(self).queued_tasks,
            final(self).logs == old(self).logs,
            final(self).pending_count == old(self).pending_count,
    {
        self.current_tab = match self.current_tab {
            DashboardTab::Overview => DashboardTab::Queue,
            DashboardTab::Queue => DashboardTab::Logs,
            DashboardTab::Logs => DashboardTab::Overview,
        };
    }

    /// Cycles one tab to the left.
    pub fn previous_tab(&mut self)
        ensures
            final(self).current_tab == old(self).current_tab.spec_previous(),
            final(self).workers == old(self).workers,
            final(self).queued_tasks == old(self).queued_tasks,
            final(self).logs == old(self).logs,
            final(self).pending_count == old(self).pending_count,
    {
        self.current_tab = match self.current_tab {
            DashboardTab::Overview => DashboardTab::Logs,
            DashboardTab::Queue => DashboardTab::Overview,
            DashboardTab::Logs => DashboardTab::Queue,
        };
    }
}

/// Law: one step right and one step left return to the starting tab.
pub proof fn lemma_tab_cycle(t: DashboardTab)
    ensures
        t.spec_next().spec_previous() == t,
        t.spec_previous().spec_next() == t,
{
}

} // verus!
