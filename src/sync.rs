use vstd::prelude::*;
use crate::state::{AppState, AppView, StatusView, SyncStatus};
use crate::task::Task;

verus! {

/// How one remote fetch ended.
pub enum FetchOutcome {
    /// The fetch succeeded with these tasks.
    Fetched(Vec<Task>),
    /// The fetch failed with this message.
    Failed(String),
    /// The fetch did not answer within its time limit.
    TimedOut,
}

/// The message of the status a timed-out fetch leaves.
pub const TIMEOUT_MESSAGE: &'static str = "Timeout";

impl AppView {
    pub open spec fn begin_refresh(self) -> AppView {
        AppView { sync_status: StatusView::Syncing, ..self }
    }

    /// Folds the outcome of the active-task fetch, then that of the completed-task
    /// fetch. Only the active fetch sets the status; a failed completed fetch leaves
    /// the completed tasks as they were.
    pub open spec fn refreshed(self, active: FetchOutcome, completed: FetchOutcome) -> AppView {
        let after_active = match active {
            FetchOutcome::Fetched(ts) => AppView {
                sync_status: StatusView::Online,
                ..self.load_tasks(ts@)
            },
            FetchOutcome::Failed(m) => AppView { sync_status: StatusView::Error(m@), ..self },
            FetchOutcome::TimedOut => AppView {
                sync_status: StatusView::Error(TIMEOUT_MESSAGE@),
                ..self
            },
        };
        match completed {
            FetchOutcome::Fetched(ts) => after_active.load_completed_tasks(ts@),
            _ => after_active,
        }
    }
}

impl AppState {
    /// Marks a refresh as under way.
    pub fn begin_refresh(&mut self)
        ensures
            final(self)@ == old(self)@.begin_refresh(),
    {
        self.sync_status = SyncStatus::Syncing;
    }

    /// Folds the outcomes of one refresh (or of the initial load) into the state:
    /// fetched active tasks replace the active ones and set `Online`, a failure sets
    /// `Error` with its message, a timeout sets `Error("Timeout")`; fetched completed
    /// tasks replace the completed ones. Pending changes are never touched.
    pub fn apply_refresh(&mut self, active: FetchOutcome, completed: FetchOutcome)
        ensures
            final(self)@ == old(self)@.refreshed(active, completed),
    {
        match active {
            FetchOutcome::Fetched(ts) => {
                self.load_tasks(ts);
                self.sync_status = SyncStatus::Online;
            },
            FetchOutcome::Failed(m) => {
                self.sync_status = SyncStatus::Error(m);
            },
            FetchOutcome::TimedOut => {
                self.sync_status = SyncStatus::Error(TIMEOUT_MESSAGE.to_owned());
            },
        }
        match completed {
            FetchOutcome::Fetched(ts) => {
                self.load_completed_tasks(ts);
            },
            _ => {},
        }
    }
}

/// A refresh replaces only the task lists and the status: the pending changes,
/// such as toggles made while it ran, stay exactly as they were.
pub proof fn lemma_refresh_keeps_pending(v: AppView, active: FetchOutcome, completed: FetchOutcome)
    ensures
        v.refreshed(active, completed).pending_changes == v.pending_changes,
        v.begin_refresh().pending_changes == v.pending_changes,
{
}

/// A refresh keeps the selection inside the view: when either fetch brought a list
/// the selection is reset, and otherwise neither list nor the selection changes.
pub proof fn lemma_refresh_keeps_selection(v: AppView, active: FetchOutcome, completed: FetchOutcome)
    ensures
        ({
            let w = v.refreshed(active, completed);
            if active is Fetched || completed is Fetched {
                w.selected_index == 0
            } else {
                &&& w.tasks == v.tasks
                &&& w.completed_tasks == v.completed_tasks
                &&& w.selected_index == v.selected_index
            }
        }),
{
}

} // verus!
