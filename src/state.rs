use vstd::prelude::*;
use crate::clock::{millis_since, monotonic_now};
use crate::task::{Task, deref_all, lemma_deref_push, with_completion};
use crate::seqs::{lemma_filter_keeps_all, lemma_filter_members};
use crate::text::{has_substring, lower_of, lowercase, matches_folded};

verus! {

/// Direction of a local completion edit.
#[derive(Clone, Copy, Debug, PartialEq, Eq, Structural)]
pub enum ChangeType {
    Complete,
    Uncomplete,
}

/// A local completion edit not yet confirmed by the remote service.
#[derive(Debug, Clone, PartialEq, Eq)]
pub struct PendingChange {
    /// The task edited; a reference by id, not ownership.
    pub task_id: String,
    pub change_type: ChangeType,
    /// When the edit was made, in milliseconds of the monotonic clock since the
    /// state was created.
    pub timestamp: u64,
}

/// Connectivity state shown to the user.
#[derive(Debug, Clone, PartialEq, Eq)]
pub enum SyncStatus {
    Online,
    Offline,
    Syncing,
    Error(String),
}

/// `SyncStatus` with its message as a sequence of characters.
pub enum StatusView {
    Online,
    Offline,
    Syncing,
    Error(Seq<char>),
}

impl View for SyncStatus {
    type V = StatusView;

    open spec fn view(&self) -> StatusView {
        match self {
            SyncStatus::Online => StatusView::Online,
            SyncStatus::Offline => StatusView::Offline,
            SyncStatus::Syncing => StatusView::Syncing,
            SyncStatus::Error(m) => StatusView::Error(m@),
        }
    }
}

/// The application state shared by the interaction loop and background refreshes.
#[derive(Clone)]
pub struct AppState {
    /// Active tasks as last fetched.
    pub tasks: Vec<Task>,
    /// Tasks completed today as last fetched.
    pub completed_tasks: Vec<Task>,
    /// Cursor into the unified today view.
    pub selected_index: usize,
    /// Local edits waiting to be pushed, oldest first.
    pub pending_changes: Vec<PendingChange>,
    pub search_query: String,
    pub is_searching: bool,
    pub sync_status: SyncStatus,
    /// The monotonic clock reading that pending-change timestamps count from.
    pub clock_origin: std::time::Instant,
}

/// The mathematical value of an `AppState`.
pub struct AppView {
    pub tasks: Seq<Task>,
    pub completed_tasks: Seq<Task>,
    pub selected_index: nat,
    pub pending_changes: Seq<PendingChange>,
    pub search_query: Seq<char>,
    pub is_searching: bool,
    pub sync_status: StatusView,
}

impl View for AppState {
    type V = AppView;

    open spec fn view(&self) -> AppView {
        AppView {
            tasks: self.tasks@,
            completed_tasks: self.completed_tasks@,
            selected_index: self.selected_index as nat,
            pending_changes: self.pending_changes@,
            search_query: self.search_query@,
            is_searching: self.is_searching,
            sync_status: self.sync_status@,
        }
    }
}

/// Every task of `tasks`, marked completed.
pub open spec fn all_completed(tasks: Seq<Task>) -> Seq<Task> {
    tasks.map_values(|t: Task| with_completion(t, true))
}

/// The change recorded for a task whose completion flag has just become `done`.
pub open spec fn change_type_for(done: bool) -> ChangeType {
    if done {
        ChangeType::Complete
    } else {
        ChangeType::Uncomplete
    }
}

/// `i` is the position of the first task with identity `id`.
pub open spec fn first_with_id(tasks: Seq<Task>, id: Seq<char>, i: int) -> bool {
    &&& 0 <= i < tasks.len()
    &&& tasks[i].id@ == id
    &&& forall|j: int| 0 <= j < i ==> tasks[j].id@ != id
}

/// Some task of `tasks` has identity `id`.
pub open spec fn has_id(tasks: Seq<Task>, id: Seq<char>) -> bool {
    exists|i: int| 0 <= i < tasks.len() && #[trigger] tasks[i].id@ == id
}

/// `tasks` with the completion of the first task of identity `id` flipped.
pub open spec fn flip_first(tasks: Seq<Task>, id: Seq<char>) -> Seq<Task> {
    if has_id(tasks, id) {
        let i = choose|i: int| first_with_id(tasks, id, i);
        tasks.update(i, with_completion(tasks[i], !tasks[i].is_completed))
    } else {
        tasks
    }
}

impl AppView {
    /// The selection lies within a view of `count` entries, or is 0 when the view
    /// is empty.
    pub open spec fn selection_fits(self, count: nat) -> bool {
        if count == 0 {
            self.selected_index == 0
        } else {
            self.selected_index < count
        }
    }

    pub open spec fn load_tasks(self, tasks: Seq<Task>) -> AppView {
        AppView { tasks, selected_index: 0, ..self }
    }

    pub open spec fn start_search(self) -> AppView {
        AppView { is_searching: true, search_query: Seq::empty(), ..self }
    }

    pub open spec fn end_search(self) -> AppView {
        AppView { is_searching: false, search_query: Seq::empty(), ..self }
    }

    pub open spec fn update_search(self, query: Seq<char>) -> AppView {
        AppView { search_query: query, ..self }
    }

    /// The active tasks whose content holds the query, ignoring case; all of them
    /// when the query is empty.
    pub open spec fn filtered_tasks(self) -> Seq<Task> {
        if self.search_query.len() == 0 {
            self.tasks
        } else {
            self.tasks.filter(|t: Task| matches_query(t, lower_of(self.search_query)))
        }
    }

    pub open spec fn mark_synced(self, ids: Seq<Seq<char>>) -> AppView {
        AppView { pending_changes: without_ids(self.pending_changes, ids), ..self }
    }

    pub open spec fn load_completed_tasks(self, tasks: Seq<Task>) -> AppView {
        AppView { completed_tasks: all_completed(tasks), selected_index: 0, ..self }
    }

    pub open spec fn move_up(self) -> AppView {
        if self.selected_index > 0 {
            AppView { selected_index: (self.selected_index - 1) as nat, ..self }
        } else {
            self
        }
    }

    /// One step down in a view of `count` entries, never past its last entry.
    pub open spec fn move_down_within(self, count: nat) -> AppView {
        if self.selected_index + 1 < count {
            AppView { selected_index: self.selected_index + 1, ..self }
        } else {
            self
        }
    }

    pub open spec fn go_to_top(self) -> AppView {
        AppView { selected_index: 0, ..self }
    }

    /// The last entry of a view of `count` entries, or 0 when it is empty.
    pub open spec fn go_to_bottom_within(self, count: nat) -> AppView {
        AppView { selected_index: if count > 0 { (count - 1) as nat } else { 0 }, ..self }
    }

    /// Flips the selected active task and records the edit made at `now`; nothing
    /// changes when the selection is past the active tasks.
    pub open spec fn toggle_selected_at(self, now: u64) -> AppView {
        let i = self.selected_index as int;
        if i < self.tasks.len() {
            let flipped = with_completion(self.tasks[i], !self.tasks[i].is_completed);
            AppView {
                tasks: self.tasks.update(i, flipped),
                pending_changes: self.pending_changes.push(
                    PendingChange {
                        task_id: flipped.id,
                        change_type: change_type_for(flipped.is_completed),
                        timestamp: now,
                    },
                ),
                ..self
            }
        } else {
            self
        }
    }

    /// Flips the first task of identity `id`, looked up among the active tasks first
    /// and then among the completed ones; nothing changes when neither holds it.
    pub open spec fn toggle_task_by_id(self, id: Seq<char>) -> AppView {
        if has_id(self.tasks, id) {
            AppView { tasks: flip_first(self.tasks, id), ..self }
        } else {
            AppView { completed_tasks: flip_first(self.completed_tasks, id), ..self }
        }
    }
}

impl AppState {
    /// Empty collections, no selection, no pending edit, `Offline`.
    pub fn new() -> (r: AppState)
        ensures
            r@.tasks.len() == 0,
            r@.completed_tasks.len() == 0,
            r@.selected_index == 0,
            r@.pending_changes.len() == 0,
            r@.search_query.len() == 0,
            !r@.is_searching,
            r@.sync_status == StatusView::Offline,
    {
        AppState {
            tasks: Vec::new(),
            completed_tasks: Vec::new(),
            selected_index: 0,
            pending_changes: Vec::new(),
            search_query: String::new(),
            is_searching: false,
            sync_status: SyncStatus::Offline,
            clock_origin: monotonic_now(),
        }
    }

    /// Replaces the active tasks wholesale and resets the selection.
    pub fn load_tasks(&mut self, tasks: Vec<Task>)
        ensures
            final(self)@ == old(self)@.load_tasks(tasks@),
    {
        self.tasks = tasks;
        self.selected_index = 0;
    }

    /// Replaces the completed tasks wholesale, each marked completed whatever the
    /// input says, and resets the selection, which may no longer fit the view.
    pub fn load_completed_tasks(&mut self, tasks: Vec<Task>)
        ensures
            final(self)@ == old(self)@.load_completed_tasks(tasks@),
            forall|i: int|
                0 <= i < final(self)@.completed_tasks.len()
                    ==> #[trigger] final(self)@.completed_tasks[i].is_completed,
    {
        let mut tasks = tasks;
        let ghost given = tasks@;
        let mut i: usize = 0;
        while i < tasks.len()
            invariant
                i <= tasks@.len(),
                tasks@.len() == given.len(),
                forall|j: int| 0 <= j < i ==> tasks@[j] == with_completion(given[j], true),
                forall|j: int| i <= j < tasks@.len() ==> tasks@[j] == given[j],
            decreases tasks@.len() - i,
        {
            tasks[i].is_completed = true;
            i += 1;
        }
        self.completed_tasks = tasks;
        self.selected_index = 0;
        assert(self@.completed_tasks =~= all_completed(given));
    }

    /// Moves the selection up, stopping at the first entry.
    pub fn move_up(&mut self)
        ensures
            final(self)@ == old(self)@.move_up(),
    {
        if self.selected_index > 0 {
            self.selected_index -= 1;
        }
    }

    /// Moves the selection down in a view of `count` entries, stopping at its last
    /// entry.
    pub fn move_down_within(&mut self, count: usize)
        ensures
            final(self)@ == old(self)@.move_down_within(count as nat),
    {
        if count > 0 && self.selected_index < count - 1 {
            self.selected_index += 1;
        }
    }

    /// Selects the first entry.
    pub fn go_to_top(&mut self)
        ensures
            final(self)@ == old(self)@.go_to_top(),
    {
        self.selected_index = 0;
    }

    /// Selects the last entry of a view of `count` entries, or the first when it is
    /// empty.
    pub fn go_to_bottom_within(&mut self, count: usize)
        ensures
            final(self)@ == old(self)@.go_to_bottom_within(count as nat),
    {
        self.selected_index = if count > 0 { count - 1 } else { 0 };
    }

    /// Flips the selected active task and appends the matching pending change,
    /// stamped `now`; a selection past the active tasks changes nothing.
    pub fn toggle_selected_task_at(&mut self, now: u64)
        ensures
            final(self)@ == old(self)@.toggle_selected_at(now),
    {
        let i = self.selected_index;
        if i < self.tasks.len() {
            let done = !self.tasks[i].is_completed;
            self.tasks[i].is_completed = done;
            let change_type = if done {
                ChangeType::Complete
            } else {
                ChangeType::Uncomplete
            };
            let task_id = self.tasks[i].id.clone();
            self.pending_changes.push(PendingChange { task_id, change_type, timestamp: now });
        }
    }

    /// Flips the selected active task and appends the matching pending change,
    /// stamped with the monotonic clock.
    pub fn toggle_selected_task(&mut self)
        ensures
            exists|now: u64| final(self)@ == old(self)@.toggle_selected_at(now),
    {
        let now = millis_since(&self.clock_origin);
        self.toggle_selected_task_at(now);
    }

    /// The pending changes that have waited at least `SYNC_DEBOUNCE_MS` at `now`,
    /// in queue order.
    pub fn ready_to_sync_at(&self, now: u64) -> (r: Vec<&PendingChange>)
        ensures
            deref_all(r@) == ready_changes(self@.pending_changes, now),
    {
        let ghost all = self@.pending_changes;
        let ghost ready = |c: PendingChange| is_ready(c, now);
        let mut r: Vec<&PendingChange> = Vec::new();
        let mut i: usize = 0;
        proof {
            reveal(Seq::filter);
            assert(deref_all(r@) =~= all.subrange(0, 0).filter(ready));
        }
        while i < self.pending_changes.len()
            invariant
                i <= all.len(),
                all == self@.pending_changes,
                ready == (|c: PendingChange| is_ready(c, now)),
                deref_all(r@) == all.subrange(0, i as int).filter(ready),
            decreases all.len() - i,
        {
            proof {
                reveal(Seq::filter);
                assert(all.subrange(0, i + 1).drop_last() =~= all.subrange(0, i as int));
            }
            let c = &self.pending_changes[i];
            let waited = if now >= c.timestamp { now - c.timestamp } else { 0 };
            if waited >= SYNC_DEBOUNCE_MS {
                r.push(c);
            }
            assert(deref_all(r@) =~= all.subrange(0, i + 1).filter(ready));
            i += 1;
        }
        assert(all.subrange(0, all.len() as int) =~= all);
        r
    }

    /// The pending changes that have waited at least `SYNC_DEBOUNCE_MS` by now.
    pub fn get_ready_to_sync(&self) -> (r: Vec<&PendingChange>)
        ensures
            exists|now: u64| deref_all(r@) == ready_changes(self@.pending_changes, now),
    {
        let now = millis_since(&self.clock_origin);
        self.ready_to_sync_at(now)
    }

    /// Enters search mode with an empty query.
    pub fn start_search(&mut self)
        ensures
            final(self)@ == old(self)@.start_search(),
    {
        self.is_searching = true;
        self.search_query = String::new();
    }

    /// Leaves search mode and clears the query.
    pub fn end_search(&mut self)
        ensures
            final(self)@ == old(self)@.end_search(),
    {
        self.is_searching = false;
        self.search_query = String::new();
    }

    /// Replaces the search query.
    pub fn update_search(&mut self, query: String)
        ensures
            final(self)@ == old(self)@.update_search(query@),
    {
        self.search_query = query;
    }

    /// The active tasks whose content holds the query, ignoring case; all of them
    /// when the query is empty.
    pub fn get_filtered_tasks(&self) -> (r: Vec<&Task>)
        ensures
            deref_all(r@) == self@.filtered_tasks(),
    {
        let ghost all = self@.tasks;
        let mut r: Vec<&Task> = Vec::new();
        let mut i: usize = 0;
        if self.search_query.as_str().is_empty() {
            while i < self.tasks.len()
                invariant
                    i <= all.len(),
                    all == self@.tasks,
                    deref_all(r@) == all.subrange(0, i as int),
                decreases all.len() - i,
            {
                proof {
                    lemma_deref_push(r@, &self.tasks@[i as int]);
                }
                r.push(&self.tasks[i]);
                assert(deref_all(r@) =~= all.subrange(0, i + 1));
                i += 1;
            }
            assert(all.subrange(0, all.len() as int) =~= all);
            return r;
        }
        let query = lowercase(self.search_query.as_str());
        let ghost keep = |t: Task| matches_query(t, lower_of(self@.search_query));
        proof {
            reveal(Seq::filter);
            assert(deref_all(r@) =~= all.subrange(0, 0).filter(keep));
        }
        while i < self.tasks.len()
            invariant
                i <= all.len(),
                all == self@.tasks,
                query@ == lower_of(self@.search_query),
                keep == (|t: Task| matches_query(t, lower_of(self@.search_query))),
                deref_all(r@) == all.subrange(0, i as int).filter(keep),
            decreases all.len() - i,
        {
            proof {
                reveal(Seq::filter);
                assert(all.subrange(0, i + 1).drop_last() =~= all.subrange(0, i as int));
            }
            let content = lowercase(self.tasks[i].content.as_str());
            if matches_folded(query.as_str(), content.as_str()) {
                r.push(&self.tasks[i]);
            }
            assert(deref_all(r@) =~= all.subrange(0, i + 1).filter(keep));
            i += 1;
        }
        assert(all.subrange(0, all.len() as int) =~= all);
        r
    }

    /// Drops every pending change concerning a task that `task_ids` names, whatever its
    /// type; the others stay, in order.
    pub fn mark_synced(&mut self, task_ids: &[String])
        ensures
            final(self)@ == old(self)@.mark_synced(id_views(task_ids@)),
    {
        let mut queued: Vec<PendingChange> = Vec::new();
        core::mem::swap(&mut queued, &mut self.pending_changes);
        let ghost ids = id_views(task_ids@);
        let ghost all = queued@;
        let ghost keep = |c: PendingChange| !names_task(ids, c);
        proof {
            reveal(Seq::filter);
            assert(all.subrange(0, 0).filter(keep) =~= Seq::<PendingChange>::empty());
            assert(self@ == (AppView { pending_changes: all.subrange(0, 0).filter(keep), ..old(self)@ }));
        }
        for c in it: queued.into_iter()
            invariant
                it.seq() == all,
                ids == id_views(task_ids@),
                keep == (|c: PendingChange| !names_task(ids, c)),
                self@ == (AppView { pending_changes: all.subrange(0, it.index() as int).filter(keep), ..old(self)@ }),
        {
            proof {
                reveal(Seq::filter);
                assert(all.subrange(0, it.index() + 1).drop_last() =~= all.subrange(0, it.index() as int));
            }
            if !holds_id(task_ids, &c.task_id) {
                self.pending_changes.push(c);
            }
        }
        assert(all.subrange(0, all.len() as int) =~= all);
    }

    /// Flips the first task of identity `id`, looked up among the active tasks first
    /// and then among the completed ones; an id found in neither changes nothing.
    pub fn toggle_task_by_id(&mut self, id: &str)
        ensures
            final(self)@ == old(self)@.toggle_task_by_id(id@),
    {
        match position_of_id(&self.tasks, id) {
            Some(i) => {
                let done = !self.tasks[i].is_completed;
                self.tasks[i].is_completed = done;
            },
            None => match position_of_id(&self.completed_tasks, id) {
                Some(i) => {
                    let done = !self.completed_tasks[i].is_completed;
                    self.completed_tasks[i].is_completed = done;
                    assert(self@.completed_tasks =~= flip_first(old(self)@.completed_tasks, id@));
                },
                None => {
                    assert(old(self)@.completed_tasks =~= flip_first(old(self)@.completed_tasks, id@));
                },
            },
        }
    }
}

/// Minimum age, in milliseconds, of a pending change before it may be pushed.
pub const SYNC_DEBOUNCE_MS: u64 = 30_000;

/// Milliseconds from `at` to `now`; zero when `now` reads earlier than `at`.
pub open spec fn age_ms(now: u64, at: u64) -> nat {
    if now >= at {
        (now - at) as nat
    } else {
        0
    }
}

/// `c` has waited at least the debounce threshold at `now`.
pub open spec fn is_ready(c: PendingChange, now: u64) -> bool {
    age_ms(now, c.timestamp) >= SYNC_DEBOUNCE_MS
}

/// The pending changes old enough at `now` to be pushed, in queue order.
pub open spec fn ready_changes(changes: Seq<PendingChange>, now: u64) -> Seq<PendingChange> {
    changes.filter(|c: PendingChange| is_ready(c, now))
}

/// `t`'s content, case-folded, holds the case-folded query `folded_query`.
pub open spec fn matches_query(t: Task, folded_query: Seq<char>) -> bool {
    has_substring(lower_of(t.content@), folded_query)
}

/// Whether `c` concerns one of the tasks `ids` names.
pub open spec fn names_task(ids: Seq<Seq<char>>, c: PendingChange) -> bool {
    ids.contains(c.task_id@)
}

/// The identities held by `ids`, as character sequences.
pub open spec fn id_views(ids: Seq<String>) -> Seq<Seq<char>> {
    ids.map_values(|s: String| s@)
}

/// `changes` without those concerning a task that `ids` names, order kept.
pub open spec fn without_ids(changes: Seq<PendingChange>, ids: Seq<Seq<char>>) -> Seq<PendingChange> {
    changes.filter(|c: PendingChange| !names_task(ids, c))
}

/// Whether `ids` holds `id`.
fn holds_id(ids: &[String], id: &String) -> (r: bool)
    ensures
        r == id_views(ids@).contains(id@),
{
    let mut i: usize = 0;
    while i < ids.len()
        invariant
            i <= ids@.len(),
            forall|j: int| 0 <= j < i ==> ids@[j]@ != id@,
        decreases ids@.len() - i,
    {
        if ids[i] == *id {
            assert(id_views(ids@)[i as int] == id@);
            return true;
        }
        i += 1;
    }
    proof {
        if id_views(ids@).contains(id@) {
            let k = choose|k: int| 0 <= k < id_views(ids@).len() && id_views(ids@)[k] == id@;
            assert(ids@[k]@ == id@);
        }
    }
    false
}

/// Finds the first task of identity `id`.
fn position_of_id(tasks: &Vec<Task>, id: &str) -> (r: Option<usize>)
    ensures
        r matches Some(i) ==> first_with_id(tasks@, id@, i as int) && flip_first(tasks@, id@)
            == tasks@.update(i as int, with_completion(tasks@[i as int], !tasks@[i as int].is_completed)),
        r is None ==> !has_id(tasks@, id@),
{
    let wanted = id.to_owned();
    let mut i: usize = 0;
    while i < tasks.len()
        invariant
            i <= tasks@.len(),
            wanted@ == id@,
            forall|j: int| 0 <= j < i ==> tasks@[j].id@ != id@,
        decreases tasks@.len() - i,
    {
        if tasks[i].id == wanted {
            proof {
                assert(first_with_id(tasks@, id@, i as int));
                assert(has_id(tasks@, id@));
                let k = choose|k: int| first_with_id(tasks@, id@, k);
                assert(k == i);
            }
            return Some(i);
        }
        i += 1;
    }
    None
}

/// A toggle at a valid selection after a load appends exactly one pending change:
/// it names the selected task and its type matches the task's new completion state;
/// the earlier queue is kept as it was.
pub proof fn lemma_toggle_after_load_records_one_change(
    v: AppView,
    tasks: Seq<Task>,
    index: nat,
    now: u64,
)
    requires
        index < tasks.len(),
    ensures
        ({
            let before = AppView { selected_index: index, ..v.load_tasks(tasks) };
            let after = before.toggle_selected_at(now);
            let n = before.pending_changes.len();
            &&& after.pending_changes.len() == n + 1
            &&& after.pending_changes.subrange(0, n as int) == before.pending_changes
            &&& after.pending_changes[n as int].task_id == tasks[index as int].id
            &&& after.tasks[index as int].is_completed == !tasks[index as int].is_completed
            &&& after.pending_changes[n as int].change_type == change_type_for(
                after.tasks[index as int].is_completed,
            )
        }),
{
    let before = AppView { selected_index: index, ..v.load_tasks(tasks) };
    let after = before.toggle_selected_at(now);
    assert(after.pending_changes.subrange(0, before.pending_changes.len() as int)
        =~= before.pending_changes);
}

/// A pending change is ready exactly when it has waited `SYNC_DEBOUNCE_MS` or more:
/// the ready set holds a change iff the queue holds it and its age reaches the
/// threshold, and the threshold itself counts as reached.
pub proof fn lemma_ready_iff_aged(changes: Seq<PendingChange>, now: u64, c: PendingChange)
    ensures
        ready_changes(changes, now).contains(c) <==> changes.contains(c) && age_ms(now, c.timestamp)
            >= SYNC_DEBOUNCE_MS,
        c.timestamp + SYNC_DEBOUNCE_MS <= u64::MAX ==> is_ready(
            c,
            (c.timestamp + SYNC_DEBOUNCE_MS) as u64,
        ),
        c.timestamp + SYNC_DEBOUNCE_MS <= u64::MAX + 1 ==> !is_ready(
            c,
            (c.timestamp + SYNC_DEBOUNCE_MS - 1) as u64,
        ),
{
    lemma_filter_members(changes, |x: PendingChange| is_ready(x, now), c);
}

/// Marking ids as synced removes all and only the changes naming one of them, and
/// marking the same ids again changes nothing.
pub proof fn lemma_mark_synced_exact(v: AppView, ids: Seq<Seq<char>>, c: PendingChange)
    ensures
        v.mark_synced(ids).pending_changes.contains(c) <==> v.pending_changes.contains(c)
            && !ids.contains(c.task_id@),
        v.mark_synced(ids).mark_synced(ids) == v.mark_synced(ids),
{
    broadcast use vstd::seq_lib::group_filter_ensures;

    let keep = |x: PendingChange| !names_task(ids, x);
    lemma_filter_members(v.pending_changes, keep, c);
    let once = without_ids(v.pending_changes, ids);
    assert forall|i: int| 0 <= i < once.len() implies keep(#[trigger] once[i]) by {
        v.pending_changes.lemma_filter_pred(keep, i);
    }
    lemma_filter_keeps_all(once, keep);
}

/// Navigation keeps the selection inside a view of `count` entries: moving up or
/// down leaves a fitting selection fitting, and jumping to the bottom, or to the
/// top of a non-empty view, or loading either task list always lands inside it.
pub proof fn lemma_navigation_keeps_selection(v: AppView, count: nat, tasks: Seq<Task>)
    ensures
        v.load_completed_tasks(tasks).selection_fits(count),
        v.go_to_bottom_within(count).selection_fits(count),
        count > 0 ==> v.go_to_top().selection_fits(count),
        v.selection_fits(count) ==> v.move_up().selection_fits(count),
        v.selection_fits(count) ==> v.move_down_within(count).selection_fits(count),
        v.load_tasks(tasks).selection_fits(count),
{
}

} // verus!
