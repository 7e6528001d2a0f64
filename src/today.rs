use vstd::prelude::*;
use crate::calendar::{DueDay, LocalDate, local_today, resolve_due, resolves, starts_with_letter};
use crate::task::Due;
use crate::state::{AppState, AppView};
use crate::seqs::{lemma_filter_keeps_all, lemma_filter_keeps_none};
use crate::task::{Task, deref_all, lemma_deref_push};

verus! {

/// A task resolved to `day` is due on `today`. When today's date is unknown
/// (`None`), no task is due today.
pub open spec fn is_due_on(day: DueDay, today: Option<LocalDate>) -> bool {
    today matches Some(t) && day == DueDay::On(t)
}

/// A task resolved to `day` is upcoming from `today`: it has no due date, or a due
/// day strictly after `today`. An unreadable due date is never upcoming, and when
/// today's date is unknown only tasks without a due date are.
pub open spec fn is_upcoming_from(day: DueDay, today: Option<LocalDate>) -> bool {
    match day {
        DueDay::NoDate => true,
        DueDay::Unreadable => false,
        DueDay::On(d) => today matches Some(t) && d.after(t),
    }
}

/// `today` is a calendar day or unknown.
pub open spec fn today_wf(today: Option<LocalDate>) -> bool {
    today matches Some(t) ==> t.wf()
}

/// The tasks whose position satisfies `keep`, in order.
pub open spec fn select(tasks: Seq<Task>, keep: spec_fn(int) -> bool) -> Seq<Task>
    decreases tasks.len(),
{
    if tasks.len() == 0 {
        Seq::empty()
    } else {
        let rest = select(tasks.drop_last(), keep);
        if keep(tasks.len() - 1) {
            rest.push(tasks.last())
        } else {
            rest
        }
    }
}

/// Incomplete tasks first, then completed ones, each group in the order it had:
/// a stable sort on the completion flag.
pub open spec fn active_first(s: Seq<Task>) -> Seq<Task> {
    s.filter(|t: Task| !t.is_completed) + s.filter(|t: Task| t.is_completed)
}

/// `days` holds a possible reading of each task's due information, position by position.
pub open spec fn resolves_all(tasks: Seq<Task>, days: Seq<DueDay>) -> bool {
    &&& days.len() == tasks.len()
    &&& forall|i: int| 0 <= i < tasks.len() ==> resolves(#[trigger] tasks[i].due, days[i])
}

impl AppView {
    /// The active tasks due on `today`, their due days read as `days`.
    pub open spec fn due_on(self, days: Seq<DueDay>, today: Option<LocalDate>) -> Seq<Task> {
        select(self.tasks, |i: int| is_due_on(days[i], today))
    }

    /// The active tasks upcoming from `today`, their due days read as `days`.
    pub open spec fn upcoming_on(self, days: Seq<DueDay>, today: Option<LocalDate>) -> Seq<Task> {
        select(self.tasks, |i: int| is_upcoming_from(days[i], today))
    }

    /// The unified today view: the tasks due on `today` and all completed tasks,
    /// incomplete ones first.
    pub open spec fn today_view_on(self, days: Seq<DueDay>, today: Option<LocalDate>) -> Seq<Task> {
        active_first(self.due_on(days, today) + self.completed_tasks)
    }

    /// `view` is the unified today view for some reading of the due dates and some
    /// local day.
    pub open spec fn is_today_view(self, view: Seq<Task>) -> bool {
        exists|days: Seq<DueDay>, today: Option<LocalDate>|
            resolves_all(self.tasks, days) && today_wf(today) && view
                == #[trigger] self.today_view_on(days, today)
    }
}

/// The references of `v`, in order.
fn refs_of(v: &Vec<Task>) -> (r: Vec<&Task>)
    ensures
        deref_all(r@) == v@,
{
    let mut r: Vec<&Task> = Vec::new();
    let mut i: usize = 0;
    while i < v.len()
        invariant
            i <= v@.len(),
            deref_all(r@) == v@.subrange(0, i as int),
        decreases v@.len() - i,
    {
        proof {
            lemma_deref_push(r@, &v@[i as int]);
        }
        r.push(&v[i]);
        assert(deref_all(r@) =~= v@.subrange(0, i + 1));
        i += 1;
    }
    assert(v@.subrange(0, v@.len() as int) =~= v@);
    r
}

/// Orders `s` with incomplete tasks first, keeping the order within each group.
fn order_active_first<'a>(s: Vec<&'a Task>) -> (r: Vec<&'a Task>)
    ensures
        deref_all(r@) == active_first(deref_all(s@)),
{
    let ghost all = deref_all(s@);
    let ghost open_ = |t: Task| !t.is_completed;
    let ghost done = |t: Task| t.is_completed;
    let mut r: Vec<&Task> = Vec::new();
    let mut i: usize = 0;
    proof {
        reveal(Seq::filter);
        assert(deref_all(r@) =~= all.subrange(0, 0).filter(open_));
    }
    while i < s.len()
        invariant
            i <= s@.len(),
            all == deref_all(s@),
            open_ == (|t: Task| !t.is_completed),
            deref_all(r@) == all.subrange(0, i as int).filter(open_),
        decreases s@.len() - i,
    {
        proof {
            reveal(Seq::filter);
            assert(all.subrange(0, i + 1).drop_last() =~= all.subrange(0, i as int));
            lemma_deref_push(r@, s@[i as int]);
        }
        if !s[i].is_completed {
            r.push(s[i]);
        }
        assert(deref_all(r@) =~= all.subrange(0, i + 1).filter(open_));
        i += 1;
    }
    assert(all.subrange(0, all.len() as int) =~= all);
    let ghost first = deref_all(r@);
    let mut j: usize = 0;
    proof {
        reveal(Seq::filter);
        assert(deref_all(r@) =~= first + all.subrange(0, 0).filter(done));
    }
    while j < s.len()
        invariant
            j <= s@.len(),
            all == deref_all(s@),
            done == (|t: Task| t.is_completed),
            first == all.filter(open_),
            deref_all(r@) == first + all.subrange(0, j as int).filter(done),
        decreases s@.len() - j,
    {
        proof {
            reveal(Seq::filter);
            assert(all.subrange(0, j + 1).drop_last() =~= all.subrange(0, j as int));
            lemma_deref_push(r@, s@[j as int]);
        }
        if s[j].is_completed {
            r.push(s[j]);
        }
        assert(deref_all(r@) =~= first + all.subrange(0, j + 1).filter(done));
        j += 1;
    }
    assert(all.subrange(0, all.len() as int) =~= all);
    r
}

impl AppState {
    /// Reads the due information of every active task, in order.
    pub fn due_days(&self) -> (r: Vec<DueDay>)
        ensures
            resolves_all(self@.tasks, r@),
    {
        let mut r: Vec<DueDay> = Vec::new();
        let mut i: usize = 0;
        while i < self.tasks.len()
            invariant
                i <= self@.tasks.len(),
                r@.len() == i,
                forall|j: int| 0 <= j < i ==> resolves(#[trigger] self@.tasks[j].due, r@[j]),
            decreases self@.tasks.len() - i,
        {
            let d = resolve_due(&self.tasks[i].due);
            r.push(d);
            i += 1;
        }
        r
    }

    /// The active tasks due on `today`, their due days read as `days`.
    pub fn tasks_due_on(&self, days: &Vec<DueDay>, today: Option<LocalDate>) -> (r: Vec<&Task>)
        requires
            days@.len() == self@.tasks.len(),
        ensures
            deref_all(r@) == self@.due_on(days@, today),
    {
        let ghost keep = |i: int| is_due_on(days@[i], today);
        let mut r: Vec<&Task> = Vec::new();
        let mut i: usize = 0;
        while i < self.tasks.len()
            invariant
                i <= self@.tasks.len(),
                days@.len() == self@.tasks.len(),
                keep == (|i: int| is_due_on(days@[i], today)),
                deref_all(r@) == select(self@.tasks.subrange(0, i as int), keep),
            decreases self@.tasks.len() - i,
        {
            proof {
                assert(self@.tasks.subrange(0, i + 1).drop_last() =~= self@.tasks.subrange(0, i as int));
                lemma_deref_push(r@, &self@.tasks[i as int]);
            }
            let due = match today {
                Some(t) => days[i] == DueDay::On(t),
                None => false,
            };
            if due {
                r.push(&self.tasks[i]);
            }
            i += 1;
        }
        assert(self@.tasks.subrange(0, self@.tasks.len() as int) =~= self@.tasks);
        r
    }

    /// The active tasks upcoming from `today`, their due days read as `days`: no due
    /// date, or one strictly after `today`.
    pub fn tasks_upcoming_on(&self, days: &Vec<DueDay>, today: Option<LocalDate>) -> (r: Vec<&Task>)
        requires
            days@.len() == self@.tasks.len(),
        ensures
            deref_all(r@) == self@.upcoming_on(days@, today),
    {
        let ghost keep = |i: int| is_upcoming_from(days@[i], today);
        let mut r: Vec<&Task> = Vec::new();
        let mut i: usize = 0;
        while i < self.tasks.len()
            invariant
                i <= self@.tasks.len(),
                days@.len() == self@.tasks.len(),
                keep == (|i: int| is_upcoming_from(days@[i], today)),
                deref_all(r@) == select(self@.tasks.subrange(0, i as int), keep),
            decreases self@.tasks.len() - i,
        {
            proof {
                assert(self@.tasks.subrange(0, i + 1).drop_last() =~= self@.tasks.subrange(0, i as int));
                lemma_deref_push(r@, &self@.tasks[i as int]);
            }
            let upcoming = match days[i] {
                DueDay::NoDate => true,
                DueDay::Unreadable => false,
                DueDay::On(d) => match today {
                    Some(t) => d.is_after(&t),
                    None => false,
                },
            };
            if upcoming {
                r.push(&self.tasks[i]);
            }
            i += 1;
        }
        assert(self@.tasks.subrange(0, self@.tasks.len() as int) =~= self@.tasks);
        r
    }

    /// The unified today view for the due days `days` and the local day `today`.
    pub fn today_tasks_on(&self, days: &Vec<DueDay>, today: Option<LocalDate>) -> (r: Vec<&Task>)
        requires
            days@.len() == self@.tasks.len(),
        ensures
            deref_all(r@) == self@.today_view_on(days@, today),
    {
        let mut combined = self.tasks_due_on(days, today);
        let mut done = refs_of(&self.completed_tasks);
        let ghost due = deref_all(combined@);
        let ghost rest = deref_all(done@);
        combined.append(&mut done);
        assert(deref_all(combined@) =~= due + rest);
        order_active_first(combined)
    }

    /// The active tasks due today in the local calendar.
    pub fn tasks_due_today(&self) -> (r: Vec<&Task>)
        ensures
            exists|days: Seq<DueDay>, today: Option<LocalDate>|
                resolves_all(self@.tasks, days) && today_wf(today) && deref_all(r@)
                    == #[trigger] self@.due_on(days, today),
    {
        let today = local_today();
        let days = self.due_days();
        self.tasks_due_on(&days, today)
    }

    /// The active tasks without a due date or due after today in the local calendar.
    pub fn tasks_upcoming(&self) -> (r: Vec<&Task>)
        ensures
            exists|days: Seq<DueDay>, today: Option<LocalDate>|
                resolves_all(self@.tasks, days) && today_wf(today) && deref_all(r@)
                    == #[trigger] self@.upcoming_on(days, today),
    {
        let today = local_today();
        let days = self.due_days();
        self.tasks_upcoming_on(&days, today)
    }

    /// The unified today view, read against the local calendar now.
    pub fn today_tasks(&self) -> (r: Vec<&Task>)
        ensures
            self@.is_today_view(deref_all(r@)),
    {
        let today = local_today();
        let days = self.due_days();
        self.today_tasks_on(&days, today)
    }

    /// The number of entries of the unified today view.
    pub fn unified_today_count(&self) -> (r: usize)
        ensures
            exists|view: Seq<Task>| self@.is_today_view(view) && r == view.len(),
    {
        let view = self.today_tasks();
        assert(deref_all(view@).len() == view@.len());
        view.len()
    }

    /// Moves the selection down the unified today view, stopping at its last entry.
    pub fn move_down(&mut self)
        ensures
            exists|view: Seq<Task>|
                old(self)@.is_today_view(view) && final(self)@ == old(self)@.move_down_within(view.len()),
    {
        let count = self.unified_today_count();
        self.move_down_within(count);
    }

    /// Selects the last entry of the unified today view, or the first when it is empty.
    pub fn go_to_bottom(&mut self)
        ensures
            exists|view: Seq<Task>|
                old(self)@.is_today_view(view) && final(self)@ == old(self)@.go_to_bottom_within(view.len()),
    {
        let count = self.unified_today_count();
        self.go_to_bottom_within(count);
    }
}

/// Ordering incomplete tasks first leaves every incomplete task before every
/// completed one, and ordering the result again changes nothing.
pub proof fn lemma_active_first_sorted(s: Seq<Task>)
    ensures
        ({
            let r = active_first(s);
            &&& forall|i: int, j: int|
                #![trigger r[i], r[j]]
                0 <= i < j < r.len() && r[i].is_completed ==> r[j].is_completed
            &&& active_first(r) == r
        }),
{
    let open_ = |t: Task| !t.is_completed;
    let done = |t: Task| t.is_completed;
    let a = s.filter(open_);
    let b = s.filter(done);
    let r = a + b;
    assert forall|i: int| 0 <= i < a.len() implies !(#[trigger] a[i]).is_completed by {
        s.lemma_filter_pred(open_, i);
    }
    assert forall|i: int| 0 <= i < b.len() implies (#[trigger] b[i]).is_completed by {
        s.lemma_filter_pred(done, i);
    }
    assert forall|i: int, j: int|
        #![trigger r[i], r[j]]
        0 <= i < j < r.len() && r[i].is_completed implies r[j].is_completed by {
        if i < a.len() {
            assert(!a[i].is_completed);
        } else {
            assert(b[j - a.len()].is_completed);
        }
    }
    lemma_filter_keeps_all(a, open_);
    lemma_filter_keeps_none(b, open_);
    lemma_filter_keeps_none(a, done);
    lemma_filter_keeps_all(b, done);
    Seq::filter_distributes_over_add(a, b, open_);
    Seq::filter_distributes_over_add(a, b, done);
    assert(r.filter(open_) =~= a);
    assert(r.filter(done) =~= b);
}

/// In the unified today view incomplete tasks precede completed ones, and ordering
/// the view again leaves it as it is.
pub proof fn lemma_today_view_active_first(v: AppView, days: Seq<DueDay>, today: Option<LocalDate>)
    ensures
        ({
            let view = v.today_view_on(days, today);
            &&& forall|i: int, j: int|
                #![trigger view[i], view[j]]
                0 <= i < j < view.len() && view[i].is_completed ==> view[j].is_completed
            &&& active_first(view) == view
        }),
{
    lemma_active_first_sorted(v.due_on(days, today) + v.completed_tasks);
}

/// The unified today view depends on the two task lists alone: with neither list
/// changed, the same reading of due days gives the same view.
pub proof fn lemma_today_view_repeatable(
    a: AppView,
    b: AppView,
    days: Seq<DueDay>,
    today: Option<LocalDate>,
)
    requires
        a.tasks == b.tasks,
        a.completed_tasks == b.completed_tasks,
    ensures
        a.today_view_on(days, today) == b.today_view_on(days, today),
{
}

/// Classification follows the resolved day alone: two tasks whose due texts resolve
/// to the same local day (a bare date and a timestamp alike) are due today
/// together and upcoming together, and an unreadable due text is neither.
pub proof fn lemma_class_follows_day(
    t1: Task,
    t2: Task,
    d1: DueDay,
    d2: DueDay,
    today: Option<LocalDate>,
)
    requires
        resolves(t1.due, d1),
        resolves(t2.due, d2),
        d1 == d2,
    ensures
        is_due_on(d1, today) == is_due_on(d2, today),
        is_upcoming_from(d1, today) == is_upcoming_from(d2, today),
        d1 == DueDay::Unreadable ==> !is_due_on(d1, today) && !is_upcoming_from(d1, today),
{
}

/// A due text that starts with a letter, such as `not-a-date`, reads as unreadable,
/// so its task is neither due today nor upcoming, whatever day today is.
pub proof fn lemma_malformed_due_in_neither(due: Option<Due>, r: DueDay, today: Option<LocalDate>)
    requires
        resolves(due, r),
        starts_with_letter(due),
    ensures
        r == DueDay::Unreadable,
        !is_due_on(r, today),
        !is_upcoming_from(r, today),
{
}

} // verus!
