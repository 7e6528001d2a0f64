use vstd::prelude::*;

verus! {

/// Due information of a task as the remote service reports it.
#[derive(Debug, Clone, PartialEq, Eq)]
pub struct Due {
    /// Either a calendar date `YYYY-MM-DD` or a full timestamp.
    pub date: String,
    /// Informational only.
    pub is_recurring: bool,
    pub datetime: Option<String>,
    /// Human label, for display only.
    pub string: String,
    pub timezone: Option<String>,
}

/// A task as the remote service reports it.
#[derive(Debug, Clone, PartialEq, Eq)]
pub struct Task {
    /// Stable identity, unique within one fetch.
    pub id: String,
    /// Display text, possibly with light markup.
    pub content: String,
    /// Secondary text, possibly empty.
    pub description: String,
    pub is_completed: bool,
    pub due: Option<Due>,
    /// Small ordinal, 1 to 4.
    pub priority: u8,
}

/// `t` with its completion flag set to `done`.
pub open spec fn with_completion(t: Task, done: bool) -> Task {
    Task { is_completed: done, ..t }
}

/// The values behind a sequence of references.
pub open spec fn deref_all<T>(s: Seq<&T>) -> Seq<T> {
    s.map_values(|t: &T| *t)
}

/// Pushing a reference pushes the value behind it.
pub proof fn lemma_deref_push<T>(s: Seq<&T>, x: &T)
    ensures
        deref_all(s.push(x)) == deref_all(s).push(*x),
{
    assert(deref_all(s.push(x)) =~= deref_all(s).push(*x));
}

} // verus!
