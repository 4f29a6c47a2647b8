//! Plain data carried between the store, the dispatcher and the renderer:
//! tasks, the two error kinds, and the blank-title check that guards
//! submissions.

use vstd::prelude::*;
use vstd::string::StrSliceExecFns;

verus! {

/// A persisted to-do record, exactly as the task store returns it.
#[derive(Debug, PartialEq, Eq)]
pub struct Task {
    /// Store-assigned, unique, immutable.
    pub id: u64,
    /// Non-empty as entered.
    pub title: String,
    /// Completion flag; carried through unchanged.
    pub completed: bool,
}

impl Task {
    /// An exact copy. `Task` holds a `String`, so this stands in for `Clone`
    /// with a contract.
    pub fn duplicate(&self) -> (t: Task)
        ensures
            t == *self,
    {
        Task { id: self.id, title: self.title.clone(), completed: self.completed }
    }
}

/// Failure surfaced by the task store from `list`, `create` or `delete`.
#[derive(Debug, PartialEq, Eq)]
pub struct StoreError {
    /// Human-readable reason, kept for display.
    pub reason: String,
}

impl StoreError {
    /// An exact copy, with a contract.
    pub fn duplicate(&self) -> (e: StoreError)
        ensures
            e == *self,
    {
        StoreError { reason: self.reason.clone() }
    }
}

/// Synchronous rejection of a submission whose title is blank; such a
/// submission never reaches the store and never counts as a mutation.
#[derive(Debug, PartialEq, Eq, Clone, Copy)]
pub struct ValidationError;

/// Whitespace for the purpose of title trimming.
pub open spec fn blank_char(c: char) -> bool {
    c == ' ' || c == '\t' || c == '\n' || c == '\r'
}

/// A title is blank when it is empty after trimming, that is, when every
/// character is whitespace.
pub open spec fn blank_title(s: Seq<char>) -> bool {
    forall|i: int| 0 <= i < s.len() ==> blank_char(s[i])
}

/// Decides whether a title is blank (empty after trimming).
pub fn title_is_blank(s: &str) -> (r: bool)
    ensures
        r == blank_title(s@),
{
    let n = s.unicode_len();
    let mut i: usize = 0;
    while i < n
        invariant
            n == s@.len(),
            i <= n,
            forall|j: int| 0 <= j < i ==> blank_char(s@[j]),
        decreases n - i,
    {
        let c = s.get_char(i);
        if !(c == ' ' || c == '\t' || c == '\n' || c == '\r') {
            assert(!blank_char(s@[i as int]));
            return false;
        }
        i = i + 1;
    }
    true
}

/// Copies a task list element for element.
pub fn duplicate_tasks(ts: &Vec<Task>) -> (r: Vec<Task>)
    ensures
        r@ == ts@,
{
    let mut r: Vec<Task> = Vec::new();
    let mut i: usize = 0;
    while i < ts.len()
        invariant
            i <= ts.len(),
            r@ == ts@.subrange(0, i as int),
        decreases ts.len() - i,
    {
        r.push(ts[i].duplicate());
        assert(r@ =~= ts@.subrange(0, i + 1 as int));
        i = i + 1;
    }
    assert(r@ =~= ts@);
    r
}

} // verus!
