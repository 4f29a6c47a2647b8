//! The mutation dispatcher: accepts add/delete intents, tracks each intent
//! from `Pending` to `Resolved`/`Failed`, and bumps one monotonic version
//! counter per mutation kind when the store call settles. The counters are
//! the sole invalidation signal the list resource consumes.

use vstd::prelude::*;
use crate::tasks::{blank_title, StoreError, ValidationError};

verus! {

/// What a mutation intends: creating a task or deleting one.
#[derive(Debug, PartialEq, Eq)]
pub enum IntentKind {
    /// Create a task with this title.
    Add { title: String },
    /// Delete the task with this id (an absent id is a no-op at the store).
    Delete { id: u64 },
}

impl IntentKind {
    /// An exact copy, with a contract.
    pub fn duplicate(&self) -> (k: IntentKind)
        ensures
            k == *self,
    {
        match self {
            IntentKind::Add { title } => IntentKind::Add { title: title.clone() },
            IntentKind::Delete { id } => IntentKind::Delete { id: *id },
        }
    }
}

/// Lifecycle of one intent.
#[derive(Debug, PartialEq, Eq)]
pub enum IntentStatus {
    /// The store call has not settled yet.
    Pending,
    /// The store call succeeded.
    Resolved,
    /// The store call failed; the error is kept on the intent and never
    /// thrown upward.
    Failed { error: StoreError },
}

impl IntentStatus {
    /// An exact copy, with a contract.
    pub fn duplicate(&self) -> (s: IntentStatus)
        ensures
            s == *self,
    {
        match self {
            IntentStatus::Pending => IntentStatus::Pending,
            IntentStatus::Resolved => IntentStatus::Resolved,
            IntentStatus::Failed { error } => IntentStatus::Failed { error: error.duplicate() },
        }
    }
}

/// A client-tracked record of one in-flight or completed create/delete
/// request, owned exclusively by the dispatcher.
#[derive(Debug, PartialEq, Eq)]
pub struct MutationIntent {
    /// Stable identifier handed back to the submitter.
    pub handle: u64,
    /// What the mutation does.
    pub kind: IntentKind,
    /// Where the intent stands in its lifecycle.
    pub status: IntentStatus,
    /// Value of the kind's version counter when the intent was submitted.
    pub submitted_at_version: u64,
}

impl MutationIntent {
    /// An exact copy, with a contract.
    pub fn duplicate(&self) -> (m: MutationIntent)
        ensures
            m == *self,
    {
        MutationIntent {
            handle: self.handle,
            kind: self.kind.duplicate(),
            status: self.status.duplicate(),
            submitted_at_version: self.submitted_at_version,
        }
    }
}

/// Mathematical state of a dispatcher.
pub struct DispatcherView {
    /// All tracked intents, in submission order.
    pub intents: Seq<MutationIntent>,
    /// Completed add mutations, successful or failed.
    pub add_version: u64,
    /// Completed delete mutations, successful or failed.
    pub delete_version: u64,
    /// Next handle to assign.
    pub next_handle: u64,
}

/// No two intents share a handle.
pub open spec fn unique_handles(s: Seq<MutationIntent>) -> bool {
    forall|i: int, j: int|
        0 <= i < s.len() && 0 <= j < s.len() && i != j ==> s[i].handle != s[j].handle
}

impl DispatcherView {
    /// Validity: handles are unique and below the next one to assign.
    pub open spec fn wf(self) -> bool {
        &&& unique_handles(self.intents)
        &&& forall|i: int| 0 <= i < self.intents.len() ==> self.intents[i].handle < self.next_handle
    }

    /// Some intent carries this handle.
    pub open spec fn has_intent(self, handle: u64) -> bool {
        exists|i: int| 0 <= i < self.intents.len() && self.intents[i].handle == handle
    }

    /// Index of the intent carrying this handle (unique under `wf`).
    pub open spec fn idx_of(self, handle: u64) -> int {
        choose|i: int| 0 <= i < self.intents.len() && self.intents[i].handle == handle
    }

    /// The intent carrying this handle.
    pub open spec fn intent_of(self, handle: u64) -> MutationIntent {
        self.intents[self.idx_of(handle)]
    }
}

/// An intent that still renders optimistically: a pending addition.
pub open spec fn is_pending_add(m: MutationIntent) -> bool {
    m.status is Pending && m.kind is Add
}

/// The pending add intents of `s`, in submission order.
pub open spec fn pending_adds_of(s: Seq<MutationIntent>) -> Seq<MutationIntent>
    decreases s.len(),
{
    if s.len() == 0 {
        Seq::empty()
    } else {
        let rest = pending_adds_of(s.drop_last());
        if is_pending_add(s.last()) {
            rest.push(s.last())
        } else {
            rest
        }
    }
}

/// Every element of `pending_adds_of(s)` is a pending add drawn from `s`.
pub proof fn lemma_pending_adds_of(s: Seq<MutationIntent>)
    ensures
        forall|i: int|
            0 <= i < pending_adds_of(s).len() ==> is_pending_add(#[trigger] pending_adds_of(s)[i]),
        forall|i: int|
            0 <= i < pending_adds_of(s).len() ==> s.contains(#[trigger] pending_adds_of(s)[i]),
    decreases s.len(),
{
    if s.len() > 0 {
        lemma_pending_adds_of(s.drop_last());
        assert forall|i: int| 0 <= i < pending_adds_of(s).len() implies s.contains(
            #[trigger] pending_adds_of(s)[i],
        ) by {
            let rest = pending_adds_of(s.drop_last());
            if i < rest.len() {
                let j = choose|j: int| 0 <= j < s.drop_last().len() && s.drop_last()[j] == rest[i];
                assert(s[j] == rest[i]);
            } else {
                assert(s[s.len() - 1] == s.last());
            }
        }
        assert forall|i: int| 0 <= i < pending_adds_of(s).len() implies is_pending_add(
            #[trigger] pending_adds_of(s)[i],
        ) by {
            let rest = pending_adds_of(s.drop_last());
            if i < rest.len() {
                assert(pending_adds_of(s)[i] == rest[i]);
            } else {
                assert(pending_adds_of(s)[i] == s.last());
            }
        }
    }
}

/// Law: the pending adds preserve submission order: any two of them stand
/// in the same order as the intents they stem from.
pub proof fn law_pending_adds_preserve_order(s: Seq<MutationIntent>, i: int, j: int)
    requires
        0 <= i < j < pending_adds_of(s).len(),
    ensures
        exists|k: int, l: int|
            0 <= k < l < s.len() && s[k] == pending_adds_of(s)[i] && s[l] == pending_adds_of(s)[j],
    decreases s.len(),
{
    let pa = pending_adds_of(s);
    let rest = pending_adds_of(s.drop_last());
    if is_pending_add(s.last()) && j == rest.len() {
        lemma_pending_adds_of(s.drop_last());
        assert(s.drop_last().contains(rest[i]));
        let k = choose|k: int| 0 <= k < s.drop_last().len() && s.drop_last()[k] == rest[i];
        let l = s.len() - 1;
        assert(0 <= k < l < s.len() && s[k] == pa[i] && s[l] == pa[j]);
    } else {
        law_pending_adds_preserve_order(s.drop_last(), i, j);
        let (k, l) = choose|k: int, l: int|
            0 <= k < l < s.drop_last().len() && s.drop_last()[k] == rest[i] && s.drop_last()[l]
                == rest[j];
        assert(0 <= k < l < s.len() && s[k] == pa[i] && s[l] == pa[j]);
    }
}

/// Outcome of `submit_add` at the specification level: the new state and
/// the result handed back.
pub open spec fn spec_submit_add(v: DispatcherView, title: String) -> (
    DispatcherView,
    Result<u64, ValidationError>,
) {
    if blank_title(title@) {
        (v, Err(ValidationError))
    } else {
        (
            DispatcherView {
                intents: v.intents.push(
                    MutationIntent {
                        handle: v.next_handle,
                        kind: IntentKind::Add { title },
                        status: IntentStatus::Pending,
                        submitted_at_version: v.add_version,
                    },
                ),
                next_handle: (v.next_handle + 1) as u64,
                ..v
            },
            Ok(v.next_handle),
        )
    }
}

/// Outcome of `submit_delete` at the specification level.
pub open spec fn spec_submit_delete(v: DispatcherView, id: u64) -> (DispatcherView, u64) {
    (
        DispatcherView {
            intents: v.intents.push(
                MutationIntent {
                    handle: v.next_handle,
                    kind: IntentKind::Delete { id },
                    status: IntentStatus::Pending,
                    submitted_at_version: v.delete_version,
                },
            ),
            next_handle: (v.next_handle + 1) as u64,
            ..v
        },
        v.next_handle,
    )
}

/// The status an intent takes when its store call settles.
pub open spec fn settled_status(outcome: Result<(), StoreError>) -> IntentStatus {
    match outcome {
        Ok(_) => IntentStatus::Resolved,
        Err(e) => IntentStatus::Failed { error: e },
    }
}

/// Outcome of `settle` at the specification level: the intent's status is
/// set from the store outcome and the counter of its kind advances by one,
/// regardless of success or failure.
pub open spec fn spec_settle(
    v: DispatcherView,
    handle: u64,
    outcome: Result<(), StoreError>,
) -> DispatcherView {
    let i = v.idx_of(handle);
    let m = v.intents[i];
    DispatcherView {
        intents: v.intents.update(i, MutationIntent { status: settled_status(outcome), ..m }),
        add_version: if m.kind is Add {
            (v.add_version + 1) as u64
        } else {
            v.add_version
        },
        delete_version: if m.kind is Delete {
            (v.delete_version + 1) as u64
        } else {
            v.delete_version
        },
        ..v
    }
}

/// Whether an intent survives garbage collection after a load that observed
/// the version pair `(loaded_add, loaded_delete)` completed: an intent is
/// dropped once it has settled and the loaded counter of its kind has
/// advanced past its submission point, so the confirmed list could already
/// reflect it.
pub open spec fn retained(m: MutationIntent, loaded_add: u64, loaded_delete: u64) -> bool {
    ||| m.status is Pending
    ||| (m.kind is Add && loaded_add <= m.submitted_at_version)
    ||| (m.kind is Delete && loaded_delete <= m.submitted_at_version)
}

/// The intents of `s` that survive garbage collection, in order.
pub open spec fn retained_of(s: Seq<MutationIntent>, loaded_add: u64, loaded_delete: u64) -> Seq<
    MutationIntent,
>
    decreases s.len(),
{
    if s.len() == 0 {
        Seq::empty()
    } else {
        let rest = retained_of(s.drop_last(), loaded_add, loaded_delete);
        if retained(s.last(), loaded_add, loaded_delete) {
            rest.push(s.last())
        } else {
            rest
        }
    }
}

/// Garbage collection keeps a subsequence: every retained intent comes from
/// `s`, handle uniqueness survives, and so does any handle bound.
pub proof fn lemma_retained_of(s: Seq<MutationIntent>, loaded_add: u64, loaded_delete: u64)
    ensures
        forall|i: int|
            0 <= i < retained_of(s, loaded_add, loaded_delete).len() ==> s.contains(
                #[trigger] retained_of(s, loaded_add, loaded_delete)[i],
            ),
        unique_handles(s) ==> unique_handles(retained_of(s, loaded_add, loaded_delete)),
    decreases s.len(),
{
    if s.len() > 0 {
        let rest = retained_of(s.drop_last(), loaded_add, loaded_delete);
        lemma_retained_of(s.drop_last(), loaded_add, loaded_delete);
        assert forall|i: int| 0 <= i < retained_of(s, loaded_add, loaded_delete).len() implies s
            .contains(#[trigger] retained_of(s, loaded_add, loaded_delete)[i]) by {
            if i < rest.len() {
                let j = choose|j: int| 0 <= j < s.drop_last().len() && s.drop_last()[j] == rest[i];
                assert(s[j] == rest[i]);
            } else {
                assert(s[s.len() - 1] == s.last());
            }
        }
        if unique_handles(s) {
            assert(unique_handles(s.drop_last())) by {
                assert(forall|i: int|
                    0 <= i < s.drop_last().len() ==> s.drop_last()[i] == s[i]);
            }
            let r = retained_of(s, loaded_add, loaded_delete);
            if retained(s.last(), loaded_add, loaded_delete) {
                assert forall|i: int, j: int|
                    0 <= i < r.len() && 0 <= j < r.len() && i != j implies r[i].handle
                    != r[j].handle by {
                    if i < rest.len() && j < rest.len() {
                    } else {
                        let (a, b) = if i < j {
                            (i, j)
                        } else {
                            (j, i)
                        };
                        assert(b == rest.len() && r[b] == s.last());
                        let k = choose|k: int|
                            0 <= k < s.drop_last().len() && s.drop_last()[k] == rest[a];
                        assert(s[k] == rest[a]);
                        assert(s[k].handle != s[s.len() - 1].handle);
                    }
                }
            }
        }
    }
}

/// Law: for any non-blank title, submission is accepted and its settlement
/// advances `add_version` by exactly one, whether the store call succeeded
/// or failed; `delete_version` is untouched, and submission itself moves
/// neither counter.
pub proof fn law_submit_add_settles_once(
    v0: DispatcherView,
    title: String,
    outcome: Result<(), StoreError>,
)
    requires
        v0.wf(),
        !blank_title(title@),
        v0.next_handle < u64::MAX,
        v0.add_version < u64::MAX,
    ensures
        ({
            let (v1, r) = spec_submit_add(v0, title);
            let v2 = spec_settle(v1, r->Ok_0, outcome);
            &&& r is Ok
            &&& v1.add_version == v0.add_version && v1.delete_version == v0.delete_version
            &&& v2.add_version == v0.add_version + 1
            &&& v2.delete_version == v0.delete_version
        }),
{
    let (v1, r) = spec_submit_add(v0, title);
    let h = v0.next_handle;
    assert(v1.intents[v1.intents.len() - 1].handle == h);
    assert(v1.has_intent(h));
    let k = v1.idx_of(h);
    assert(v1.intents[k].handle == h);
    assert(k == v1.intents.len() - 1) by {
        if 0 <= k < v1.intents.len() - 1 {
            assert(v1.intents[k] == v0.intents[k]);
            assert(v0.intents[k].handle < v0.next_handle);
        }
    }
    assert(v1.intent_of(h).kind is Add);
}

/// Law: for any id, submission is accepted and its settlement advances
/// `delete_version` by exactly one, whether the store call succeeded or
/// failed; `add_version` is untouched, and submission itself moves neither
/// counter.
pub proof fn law_submit_delete_settles_once(
    v0: DispatcherView,
    id: u64,
    outcome: Result<(), StoreError>,
)
    requires
        v0.wf(),
        v0.next_handle < u64::MAX,
        v0.delete_version < u64::MAX,
    ensures
        ({
            let (v1, h) = spec_submit_delete(v0, id);
            let v2 = spec_settle(v1, h, outcome);
            &&& v1.add_version == v0.add_version && v1.delete_version == v0.delete_version
            &&& v2.delete_version == v0.delete_version + 1
            &&& v2.add_version == v0.add_version
        }),
{
    let (v1, h) = spec_submit_delete(v0, id);
    assert(v1.intents[v1.intents.len() - 1].handle == h);
    assert(v1.has_intent(h));
    let k = v1.idx_of(h);
    assert(v1.intents[k].handle == h);
    assert(k == v1.intents.len() - 1) by {
        if 0 <= k < v1.intents.len() - 1 {
            assert(v1.intents[k] == v0.intents[k]);
            assert(v0.intents[k].handle < v0.next_handle);
        }
    }
    assert(v1.intent_of(h).kind is Delete);
}

/// Law: settlement removes a submission's optimistic row: after the intent
/// of `handle` settles, no pending add carries that handle, so the reload
/// that the settlement triggers can only replace the row with a confirmed
/// one, never duplicate it.
pub proof fn law_pending_row_disappears_on_settlement(
    v: DispatcherView,
    handle: u64,
    outcome: Result<(), StoreError>,
)
    requires
        v.wf(),
        v.has_intent(handle),
    ensures
        ({
            let v2 = spec_settle(v, handle, outcome);
            forall|i: int|
                0 <= i < pending_adds_of(v2.intents).len() ==> (#[trigger] pending_adds_of(
                    v2.intents,
                )[i]).handle != handle
        }),
{
    let v2 = spec_settle(v, handle, outcome);
    let k = v.idx_of(handle);
    assert(v.intents[k].handle == handle);
    lemma_pending_adds_of(v2.intents);
    assert forall|i: int| 0 <= i < pending_adds_of(v2.intents).len() implies (
    #[trigger] pending_adds_of(v2.intents)[i]).handle != handle by {
        let x = pending_adds_of(v2.intents)[i];
        if x.handle == handle {
            assert(v2.intents.contains(x));
            let j = choose|j: int| 0 <= j < v2.intents.len() && v2.intents[j] == x;
            assert(forall|t: int|
                0 <= t < v2.intents.len() ==> (#[trigger] v2.intents[t]).handle
                    == v.intents[t].handle);
            assert(j == k);
            assert(v2.intents[k].status == settled_status(outcome));
            assert(is_pending_add(x));
            assert(false);
        }
    }
}

/// Law: a blank submission is rejected synchronously: the dispatcher state
/// is unchanged, so no version counter moves and the rejected title never
/// appears among the pending adds.
pub proof fn law_blank_submission_changes_nothing(v0: DispatcherView, title: String)
    requires
        blank_title(title@),
    ensures
        ({
            let (v1, r) = spec_submit_add(v0, title);
            &&& r is Err
            &&& v1 == v0
            &&& pending_adds_of(v1.intents) == pending_adds_of(v0.intents)
        }),
{
}

/// Law: the version counters are monotonic: neither submission nor
/// settlement ever decreases either counter (and `prune` leaves both
/// untouched by its own contract), so a pair once observed stays a valid
/// invalidation token.
pub proof fn law_version_counters_monotonic(
    v: DispatcherView,
    title: String,
    id: u64,
    handle: u64,
    outcome: Result<(), StoreError>,
)
    requires
        v.add_version < u64::MAX,
        v.delete_version < u64::MAX,
    ensures
        spec_submit_add(v, title).0.add_version >= v.add_version,
        spec_submit_add(v, title).0.delete_version >= v.delete_version,
        spec_submit_delete(v, id).0.add_version >= v.add_version,
        spec_submit_delete(v, id).0.delete_version >= v.delete_version,
        spec_settle(v, handle, outcome).add_version >= v.add_version,
        spec_settle(v, handle, outcome).delete_version >= v.delete_version,
{
}

/// Accepts add/delete intents, tracks their lifecycle, and owns the version
/// counters. Single writer of this shared state; the list resource only
/// reads the counters.
#[derive(Debug)]
pub struct Dispatcher {
    pub(crate) intents: Vec<MutationIntent>,
    pub(crate) add_version: u64,
    pub(crate) delete_version: u64,
    pub(crate) next_handle: u64,
}

impl View for Dispatcher {
    type V = DispatcherView;

    closed spec fn view(&self) -> DispatcherView {
        DispatcherView {
            intents: self.intents@,
            add_version: self.add_version,
            delete_version: self.delete_version,
            next_handle: self.next_handle,
        }
    }
}

impl Dispatcher {
    /// A dispatcher with no intents and both counters at zero.
    pub fn new() -> (d: Dispatcher)
        ensures
            d@.intents == Seq::<MutationIntent>::empty(),
            d@.add_version == 0,
            d@.delete_version == 0,
            d@.next_handle == 0,
            d@.wf(),
    {
        let d = Dispatcher { intents: Vec::new(), add_version: 0, delete_version: 0, next_handle: 0 };
        proof {
            assert(d@.intents =~= Seq::<MutationIntent>::empty());
        }
        d
    }

    /// Completed add mutations so far.
    pub fn add_version(&self) -> (v: u64)
        ensures
            v == self@.add_version,
    {
        self.add_version
    }

    /// Completed delete mutations so far.
    pub fn delete_version(&self) -> (v: u64)
        ensures
            v == self@.delete_version,
    {
        self.delete_version
    }

    /// How many intents are currently tracked (pending or settled but not
    /// yet collected).
    pub fn intent_count(&self) -> (n: usize)
        ensures
            n == self@.intents.len(),
    {
        self.intents.len()
    }

    /// Whether another intent can still be submitted: handles are drawn
    /// from a counter that is never reused.
    pub fn handles_left(&self) -> (r: bool)
        ensures
            r == (self@.next_handle < u64::MAX),
    {
        self.next_handle < u64::MAX
    }

    /// Whether a pending intent with this handle is tracked.
    pub fn has_pending(&self, handle: u64) -> (r: bool)
        requires
            self@.wf(),
        ensures
            r == (self@.has_intent(handle) && self@.intent_of(handle).status is Pending),
    {
        let mut i: usize = 0;
        while i < self.intents.len()
            invariant
                self@.wf(),
                i <= self@.intents.len(),
                forall|j: int| 0 <= j < i ==> self@.intents[j].handle != handle,
            decreases self@.intents.len() - i,
        {
            if self.intents[i].handle == handle {
                proof {
                    assert(self@.has_intent(handle));
                    assert(self@.idx_of(handle) == i as int) by {
                        let k = self@.idx_of(handle);
                        assert(self@.intents[k].handle == handle);
                    }
                }
                return match self.intents[i].status {
                    IntentStatus::Pending => true,
                    _ => false,
                };
            }
            i = i + 1;
        }
        proof {
            assert(!self@.has_intent(handle));
        }
        false
    }

    /// Registers a pending add intent for a non-blank title and hands back
    /// its handle; a blank title is rejected synchronously, leaving the
    /// state untouched. Neither case changes a version counter.
    pub fn submit_add(&mut self, title: String) -> (r: Result<u64, ValidationError>)
        requires
            old(self)@.wf(),
            old(self)@.next_handle < u64::MAX,
        ensures
            (final(self)@, r) == spec_submit_add(old(self)@, title),
            final(self)@.wf(),
            final(self)@.add_version == old(self)@.add_version,
            final(self)@.delete_version == old(self)@.delete_version,
    {
        if title_is_blank_str(&title) {
            return Err(ValidationError);
        }
        let handle = self.next_handle;
        let ghost pre = self@;
        self.intents.push(
            MutationIntent {
                handle,
                kind: IntentKind::Add { title },
                status: IntentStatus::Pending,
                submitted_at_version: self.add_version,
            },
        );
        self.next_handle = self.next_handle + 1;
        proof {
            assert(unique_handles(self@.intents)) by {
                assert(forall|i: int|
                    0 <= i < pre.intents.len() ==> self@.intents[i] == pre.intents[i]);
            }
        }
        Ok(handle)
    }

    /// Registers a pending delete intent and hands back its handle. Any id
    /// is accepted: deleting an absent id is an idempotent no-op at the
    /// store. No version counter changes.
    pub fn submit_delete(&mut self, id: u64) -> (handle: u64)
        requires
            old(self)@.wf(),
            old(self)@.next_handle < u64::MAX,
        ensures
            (final(self)@, handle) == spec_submit_delete(old(self)@, id),
            final(self)@.wf(),
            final(self)@.add_version == old(self)@.add_version,
            final(self)@.delete_version == old(self)@.delete_version,
    {
        let handle = self.next_handle;
        let ghost pre = self@;
        self.intents.push(
            MutationIntent {
                handle,
                kind: IntentKind::Delete { id },
                status: IntentStatus::Pending,
                submitted_at_version: self.delete_version,
            },
        );
        self.next_handle = self.next_handle + 1;
        proof {
            assert(unique_handles(self@.intents)) by {
                assert(forall|i: int|
                    0 <= i < pre.intents.len() ==> self@.intents[i] == pre.intents[i]);
            }
        }
        handle
    }

    /// Records the settlement of one intent's store call: the intent leaves
    /// `Pending` for `Resolved` or `Failed`, and the version counter of its
    /// kind advances by exactly one, whether the call succeeded or failed.
    /// The store error, if any, is captured on the intent and never thrown.
    #[verifier::loop_isolation(false)]
    pub fn settle(&mut self, handle: u64, outcome: Result<(), StoreError>)
        requires
            old(self)@.wf(),
            old(self)@.has_intent(handle),
            old(self)@.intent_of(handle).status is Pending,
            old(self)@.intent_of(handle).kind is Add ==> old(self)@.add_version < u64::MAX,
            old(self)@.intent_of(handle).kind is Delete ==> old(self)@.delete_version < u64::MAX,
        ensures
            final(self)@ == spec_settle(old(self)@, handle, outcome),
            final(self)@.wf(),
            old(self)@.intent_of(handle).kind is Add ==> final(self)@.add_version == old(
                self,
            )@.add_version + 1 && final(self)@.delete_version == old(self)@.delete_version,
            old(self)@.intent_of(handle).kind is Delete ==> final(self)@.delete_version == old(
                self,
            )@.delete_version + 1 && final(self)@.add_version == old(self)@.add_version,
    {
        let ghost pre = self@;
        let mut i: usize = 0;
        while i < self.intents.len()
            invariant
                self@ == pre,
                pre.wf(),
                pre.has_intent(handle),
                i <= pre.intents.len(),
                forall|j: int| 0 <= j < i ==> pre.intents[j].handle != handle,
            decreases pre.intents.len() - i,
        {
            if self.intents[i].handle == handle {
                proof {
                    assert(pre.idx_of(handle) == i as int) by {
                        let k = pre.idx_of(handle);
                        assert(pre.intents[k].handle == handle);
                    }
                }
                let status = match &outcome {
                    Ok(_) => IntentStatus::Resolved,
                    Err(e) => IntentStatus::Failed { error: e.duplicate() },
                };
                let kind_is_add = match &self.intents[i].kind {
                    IntentKind::Add { .. } => true,
                    IntentKind::Delete { .. } => false,
                };
                proof {
                    assert(pre.intents[i as int] == pre.intent_of(handle));
                    assert(kind_is_add == (pre.intent_of(handle).kind is Add));
                }
                let updated = MutationIntent {
                    handle: self.intents[i].handle,
                    kind: self.intents[i].kind.duplicate(),
                    status,
                    submitted_at_version: self.intents[i].submitted_at_version,
                };
                self.intents.set(i, updated);
                if kind_is_add {
                    self.add_version = self.add_version + 1;
                } else {
                    self.delete_version = self.delete_version + 1;
                }
                proof {
                    assert(self@.intents =~= pre.intents.update(
                        pre.idx_of(handle),
                        MutationIntent {
                            status: settled_status(outcome),
                            ..pre.intent_of(handle)
                        },
                    ));
                    assert(unique_handles(self@.intents)) by {
                        assert(forall|j: int|
                            0 <= j < self@.intents.len() ==> self@.intents[j].handle
                                == pre.intents[j].handle);
                    }
                }
                return ;
            }
            i = i + 1;
        }
        proof {
            let k = pre.idx_of(handle);
            assert(pre.intents[k].handle == handle);
            assert(false);
        }
    }

    /// The still-pending add intents, in submission order: what the view
    /// composer renders optimistically.
    pub fn list_pending_adds(&self) -> (v: Vec<MutationIntent>)
        ensures
            v@ == pending_adds_of(self@.intents),
    {
        let mut v: Vec<MutationIntent> = Vec::new();
        let mut i: usize = 0;
        proof {
            assert(v@ =~= pending_adds_of(self@.intents.subrange(0, 0)));
        }
        while i < self.intents.len()
            invariant
                i <= self@.intents.len(),
                v@ == pending_adds_of(self@.intents.subrange(0, i as int)),
            decreases self@.intents.len() - i,
        {
            let pending_add = match (&self.intents[i].status, &self.intents[i].kind) {
                (IntentStatus::Pending, IntentKind::Add { .. }) => true,
                _ => false,
            };
            if pending_add {
                v.push(self.intents[i].duplicate());
            }
            proof {
                let pre = self@.intents.subrange(0, i as int);
                let cur = self@.intents.subrange(0, i + 1 as int);
                assert(cur.drop_last() =~= pre);
                assert(cur.last() == self@.intents[i as int]);
            }
            i = i + 1;
        }
        proof {
            assert(self@.intents.subrange(0, self@.intents.len() as int) =~= self@.intents);
        }
        v
    }

    /// Garbage-collects settled intents that a completed load, made at the
    /// given version pair, could already reflect. Pending intents and the
    /// version counters are untouched.
    pub fn prune(&mut self, loaded_add: u64, loaded_delete: u64)
        requires
            old(self)@.wf(),
        ensures
            final(self)@.intents == retained_of(old(self)@.intents, loaded_add, loaded_delete),
            final(self)@.add_version == old(self)@.add_version,
            final(self)@.delete_version == old(self)@.delete_version,
            final(self)@.next_handle == old(self)@.next_handle,
            final(self)@.wf(),
    {
        let ghost pre = self@;
        let mut kept: Vec<MutationIntent> = Vec::new();
        let mut i: usize = 0;
        proof {
            assert(kept@ =~= retained_of(pre.intents.subrange(0, 0), loaded_add, loaded_delete));
        }
        while i < self.intents.len()
            invariant
                self@ == pre,
                i <= pre.intents.len(),
                kept@ == retained_of(pre.intents.subrange(0, i as int), loaded_add, loaded_delete),
            decreases pre.intents.len() - i,
        {
            let keep = match &self.intents[i].status {
                IntentStatus::Pending => true,
                _ => match &self.intents[i].kind {
                    IntentKind::Add { .. } => loaded_add <= self.intents[i].submitted_at_version,
                    IntentKind::Delete { .. } => loaded_delete
                        <= self.intents[i].submitted_at_version,
                },
            };
            if keep {
                kept.push(self.intents[i].duplicate());
            }
            proof {
                let before = pre.intents.subrange(0, i as int);
                let cur = pre.intents.subrange(0, i + 1 as int);
                assert(cur.drop_last() =~= before);
                assert(cur.last() == pre.intents[i as int]);
                assert(retained(pre.intents[i as int], loaded_add, loaded_delete) == keep);
            }
            i = i + 1;
        }
        proof {
            assert(pre.intents.subrange(0, pre.intents.len() as int) =~= pre.intents);
        }
        self.intents = kept;
        proof {
            lemma_retained_of(pre.intents, loaded_add, loaded_delete);
            assert forall|j: int| 0 <= j < self@.intents.len() implies self@.intents[j].handle
                < self@.next_handle by {
                let x = retained_of(pre.intents, loaded_add, loaded_delete)[j];
                let k = choose|k: int| 0 <= k < pre.intents.len() && pre.intents[k] == x;
                assert(pre.intents[k].handle < pre.next_handle);
            }
        }
    }
}

/// Decides blankness on a `String` submission.
fn title_is_blank_str(title: &String) -> (r: bool)
    ensures
        r == blank_title(title@),
{
    crate::tasks::title_is_blank(title.as_str())
}

} // verus!
