//! The view composer: merges the confirmed list from the list resource with
//! the dispatcher's still-pending add intents into one render-ready ordered
//! row sequence. Additions render optimistically at the bottom; deletions do
//! not render optimistically — a confirmed row only disappears once a reload
//! returns a list without it. This asymmetry is deliberate.

use vstd::prelude::*;
use vstd::pervasive::arbitrary;
use crate::dispatcher::{
    is_pending_add, lemma_pending_adds_of, pending_adds_of, Dispatcher, IntentKind, MutationIntent,
};
use crate::resource::{ListResource, ResourceView};
use crate::tasks::Task;

verus! {

/// One row of the rendered list.
#[derive(Debug, PartialEq, Eq)]
pub enum RenderRow {
    /// A task backed by the last successfully loaded list, with its delete
    /// affordance.
    Confirmed(Task),
    /// A not-yet-confirmed addition, shown by title.
    PendingAdd(String),
    /// The single placeholder shown before any load has completed.
    Loading,
    /// The single row shown when there are no tasks at all.
    NoTasks,
    /// The single row carrying the reason of a failed load, shown when
    /// nothing else can be.
    Failed(String),
}

/// The title a pending add intent renders with.
pub open spec fn intent_title(m: MutationIntent) -> String {
    match m.kind {
        IntentKind::Add { title } => title,
        IntentKind::Delete { .. } => arbitrary(),
    }
}

/// The confirmed rows for a task sequence, in store-returned order.
pub open spec fn confirmed_rows(ts: Seq<Task>) -> Seq<RenderRow> {
    Seq::new(ts.len(), |i: int| RenderRow::Confirmed(ts[i]))
}

/// The optimistic rows for a pending-add sequence, in submission order.
pub open spec fn pending_rows(pending: Seq<MutationIntent>) -> Seq<RenderRow> {
    Seq::new(pending.len(), |i: int| RenderRow::PendingAdd(intent_title(pending[i])))
}

/// What the composer renders from a resource state and the pending add
/// intents: a single loading placeholder before any load completes;
/// otherwise the last loaded tasks (empty if a load failed before any
/// succeeded) followed by one row per pending add; a single error or
/// "no tasks" row when both parts are empty.
pub open spec fn spec_render(v: ResourceView, pending: Seq<MutationIntent>) -> Seq<RenderRow> {
    if v.loaded_pair is None {
        seq![RenderRow::Loading]
    } else {
        let confirmed = match v.snapshot {
            Some(ts) => ts,
            None => Seq::empty(),
        };
        if confirmed.len() == 0 && pending.len() == 0 {
            match v.error {
                Some(e) => if v.snapshot is None {
                    seq![RenderRow::Failed(e.reason)]
                } else {
                    seq![RenderRow::NoTasks]
                },
                None => seq![RenderRow::NoTasks],
            }
        } else {
            confirmed_rows(confirmed) + pending_rows(pending)
        }
    }
}

/// Renders the merged, ordered row sequence for the current state.
#[verifier::loop_isolation(false)]
pub fn render(resource: &ListResource, dispatcher: &Dispatcher) -> (rows: Vec<RenderRow>)
    ensures
        rows@ == spec_render(resource@, pending_adds_of(dispatcher@.intents)),
{
    let ghost pending_view = pending_adds_of(dispatcher@.intents);
    let pending = dispatcher.list_pending_adds();
    let mut rows: Vec<RenderRow> = Vec::new();
    if resource.loaded_versions().is_none() {
        rows.push(RenderRow::Loading);
        proof {
            assert(rows@ =~= seq![RenderRow::Loading]);
        }
        return rows;
    }
    let confirmed_len = match resource.snapshot_tasks() {
        Some(ts) => ts.len(),
        None => 0,
    };
    if confirmed_len == 0 && pending.len() == 0 {
        let errored_without_snapshot = match (resource.last_error(), resource.snapshot_tasks()) {
            (Some(_), None) => true,
            _ => false,
        };
        if errored_without_snapshot {
            let reason = match resource.last_error() {
                Some(e) => e.reason.clone(),
                None => {
                    proof {
                        assert(false);
                    }
                    String::new()
                },
            };
            rows.push(RenderRow::Failed(reason));
            proof {
                assert(rows@ =~= spec_render(resource@, pending_view));
            }
        } else {
            rows.push(RenderRow::NoTasks);
            proof {
                let confirmed = match resource@.snapshot {
                    Some(ts) => ts,
                    None => Seq::<Task>::empty(),
                };
                assert(confirmed.len() == 0);
                assert(rows@ =~= spec_render(resource@, pending_view));
            }
        }
        return rows;
    }
    match resource.snapshot_tasks() {
        Some(ts) => {
            let ghost confirmed = resource@.snapshot->0;
            let mut i: usize = 0;
            while i < ts.len()
                invariant
                    i <= ts.len(),
                    ts@ == confirmed,
                    rows@ == confirmed_rows(confirmed).subrange(0, i as int),
                decreases ts.len() - i,
            {
                rows.push(RenderRow::Confirmed(ts[i].duplicate()));
                proof {
                    assert(rows@ =~= confirmed_rows(confirmed).subrange(0, i + 1 as int));
                }
                i = i + 1;
            }
            proof {
                assert(rows@ =~= confirmed_rows(confirmed));
            }
        },
        None => {
            proof {
                assert(confirmed_rows(Seq::<Task>::empty()) =~= rows@);
            }
        },
    }
    let ghost confirmed = match resource@.snapshot {
        Some(ts) => ts,
        None => Seq::<Task>::empty(),
    };
    assert(rows@ == confirmed_rows(confirmed));
    let mut j: usize = 0;
    while j < pending.len()
        invariant
            j <= pending.len(),
            pending@ == pending_view,
            rows@ == confirmed_rows(confirmed) + pending_rows(pending_view).subrange(0, j as int),
        decreases pending.len() - j,
    {
        let title = match &pending[j].kind {
            IntentKind::Add { title } => title.clone(),
            IntentKind::Delete { .. } => {
                proof {
                    lemma_pending_adds_of(dispatcher@.intents);
                    assert(is_pending_add(pending_view[j as int]));
                    assert(false);
                }
                String::new()
            },
        };
        rows.push(RenderRow::PendingAdd(title));
        proof {
            lemma_pending_adds_of(dispatcher@.intents);
            assert(is_pending_add(pending_view[j as int]));
            assert(rows@ =~= confirmed_rows(confirmed) + pending_rows(pending_view).subrange(
                0,
                j + 1 as int,
            ));
        }
        j = j + 1;
    }
    proof {
        assert(pending_rows(pending_view).subrange(0, pending_view.len() as int) =~= pending_rows(
            pending_view,
        ));
        assert(rows@ =~= spec_render(resource@, pending_view));
    }
    rows
}

/// Law: the renderer never shows a confirmed row for a task absent from the
/// most recent successful load — every confirmed row carries a task of the
/// resource's snapshot.
pub proof fn law_confirmed_rows_from_snapshot(v: ResourceView, pending: Seq<MutationIntent>)
    ensures
        forall|i: int|
            0 <= i < spec_render(v, pending).len() ==> ((#[trigger] spec_render(v, pending)[i])
                matches RenderRow::Confirmed(t) ==> (v.snapshot matches Some(snap)
                && snap.contains(t))),
{
    assert forall|i: int| 0 <= i < spec_render(v, pending).len() implies ((#[trigger] spec_render(
        v,
        pending,
    )[i]) matches RenderRow::Confirmed(t) ==> (v.snapshot matches Some(snap) && snap.contains(t))) by {
        let rows = spec_render(v, pending);
        match rows[i] {
            RenderRow::Confirmed(t) => {
                if v.loaded_pair is None {
                    assert(rows[i] == RenderRow::Loading);
                    assert(false);
                } else {
                    let confirmed = match v.snapshot {
                        Some(ts) => ts,
                        None => Seq::<Task>::empty(),
                    };
                    if confirmed.len() == 0 && pending.len() == 0 {
                        assert(false);
                    } else {
                        assert(rows == confirmed_rows(confirmed) + pending_rows(pending));
                        if i < confirmed.len() {
                            assert(rows[i] == RenderRow::Confirmed(confirmed[i]));
                            assert(confirmed.contains(confirmed[i]));
                        } else {
                            assert(rows[i] == pending_rows(pending)[i - confirmed.len()]);
                            assert(false);
                        }
                    }
                }
            },
            _ => {},
        }
    }
}

/// Law: a settled intent never contributes an optimistic row — every row
/// drawn from `pending_adds_of` stems from an intent that is still pending,
/// so the optimistic row of a submission disappears as soon as its store
/// call settles (and, after the reload that settlement triggers, the task
/// appears among the confirmed rows instead).
pub proof fn law_settled_intent_renders_no_pending_row(s: Seq<MutationIntent>, m: MutationIntent)
    requires
        !(m.status is Pending),
    ensures
        !pending_adds_of(s).contains(m),
{
    lemma_pending_adds_of(s);
    if pending_adds_of(s).contains(m) {
        let i = choose|i: int| 0 <= i < pending_adds_of(s).len() && pending_adds_of(s)[i] == m;
        assert(is_pending_add(pending_adds_of(s)[i]));
    }
}

/// Law: rendering is stable across reloads that return what the snapshot
/// already holds — completing a load with the same task list, with the same
/// pending intents, renders the same rows (idempotent convergence).
pub proof fn law_reload_stable(v: ResourceView, ts: Seq<Task>, pending: Seq<MutationIntent>)
    requires
        v.wf(),
        v.in_flight is Some,
        v.snapshot == Some(ts),
        v.error is None,
    ensures
        crate::resource::spec_complete(v, Ok(ts)).0.snapshot == v.snapshot,
        spec_render(crate::resource::spec_complete(v, Ok(ts)).0, pending) == spec_render(v, pending),
{
    let v2 = crate::resource::spec_complete(v, Ok(ts)).0;
    assert(v2.snapshot == v.snapshot);
    assert(v.loaded_pair is Some);
    assert(v2.loaded_pair is Some);
}

} // verus!
