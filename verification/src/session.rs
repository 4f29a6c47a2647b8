//! One type tying dispatcher, list resource and composer together, driven
//! by a host on a single logical thread. The host performs the store calls
//! (`create`, `delete`, `list`) and hands their outcomes back; every
//! decision — validation, lifecycle tracking, version bumps, reload
//! coalescing, garbage collection and row merging — is made here.

use vstd::prelude::*;
use crate::composer::{render, spec_render, RenderRow};
use crate::dispatcher::{
    pending_adds_of, retained_of, spec_settle, spec_submit_add, spec_submit_delete, Dispatcher,
    DispatcherView, MutationIntent,
};
use crate::resource::{
    result_view, spec_complete, spec_observe, ListResource, LoadState, ResourceView,
};
use crate::tasks::{StoreError, Task, ValidationError};

verus! {

/// The reactive task-list session: dispatcher state, cached list state, and
/// the merge that renders them.
#[derive(Debug)]
pub struct TodoSession {
    pub(crate) dispatcher: Dispatcher,
    pub(crate) resource: ListResource,
}

impl TodoSession {
    /// The dispatcher's mathematical state.
    pub closed spec fn disp(self) -> DispatcherView {
        self.dispatcher@
    }

    /// The list resource's mathematical state.
    pub closed spec fn res(self) -> ResourceView {
        self.resource@
    }

    /// Validity of both components.
    pub open spec fn wf(self) -> bool {
        self.disp().wf() && self.res().wf()
    }

    /// A fresh session: no intents, counters at zero, nothing loaded, no
    /// load outstanding.
    pub fn new() -> (s: TodoSession)
        ensures
            s.wf(),
            s.disp().intents == Seq::<MutationIntent>::empty(),
            s.disp().add_version == 0,
            s.disp().delete_version == 0,
            s.disp().next_handle == 0,
            s.res().snapshot is None,
            s.res().error is None,
            s.res().loaded_pair is None,
            s.res().in_flight is None,
            s.res().queued is None,
    {
        TodoSession { dispatcher: Dispatcher::new(), resource: ListResource::new() }
    }

    /// Registers an add intent for a non-blank title, or rejects a blank
    /// one synchronously without touching any state. On success the host
    /// must call the store's `create(title)` and hand the outcome to
    /// `settle` with the returned handle. No counter moves here.
    pub fn submit_add(&mut self, title: String) -> (r: Result<u64, ValidationError>)
        requires
            old(self).wf(),
            old(self).disp().next_handle < u64::MAX,
        ensures
            final(self).wf(),
            (final(self).disp(), r) == spec_submit_add(old(self).disp(), title),
            final(self).res() == old(self).res(),
    {
        self.dispatcher.submit_add(title)
    }

    /// Registers a delete intent for the task with this id. The host must
    /// call the store's `delete(id)` and hand the outcome to `settle` with
    /// the returned handle. No counter moves here, and no row disappears
    /// before the next reload: deletion is not optimistic.
    pub fn submit_delete(&mut self, id: u64) -> (handle: u64)
        requires
            old(self).wf(),
            old(self).disp().next_handle < u64::MAX,
        ensures
            final(self).wf(),
            (final(self).disp(), handle) == spec_submit_delete(old(self).disp(), id),
            final(self).res() == old(self).res(),
    {
        self.dispatcher.submit_delete(id)
    }

    /// Whether another intent can still be submitted, as `submit_add` and
    /// `submit_delete` require: handles are drawn from a counter that is
    /// never reused.
    pub fn can_submit(&self) -> (r: bool)
        ensures
            r == (self.disp().next_handle < u64::MAX),
    {
        self.dispatcher.handles_left()
    }

    /// Whether a pending intent with this handle is tracked, as `settle`
    /// requires.
    pub fn has_pending(&self, handle: u64) -> (r: bool)
        requires
            self.wf(),
        ensures
            r == (self.disp().has_intent(handle) && self.disp().intent_of(handle).status
                is Pending),
    {
        self.dispatcher.has_pending(handle)
    }

    /// The dispatcher's version counters, `(add_version, delete_version)`.
    pub fn versions(&self) -> (v: (u64, u64))
        ensures
            v == (self.disp().add_version, self.disp().delete_version),
    {
        (self.dispatcher.add_version(), self.dispatcher.delete_version())
    }

    /// Records the settlement of one intent's store call, advancing the
    /// version counter of its kind by exactly one, then lets the list
    /// resource observe the new pair. Returns whether the host must start a
    /// `list()` call now; its result goes to `load_finished`.
    pub fn settle(&mut self, handle: u64, outcome: Result<(), StoreError>) -> (start_load: bool)
        requires
            old(self).wf(),
            old(self).disp().has_intent(handle),
            old(self).disp().intent_of(handle).status is Pending,
            old(self).disp().intent_of(handle).kind is Add ==> old(self).disp().add_version
                < u64::MAX,
            old(self).disp().intent_of(handle).kind is Delete ==> old(self).disp().delete_version
                < u64::MAX,
        ensures
            final(self).wf(),
            final(self).disp() == spec_settle(old(self).disp(), handle, outcome),
            ({
                let d2 = spec_settle(old(self).disp(), handle, outcome);
                (final(self).res(), start_load) == spec_observe(
                    old(self).res(),
                    (d2.add_version, d2.delete_version),
                )
            }),
    {
        self.dispatcher.settle(handle, outcome);
        self.resource.observe(self.dispatcher.add_version(), self.dispatcher.delete_version())
    }

    /// Lets the list resource observe the current version pair without any
    /// settlement, as on first mount. Returns whether the host must start a
    /// `list()` call now.
    pub fn poll(&mut self) -> (start_load: bool)
        requires
            old(self).wf(),
        ensures
            final(self).wf(),
            final(self).disp() == old(self).disp(),
            (final(self).res(), start_load) == spec_observe(
                old(self).res(),
                (old(self).disp().add_version, old(self).disp().delete_version),
            ),
    {
        self.resource.observe(self.dispatcher.add_version(), self.dispatcher.delete_version())
    }

    /// Whether a `list()` call is outstanding, as `load_finished` requires.
    pub fn is_loading(&self) -> (r: bool)
        ensures
            r == (self.res().in_flight is Some),
    {
        self.resource.is_loading()
    }

    /// Settles the outstanding `list()` call: the resource records the
    /// result, and intents that the completed load could already reflect
    /// are garbage-collected. Returns whether the one coalesced reload must
    /// start now.
    pub fn load_finished(&mut self, result: Result<Vec<Task>, StoreError>) -> (load_again: bool)
        requires
            old(self).wf(),
            old(self).res().in_flight is Some,
        ensures
            final(self).wf(),
            (final(self).res(), load_again) == spec_complete(old(self).res(), result_view(result)),
            ({
                let pair = old(self).res().in_flight->0;
                &&& final(self).disp().intents == retained_of(
                    old(self).disp().intents,
                    pair.0,
                    pair.1,
                )
                &&& final(self).disp().add_version == old(self).disp().add_version
                &&& final(self).disp().delete_version == old(self).disp().delete_version
                &&& final(self).disp().next_handle == old(self).disp().next_handle
            }),
    {
        let pair = match self.resource.in_flight_pair() {
            Some(p) => p,
            None => {
                proof {
                    assert(false);
                }
                (0, 0)
            },
        };
        let again = self.resource.complete(result);
        self.dispatcher.prune(pair.0, pair.1);
        again
    }

    /// The still-pending add intents, in submission order.
    pub fn list_pending_adds(&self) -> (v: Vec<MutationIntent>)
        ensures
            v@ == pending_adds_of(self.disp().intents),
    {
        self.dispatcher.list_pending_adds()
    }

    /// How many intents are currently tracked.
    pub fn intent_count(&self) -> (n: usize)
        ensures
            n == self.disp().intents.len(),
    {
        self.dispatcher.intent_count()
    }

    /// What the list resource currently reports.
    pub fn current(&self) -> (s: LoadState)
        requires
            self.wf(),
        ensures
            self.res().loaded_pair is None ==> s is Loading,
            (self.res().error matches Some(e) ==> s == LoadState::Errored(e)),
            (self.res().loaded_pair is Some && self.res().error is None ==> (s matches
                LoadState::Loaded(ts) && Some(ts@) == self.res().snapshot)),
    {
        self.resource.current()
    }

    /// Renders the merged, ordered row sequence for the current state.
    pub fn render(&self) -> (rows: Vec<RenderRow>)
        ensures
            rows@ == spec_render(self.res(), pending_adds_of(self.disp().intents)),
    {
        render(&self.resource, &self.dispatcher)
    }
}

} // verus!
