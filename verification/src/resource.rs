//! The list resource: a cached view of "all tasks" that reloads whenever the
//! observed version pair changes from the pair used for the last completed
//! load. Concurrent invalidations coalesce into at most one further reload,
//! so at most one request is ever outstanding. Errors are exposed for
//! display and are not sticky: the next invalidation loads again.

use vstd::prelude::*;
use crate::tasks::{StoreError, Task};

verus! {

/// What the resource currently reports to the renderer.
#[derive(Debug, PartialEq, Eq)]
pub enum LoadState {
    /// No load has completed yet.
    Loading,
    /// The most recent completed load succeeded and returned these tasks.
    Loaded(Vec<Task>),
    /// The most recent completed load failed for this reason.
    Errored(StoreError),
}

/// Mathematical state of a list resource.
pub struct ResourceView {
    /// Tasks of the last successful load, in store-returned order.
    pub snapshot: Option<Seq<Task>>,
    /// Set exactly when the most recent completed load failed.
    pub error: Option<StoreError>,
    /// Version pair observed when the last completed load began.
    pub loaded_pair: Option<(u64, u64)>,
    /// Version pair observed when the outstanding load began, if one is
    /// outstanding.
    pub in_flight: Option<(u64, u64)>,
    /// The one coalesced reload scheduled behind the outstanding load.
    pub queued: Option<(u64, u64)>,
}

impl ResourceView {
    /// Validity: a reload can only be queued behind an outstanding load and
    /// for a different pair than that load observes, and a completed load is
    /// recorded with its outcome.
    pub open spec fn wf(self) -> bool {
        &&& (self.queued is Some ==> self.in_flight is Some && self.queued != self.in_flight)
        &&& (self.loaded_pair is None ==> self.snapshot is None && self.error is None)
        &&& (self.loaded_pair is Some ==> self.snapshot is Some || self.error is Some)
    }
}

/// Outcome of `observe` at the specification level: the state after the
/// resource sees a version pair, and whether a new `list()` call must start
/// now. A pair equal to the last completed load's is fresh and does nothing;
/// a changed pair starts a load, or queues (at most) one behind the load
/// already outstanding.
pub open spec fn spec_observe(v: ResourceView, pair: (u64, u64)) -> (ResourceView, bool) {
    match v.in_flight {
        Some(p) => {
            if pair == p {
                (v, false)
            } else {
                (ResourceView { queued: Some(pair), ..v }, false)
            }
        },
        None => {
            if v.loaded_pair == Some(pair) {
                (v, false)
            } else {
                (ResourceView { in_flight: Some(pair), ..v }, true)
            }
        },
    }
}

/// Outcome of `complete` at the specification level: the state after the
/// outstanding load settles with `result`, and whether the coalesced reload
/// must start now. Success replaces the snapshot and clears any error;
/// failure records the error and keeps the stale snapshot.
pub open spec fn spec_complete(v: ResourceView, result: Result<Seq<Task>, StoreError>) -> (
    ResourceView,
    bool,
) {
    let loaded = ResourceView {
        snapshot: match result {
            Ok(ts) => Some(ts),
            Err(_) => v.snapshot,
        },
        error: match result {
            Ok(_) => None,
            Err(e) => Some(e),
        },
        loaded_pair: v.in_flight,
        in_flight: v.queued,
        queued: None,
    };
    (loaded, v.queued is Some)
}

/// Spec-level image of a `list()` outcome.
pub open spec fn result_view(result: Result<Vec<Task>, StoreError>) -> Result<Seq<Task>, StoreError> {
    match result {
        Ok(ts) => Ok(ts@),
        Err(e) => Err(e),
    }
}

/// A derived, cached view of all tasks, owner of the authoritative
/// confirmed list. Reads the dispatcher's version counters and nothing
/// else; never mutates shared state.
#[derive(Debug)]
pub struct ListResource {
    pub(crate) snapshot: Option<Vec<Task>>,
    pub(crate) error: Option<StoreError>,
    pub(crate) loaded_pair: Option<(u64, u64)>,
    pub(crate) in_flight: Option<(u64, u64)>,
    pub(crate) queued: Option<(u64, u64)>,
}

impl View for ListResource {
    type V = ResourceView;

    closed spec fn view(&self) -> ResourceView {
        ResourceView {
            snapshot: match self.snapshot {
                Some(ts) => Some(ts@),
                None => None,
            },
            error: self.error,
            loaded_pair: self.loaded_pair,
            in_flight: self.in_flight,
            queued: self.queued,
        }
    }
}

impl ListResource {
    /// A resource that has loaded nothing and has no load outstanding.
    pub fn new() -> (r: ListResource)
        ensures
            r@.snapshot is None,
            r@.error is None,
            r@.loaded_pair is None,
            r@.in_flight is None,
            r@.queued is None,
            r@.wf(),
    {
        ListResource { snapshot: None, error: None, loaded_pair: None, in_flight: None, queued: None }
    }

    /// Whether a `list()` call is outstanding.
    pub fn is_loading(&self) -> (r: bool)
        ensures
            r == (self@.in_flight is Some),
    {
        self.in_flight.is_some()
    }

    /// The version pair the last completed load observed, if any load has
    /// completed.
    pub fn loaded_versions(&self) -> (r: Option<(u64, u64)>)
        ensures
            r == self@.loaded_pair,
    {
        self.loaded_pair
    }

    /// The version pair the outstanding load observes, if one is
    /// outstanding.
    pub fn in_flight_pair(&self) -> (r: Option<(u64, u64)>)
        ensures
            r == self@.in_flight,
    {
        self.in_flight
    }

    /// The tasks of the last successful load, if one succeeded.
    pub fn snapshot_tasks(&self) -> (r: Option<&Vec<Task>>)
        ensures
            (r is Some) == (self@.snapshot is Some),
            (r matches Some(ts) ==> Some(ts@) == self@.snapshot),
    {
        self.snapshot.as_ref()
    }

    /// The reason the most recent completed load failed, if it failed.
    pub fn last_error(&self) -> (r: Option<&StoreError>)
        ensures
            (r is Some) == (self@.error is Some),
            (r matches Some(e) ==> Some(*e) == self@.error),
    {
        self.error.as_ref()
    }

    /// Reports the most recent completed load: `Loading` before any load
    /// completes, then `Loaded` with the tasks or `Errored` with the reason.
    pub fn current(&self) -> (s: LoadState)
        requires
            self@.wf(),
        ensures
            self@.loaded_pair is None ==> s is Loading,
            (self@.error matches Some(e) ==> s == LoadState::Errored(e)),
            (self@.loaded_pair is Some && self@.error is None ==> (s matches LoadState::Loaded(ts)
                && Some(ts@) == self@.snapshot)),
    {
        if self.loaded_pair.is_none() {
            LoadState::Loading
        } else {
            match &self.error {
                Some(e) => LoadState::Errored(e.duplicate()),
                None => match &self.snapshot {
                    Some(ts) => LoadState::Loaded(crate::tasks::duplicate_tasks(ts)),
                    None => {
                        proof {
                            assert(false);
                        }
                        LoadState::Loading
                    },
                },
            }
        }
    }

    /// Sees a version pair. Starts a load exactly when no load is
    /// outstanding and the pair differs from the last completed load's;
    /// otherwise records at most one coalesced reload behind the
    /// outstanding load. This is the sole invalidation signal.
    pub fn observe(&mut self, add_version: u64, delete_version: u64) -> (start: bool)
        requires
            old(self)@.wf(),
        ensures
            (final(self)@, start) == spec_observe(old(self)@, (add_version, delete_version)),
            final(self)@.wf(),
            start == (old(self)@.in_flight is None && old(self)@.loaded_pair != Some(
                (add_version, delete_version),
            )),
            final(self)@.snapshot == old(self)@.snapshot,
            final(self)@.error == old(self)@.error,
            final(self)@.loaded_pair == old(self)@.loaded_pair,
    {
        let pair = (add_version, delete_version);
        match self.in_flight {
            Some(p) => {
                if !(p.0 == add_version && p.1 == delete_version) {
                    self.queued = Some(pair);
                }
                false
            },
            None => {
                let fresh = match self.loaded_pair {
                    Some(lp) => lp.0 == add_version && lp.1 == delete_version,
                    None => false,
                };
                if fresh {
                    false
                } else {
                    self.in_flight = Some(pair);
                    true
                }
            },
        }
    }

    /// Settles the outstanding load with the store's result. Success
    /// replaces the snapshot and clears any previous error; failure records
    /// the reason and keeps the stale snapshot. Returns whether the one
    /// coalesced reload must start now (never more than one).
    pub fn complete(&mut self, result: Result<Vec<Task>, StoreError>) -> (again: bool)
        requires
            old(self)@.wf(),
            old(self)@.in_flight is Some,
        ensures
            (final(self)@, again) == spec_complete(old(self)@, result_view(result)),
            final(self)@.wf(),
            final(self)@.loaded_pair == old(self)@.in_flight,
            (result matches Ok(ts) ==> final(self)@.snapshot == Some(ts@) && final(self)@.error
                is None),
            (result matches Err(e) ==> final(self)@.error == Some(e) && final(self)@.snapshot
                == old(self)@.snapshot),
            again == (old(self)@.queued is Some),
    {
        match result {
            Ok(ts) => {
                self.snapshot = Some(ts);
                self.error = None;
            },
            Err(e) => {
                self.error = Some(e);
            },
        }
        self.loaded_pair = self.in_flight;
        let again = self.queued.is_some();
        self.in_flight = self.queued;
        self.queued = None;
        again
    }
}

} // verus!
