use todo_sync::composer::{render, RenderRow};
use todo_sync::dispatcher::{Dispatcher, IntentKind, IntentStatus};
use todo_sync::resource::{ListResource, LoadState};
use todo_sync::tasks::{title_is_blank, StoreError, Task, ValidationError};

fn task(id: u64, title: &str) -> Task {
    Task { id, title: String::from(title), completed: false }
}

#[test]
fn title_blankness_matches_trimming() {
    assert!(title_is_blank(""));
    assert!(title_is_blank(" \t\r\n"));
    assert!(!title_is_blank("a"));
    assert!(!title_is_blank("  a  "));
    assert!(!title_is_blank("日本語"));
}

#[test]
fn dispatcher_tracks_one_intent_per_submission() {
    let mut d = Dispatcher::new();
    let a = d.submit_add(String::from("one")).unwrap();
    let b = d.submit_delete(3);
    assert_ne!(a, b);
    assert_eq!(d.intent_count(), 2);
    assert!(d.has_pending(a));
    assert!(d.has_pending(b));
    // only the add renders optimistically
    let pending = d.list_pending_adds();
    assert_eq!(pending.len(), 1);
    assert_eq!(pending[0].handle, a);
    assert!(matches!(pending[0].status, IntentStatus::Pending));
    assert!(matches!(&pending[0].kind, IntentKind::Add { title } if title == "one"));
}

#[test]
fn dispatcher_rejects_blank_and_counts_settlements() {
    let mut d = Dispatcher::new();
    assert_eq!(d.submit_add(String::from("  ")), Err(ValidationError));
    assert_eq!(d.add_version(), 0);
    let a = d.submit_add(String::from("one")).unwrap();
    d.settle(a, Err(StoreError { reason: String::from("boom") }));
    assert_eq!(d.add_version(), 1);
    assert_eq!(d.delete_version(), 0);
    assert!(!d.has_pending(a));
    let b = d.submit_delete(3);
    d.settle(b, Ok(()));
    assert_eq!(d.add_version(), 1);
    assert_eq!(d.delete_version(), 1);
}

#[test]
fn prune_keeps_pending_and_unreflected_intents() {
    let mut d = Dispatcher::new();
    let a = d.submit_add(String::from("done")).unwrap();
    let b = d.submit_add(String::from("still pending")).unwrap();
    d.settle(a, Ok(()));
    // a load that observed (1, 0) could already reflect the settled add
    d.prune(1, 0);
    assert_eq!(d.intent_count(), 1);
    assert!(d.has_pending(b));
    // a settled intent that no completed load could reflect is kept
    let c = d.submit_delete(4);
    d.settle(c, Ok(()));
    d.prune(1, 0);
    assert_eq!(d.intent_count(), 2);
    d.prune(1, 1);
    assert_eq!(d.intent_count(), 1);
}

#[test]
fn resource_coalesces_and_is_not_sticky_on_error() {
    let mut r = ListResource::new();
    assert!(matches!(r.current(), LoadState::Loading));
    assert!(r.observe(0, 0));
    // a second observation of the same pair changes nothing
    assert!(!r.observe(0, 0));
    // changed pairs behind the in-flight load coalesce into one
    assert!(!r.observe(1, 0));
    assert!(!r.observe(2, 0));
    assert!(r.complete(Err(StoreError { reason: String::from("down") })));
    assert!(matches!(r.current(), LoadState::Errored(e) if e.reason == "down"));
    // the coalesced reload is already outstanding and can complete
    assert!(r.is_loading());
    assert!(!r.complete(Ok(vec![task(1, "one")])));
    match r.current() {
        LoadState::Loaded(ts) => assert_eq!(ts, vec![task(1, "one")]),
        other => panic!("expected Loaded, got {:?}", other),
    }
    // the loaded pair is now fresh
    assert!(!r.observe(2, 0));
    // and a newer pair loads again: errors were never sticky
    assert!(r.observe(2, 1));
}

#[test]
fn resource_exposes_loaded_pair_and_snapshot() {
    let mut r = ListResource::new();
    assert_eq!(r.loaded_versions(), None);
    assert!(r.observe(3, 4));
    assert!(!r.complete(Ok(vec![task(1, "one")])));
    assert_eq!(r.loaded_versions(), Some((3, 4)));
    assert_eq!(r.snapshot_tasks().map(|ts| ts.len()), Some(1));
    assert!(r.last_error().is_none());
}

#[test]
fn render_merges_confirmed_then_pending() {
    let mut d = Dispatcher::new();
    let mut r = ListResource::new();
    assert!(r.observe(0, 0));
    r.complete(Ok(vec![task(1, "one"), task(2, "two")]));
    d.submit_add(String::from("three")).unwrap();
    assert_eq!(
        render(&r, &d),
        vec![
            RenderRow::Confirmed(task(1, "one")),
            RenderRow::Confirmed(task(2, "two")),
            RenderRow::PendingAdd(String::from("three")),
        ]
    );
}

#[test]
fn render_error_row_only_without_snapshot_and_pending() {
    let mut d = Dispatcher::new();
    let mut r = ListResource::new();
    assert!(r.observe(0, 0));
    r.complete(Err(StoreError { reason: String::from("no db") }));
    assert_eq!(render(&r, &d), vec![RenderRow::Failed(String::from("no db"))]);
    // with a pending add, the optimistic row renders instead
    d.submit_add(String::from("retry me")).unwrap();
    assert_eq!(render(&r, &d), vec![RenderRow::PendingAdd(String::from("retry me"))]);
}

#[test]
fn render_empty_snapshot_after_error_shows_no_tasks() {
    let d = Dispatcher::new();
    let mut r = ListResource::new();
    assert!(r.observe(0, 0));
    r.complete(Ok(vec![]));
    assert!(r.observe(1, 0));
    r.complete(Err(StoreError { reason: String::from("flaky") }));
    // the stale (empty) snapshot exists, so no error row: the empty state
    assert_eq!(render(&r, &d), vec![RenderRow::NoTasks]);
}

#[test]
fn duplicate_copies_exactly() {
    let t = task(9, "copy me");
    let u = t.duplicate();
    assert_eq!(t, u);
    let e = StoreError { reason: String::from("why") };
    assert_eq!(e.duplicate(), e);
}
