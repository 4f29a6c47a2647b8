use todo_sync::composer::RenderRow;
use todo_sync::resource::LoadState;
use todo_sync::session::TodoSession;
use todo_sync::tasks::{StoreError, Task, ValidationError};

fn task(id: u64, title: &str) -> Task {
    Task { id, title: String::from(title), completed: false }
}

fn store_error(reason: &str) -> StoreError {
    StoreError { reason: String::from(reason) }
}

#[test]
fn initial_render_is_loading_placeholder() {
    let s = TodoSession::new();
    assert_eq!(s.render(), vec![RenderRow::Loading]);
    assert!(matches!(s.current(), LoadState::Loading));
}

#[test]
fn first_poll_starts_the_initial_load() {
    let mut s = TodoSession::new();
    assert!(s.poll());
    assert!(s.is_loading());
    // rendering while the first load is in flight still shows the placeholder
    assert_eq!(s.render(), vec![RenderRow::Loading]);
}

#[test]
fn empty_store_renders_single_no_tasks_row() {
    let mut s = TodoSession::new();
    assert!(s.poll());
    assert!(!s.load_finished(Ok(vec![])));
    assert_eq!(s.render(), vec![RenderRow::NoTasks]);
}

#[test]
fn optimistic_add_renders_after_confirmed_rows() {
    // Store holds [{1,"buy milk"}]; the user submits "write tests".
    let mut s = TodoSession::new();
    assert!(s.poll());
    s.load_finished(Ok(vec![task(1, "buy milk")]));
    let r = s.submit_add(String::from("write tests"));
    assert!(r.is_ok());
    assert_eq!(
        s.render(),
        vec![
            RenderRow::Confirmed(task(1, "buy milk")),
            RenderRow::PendingAdd(String::from("write tests")),
        ]
    );
    // still pending: no counter has moved
    assert_eq!(s.versions(), (0, 0));
}

#[test]
fn settled_add_is_promoted_by_the_reload() {
    let mut s = TodoSession::new();
    assert!(s.poll());
    s.load_finished(Ok(vec![task(1, "buy milk")]));
    let h = s.submit_add(String::from("write tests")).unwrap();
    // store create succeeds: addVersion 0 -> 1, which starts a reload
    assert!(s.settle(h, Ok(())));
    assert_eq!(s.versions(), (1, 0));
    // reload returns both tasks: only confirmed rows remain
    assert!(!s.load_finished(Ok(vec![task(1, "buy milk"), task(2, "write tests")])));
    assert_eq!(
        s.render(),
        vec![
            RenderRow::Confirmed(task(1, "buy milk")),
            RenderRow::Confirmed(task(2, "write tests")),
        ]
    );
    assert!(s.list_pending_adds().is_empty());
}

#[test]
fn failed_add_still_advances_add_version_once() {
    let mut s = TodoSession::new();
    assert!(s.poll());
    s.load_finished(Ok(vec![]));
    let h = s.submit_add(String::from("flaky")).unwrap();
    assert_eq!(s.versions(), (0, 0));
    assert!(s.settle(h, Err(store_error("connection reset"))));
    assert_eq!(s.versions(), (1, 0));
    // the failed intent no longer renders optimistically
    assert!(s.list_pending_adds().is_empty());
}

#[test]
fn delete_advances_delete_version_once_either_way() {
    let mut s = TodoSession::new();
    assert!(s.poll());
    s.load_finished(Ok(vec![task(1, "buy milk")]));
    let h = s.submit_delete(1);
    assert_eq!(s.versions(), (0, 0));
    assert!(s.settle(h, Ok(())));
    assert_eq!(s.versions(), (0, 1));
    s.load_finished(Ok(vec![]));

    let h2 = s.submit_delete(42);
    assert!(s.settle(h2, Err(store_error("constraint"))));
    assert_eq!(s.versions(), (0, 2));
}

#[test]
fn blank_titles_are_rejected_without_any_effect() {
    let mut s = TodoSession::new();
    assert!(s.poll());
    s.load_finished(Ok(vec![]));
    for blank in ["", " ", "   ", "\t", " \t\r\n "] {
        assert_eq!(s.submit_add(String::from(blank)), Err(ValidationError));
    }
    assert_eq!(s.versions(), (0, 0));
    assert!(s.list_pending_adds().is_empty());
    assert_eq!(s.intent_count(), 0);
    assert_eq!(s.render(), vec![RenderRow::NoTasks]);
}

#[test]
fn almost_blank_title_is_accepted() {
    let mut s = TodoSession::new();
    assert!(s.submit_add(String::from(" a ")).is_ok());
    assert_eq!(s.list_pending_adds().len(), 1);
}

#[test]
fn delete_is_not_optimistic() {
    // delete(1) while the list still shows task 1: the row stays until a
    // reload returns a list without it.
    let mut s = TodoSession::new();
    assert!(s.poll());
    s.load_finished(Ok(vec![task(1, "buy milk")]));
    let h = s.submit_delete(1);
    assert_eq!(s.render(), vec![RenderRow::Confirmed(task(1, "buy milk"))]);
    assert!(s.settle(h, Ok(())));
    // the reload has not completed: the row is still there
    assert_eq!(s.render(), vec![RenderRow::Confirmed(task(1, "buy milk"))]);
    assert!(!s.load_finished(Ok(vec![])));
    assert_eq!(s.render(), vec![RenderRow::NoTasks]);
}

#[test]
fn initial_load_failure_renders_single_error_row() {
    let mut s = TodoSession::new();
    assert!(s.poll());
    assert!(!s.load_finished(Err(store_error("db down"))));
    assert_eq!(s.render(), vec![RenderRow::Failed(String::from("db down"))]);
    assert!(matches!(s.current(), LoadState::Errored(_)));
}

#[test]
fn unrelated_mutation_recovers_from_an_errored_load() {
    let mut s = TodoSession::new();
    assert!(s.poll());
    s.load_finished(Err(store_error("db down")));
    // an unrelated delete settles, bumps the pair, and triggers a new load
    let h = s.submit_delete(9);
    assert!(s.settle(h, Ok(())));
    assert!(!s.load_finished(Ok(vec![task(1, "buy milk")])));
    assert_eq!(s.render(), vec![RenderRow::Confirmed(task(1, "buy milk"))]);
}

#[test]
fn stale_snapshot_survives_a_failed_reload() {
    let mut s = TodoSession::new();
    assert!(s.poll());
    s.load_finished(Ok(vec![task(1, "buy milk")]));
    let h = s.submit_delete(1);
    assert!(s.settle(h, Ok(())));
    // the reload fails: the stale confirmed row keeps rendering
    assert!(!s.load_finished(Err(store_error("timeout"))));
    assert_eq!(s.render(), vec![RenderRow::Confirmed(task(1, "buy milk"))]);
    assert!(matches!(s.current(), LoadState::Errored(e) if e.reason == "timeout"));
}

#[test]
fn concurrent_invalidations_coalesce_into_one_reload() {
    let mut s = TodoSession::new();
    assert!(s.poll());
    // two adds settle while the initial load is still in flight
    let h1 = s.submit_add(String::from("one")).unwrap();
    let h2 = s.submit_add(String::from("two")).unwrap();
    assert!(!s.settle(h1, Ok(())));
    assert!(!s.settle(h2, Ok(())));
    // the in-flight load completes; exactly one coalesced reload starts
    assert!(s.load_finished(Ok(vec![])));
    assert!(s.is_loading());
    assert!(!s.load_finished(Ok(vec![task(1, "one"), task(2, "two")])));
    assert!(!s.is_loading());
    assert_eq!(
        s.render(),
        vec![
            RenderRow::Confirmed(task(1, "one")),
            RenderRow::Confirmed(task(2, "two")),
        ]
    );
}

#[test]
fn fresh_version_pair_does_not_reload() {
    let mut s = TodoSession::new();
    assert!(s.poll());
    s.load_finished(Ok(vec![]));
    // nothing settled since the load: the pair is fresh
    assert!(!s.poll());
    assert!(!s.is_loading());
}

#[test]
fn pending_row_disappears_on_settlement_and_stays_gone() {
    let mut s = TodoSession::new();
    assert!(s.poll());
    s.load_finished(Ok(vec![]));
    let h = s.submit_add(String::from("write tests")).unwrap();
    assert_eq!(s.render(), vec![RenderRow::PendingAdd(String::from("write tests"))]);
    assert!(s.settle(h, Ok(())));
    // settled: the optimistic row is gone even before the reload completes
    assert_eq!(s.render(), vec![RenderRow::NoTasks]);
    assert!(!s.load_finished(Ok(vec![task(1, "write tests")])));
    let once = s.render();
    assert_eq!(once, vec![RenderRow::Confirmed(task(1, "write tests"))]);
    // repeated reloads without new mutations are stable
    assert!(!s.poll());
    assert_eq!(s.render(), once);
}

#[test]
fn settled_intents_are_collected_after_the_reload() {
    let mut s = TodoSession::new();
    assert!(s.poll());
    s.load_finished(Ok(vec![]));
    let h = s.submit_add(String::from("write tests")).unwrap();
    assert_eq!(s.intent_count(), 1);
    assert!(s.settle(h, Ok(())));
    // settled but the reload that could reflect it has not completed
    assert_eq!(s.intent_count(), 1);
    s.load_finished(Ok(vec![task(1, "write tests")]));
    assert_eq!(s.intent_count(), 0);
}

#[test]
fn pending_adds_keep_submission_order() {
    let mut s = TodoSession::new();
    let a = s.submit_add(String::from("first")).unwrap();
    let b = s.submit_add(String::from("second")).unwrap();
    assert_ne!(a, b);
    let pending = s.list_pending_adds();
    assert_eq!(pending.len(), 2);
    assert_eq!(pending[0].handle, a);
    assert_eq!(pending[1].handle, b);
    assert_eq!(
        s.render(),
        vec![RenderRow::Loading],
    );
    // once a load completes, both render in submission order
    assert!(s.poll());
    s.load_finished(Ok(vec![]));
    assert_eq!(
        s.render(),
        vec![
            RenderRow::PendingAdd(String::from("first")),
            RenderRow::PendingAdd(String::from("second")),
        ]
    );
}

#[test]
fn current_reports_loaded_tasks() {
    let mut s = TodoSession::new();
    assert!(s.poll());
    s.load_finished(Ok(vec![task(7, "sweep")]));
    match s.current() {
        LoadState::Loaded(ts) => assert_eq!(ts, vec![task(7, "sweep")]),
        other => panic!("expected Loaded, got {:?}", other),
    }
}
