use staffwatch::models::SyncSession;
use staffwatch::models::SyncStatus;
use staffwatch::store::Store;
use staffwatch::sync::MergeOutcome;

fn remote(uuid: &str, start: i64, end: Option<i64>) -> SyncSession {
    SyncSession {
        uuid: uuid.to_string(),
        project_id: "p1".to_string(),
        user_id: "u-1".to_string(),
        organization_id: "o-1".to_string(),
        start_time: start,
        end_time: end,
        is_active: false,
        idle_seconds: 10,
        deducted_seconds: 5,
    }
}

#[test]
fn unknown_remote_session_is_inserted_as_done() {
    let mut store = Store::new();
    let r = remote("uuid-r", 1_000, Some(5_000));
    assert!(matches!(
        store.merge_remote_session(&r, 9_000),
        MergeOutcome::Inserted
    ));
    let s = store.get_session_by_uuid(&"uuid-r".to_string()).unwrap();
    assert!(matches!(s.status, SyncStatus::Done));
    assert_eq!(s.start_time, 1_000);
    assert_eq!(s.end_time, Some(5_000));
    assert_eq!(s.idle_seconds, 10);
    assert_eq!(s.deducted_seconds, 5);
    assert_eq!(s.keyboard_events, 0);
    assert_eq!(s.mouse_events, 0);
}

#[test]
fn equal_duration_does_not_regress_local_bookkeeping() {
    // A session created locally, uploaded, and fetched back with the
    // same span must not be overwritten: the local idle and deducted
    // bookkeeping stays.
    let mut store = Store::new();
    store
        .start_session(&"p1".to_string(), &"uuid-a".to_string(), 0)
        .unwrap();
    store.stop_session(&"p1".to_string(), 10_000);
    let r = remote("uuid-a", 0, Some(10_000));
    assert!(matches!(
        store.merge_remote_session(&r, 20_000),
        MergeOutcome::Unchanged
    ));
    let s = store.get_session_by_uuid(&"uuid-a".to_string()).unwrap();
    assert_eq!(s.idle_seconds, 0);
    assert_eq!(s.deducted_seconds, 0);
    assert!(matches!(s.status, SyncStatus::Pending));
}

#[test]
fn shorter_remote_duration_never_overwrites() {
    let mut store = Store::new();
    store
        .start_session(&"p1".to_string(), &"uuid-a".to_string(), 0)
        .unwrap();
    store.stop_session(&"p1".to_string(), 10_000);
    let r = remote("uuid-a", 0, Some(4_000));
    assert!(matches!(
        store.merge_remote_session(&r, 20_000),
        MergeOutcome::Unchanged
    ));
    let s = store.get_session_by_uuid(&"uuid-a".to_string()).unwrap();
    assert_eq!(s.end_time, Some(10_000));
}

#[test]
fn strictly_longer_remote_duration_overwrites() {
    let mut store = Store::new();
    store
        .start_session(&"p1".to_string(), &"uuid-a".to_string(), 0)
        .unwrap();
    store.stop_session(&"p1".to_string(), 10_000);
    let r = remote("uuid-a", 0, Some(25_000));
    assert!(matches!(
        store.merge_remote_session(&r, 30_000),
        MergeOutcome::Updated
    ));
    let s = store.get_session_by_uuid(&"uuid-a".to_string()).unwrap();
    assert_eq!(s.end_time, Some(25_000));
    assert_eq!(s.idle_seconds, 10);
    assert_eq!(s.deducted_seconds, 5);
    assert!(matches!(s.status, SyncStatus::Done));
    assert!(!s.is_active);
}

#[test]
fn missing_remote_end_counts_up_to_now() {
    // Remote session without an end: its estimated duration runs to
    // "now", here 30 s, strictly more than the local 10 s.
    let mut store = Store::new();
    store
        .start_session(&"p1".to_string(), &"uuid-a".to_string(), 0)
        .unwrap();
    store.stop_session(&"p1".to_string(), 10_000);
    let r = remote("uuid-a", 0, None);
    assert!(matches!(
        store.merge_remote_session(&r, 30_000),
        MergeOutcome::Updated
    ));
}

#[test]
fn malformed_remote_record_is_rejected() {
    let mut store = Store::new();
    let mut r = remote("uuid-r", 1_000, Some(5_000));
    r.deducted_seconds = 99;
    r.idle_seconds = 1;
    assert!(matches!(
        store.merge_remote_session(&r, 9_000),
        MergeOutcome::Rejected
    ));
    assert_eq!(store.sessions.len(), 0);
}

#[test]
fn active_remote_conflicting_with_local_active_is_rejected() {
    // A local session is active for the project; an unknown remote
    // record claiming to be active for the same project would break the
    // single-active invariant and is skipped.
    let mut store = Store::new();
    store
        .start_session(&"p1".to_string(), &"uuid-a".to_string(), 0)
        .unwrap();
    let mut r = remote("uuid-r", 1_000, None);
    r.is_active = true;
    assert!(matches!(
        store.merge_remote_session(&r, 9_000),
        MergeOutcome::Rejected
    ));
    assert_eq!(store.sessions.len(), 1);
}

#[test]
fn reconcile_remote_reports_each_record() {
    let mut store = Store::new();
    store
        .start_session(&"p1".to_string(), &"uuid-a".to_string(), 0)
        .unwrap();
    store.stop_session(&"p1".to_string(), 10_000);
    let records = vec![
        remote("uuid-r", 1_000, Some(5_000)),
        remote("uuid-a", 0, Some(4_000)),
    ];
    let outcomes = store.reconcile_remote(&records, 20_000);
    assert_eq!(outcomes.len(), 2);
    assert!(matches!(outcomes[0], MergeOutcome::Inserted));
    assert!(matches!(outcomes[1], MergeOutcome::Unchanged));
}

#[test]
fn reconcile_folds_records_in_order() {
    // Two records for one identifier in one response: the first inserts
    // the row, the second — strictly longer — overwrites what the first
    // just created.
    let mut store = Store::new();
    let first = remote("uuid-r", 0, Some(5_000));
    let second = remote("uuid-r", 0, Some(9_000));
    let outcomes = store.reconcile_remote(&vec![first, second], 20_000);
    assert_eq!(outcomes.len(), 2);
    assert!(matches!(outcomes[0], MergeOutcome::Inserted));
    assert!(matches!(outcomes[1], MergeOutcome::Updated));
    let s = store.get_session_by_uuid(&"uuid-r".to_string()).unwrap();
    assert_eq!(s.end_time, Some(9_000));
    assert_eq!(store.sessions.len(), 1);
}

#[test]
fn reconcile_with_empty_response_changes_nothing() {
    let mut store = Store::new();
    store
        .start_session(&"p1".to_string(), &"uuid-a".to_string(), 0)
        .unwrap();
    let outcomes = store.reconcile_remote(&Vec::new(), 20_000);
    assert!(outcomes.is_empty());
    assert_eq!(store.sessions.len(), 1);
    assert!(store.get_active_session(&"p1".to_string()).is_some());
}
