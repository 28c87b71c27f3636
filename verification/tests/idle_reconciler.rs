use staffwatch::idle::IdleState;
use staffwatch::models::Project;
use staffwatch::models::User;
use staffwatch::store::Store;

fn user_with_project(project: &str) -> User {
    User {
        uuid: "u-1".to_string(),
        name: "Ada".to_string(),
        email: "ada@example.com".to_string(),
        token: "tok-initial".to_string(),
        projects: vec![Project { id: project.to_string(), name: "Proj".to_string() }],
        current_project_id: Some(project.to_string()),
    }
}

#[test]
fn idle_state_starts_clean() {
    let s = IdleState::new_at(1_000);
    assert_eq!(s.last_activity_timestamp, 1_000);
    assert!(!s.is_monitoring);
    assert_eq!(s.keyboard_count, 0);
    assert_eq!(s.mouse_count, 0);
    let fresh = IdleState::new();
    assert!(!fresh.is_monitoring);
    assert_eq!(fresh.keyboard_count, 0);
    assert_eq!(fresh.mouse_count, 0);
}

#[test]
fn record_activity_is_ignored_while_monitoring_is_off() {
    let mut s = IdleState::new_at(1_000);
    let gap = s.record_activity(2_000, true);
    assert!(gap.is_none());
    assert_eq!(s.last_activity_timestamp, 1_000);
    assert_eq!(s.keyboard_count, 0);
}

#[test]
fn record_activity_counts_and_reports_long_gaps() {
    let mut s = IdleState::new_at(1_000);
    s.set_monitoring(true);
    // A short gap: counted, not reported.
    assert!(s.record_activity(1_100, true).is_none());
    assert_eq!(s.keyboard_count, 1);
    assert_eq!(s.mouse_count, 0);
    // A mouse event after exactly the threshold (300 s): reported.
    let gap = s.record_activity(1_400, false);
    assert_eq!(gap, Some(300));
    assert_eq!(s.mouse_count, 1);
    assert_eq!(s.last_activity_timestamp, 1_400);
    // A clock step backwards counts as no gap.
    assert!(s.record_activity(900, false).is_none());
}

#[test]
fn idle_gap_stops_the_tracked_session() {
    let mut store = Store::new();
    store.save_user(user_with_project("p1"));
    store
        .start_session(&"p1".to_string(), &"uuid-a".to_string(), 0)
        .unwrap();
    let pid = store.on_idle_gap(400_000).unwrap();
    assert_eq!(pid, "p1");
    assert!(store.get_active_session(&"p1".to_string()).is_none());
    let s = store.get_session_by_uuid(&"uuid-a".to_string()).unwrap();
    assert_eq!(s.end_time, Some(400_000));
}

#[test]
fn idle_gap_without_login_is_noop() {
    let mut store = Store::new();
    assert!(store.on_idle_gap(400_000).is_none());
    assert_eq!(store.sessions.len(), 0);
}

#[test]
fn discarded_idle_gap_deducts_and_restarts() {
    // An active session starting at 0; a 400 s gap is detected and
    // discarded: the session gains 400 idle and 400 deducted seconds,
    // and tracking resumes with a fresh active session.
    let mut store = Store::new();
    store.save_user(user_with_project("p1"));
    store
        .start_session(&"p1".to_string(), &"uuid-a".to_string(), 0)
        .unwrap();
    store.on_idle_gap(400_000).unwrap();
    let new_id = store
        .apply_idle_decision_at(&"p1".to_string(), 400, false, 400_000, &"uuid-b".to_string())
        .unwrap();
    assert!(new_id.is_some());
    let old = store.get_session_by_uuid(&"uuid-a".to_string()).unwrap();
    assert_eq!(old.idle_seconds, 400);
    assert_eq!(old.deducted_seconds, 400);
    assert!(!old.is_active);
    let fresh = store.get_active_session(&"p1".to_string()).unwrap();
    assert_eq!(fresh.uuid, "uuid-b");
    assert!(fresh.is_active);
    assert_eq!(fresh.idle_seconds, 0);
    assert_eq!(fresh.deducted_seconds, 0);
}

#[test]
fn kept_idle_gap_only_flags_idle_and_restarts() {
    // The same gap, kept: idle seconds grow by 400, deducted seconds
    // stay untouched.
    let mut store = Store::new();
    store.save_user(user_with_project("p1"));
    store
        .start_session(&"p1".to_string(), &"uuid-a".to_string(), 0)
        .unwrap();
    store.on_idle_gap(400_000).unwrap();
    let new_id = store
        .apply_idle_decision_at(&"p1".to_string(), 400, true, 400_000, &"uuid-b".to_string())
        .unwrap();
    assert!(new_id.is_some());
    let old = store.get_session_by_uuid(&"uuid-a".to_string()).unwrap();
    assert_eq!(old.idle_seconds, 400);
    assert_eq!(old.deducted_seconds, 0);
    let fresh = store.get_active_session(&"p1".to_string()).unwrap();
    assert_eq!(fresh.uuid, "uuid-b");
}

#[test]
fn idle_decision_adjusts_the_most_recently_started_session() {
    let mut store = Store::new();
    store.save_user(user_with_project("p1"));
    // Two closed sessions; the one started later gets the adjustment,
    // regardless of store order.
    store
        .start_session(&"p1".to_string(), &"uuid-late".to_string(), 50_000)
        .unwrap();
    store.stop_session(&"p1".to_string(), 60_000);
    store
        .start_session(&"p1".to_string(), &"uuid-early".to_string(), 10_000)
        .unwrap();
    store.stop_session(&"p1".to_string(), 20_000);
    store
        .apply_idle_decision_at(&"p1".to_string(), 42, false, 70_000, &"uuid-b".to_string())
        .unwrap();
    let late = store.get_session_by_uuid(&"uuid-late".to_string()).unwrap();
    let early = store.get_session_by_uuid(&"uuid-early".to_string()).unwrap();
    assert_eq!(late.idle_seconds, 42);
    assert_eq!(late.deducted_seconds, 42);
    assert_eq!(early.idle_seconds, 0);
    assert_eq!(early.deducted_seconds, 0);
}

#[test]
fn idle_decision_with_random_identifier_restarts_tracking() {
    let mut store = Store::new();
    store.save_user(user_with_project("p1"));
    store
        .start_session(&"p1".to_string(), &"uuid-a".to_string(), 0)
        .unwrap();
    store.on_idle_gap(400_000).unwrap();
    let restarted = store
        .apply_idle_decision(&"p1".to_string(), 400, false)
        .unwrap();
    assert!(restarted.is_some());
    let fresh = store.get_active_session(&"p1".to_string()).unwrap();
    assert_eq!(fresh.id, restarted);
    assert_eq!(fresh.uuid.chars().count(), 36);
}
