use staffwatch::manager::HeartbeatOutcome;
use staffwatch::manager::StartOutcome;
use staffwatch::models::Project;
use staffwatch::models::SyncStatus;
use staffwatch::models::User;
use staffwatch::store::Store;

fn user_with_project(project: &str) -> User {
    User {
        uuid: "u-1".to_string(),
        name: "Ada".to_string(),
        email: "ada@example.com".to_string(),
        token: "tok-initial".to_string(),
        projects: vec![Project { id: project.to_string(), name: "Proj".to_string() }],
        current_project_id: Some(project.to_string()),
    }
}

#[test]
fn heartbeat_updates_end_and_counters_in_place() {
    let mut store = Store::new();
    let id = store
        .start_session(&"p1".to_string(), &"uuid-a".to_string(), 0)
        .unwrap()
        .unwrap();
    let r = store
        .heartbeat_at(id, 12, 34, 60_000, &"uuid-rot".to_string())
        .unwrap();
    assert!(matches!(r, HeartbeatOutcome::Updated));
    let s = store.get_session_by_uuid(&"uuid-a".to_string()).unwrap();
    assert!(s.is_active);
    assert_eq!(s.end_time, Some(60_000));
    assert_eq!(s.keyboard_events, 12);
    assert_eq!(s.mouse_events, 34);
    assert_eq!(store.sessions.len(), 1);
}

#[test]
fn heartbeat_without_active_session_is_noop() {
    let mut store = Store::new();
    let r = store
        .heartbeat_at(7, 1, 2, 1_000, &"uuid-rot".to_string())
        .unwrap();
    assert!(matches!(r, HeartbeatOutcome::NoSession));
    assert_eq!(store.sessions.len(), 0);
}

#[test]
fn heartbeat_at_exactly_the_limit_does_not_rotate() {
    let mut store = Store::new();
    let id = store
        .start_session(&"p1".to_string(), &"uuid-a".to_string(), 0)
        .unwrap()
        .unwrap();
    let r = store
        .heartbeat_at(id, 0, 0, 600_000, &"uuid-rot".to_string())
        .unwrap();
    assert!(matches!(r, HeartbeatOutcome::Updated));
    assert_eq!(store.sessions.len(), 1);
}

#[test]
fn heartbeat_past_the_limit_rotates_the_session() {
    // A heartbeat 10 minutes and 1 second after the start closes the
    // original session at that boundary and opens a replacement with
    // zeroed counters.
    let mut store = Store::new();
    let id = store
        .start_session(&"p1".to_string(), &"uuid-a".to_string(), 0)
        .unwrap()
        .unwrap();
    let r = store
        .heartbeat_at(id, 55, 66, 600_001, &"uuid-rot".to_string())
        .unwrap();
    let new_id = match r {
        HeartbeatOutcome::Rotated(n) => n,
        _ => panic!("expected a rotation"),
    };
    assert_ne!(new_id, id);
    let old = store.get_session_by_uuid(&"uuid-a".to_string()).unwrap();
    assert!(!old.is_active);
    assert_eq!(old.end_time, Some(600_001));
    assert_eq!(old.keyboard_events, 55);
    assert_eq!(old.mouse_events, 66);
    let fresh = store.get_active_session(&"p1".to_string()).unwrap();
    assert_eq!(fresh.id, Some(new_id));
    assert_eq!(fresh.uuid, "uuid-rot");
    assert_eq!(fresh.project_id, "p1");
    assert_eq!(fresh.start_time, 600_001);
    assert!(fresh.is_active);
    assert_eq!(fresh.keyboard_events, 0);
    assert_eq!(fresh.mouse_events, 0);
    assert_eq!(fresh.idle_seconds, 0);
    assert_eq!(fresh.deducted_seconds, 0);
    assert!(matches!(fresh.status, SyncStatus::Pending));
    assert_eq!(store.sessions.len(), 2);
}

#[test]
fn start_timer_without_login_is_not_tracking() {
    let mut store = Store::new();
    let r = store.start_timer().unwrap();
    assert!(matches!(r, StartOutcome::NotTracking));
    assert_eq!(store.sessions.len(), 0);
}

#[test]
fn start_timer_without_selected_project_is_not_tracking() {
    let mut store = Store::new();
    let mut user = user_with_project("p1");
    user.current_project_id = None;
    store.save_user(user);
    let r = store.start_timer().unwrap();
    assert!(matches!(r, StartOutcome::NotTracking));
    assert_eq!(store.sessions.len(), 0);
}

#[test]
fn start_timer_creates_session_with_fresh_identifier() {
    let mut store = Store::new();
    store.save_user(user_with_project("p1"));
    let r = store.start_timer().unwrap();
    assert!(matches!(r, StartOutcome::Started(_)));
    let s = store.get_active_session(&"p1".to_string()).unwrap();
    // The identifier comes from the uuid wrapper: hyphenated, 36 chars.
    assert_eq!(s.uuid.chars().count(), 36);
    assert!(matches!(s.status, SyncStatus::Pending));
}

#[test]
fn start_timer_twice_is_already_active() {
    let mut store = Store::new();
    store.save_user(user_with_project("p1"));
    store.start_timer().unwrap();
    let r = store.start_timer().unwrap();
    assert!(matches!(r, StartOutcome::AlreadyActive));
    assert_eq!(store.sessions.len(), 1);
}

#[test]
fn stop_timer_closes_the_tracked_session() {
    let mut store = Store::new();
    store.save_user(user_with_project("p1"));
    store.start_timer().unwrap();
    let closed_at = store.stop_timer().unwrap();
    assert!(store.get_active_session(&"p1".to_string()).is_none());
    let s = &store.sessions[0];
    assert_eq!(s.end_time, Some(closed_at));
}

#[test]
fn stop_timer_without_login_is_none() {
    let mut store = Store::new();
    assert!(store.stop_timer().is_none());
}

#[test]
fn today_total_runs_against_the_clock() {
    let mut store = Store::new();
    store.save_user(user_with_project("p1"));
    // No sessions: the total is zero whatever the clock says.
    assert_eq!(store.today_total(&"p1".to_string()), 0);
}
