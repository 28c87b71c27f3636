use staffwatch::models::Project;
use staffwatch::models::SyncStatus;
use staffwatch::models::User;
use staffwatch::store::Store;
use staffwatch::store::StoreError;

fn user_with_project(project: &str) -> User {
    User {
        uuid: "u-1".to_string(),
        name: "Ada".to_string(),
        email: "ada@example.com".to_string(),
        token: "tok-initial".to_string(),
        projects: vec![Project { id: project.to_string(), name: "Proj".to_string() }],
        current_project_id: Some(project.to_string()),
    }
}

#[test]
fn new_store_is_empty() {
    let store = Store::new();
    assert!(store.user.is_none());
    assert_eq!(store.sessions.len(), 0);
    assert_eq!(store.screenshots.len(), 0);
    assert_eq!(store.activity_logs.len(), 0);
}

#[test]
fn save_user_replaces_wholesale() {
    let mut store = Store::new();
    store.save_user(user_with_project("p1"));
    store.save_user(user_with_project("p2"));
    let u = store.get_user().unwrap();
    assert_eq!(u.current_project_id.as_deref(), Some("p2"));
    assert_eq!(u.projects.len(), 1);
    assert_eq!(u.projects[0].id, "p2");
}

#[test]
fn clear_user_erases_user_and_sessions_but_not_outbox() {
    let mut store = Store::new();
    store.save_user(user_with_project("p1"));
    store
        .start_session(&"p1".to_string(), &"uuid-a".to_string(), 1_000)
        .unwrap();
    store
        .save_pending_screenshot(
            &"uuid-a".to_string(),
            &"p1".to_string(),
            &"imgdata".to_string(),
            2_000,
        )
        .unwrap();
    store.clear_user();
    assert!(store.get_user().is_none());
    assert_eq!(store.sessions.len(), 0);
    assert_eq!(store.get_pending_screenshots().len(), 1);
}

#[test]
fn set_current_project_updates_logged_in_user() {
    let mut store = Store::new();
    store.set_current_project(&"p9".to_string());
    assert!(store.get_user().is_none());
    store.save_user(user_with_project("p1"));
    store.set_current_project(&"p9".to_string());
    assert_eq!(
        store.get_user().unwrap().current_project_id.as_deref(),
        Some("p9")
    );
}

#[test]
fn start_session_creates_active_pending_row() {
    let mut store = Store::new();
    let id = store
        .start_session(&"p1".to_string(), &"uuid-a".to_string(), 5_000)
        .unwrap()
        .unwrap();
    let s = store.get_active_session(&"p1".to_string()).unwrap();
    assert_eq!(s.id, Some(id));
    assert_eq!(s.uuid, "uuid-a");
    assert_eq!(s.project_id, "p1");
    assert_eq!(s.start_time, 5_000);
    assert_eq!(s.end_time, None);
    assert!(s.is_active);
    assert_eq!(s.idle_seconds, 0);
    assert_eq!(s.deducted_seconds, 0);
    assert!(matches!(s.status, SyncStatus::Pending));
    assert_eq!(s.keyboard_events, 0);
    assert_eq!(s.mouse_events, 0);
}

#[test]
fn start_session_is_noop_while_one_is_active() {
    let mut store = Store::new();
    store
        .start_session(&"p1".to_string(), &"uuid-a".to_string(), 5_000)
        .unwrap();
    let r = store
        .start_session(&"p1".to_string(), &"uuid-b".to_string(), 6_000)
        .unwrap();
    assert!(r.is_none());
    assert_eq!(store.sessions.len(), 1);
}

#[test]
fn start_session_rejects_duplicate_uuid() {
    let mut store = Store::new();
    store
        .start_session(&"p1".to_string(), &"uuid-a".to_string(), 5_000)
        .unwrap();
    store.stop_session(&"p1".to_string(), 6_000);
    let r = store.start_session(&"p1".to_string(), &"uuid-a".to_string(), 7_000);
    assert_eq!(r, Err(StoreError::Storage));
}

#[test]
fn stop_session_closes_the_active_row() {
    let mut store = Store::new();
    store
        .start_session(&"p1".to_string(), &"uuid-a".to_string(), 5_000)
        .unwrap();
    store.stop_session(&"p1".to_string(), 9_000);
    assert!(store.get_active_session(&"p1".to_string()).is_none());
    let s = store.get_session_by_uuid(&"uuid-a".to_string()).unwrap();
    assert!(!s.is_active);
    assert_eq!(s.end_time, Some(9_000));
}

#[test]
fn stop_session_without_active_is_noop() {
    let mut store = Store::new();
    store.stop_session(&"p1".to_string(), 9_000);
    assert_eq!(store.sessions.len(), 0);
}

#[test]
fn activity_logs_roundtrip_and_delete() {
    let mut store = Store::new();
    store.save_activity_log(
        &"uuid-a".to_string(),
        &"p1".to_string(),
        &"Editor".to_string(),
        &"main.rs".to_string(),
        &None,
        1_000,
    );
    store.save_activity_log(
        &"uuid-b".to_string(),
        &"p1".to_string(),
        &"Browser".to_string(),
        &"docs".to_string(),
        &Some("https://example.com".to_string()),
        2_000,
    );
    store.save_activity_log(
        &"uuid-a".to_string(),
        &"p1".to_string(),
        &"Terminal".to_string(),
        &"shell".to_string(),
        &None,
        3_000,
    );
    let logs_a = store.get_activity_logs_for_session(&"uuid-a".to_string());
    assert_eq!(logs_a.len(), 2);
    assert_eq!(logs_a[0].app_name, "Editor");
    assert_eq!(logs_a[1].app_name, "Terminal");
    store.delete_activity_logs_for_session(&"uuid-a".to_string());
    assert_eq!(store.get_activity_logs_for_session(&"uuid-a".to_string()).len(), 0);
    let logs_b = store.get_activity_logs_for_session(&"uuid-b".to_string());
    assert_eq!(logs_b.len(), 1);
    assert_eq!(logs_b[0].url.as_deref(), Some("https://example.com"));
}

#[test]
fn screenshots_roundtrip_and_single_delete() {
    let mut store = Store::new();
    let id1 = store
        .save_pending_screenshot(
            &"uuid-a".to_string(),
            &"p1".to_string(),
            &"img1".to_string(),
            1_000,
        )
        .unwrap();
    let id2 = store
        .save_pending_screenshot(
            &"uuid-a".to_string(),
            &"p1".to_string(),
            &"img2".to_string(),
            2_000,
        )
        .unwrap();
    assert_ne!(id1, id2);
    store.delete_pending_screenshot(id1);
    let left = store.get_pending_screenshots();
    assert_eq!(left.len(), 1);
    assert_eq!(left[0].id, id2);
    assert_eq!(left[0].image_data, "img2");
}

#[test]
fn pending_sessions_excludes_done_rows() {
    let mut store = Store::new();
    store
        .start_session(&"p1".to_string(), &"uuid-a".to_string(), 1_000)
        .unwrap();
    // An imported remote session lands as an already-done row and must
    // not enter the upload batch.
    let remote = staffwatch::models::SyncSession {
        uuid: "uuid-r".to_string(),
        project_id: "p2".to_string(),
        user_id: "u-1".to_string(),
        organization_id: "o-1".to_string(),
        start_time: 0,
        end_time: Some(1_000),
        is_active: false,
        idle_seconds: 0,
        deducted_seconds: 0,
    };
    let outcome = store.merge_remote_session(&remote, 2_000);
    assert!(matches!(outcome, staffwatch::sync::MergeOutcome::Inserted));
    let pending = store.get_pending_sessions();
    assert_eq!(pending.len(), 1);
    assert_eq!(pending[0].uuid, "uuid-a");
}

#[test]
fn today_total_sums_worked_seconds_exactly() {
    let mut store = Store::new();
    // Closed session: 10 s long -> 10.
    store
        .start_session(&"p1".to_string(), &"uuid-a".to_string(), 0)
        .unwrap();
    store.stop_session(&"p1".to_string(), 10_000);
    // Open session: started at 5 s, now 12 s -> 7.
    store
        .start_session(&"p1".to_string(), &"uuid-b".to_string(), 5_000)
        .unwrap();
    // Other project: ignored.
    store
        .start_session(&"p2".to_string(), &"uuid-c".to_string(), 0)
        .unwrap();
    let total = store.get_today_total_time(&"p1".to_string(), 12_000, 0);
    assert_eq!(total, 10 + 7);
}

#[test]
fn today_total_floors_at_zero_and_respects_day_start() {
    let mut store = Store::new();
    // Starts before the day: excluded.
    store
        .start_session(&"p1".to_string(), &"uuid-a".to_string(), 0)
        .unwrap();
    store.stop_session(&"p1".to_string(), 3_600_000);
    // Within the day, 5 s long.
    store
        .start_session(&"p1".to_string(), &"uuid-b".to_string(), 7_200_000)
        .unwrap();
    store.stop_session(&"p1".to_string(), 7_205_000);
    let total = store.get_today_total_time(&"p1".to_string(), 8_000_000, 7_000_000);
    assert_eq!(total, 5);
}
