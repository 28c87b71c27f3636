use staffwatch::models::Project;
use staffwatch::models::User;
use staffwatch::store::Store;
use staffwatch::sync::SyncPhase;
use staffwatch::sync::UploadResponse;

fn user_with_token(token: &str) -> User {
    User {
        uuid: "u-1".to_string(),
        name: "Ada".to_string(),
        email: "ada@example.com".to_string(),
        token: token.to_string(),
        projects: vec![Project { id: "p1".to_string(), name: "Proj".to_string() }],
        current_project_id: Some("p1".to_string()),
    }
}

#[test]
fn begin_sync_without_login_aborts_silently() {
    let store = Store::new();
    assert!(store.begin_sync().is_none());
}

#[test]
fn empty_outbox_cycle_is_a_noop() {
    // Re-running a sync cycle with an empty outbox changes no state.
    let mut store = Store::new();
    store.save_user(user_with_token("tok-1"));
    let cycle = store.begin_sync().unwrap();
    assert!(matches!(cycle.phase, SyncPhase::Commit));
    assert_eq!(cycle.uploads.len(), 0);
    assert_eq!(cycle.screenshots.len(), 0);
    store.commit_sync(&cycle);
    assert_eq!(store.sessions.len(), 0);
    assert_eq!(store.screenshots.len(), 0);
    assert_eq!(store.activity_logs.len(), 0);
    assert_eq!(store.get_user().unwrap().token, "tok-1");
    assert_eq!(store.next_session_id, 1);
    assert_eq!(store.next_screenshot_id, 1);
}

#[test]
fn snapshot_carries_pending_sessions_with_their_logs() {
    let mut store = Store::new();
    store.save_user(user_with_token("tok-1"));
    store
        .start_session(&"p1".to_string(), &"uuid-a".to_string(), 0)
        .unwrap();
    store.save_activity_log(
        &"uuid-a".to_string(),
        &"p1".to_string(),
        &"Editor".to_string(),
        &"main.rs".to_string(),
        &None,
        1_000,
    );
    let cycle = store.begin_sync().unwrap();
    assert!(matches!(cycle.phase, SyncPhase::Sessions));
    assert_eq!(cycle.token, "tok-1");
    assert_eq!(cycle.uploads.len(), 1);
    assert_eq!(cycle.uploads[0].session.uuid, "uuid-a");
    assert_eq!(cycle.uploads[0].session.project_id, "p1");
    assert_eq!(cycle.uploads[0].activity_logs.len(), 1);
    assert_eq!(cycle.uploads[0].activity_logs[0].window_title, "main.rs");
}

#[test]
fn batch_upload_with_refresh_retry_marks_all_done() {
    // Three pending sessions; the server answers 401 once, then 200
    // after the token refresh: all three end done, the new token is
    // persisted, and nothing stays pending.
    let mut store = Store::new();
    store.save_user(user_with_token("tok-old"));
    store
        .start_session(&"p1".to_string(), &"uuid-a".to_string(), 0)
        .unwrap();
    store
        .start_session(&"p2".to_string(), &"uuid-b".to_string(), 0)
        .unwrap();
    store
        .start_session(&"p3".to_string(), &"uuid-c".to_string(), 0)
        .unwrap();
    store.save_activity_log(
        &"uuid-a".to_string(),
        &"p1".to_string(),
        &"Editor".to_string(),
        &"main.rs".to_string(),
        &None,
        1_000,
    );

    let mut cycle = store.begin_sync().unwrap();
    assert!(matches!(cycle.phase, SyncPhase::Sessions));
    assert_eq!(cycle.uploads.len(), 3);

    cycle.on_sessions_response(UploadResponse::Unauthorized);
    assert!(matches!(cycle.phase, SyncPhase::Refresh));

    cycle.on_refresh_response(Some("tok-new".to_string()));
    assert!(matches!(cycle.phase, SyncPhase::Sessions));
    assert_eq!(cycle.token, "tok-new");
    store.set_token(&"tok-new".to_string());

    cycle.on_sessions_response(UploadResponse::Success);
    assert!(matches!(cycle.phase, SyncPhase::Commit));

    store.commit_sync(&cycle);
    assert_eq!(store.get_pending_sessions().len(), 0);
    assert_eq!(store.get_user().unwrap().token, "tok-new");
    // The acknowledged sessions' evidence is gone with them.
    assert_eq!(store.activity_logs.len(), 0);
    assert_eq!(store.sessions.len(), 3);
}

#[test]
fn repeated_unauthorized_forces_logout() {
    let mut store = Store::new();
    store.save_user(user_with_token("tok-old"));
    store
        .start_session(&"p1".to_string(), &"uuid-a".to_string(), 0)
        .unwrap();
    let mut cycle = store.begin_sync().unwrap();
    cycle.on_sessions_response(UploadResponse::Unauthorized);
    cycle.on_refresh_response(Some("tok-new".to_string()));
    cycle.on_sessions_response(UploadResponse::Unauthorized);
    assert!(matches!(cycle.phase, SyncPhase::LoggedOut));
    // The driver wipes the local user and session state.
    store.clear_user();
    assert!(store.get_user().is_none());
    assert_eq!(store.sessions.len(), 0);
}

#[test]
fn failed_refresh_forces_logout() {
    let mut store = Store::new();
    store.save_user(user_with_token("tok-old"));
    store
        .start_session(&"p1".to_string(), &"uuid-a".to_string(), 0)
        .unwrap();
    let mut cycle = store.begin_sync().unwrap();
    cycle.on_sessions_response(UploadResponse::Unauthorized);
    cycle.on_refresh_response(None);
    assert!(matches!(cycle.phase, SyncPhase::LoggedOut));
}

#[test]
fn http_failure_leaves_sessions_pending_but_screenshots_proceed() {
    let mut store = Store::new();
    store.save_user(user_with_token("tok-1"));
    store
        .start_session(&"p1".to_string(), &"uuid-a".to_string(), 0)
        .unwrap();
    store
        .save_pending_screenshot(
            &"uuid-a".to_string(),
            &"p1".to_string(),
            &"img1".to_string(),
            1_000,
        )
        .unwrap();
    let mut cycle = store.begin_sync().unwrap();
    cycle.on_sessions_response(UploadResponse::Failure);
    assert!(matches!(cycle.phase, SyncPhase::Screenshots));
    assert!(cycle.next_screenshot().is_some());
    cycle.on_screenshot_response(true);
    assert!(matches!(cycle.phase, SyncPhase::Commit));
    store.commit_sync(&cycle);
    // The batch stays pending for the next interval...
    assert_eq!(store.get_pending_sessions().len(), 1);
    assert_eq!(store.activity_logs.len(), 0);
    // ...while the acknowledged screenshot is gone.
    assert_eq!(store.get_pending_screenshots().len(), 0);
}

#[test]
fn network_error_abandons_the_cycle() {
    let mut store = Store::new();
    store.save_user(user_with_token("tok-1"));
    store
        .start_session(&"p1".to_string(), &"uuid-a".to_string(), 0)
        .unwrap();
    let mut cycle = store.begin_sync().unwrap();
    cycle.on_sessions_response(UploadResponse::NetworkError);
    assert!(matches!(cycle.phase, SyncPhase::Aborted));
    assert_eq!(store.get_pending_sessions().len(), 1);
}

#[test]
fn partial_screenshot_failure_deletes_exactly_the_acknowledged() {
    // Five pending screenshots; two succeed, three fail: exactly the two
    // successful ones are deleted, three stay for the next cycle.
    let mut store = Store::new();
    store.save_user(user_with_token("tok-1"));
    let mut ids = Vec::new();
    for i in 0..5 {
        let img = format!("img{}", i);
        let id = store
            .save_pending_screenshot(&"uuid-a".to_string(), &"p1".to_string(), &img, 1_000 + i)
            .unwrap();
        ids.push(id);
    }
    let mut cycle = store.begin_sync().unwrap();
    assert!(matches!(cycle.phase, SyncPhase::Screenshots));
    let results = [true, false, true, false, false];
    for ok in results {
        assert!(cycle.next_screenshot().is_some());
        cycle.on_screenshot_response(ok);
    }
    assert!(matches!(cycle.phase, SyncPhase::Commit));
    store.commit_sync(&cycle);
    let left = store.get_pending_screenshots();
    assert_eq!(left.len(), 3);
    assert_eq!(left[0].id, ids[1]);
    assert_eq!(left[1].id, ids[3]);
    assert_eq!(left[2].id, ids[4]);
}

#[test]
fn open_sessions_are_synced_incrementally() {
    // An active session with status pending is part of the batch.
    let mut store = Store::new();
    store.save_user(user_with_token("tok-1"));
    store
        .start_session(&"p1".to_string(), &"uuid-a".to_string(), 0)
        .unwrap();
    let mut cycle = store.begin_sync().unwrap();
    assert_eq!(cycle.uploads.len(), 1);
    assert!(cycle.uploads[0].session.is_active);
    cycle.on_sessions_response(UploadResponse::Success);
    store.commit_sync(&cycle);
    // Done, but still active and tracked.
    assert_eq!(store.get_pending_sessions().len(), 0);
    assert!(store.get_active_session(&"p1".to_string()).is_some());
}
