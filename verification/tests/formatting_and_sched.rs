use staffwatch::clock::clamp_ts;
use staffwatch::clock::clock_now_secs;
use staffwatch::duration::format_duration;
use staffwatch::models::default_status;
use staffwatch::models::SyncStatus;
use staffwatch::models::MAX_TS_MS;
use staffwatch::sched::CaptureSchedule;
use staffwatch::sched::LoopGuard;

#[test]
fn format_duration_renders_exact_values() {
    assert_eq!(format_duration(0), "00:00:00");
    assert_eq!(format_duration(59), "00:00:59");
    assert_eq!(format_duration(60), "00:01:00");
    assert_eq!(format_duration(3_599), "00:59:59");
    assert_eq!(format_duration(3_661), "01:01:01");
    assert_eq!(format_duration(45_296), "12:34:56");
    assert_eq!(format_duration(86_399), "23:59:59");
}

#[test]
fn format_duration_grows_the_hour_field() {
    assert_eq!(format_duration(360_000), "100:00:00");
    assert_eq!(format_duration(360_000 + 754), "100:12:34");
}

#[test]
fn default_status_is_pending() {
    assert!(matches!(default_status(), SyncStatus::Pending));
}

#[test]
fn clamp_ts_clamps_into_the_stored_range() {
    assert_eq!(clamp_ts(-5), 0);
    assert_eq!(clamp_ts(0), 0);
    assert_eq!(clamp_ts(123), 123);
    assert_eq!(clamp_ts(MAX_TS_MS), MAX_TS_MS);
    assert_eq!(clamp_ts(i64::MAX), MAX_TS_MS);
}

#[test]
fn loop_guard_is_one_shot() {
    let mut g = LoopGuard::new();
    assert!(g.try_start());
    assert!(!g.try_start());
    g.clear();
    assert!(g.try_start());
}

#[test]
fn tick_captures_only_while_monitoring() {
    let mut sched = CaptureSchedule::new_at(100, 20);
    // At 110 the capture time (120) has not passed.
    let a = sched.tick_at(110, true, 30);
    assert!(!a.capture);
    assert!(!a.upload);
    // At 120 a capture is due; the next one moves 30 s ahead.
    let b = sched.tick_at(120, true, 30);
    assert!(b.capture);
    assert_eq!(sched.next_capture_time, 150);
    // Monitoring off: the due capture time is pushed forward without
    // capturing, so a resume does not capture at once.
    let c = sched.tick_at(160, false, 30);
    assert!(!c.capture);
    assert_eq!(sched.next_capture_time, 190);
}

#[test]
fn tick_uploads_on_its_own_interval_regardless_of_monitoring() {
    let mut sched = CaptureSchedule::new_at(100, 20);
    assert_eq!(sched.next_upload_time, 220);
    let a = sched.tick_at(220, false, 30);
    assert!(a.upload);
    assert_eq!(sched.next_upload_time, 340);
}

#[test]
fn tick_samples_a_bounded_random_capture_delay() {
    let before = clock_now_secs();
    let mut sched = CaptureSchedule { next_capture_time: 0, next_upload_time: u64::MAX };
    let a = sched.tick(true);
    let after = clock_now_secs();
    assert!(a.capture);
    // The rescheduled capture lies between now + 30 and now + 60.
    assert!(sched.next_capture_time >= before + 30);
    assert!(sched.next_capture_time < after + 60);
}

#[test]
fn fresh_schedule_starts_close_to_now() {
    let before = clock_now_secs();
    let sched = CaptureSchedule::new();
    let after = clock_now_secs();
    assert!(sched.next_capture_time >= before + 3);
    assert!(sched.next_capture_time < after + 10);
    assert!(sched.next_upload_time >= before + 120);
    assert!(sched.next_upload_time <= after + 120);
}

#[test]
fn tray_controls_follow_session_state() {
    let c = staffwatch::tray::tray_controls(true, true, false);
    assert!(c.start_enabled);
    assert!(!c.stop_enabled);
    let c = staffwatch::tray::tray_controls(true, true, true);
    assert!(!c.start_enabled);
    assert!(c.stop_enabled);
    let c = staffwatch::tray::tray_controls(false, false, false);
    assert!(!c.start_enabled);
    assert!(!c.stop_enabled);
    let c = staffwatch::tray::tray_controls(true, false, false);
    assert!(!c.start_enabled);
}

#[test]
fn tray_time_text_matches_login_state() {
    assert_eq!(staffwatch::tray::tray_time_text(false, false, 99), "--:--:--");
    assert_eq!(staffwatch::tray::tray_time_text(true, false, 99), "00:00:00");
    assert_eq!(staffwatch::tray::tray_time_text(true, true, 3_661), "01:01:01");
}
