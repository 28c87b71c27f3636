//! The background scheduler's decisions: one-shot guards so each loop
//! runs at most once, and the capture/upload schedule the screenshot
//! monitor polls against.

use vstd::prelude::*;

use crate::models::UPLOAD_INTERVAL_SECS;

verus! {

/// `a + b`, saturating at `u64::MAX`.
pub open spec fn sat_add_u64(a: int, b: int) -> int {
    if a + b > u64::MAX {
        u64::MAX as int
    } else {
        a + b
    }
}

/// A one-shot guard: a loop takes it before starting, so a second start
/// while the loop is running is a no-op; the loop clears it on exit.
pub struct LoopGuard {
    pub running: bool,
}

impl LoopGuard {
    /// A cleared guard.
    pub fn new() -> (r: LoopGuard)
        ensures
            !r.running,
    {
        LoopGuard { running: false }
    }

    /// Takes the guard: returns whether the caller may start the loop,
    /// which is exactly when it was not running yet.
    pub fn try_start(&mut self) -> (r: bool)
        ensures
            r == !old(self).running,
            final(self).running,
    {
        let was = self.running;
        self.running = true;
        !was
    }

    /// Clears the guard, as a loop does when it observes monitoring off
    /// and exits.
    pub fn clear(&mut self)
        ensures
            !final(self).running,
    {
        self.running = false;
    }
}

/// What one poll tick of the screenshot monitor should do.
#[derive(Clone, Copy, PartialEq, Eq, Structural, Debug)]
pub struct TickActions {
    /// Capture a screenshot now.
    pub capture: bool,
    /// Drain the screenshot outbox now.
    pub upload: bool,
}

/// The screenshot monitor's schedule: when to capture next and when to
/// drain the outbox next, in seconds since the epoch.
pub struct CaptureSchedule {
    pub next_capture_time: u64,
    pub next_upload_time: u64,
}

/// A schedule that was started at `now` with an initial capture delay
/// of `d` seconds.
pub open spec fn schedule_started(now: u64, d: u64, r: CaptureSchedule) -> bool {
    &&& r.next_capture_time as int == sat_add_u64(now as int, d as int)
    &&& r.next_upload_time as int == sat_add_u64(now as int, UPLOAD_INTERVAL_SECS as int)
}

/// How one tick at `now` with a fresh capture delay `delay` relates the
/// old schedule to the new one and to the actions returned: a capture is
/// due when monitoring and the capture time has passed; a passed capture
/// time is always pushed `delay` ahead, so that a resume does not capture
/// at once; the upload runs on its own interval, monitoring or not.
pub open spec fn tick_rel(
    pre: CaptureSchedule,
    post: CaptureSchedule,
    now: u64,
    monitoring: bool,
    delay: u64,
    r: TickActions,
) -> bool {
    &&& r.capture == (monitoring && now >= pre.next_capture_time)
    &&& post.next_capture_time == (if now >= pre.next_capture_time {
        sat_add_u64(now as int, delay as int) as u64
    } else {
        pre.next_capture_time
    })
    &&& r.upload == (now >= pre.next_upload_time)
    &&& post.next_upload_time == (if now >= pre.next_upload_time {
        sat_add_u64(now as int, UPLOAD_INTERVAL_SECS as int) as u64
    } else {
        pre.next_upload_time
    })
}

impl CaptureSchedule {
    /// A schedule started at `now`: the first capture after
    /// `initial_delay` seconds, the first outbox drain after the upload
    /// interval.
    pub fn new_at(now: u64, initial_delay: u64) -> (r: CaptureSchedule)
        ensures
            r.next_capture_time as int == sat_add_u64(now as int, initial_delay as int),
            r.next_upload_time as int == sat_add_u64(now as int, UPLOAD_INTERVAL_SECS as int),
    {
        CaptureSchedule {
            next_capture_time: sat_add_u64_exec(now, initial_delay),
            next_upload_time: sat_add_u64_exec(now, UPLOAD_INTERVAL_SECS),
        }
    }

    /// A schedule started at the current clock reading, with a short
    /// random initial delay.
    pub fn new() -> (r: CaptureSchedule)
        ensures
            exists|now: u64, d: u64| 3 <= d < 10 && #[trigger] schedule_started(now, d, r),
    {
        let now = crate::clock::clock_now_secs();
        let d = crate::externals::random_in_range(3, 10);
        let r = CaptureSchedule::new_at(now, d);
        proof {
            assert(schedule_started(now, d, r));
        }
        r
    }

    /// One poll tick at `now`, with the capture delay `delay` to use if a
    /// new capture time is due.
    pub fn tick_at(&mut self, now: u64, monitoring: bool, delay: u64) -> (r: TickActions)
        ensures
            tick_rel(*old(self), *final(self), now, monitoring, delay, r),
    {
        let capture_due = now >= self.next_capture_time;
        if capture_due {
            self.next_capture_time = sat_add_u64_exec(now, delay);
        }
        let upload_due = now >= self.next_upload_time;
        if upload_due {
            self.next_upload_time = sat_add_u64_exec(now, UPLOAD_INTERVAL_SECS);
        }
        TickActions { capture: monitoring && capture_due, upload: upload_due }
    }

    /// One poll tick at the current clock reading, with a fresh random
    /// capture delay.
    pub fn tick(&mut self, monitoring: bool) -> (r: TickActions)
        ensures
            exists|now: u64, d: u64|
                30 <= d < 60 && #[trigger] tick_rel(
                    *old(self),
                    *final(self),
                    now,
                    monitoring,
                    d,
                    r,
                ),
    {
        let now = crate::clock::clock_now_secs();
        let d = crate::externals::random_in_range(30, 60);
        let r = self.tick_at(now, monitoring, d);
        proof {
            assert(30 <= d < 60 && tick_rel(*old(self), *self, now, monitoring, d, r));
        }
        r
    }
}

/// `a + b`, saturating at `u64::MAX`.
pub fn sat_add_u64_exec(a: u64, b: u64) -> (r: u64)
    ensures
        r as int == sat_add_u64(a as int, b as int),
{
    if a > u64::MAX - b {
        u64::MAX
    } else {
        a + b
    }
}

} // verus!
