//! The data model: users, projects, sessions and the outbox rows, with the
//! validity conditions the rest of the engine maintains.

use vstd::prelude::*;

verus! {

/// Timestamps are milliseconds since the Unix epoch. Clock readings are
/// clamped into `[0, MAX_TS_MS]` before the engine stores them, so that
/// span arithmetic stays comfortably inside `i64`.
pub const MAX_TS_MS: i64 = 4102444800000;

/// An open session whose span exceeds this many milliseconds is rotated:
/// closed and replaced by a fresh one, to bound data loss on a crash.
pub const ROTATION_LIMIT_MS: i64 = 600000;

/// A pause in user input of at least this many seconds is an idle gap.
pub const IDLE_THRESHOLD_SECS: u64 = 300;

/// Seconds between two drains of the screenshot outbox.
pub const UPLOAD_INTERVAL_SECS: u64 = 120;

/// Whether a locally stored session still awaits upload, or has been
/// acknowledged by the remote service.
#[derive(Clone, Copy, PartialEq, Eq, Structural, Debug)]
pub enum SyncStatus {
    Pending,
    Done,
}

/// The sync status a freshly created session carries.
pub fn default_status() -> (r: SyncStatus)
    ensures
        r == SyncStatus::Pending,
{
    SyncStatus::Pending
}

/// A project a user may track time against.
pub struct Project {
    pub id: String,
    pub name: String,
}

impl Clone for Project {
    fn clone(&self) -> (r: Self)
        ensures
            r == *self,
    {
        Project { id: self.id.clone(), name: self.name.clone() }
    }
}

/// The one locally cached user: identity, auth token, project list and the
/// currently selected project, if any.
pub struct User {
    pub uuid: String,
    pub name: String,
    pub email: String,
    pub token: String,
    pub projects: Vec<Project>,
    pub current_project_id: Option<String>,
}

impl User {
    /// Field-wise agreement; `Vec` values are compared by their views.
    pub open spec fn agrees(self, other: User) -> bool {
        &&& self.uuid == other.uuid
        &&& self.name == other.name
        &&& self.email == other.email
        &&& self.token == other.token
        &&& self.projects@ == other.projects@
        &&& self.current_project_id == other.current_project_id
    }
}

impl Clone for User {
    fn clone(&self) -> (r: Self)
        ensures
            r.agrees(*self),
    {
        let projects = self.projects.clone();
        proof {
            assert forall|i: int| 0 <= i < projects@.len() implies projects@[i]
                == self.projects@[i] by {
                assert(cloned::<Project>(self.projects@[i], projects@[i]));
            }
            assert(projects@ =~= self.projects@);
        }
        User {
            uuid: self.uuid.clone(),
            name: self.name.clone(),
            email: self.email.clone(),
            token: self.token.clone(),
            projects,
            current_project_id: clone_opt_string(&self.current_project_id),
        }
    }
}

/// String equality, pinned to the specified `String` comparison.
pub fn str_eq(a: &String, b: &String) -> (r: bool)
    ensures
        r == (a@ == b@),
{
    *a == *b
}

/// Clones an optional string, preserving the value exactly.
pub fn clone_opt_string(o: &Option<String>) -> (r: Option<String>)
    ensures
        r == *o,
{
    match o {
        Some(s) => Some(s.clone()),
        None => None,
    }
}

/// One continuous-or-segmented span of tracked work on one project.
pub struct Session {
    /// Local row identifier, assigned by the store on insertion.
    pub id: Option<i64>,
    /// Stable globally unique identifier, assigned at creation.
    pub uuid: String,
    pub project_id: String,
    /// Start of the span, milliseconds since the epoch.
    pub start_time: i64,
    /// End of the span; `None` while the session has never been heartbeat.
    pub end_time: Option<i64>,
    pub is_active: bool,
    /// Seconds flagged idle, whether or not they were deducted.
    pub idle_seconds: i64,
    /// Seconds excluded from worked time (discarded idle).
    pub deducted_seconds: i64,
    pub status: SyncStatus,
    pub keyboard_events: i64,
    pub mouse_events: i64,
}

impl Clone for Session {
    fn clone(&self) -> (r: Self)
        ensures
            r == *self,
    {
        Session {
            id: self.id,
            uuid: self.uuid.clone(),
            project_id: self.project_id.clone(),
            start_time: self.start_time,
            end_time: self.end_time,
            is_active: self.is_active,
            idle_seconds: self.idle_seconds,
            deducted_seconds: self.deducted_seconds,
            status: self.status,
            keyboard_events: self.keyboard_events,
            mouse_events: self.mouse_events,
        }
    }
}

impl Session {
    /// Validity of a stored session row: a row identifier is assigned,
    /// timestamps are clamped, counters are non-negative, and no more
    /// seconds are deducted than were ever flagged idle.
    pub open spec fn valid(self) -> bool {
        &&& self.id matches Some(n) && 0 <= n
        &&& 0 <= self.start_time <= MAX_TS_MS
        &&& (self.end_time matches Some(e) ==> 0 <= e <= MAX_TS_MS)
        &&& 0 <= self.deducted_seconds <= self.idle_seconds
        &&& 0 <= self.keyboard_events
        &&& 0 <= self.mouse_events
    }

    /// Elapsed milliseconds credited to the session: an open session is
    /// measured up to `now`, a closed one up to its recorded end; a
    /// negative span counts as zero.
    pub open spec fn duration_ms(self, now: int) -> int {
        if self.is_active {
            if now > self.start_time {
                now - self.start_time
            } else {
                0
            }
        } else {
            match self.end_time {
                Some(e) => if e > self.start_time {
                    e - self.start_time
                } else {
                    0
                },
                None => 0,
            }
        }
    }

    /// Whole seconds of worked time: elapsed seconds minus the deducted
    /// seconds, floored at zero.
    pub open spec fn worked_seconds(self, now: int) -> int {
        let d = self.duration_ms(now) / 1000 - self.deducted_seconds;
        if d > 0 {
            d
        } else {
            0
        }
    }

    /// Estimated duration used by pull reconciliation: end minus start,
    /// with `now` in place of a missing end, floored at zero.
    pub open spec fn est_duration_ms(self, now: int) -> int {
        est_span_ms(self.start_time as int, self.end_time, now)
    }
}

/// End minus start with `now` standing in for a missing end, floored at
/// zero. Shared by the local and the remote side of reconciliation.
pub open spec fn est_span_ms(start: int, end: Option<i64>, now: int) -> int {
    let e = match end {
        Some(e) => e as int,
        None => now,
    };
    if e > start {
        e - start
    } else {
        0
    }
}

/// One observation of the foreground application, tied to a session.
pub struct ActivityLog {
    pub session_uuid: String,
    pub project_id: String,
    /// Milliseconds since the epoch.
    pub timestamp: i64,
    pub app_name: String,
    pub window_title: String,
    pub url: Option<String>,
}

impl Clone for ActivityLog {
    fn clone(&self) -> (r: Self)
        ensures
            r == *self,
    {
        ActivityLog {
            session_uuid: self.session_uuid.clone(),
            project_id: self.project_id.clone(),
            timestamp: self.timestamp,
            app_name: self.app_name.clone(),
            window_title: self.window_title.clone(),
            url: clone_opt_string(&self.url),
        }
    }
}

impl ActivityLog {
    /// Validity of a stored activity log row.
    pub open spec fn valid(self) -> bool {
        0 <= self.timestamp <= MAX_TS_MS
    }
}

/// One captured screenshot staged in the outbox until its upload is
/// acknowledged.
pub struct PendingScreenshot {
    /// Local row identifier, assigned by the store on insertion.
    pub id: i64,
    pub session_uuid: String,
    pub project_id: String,
    /// Milliseconds since the epoch.
    pub timestamp: i64,
    /// The encoded image, as the capture collaborator delivered it.
    pub image_data: String,
}

impl Clone for PendingScreenshot {
    fn clone(&self) -> (r: Self)
        ensures
            r == *self,
    {
        PendingScreenshot {
            id: self.id,
            session_uuid: self.session_uuid.clone(),
            project_id: self.project_id.clone(),
            timestamp: self.timestamp,
            image_data: self.image_data.clone(),
        }
    }
}

impl PendingScreenshot {
    /// Validity of a stored screenshot row.
    pub open spec fn valid(self) -> bool {
        &&& 0 <= self.id
        &&& 0 <= self.timestamp <= MAX_TS_MS
    }
}

/// Wire representation of one session in the bulk upload body.
pub struct SessionPayload {
    pub uuid: String,
    pub project_id: String,
    pub start_time: i64,
    pub end_time: Option<i64>,
    pub is_active: bool,
    pub idle_seconds: i64,
    pub deducted_seconds: i64,
    pub keyboard_events: i64,
    pub mouse_events: i64,
}

impl Clone for SessionPayload {
    fn clone(&self) -> (r: Self)
        ensures
            r == *self,
    {
        SessionPayload {
            uuid: self.uuid.clone(),
            project_id: self.project_id.clone(),
            start_time: self.start_time,
            end_time: self.end_time,
            is_active: self.is_active,
            idle_seconds: self.idle_seconds,
            deducted_seconds: self.deducted_seconds,
            keyboard_events: self.keyboard_events,
            mouse_events: self.mouse_events,
        }
    }
}

impl SessionPayload {
    /// The payload that carries `s` over the wire.
    pub open spec fn of_session(s: Session) -> SessionPayload {
        SessionPayload {
            uuid: s.uuid,
            project_id: s.project_id,
            start_time: s.start_time,
            end_time: s.end_time,
            is_active: s.is_active,
            idle_seconds: s.idle_seconds,
            deducted_seconds: s.deducted_seconds,
            keyboard_events: s.keyboard_events,
            mouse_events: s.mouse_events,
        }
    }

    /// Builds the wire payload of one session.
    pub fn from_session(s: &Session) -> (r: SessionPayload)
        ensures
            r == SessionPayload::of_session(*s),
    {
        SessionPayload {
            uuid: s.uuid.clone(),
            project_id: s.project_id.clone(),
            start_time: s.start_time,
            end_time: s.end_time,
            is_active: s.is_active,
            idle_seconds: s.idle_seconds,
            deducted_seconds: s.deducted_seconds,
            keyboard_events: s.keyboard_events,
            mouse_events: s.mouse_events,
        }
    }
}

/// A session record as the remote service holds it, consumed by pull
/// reconciliation and never persisted as-is.
pub struct SyncSession {
    pub uuid: String,
    pub project_id: String,
    pub user_id: String,
    pub organization_id: String,
    pub start_time: i64,
    pub end_time: Option<i64>,
    pub is_active: bool,
    pub idle_seconds: i64,
    pub deducted_seconds: i64,
}

impl Clone for SyncSession {
    fn clone(&self) -> (r: Self)
        ensures
            r == *self,
    {
        SyncSession {
            uuid: self.uuid.clone(),
            project_id: self.project_id.clone(),
            user_id: self.user_id.clone(),
            organization_id: self.organization_id.clone(),
            start_time: self.start_time,
            end_time: self.end_time,
            is_active: self.is_active,
            idle_seconds: self.idle_seconds,
            deducted_seconds: self.deducted_seconds,
        }
    }
}

impl SyncSession {
    /// A remote record the engine is willing to merge: timestamps in
    /// range and idle bookkeeping consistent. Anything else is treated
    /// as a malformed response and skipped.
    pub open spec fn acceptable(self) -> bool {
        &&& 0 <= self.start_time <= MAX_TS_MS
        &&& (self.end_time matches Some(e) ==> 0 <= e <= MAX_TS_MS)
        &&& 0 <= self.deducted_seconds <= self.idle_seconds
    }

    /// Estimated duration used by pull reconciliation.
    pub open spec fn est_duration_ms(self, now: int) -> int {
        est_span_ms(self.start_time as int, self.end_time, now)
    }

    /// Runtime check of `acceptable`.
    pub fn check_acceptable(&self) -> (r: bool)
        ensures
            r == self.acceptable(),
    {
        let ends_ok = match self.end_time {
            Some(e) => 0 <= e && e <= MAX_TS_MS,
            None => true,
        };
        0 <= self.start_time && self.start_time <= MAX_TS_MS && ends_ok && 0 <= self.deducted_seconds
            && self.deducted_seconds <= self.idle_seconds
    }
}

} // verus!
