//! The local store: one cached user, the session rows, and the outbox rows
//! (pending screenshots and activity logs) awaiting upload.
//!
//! The store is the in-memory source of truth the engine computes over.
//! `Store::wf` is its invariant: every mutating operation preserves it, in
//! particular that at most one session per project is active and that no
//! session ever has more seconds deducted than flagged idle.

use vstd::prelude::*;

use crate::models::ActivityLog;
use crate::models::PendingScreenshot;
use crate::models::Session;
use crate::models::SyncSession;
use crate::models::SyncStatus;
use crate::models::User;
use crate::models::MAX_TS_MS;

verus! {

/// An error of the local store. Mirrors a storage-layer failure such as a
/// violated uniqueness constraint or an exhausted row-id space.
#[derive(Clone, Copy, PartialEq, Eq, Structural, Debug)]
pub enum StoreError {
    Storage,
}

/// Every session row is valid.
pub open spec fn all_sessions_valid(ss: Seq<Session>) -> bool {
    forall|i: int| 0 <= i < ss.len() ==> (#[trigger] ss[i]).valid()
}

/// Row identifiers of sessions are pairwise distinct.
pub open spec fn session_ids_unique(ss: Seq<Session>) -> bool {
    forall|i: int, j: int|
        0 <= i < j < ss.len() ==> (#[trigger] ss[i]).id != (#[trigger] ss[j]).id
}

/// Session identifiers (uuids) are pairwise distinct.
pub open spec fn session_uuids_unique(ss: Seq<Session>) -> bool {
    forall|i: int, j: int|
        0 <= i < j < ss.len() ==> (#[trigger] ss[i]).uuid@ != (#[trigger] ss[j]).uuid@
}

/// At most one session per project is active.
pub open spec fn at_most_one_active(ss: Seq<Session>) -> bool {
    forall|i: int, j: int|
        0 <= i < j < ss.len() && (#[trigger] ss[i]).is_active && (#[trigger] ss[j]).is_active
            ==> ss[i].project_id@ != ss[j].project_id@
}

/// Every session row id is assigned and below `bound`.
pub open spec fn session_ids_below(ss: Seq<Session>, bound: i64) -> bool {
    forall|i: int|
        0 <= i < ss.len() ==> ((#[trigger] ss[i]).id matches Some(n) && n < bound)
}

/// Every screenshot row is valid.
pub open spec fn all_shots_valid(ps: Seq<PendingScreenshot>) -> bool {
    forall|i: int| 0 <= i < ps.len() ==> (#[trigger] ps[i]).valid()
}

/// Row identifiers of screenshots are pairwise distinct.
pub open spec fn shot_ids_unique(ps: Seq<PendingScreenshot>) -> bool {
    forall|i: int, j: int|
        0 <= i < j < ps.len() ==> (#[trigger] ps[i]).id != (#[trigger] ps[j]).id
}

/// Every screenshot row id is below `bound`.
pub open spec fn shot_ids_below(ps: Seq<PendingScreenshot>, bound: i64) -> bool {
    forall|i: int| 0 <= i < ps.len() ==> (#[trigger] ps[i]).id < bound
}

/// Every activity log row is valid.
pub open spec fn all_logs_valid(ls: Seq<ActivityLog>) -> bool {
    forall|i: int| 0 <= i < ls.len() ==> (#[trigger] ls[i]).valid()
}

/// Some session in `ss` carries the identifier `u`.
pub open spec fn has_session_uuid(ss: Seq<Session>, u: Seq<char>) -> bool {
    exists|i: int| 0 <= i < ss.len() && (#[trigger] ss[i]).uuid@ == u
}

/// Some session in `ss` is active for project `pid`.
pub open spec fn has_active_for(ss: Seq<Session>, pid: Seq<char>) -> bool {
    exists|i: int|
        0 <= i < ss.len() && (#[trigger] ss[i]).is_active && ss[i].project_id@ == pid
}

/// The session row as `stop_session` leaves it: an active row of the
/// project is closed at `now_ms`, any other row is untouched.
pub open spec fn stopped_session(s: Session, pid: Seq<char>, now_ms: i64) -> Session {
    if s.is_active && s.project_id@ == pid {
        Session { is_active: false, end_time: Some(now_ms), ..s }
    } else {
        s
    }
}

/// The session row as a heartbeat leaves it: the row with id
/// `session_id` has its end advanced and its event counters overwritten,
/// any other row is untouched.
pub open spec fn heartbeat_session(
    s: Session,
    session_id: i64,
    keyboard_events: i64,
    mouse_events: i64,
    now_ms: i64,
) -> Session {
    if s.id == Some(session_id) {
        Session {
            end_time: Some(now_ms),
            keyboard_events: keyboard_events,
            mouse_events: mouse_events,
            ..s
        }
    } else {
        s
    }
}

/// The predicate selecting sessions that still await upload.
pub open spec fn pending_pred() -> spec_fn(Session) -> bool {
    |s: Session| s.status == SyncStatus::Pending
}

/// The sessions of `ss` that still await upload, in store order.
pub open spec fn pending_sessions_of(ss: Seq<Session>) -> Seq<Session> {
    ss.filter(pending_pred())
}

/// The predicate selecting activity logs of session `u`.
pub open spec fn log_of_pred(u: Seq<char>) -> spec_fn(ActivityLog) -> bool {
    |l: ActivityLog| l.session_uuid@ == u
}

/// The predicate keeping activity logs of sessions other than `u`.
pub open spec fn log_not_of_pred(u: Seq<char>) -> spec_fn(ActivityLog) -> bool {
    |l: ActivityLog| l.session_uuid@ != u
}

/// The activity logs of session `u`, in store order.
pub open spec fn logs_for(ls: Seq<ActivityLog>, u: Seq<char>) -> Seq<ActivityLog> {
    ls.filter(log_of_pred(u))
}

/// The activity logs left after deleting those of session `u`.
pub open spec fn logs_without(ls: Seq<ActivityLog>, u: Seq<char>) -> Seq<ActivityLog> {
    ls.filter(log_not_of_pred(u))
}

/// The predicate keeping screenshots other than row `id`.
pub open spec fn shot_not_id_pred(id: i64) -> spec_fn(PendingScreenshot) -> bool {
    |p: PendingScreenshot| p.id != id
}

/// The screenshots left after deleting row `id`.
pub open spec fn shots_without(ps: Seq<PendingScreenshot>, id: i64) -> Seq<PendingScreenshot> {
    ps.filter(shot_not_id_pred(id))
}

/// The local row a remote session becomes when inserted by pull
/// reconciliation: already done, with zeroed event counters.
pub open spec fn imported_session(r: SyncSession, id: i64) -> Session {
    Session {
        id: Some(id),
        uuid: r.uuid,
        project_id: r.project_id,
        start_time: r.start_time,
        end_time: r.end_time,
        is_active: r.is_active,
        idle_seconds: r.idle_seconds,
        deducted_seconds: r.deducted_seconds,
        status: SyncStatus::Done,
        keyboard_events: 0,
        mouse_events: 0,
    }
}

/// The session row as an overwrite by a remote record leaves it: the row
/// with the record's identifier takes the remote span and bookkeeping and
/// becomes done; any other row, and the row's own id, project and event
/// counters, are untouched.
pub open spec fn merged_session(s: Session, r: SyncSession) -> Session {
    if s.uuid@ == r.uuid@ {
        Session {
            start_time: r.start_time,
            end_time: r.end_time,
            is_active: r.is_active,
            idle_seconds: r.idle_seconds,
            deducted_seconds: r.deducted_seconds,
            status: SyncStatus::Done,
            ..s
        }
    } else {
        s
    }
}

/// Overwriting with an active remote record must not produce a second
/// active session of one project: any active session whose project is the
/// updated row's own project must be that row itself.
pub open spec fn merge_active_ok(ss: Seq<Session>, r: SyncSession) -> bool {
    r.is_active ==> forall|i: int, j: int|
        0 <= i < ss.len() && 0 <= j < ss.len() && (#[trigger] ss[j]).uuid@ == r.uuid@ && (
        #[trigger] ss[i]).is_active && ss[i].project_id@ == ss[j].project_id@ ==> i == j
}

/// Whether a session of project `pid` starting at or after `day_start`
/// counts towards the day total.
pub open spec fn counts_for_day(s: Session, pid: Seq<char>, day_start: int) -> bool {
    s.project_id@ == pid && s.start_time >= day_start
}

/// The summed worked seconds of the sessions of `pid` that started within
/// the day, an open session measured up to `now`.
pub open spec fn sum_worked_seconds(
    ss: Seq<Session>,
    pid: Seq<char>,
    day_start: int,
    now: int,
) -> int
    decreases ss.len(),
{
    if ss.len() == 0 {
        0
    } else {
        sum_worked_seconds(ss.drop_last(), pid, day_start, now) + (if counts_for_day(
            ss.last(),
            pid,
            day_start,
        ) {
            ss.last().worked_seconds(now)
        } else {
            0
        })
    }
}

/// Clamps a mathematical total into `u64`.
pub open spec fn clip_u64(x: int) -> int {
    if x > u64::MAX {
        u64::MAX as int
    } else if x < 0 {
        0
    } else {
        x
    }
}

/// The local store.
pub struct Store {
    /// The one cached user; `None` while logged out.
    pub user: Option<User>,
    pub sessions: Vec<Session>,
    pub screenshots: Vec<PendingScreenshot>,
    pub activity_logs: Vec<ActivityLog>,
    /// Next session row id to assign.
    pub next_session_id: i64,
    /// Next screenshot row id to assign.
    pub next_screenshot_id: i64,
}

impl Store {
    /// The store invariant.
    pub open spec fn wf(self) -> bool {
        &&& all_sessions_valid(self.sessions@)
        &&& session_ids_unique(self.sessions@)
        &&& session_uuids_unique(self.sessions@)
        &&& at_most_one_active(self.sessions@)
        &&& session_ids_below(self.sessions@, self.next_session_id)
        &&& 0 <= self.next_session_id
        &&& all_shots_valid(self.screenshots@)
        &&& shot_ids_unique(self.screenshots@)
        &&& shot_ids_below(self.screenshots@, self.next_screenshot_id)
        &&& 0 <= self.next_screenshot_id
        &&& all_logs_valid(self.activity_logs@)
    }

    /// An empty store.
    pub fn new() -> (r: Store)
        ensures
            r.wf(),
            r.user is None,
            r.sessions@.len() == 0,
            r.screenshots@.len() == 0,
            r.activity_logs@.len() == 0,
            r.next_session_id == 1,
            r.next_screenshot_id == 1,
    {
        Store {
            user: None,
            sessions: Vec::new(),
            screenshots: Vec::new(),
            activity_logs: Vec::new(),
            next_session_id: 1,
            next_screenshot_id: 1,
        }
    }

    /// Replaces the cached user (and with it the project list) wholesale.
    /// Sessions and outbox rows are untouched.
    pub fn save_user(&mut self, user: User)
        requires
            old(self).wf(),
        ensures
            final(self).wf(),
            final(self).user == Some(user),
            final(self).sessions == old(self).sessions,
            final(self).screenshots == old(self).screenshots,
            final(self).activity_logs == old(self).activity_logs,
            final(self).next_session_id == old(self).next_session_id,
            final(self).next_screenshot_id == old(self).next_screenshot_id,
    {
        self.user = Some(user);
    }

    /// Erases the cached user, the project list and all session rows, as a
    /// logout does. Outbox screenshots and activity logs stay: evidence is
    /// only deleted once the server confirms receipt.
    pub fn clear_user(&mut self)
        requires
            old(self).wf(),
        ensures
            final(self).wf(),
            final(self).user is None,
            final(self).sessions@.len() == 0,
            final(self).screenshots == old(self).screenshots,
            final(self).activity_logs == old(self).activity_logs,
            final(self).next_session_id == old(self).next_session_id,
            final(self).next_screenshot_id == old(self).next_screenshot_id,
    {
        self.user = None;
        self.sessions = Vec::new();
    }

    /// Records which project is currently selected. A no-op while logged
    /// out, mirroring an update of a table with no row.
    pub fn set_current_project(&mut self, project_id: &String)
        requires
            old(self).wf(),
        ensures
            final(self).wf(),
            old(self).user is None ==> *final(self) == *old(self),
            old(self).user matches Some(u) ==> final(self).user == (Some(
                User { current_project_id: Some(*project_id), ..u },
            )),
            final(self).sessions == old(self).sessions,
            final(self).screenshots == old(self).screenshots,
            final(self).activity_logs == old(self).activity_logs,
            final(self).next_session_id == old(self).next_session_id,
            final(self).next_screenshot_id == old(self).next_screenshot_id,
    {
        match &mut self.user {
            Some(u) => {
                u.current_project_id = Some(project_id.clone());
            },
            None => {},
        }
    }

    /// Returns the cached user, if any.
    pub fn get_user(&self) -> (r: Option<User>)
        ensures
            r is Some <==> self.user is Some,
            r matches Some(u) ==> u.agrees(self.user->Some_0),
    {
        match &self.user {
            Some(u) => Some(u.clone()),
            None => None,
        }
    }

    /// Looks a session up by its identifier. With the store invariant the
    /// match, if any, is unique.
    pub fn get_session_by_uuid(&self, uuid: &String) -> (r: Option<Session>)
        ensures
            r is Some <==> has_session_uuid(self.sessions@, uuid@),
            r matches Some(s) ==> exists|i: int|
                0 <= i < self.sessions@.len() && #[trigger] self.sessions@[i] == s && s.uuid@
                    == uuid@,
    {
        let n = self.sessions.len();
        let mut k: usize = 0;
        while k < n
            invariant
                n == self.sessions@.len(),
                0 <= k <= n,
                forall|i: int| 0 <= i < k ==> (#[trigger] self.sessions@[i]).uuid@ != uuid@,
            decreases n - k,
        {
            if crate::models::str_eq(&self.sessions[k].uuid, uuid) {
                return Some(self.sessions[k].clone());
            }
            k += 1;
        }
        None
    }

    /// Returns the active session for `project_id`, if any. With the store
    /// invariant the match, if any, is unique.
    pub fn get_active_session(&self, project_id: &String) -> (r: Option<Session>)
        ensures
            r is Some <==> has_active_for(self.sessions@, project_id@),
            r matches Some(s) ==> exists|i: int|
                0 <= i < self.sessions@.len() && #[trigger] self.sessions@[i] == s && s.is_active
                    && s.project_id@ == project_id@,
    {
        let n = self.sessions.len();
        let mut k: usize = 0;
        while k < n
            invariant
                n == self.sessions@.len(),
                0 <= k <= n,
                forall|i: int|
                    0 <= i < k ==> !((#[trigger] self.sessions@[i]).is_active
                        && self.sessions@[i].project_id@ == project_id@),
            decreases n - k,
        {
            if self.sessions[k].is_active && crate::models::str_eq(&self.sessions[k].project_id, project_id) {
                return Some(self.sessions[k].clone());
            }
            k += 1;
        }
        None
    }

    /// Creates a new pending, active session for `project_id`, the
    /// single-active-session rule enforced: a no-op (`Ok(None)`) while a
    /// session for this project is already active. Fails only when the
    /// identifier is already taken or the row-id space is exhausted.
    pub fn start_session(&mut self, project_id: &String, uuid: &String, now_ms: i64) -> (r: Result<
        Option<i64>,
        StoreError,
    >)
        requires
            old(self).wf(),
            0 <= now_ms <= MAX_TS_MS,
        ensures
            final(self).wf(),
            final(self).user == old(self).user,
            final(self).screenshots == old(self).screenshots,
            final(self).activity_logs == old(self).activity_logs,
            final(self).next_screenshot_id == old(self).next_screenshot_id,
            has_active_for(old(self).sessions@, project_id@) ==> r == Ok::<Option<i64>, StoreError>(
                None,
            ) && *final(self) == *old(self),
            !has_active_for(old(self).sessions@, project_id@) && has_session_uuid(
                old(self).sessions@,
                uuid@,
            ) ==> r == Err::<Option<i64>, StoreError>(StoreError::Storage) && *final(self) == *old(
                self,
            ),
            !has_active_for(old(self).sessions@, project_id@) && !has_session_uuid(
                old(self).sessions@,
                uuid@,
            ) && old(self).next_session_id == i64::MAX ==> r == Err::<Option<i64>, StoreError>(
                StoreError::Storage,
            ) && *final(self) == *old(self),
            !has_active_for(old(self).sessions@, project_id@) && !has_session_uuid(
                old(self).sessions@,
                uuid@,
            ) && old(self).next_session_id < i64::MAX ==> r == Ok::<Option<i64>, StoreError>(
                Some(old(self).next_session_id),
            ) && final(self).sessions@ == old(self).sessions@.push(
                (Session {
                    id: Some(old(self).next_session_id),
                    uuid: *uuid,
                    project_id: *project_id,
                    start_time: now_ms,
                    end_time: None,
                    is_active: true,
                    idle_seconds: 0,
                    deducted_seconds: 0,
                    status: SyncStatus::Pending,
                    keyboard_events: 0,
                    mouse_events: 0,
                }),
            ) && final(self).next_session_id == old(self).next_session_id + 1,
    {
        if self.get_active_session(project_id).is_some() {
            return Ok(None);
        }
        if self.get_session_by_uuid(uuid).is_some() {
            return Err(StoreError::Storage);
        }
        if self.next_session_id == i64::MAX {
            return Err(StoreError::Storage);
        }
        let id = self.next_session_id;
        let s = Session {
            id: Some(id),
            uuid: uuid.clone(),
            project_id: project_id.clone(),
            start_time: now_ms,
            end_time: None,
            is_active: true,
            idle_seconds: 0,
            deducted_seconds: 0,
            status: SyncStatus::Pending,
            keyboard_events: 0,
            mouse_events: 0,
        };
        self.sessions.push(s);
        self.next_session_id = id + 1;
        Ok(Some(id))
    }

    /// Closes every active session of `project_id` (with the invariant:
    /// the one, if any) at `now_ms`. A no-op when none is active.
    pub fn stop_session(&mut self, project_id: &String, now_ms: i64)
        requires
            old(self).wf(),
            0 <= now_ms <= MAX_TS_MS,
        ensures
            final(self).wf(),
            final(self).user == old(self).user,
            final(self).screenshots == old(self).screenshots,
            final(self).activity_logs == old(self).activity_logs,
            final(self).next_session_id == old(self).next_session_id,
            final(self).next_screenshot_id == old(self).next_screenshot_id,
            final(self).sessions@.len() == old(self).sessions@.len(),
            forall|i: int|
                0 <= i < old(self).sessions@.len() ==> final(self).sessions@[i]
                    == stopped_session(#[trigger] old(self).sessions@[i], project_id@, now_ms),
    {
        let n = self.sessions.len();
        let mut k: usize = 0;
        while k < n
            invariant
                old(self).wf(),
                0 <= now_ms <= MAX_TS_MS,
                n == old(self).sessions@.len(),
                0 <= k <= n,
                self.sessions@.len() == n,
                self.user == old(self).user,
                self.screenshots == old(self).screenshots,
                self.activity_logs == old(self).activity_logs,
                self.next_session_id == old(self).next_session_id,
                self.next_screenshot_id == old(self).next_screenshot_id,
                forall|i: int|
                    0 <= i < k ==> self.sessions@[i] == stopped_session(
                        #[trigger] old(self).sessions@[i],
                        project_id@,
                        now_ms,
                    ),
                forall|i: int| k <= i < n ==> self.sessions@[i] == old(self).sessions@[i],
            decreases n - k,
        {
            if self.sessions[k].is_active && crate::models::str_eq(
                &self.sessions[k].project_id,
                project_id,
            ) {
                self.sessions[k].is_active = false;
                self.sessions[k].end_time = Some(now_ms);
            }
            k += 1;
        }
        proof {
            lemma_pointwise_stop_preserves_wf(*old(self), *self, project_id@, now_ms);
        }
    }

    /// Advances the end of the session with row id `session_id` to
    /// `now_ms` and overwrites its event counters. A no-op when no row
    /// has that id.
    pub fn update_session_heartbeat(
        &mut self,
        session_id: i64,
        keyboard_events: i64,
        mouse_events: i64,
        now_ms: i64,
    )
        requires
            old(self).wf(),
            0 <= now_ms <= MAX_TS_MS,
            0 <= keyboard_events,
            0 <= mouse_events,
        ensures
            final(self).wf(),
            final(self).user == old(self).user,
            final(self).screenshots == old(self).screenshots,
            final(self).activity_logs == old(self).activity_logs,
            final(self).next_session_id == old(self).next_session_id,
            final(self).next_screenshot_id == old(self).next_screenshot_id,
            final(self).sessions@.len() == old(self).sessions@.len(),
            forall|i: int|
                0 <= i < old(self).sessions@.len() ==> final(self).sessions@[i]
                    == heartbeat_session(
                    #[trigger] old(self).sessions@[i],
                    session_id,
                    keyboard_events,
                    mouse_events,
                    now_ms,
                ),
    {
        let n = self.sessions.len();
        let mut k: usize = 0;
        while k < n
            invariant
                old(self).wf(),
                0 <= now_ms <= MAX_TS_MS,
                0 <= keyboard_events,
                0 <= mouse_events,
                n == old(self).sessions@.len(),
                0 <= k <= n,
                self.sessions@.len() == n,
                self.user == old(self).user,
                self.screenshots == old(self).screenshots,
                self.activity_logs == old(self).activity_logs,
                self.next_session_id == old(self).next_session_id,
                self.next_screenshot_id == old(self).next_screenshot_id,
                forall|i: int|
                    0 <= i < k ==> self.sessions@[i] == heartbeat_session(
                        #[trigger] old(self).sessions@[i],
                        session_id,
                        keyboard_events,
                        mouse_events,
                        now_ms,
                    ),
                forall|i: int| k <= i < n ==> self.sessions@[i] == old(self).sessions@[i],
            decreases n - k,
        {
            let matches_id = match self.sessions[k].id {
                Some(id) => id == session_id,
                None => false,
            };
            if matches_id {
                self.sessions[k].end_time = Some(now_ms);
                self.sessions[k].keyboard_events = keyboard_events;
                self.sessions[k].mouse_events = mouse_events;
            }
            k += 1;
        }
        proof {
            lemma_pointwise_heartbeat_preserves_wf(
                *old(self),
                *self,
                session_id,
                keyboard_events,
                mouse_events,
                now_ms,
            );
        }
    }
    /// Stages a captured screenshot in the outbox. Fails only when the
    /// row-id space is exhausted.
    pub fn save_pending_screenshot(
        &mut self,
        session_uuid: &String,
        project_id: &String,
        image_data: &String,
        now_ms: i64,
    ) -> (r: Result<i64, StoreError>)
        requires
            old(self).wf(),
            0 <= now_ms <= MAX_TS_MS,
        ensures
            final(self).wf(),
            final(self).user == old(self).user,
            final(self).sessions == old(self).sessions,
            final(self).activity_logs == old(self).activity_logs,
            final(self).next_session_id == old(self).next_session_id,
            old(self).next_screenshot_id == i64::MAX ==> r == Err::<i64, StoreError>(
                StoreError::Storage,
            ) && *final(self) == *old(self),
            old(self).next_screenshot_id < i64::MAX ==> r == Ok::<i64, StoreError>(
                old(self).next_screenshot_id,
            ) && final(self).screenshots@ == old(self).screenshots@.push(
                (PendingScreenshot {
                    id: old(self).next_screenshot_id,
                    session_uuid: *session_uuid,
                    project_id: *project_id,
                    timestamp: now_ms,
                    image_data: *image_data,
                }),
            ) && final(self).next_screenshot_id == old(self).next_screenshot_id + 1,
    {
        if self.next_screenshot_id == i64::MAX {
            return Err(StoreError::Storage);
        }
        let id = self.next_screenshot_id;
        let p = PendingScreenshot {
            id: id,
            session_uuid: session_uuid.clone(),
            project_id: project_id.clone(),
            timestamp: now_ms,
            image_data: image_data.clone(),
        };
        self.screenshots.push(p);
        self.next_screenshot_id = id + 1;
        Ok(id)
    }

    /// Appends one activity observation to the outbox.
    pub fn save_activity_log(
        &mut self,
        session_uuid: &String,
        project_id: &String,
        app_name: &String,
        window_title: &String,
        url: &Option<String>,
        now_ms: i64,
    )
        requires
            old(self).wf(),
            0 <= now_ms <= MAX_TS_MS,
        ensures
            final(self).wf(),
            final(self).user == old(self).user,
            final(self).sessions == old(self).sessions,
            final(self).screenshots == old(self).screenshots,
            final(self).next_session_id == old(self).next_session_id,
            final(self).next_screenshot_id == old(self).next_screenshot_id,
            final(self).activity_logs@ == old(self).activity_logs@.push(
                (ActivityLog {
                    session_uuid: *session_uuid,
                    project_id: *project_id,
                    timestamp: now_ms,
                    app_name: *app_name,
                    window_title: *window_title,
                    url: *url,
                }),
            ),
    {
        let l = ActivityLog {
            session_uuid: session_uuid.clone(),
            project_id: project_id.clone(),
            timestamp: now_ms,
            app_name: app_name.clone(),
            window_title: window_title.clone(),
            url: crate::models::clone_opt_string(url),
        };
        self.activity_logs.push(l);
    }

    /// Reads the activity logs of one session, in store order.
    pub fn get_activity_logs_for_session(&self, session_uuid: &String) -> (r: Vec<ActivityLog>)
        ensures
            r@ == logs_for(self.activity_logs@, session_uuid@),
    {
        let ghost pred = log_of_pred(session_uuid@);
        let n = self.activity_logs.len();
        let mut out: Vec<ActivityLog> = Vec::new();
        let mut k: usize = 0;
        while k < n
            invariant
                n == self.activity_logs@.len(),
                0 <= k <= n,
                out@ == self.activity_logs@.take(k as int).filter(pred),
                pred == log_of_pred(session_uuid@),
            decreases n - k,
        {
            proof {
                self.activity_logs@.lemma_take_succ_push(k as int);
                self.activity_logs@.take(k as int).lemma_filter_push(
                    self.activity_logs@[k as int],
                    pred,
                );
            }
            if crate::models::str_eq(&self.activity_logs[k].session_uuid, session_uuid) {
                out.push(self.activity_logs[k].clone());
            }
            k += 1;
        }
        proof {
            assert(self.activity_logs@.take(n as int) =~= self.activity_logs@);
        }
        out
    }

    /// Deletes the activity logs of one session.
    pub fn delete_activity_logs_for_session(&mut self, session_uuid: &String)
        requires
            old(self).wf(),
        ensures
            final(self).wf(),
            final(self).user == old(self).user,
            final(self).sessions == old(self).sessions,
            final(self).screenshots == old(self).screenshots,
            final(self).next_session_id == old(self).next_session_id,
            final(self).next_screenshot_id == old(self).next_screenshot_id,
            final(self).activity_logs@ == logs_without(old(self).activity_logs@, session_uuid@),
    {
        let ghost pred = log_not_of_pred(session_uuid@);
        let n = self.activity_logs.len();
        let mut out: Vec<ActivityLog> = Vec::new();
        let mut k: usize = 0;
        while k < n
            invariant
                n == self.activity_logs@.len(),
                0 <= k <= n,
                out@ == self.activity_logs@.take(k as int).filter(pred),
                pred == log_not_of_pred(session_uuid@),
            decreases n - k,
        {
            proof {
                self.activity_logs@.lemma_take_succ_push(k as int);
                self.activity_logs@.take(k as int).lemma_filter_push(
                    self.activity_logs@[k as int],
                    pred,
                );
            }
            if !crate::models::str_eq(&self.activity_logs[k].session_uuid, session_uuid) {
                out.push(self.activity_logs[k].clone());
            }
            k += 1;
        }
        proof {
            assert(self.activity_logs@.take(n as int) =~= self.activity_logs@);
            lemma_filter_keeps_all_valid(self.activity_logs@, pred);
        }
        self.activity_logs = out;
    }

    /// Reads the whole screenshot outbox, in store order.
    pub fn get_pending_screenshots(&self) -> (r: Vec<PendingScreenshot>)
        ensures
            r@ == self.screenshots@,
    {
        let r = self.screenshots.clone();
        proof {
            assert forall|i: int| 0 <= i < r@.len() implies r@[i] == self.screenshots@[i] by {
                assert(cloned::<PendingScreenshot>(self.screenshots@[i], r@[i]));
            }
            assert(r@ =~= self.screenshots@);
        }
        r
    }

    /// Deletes one screenshot from the outbox, after its upload was
    /// acknowledged. A no-op when no row has that id.
    pub fn delete_pending_screenshot(&mut self, id: i64)
        requires
            old(self).wf(),
        ensures
            final(self).wf(),
            final(self).user == old(self).user,
            final(self).sessions == old(self).sessions,
            final(self).activity_logs == old(self).activity_logs,
            final(self).next_session_id == old(self).next_session_id,
            final(self).next_screenshot_id == old(self).next_screenshot_id,
            final(self).screenshots@ == shots_without(old(self).screenshots@, id),
    {
        let ghost pred = shot_not_id_pred(id);
        let n = self.screenshots.len();
        let mut out: Vec<PendingScreenshot> = Vec::new();
        let mut k: usize = 0;
        while k < n
            invariant
                n == self.screenshots@.len(),
                0 <= k <= n,
                out@ == self.screenshots@.take(k as int).filter(pred),
                pred == shot_not_id_pred(id),
            decreases n - k,
        {
            proof {
                self.screenshots@.lemma_take_succ_push(k as int);
                self.screenshots@.take(k as int).lemma_filter_push(
                    self.screenshots@[k as int],
                    pred,
                );
            }
            if self.screenshots[k].id != id {
                out.push(self.screenshots[k].clone());
            }
            k += 1;
        }
        proof {
            assert(self.screenshots@.take(n as int) =~= self.screenshots@);
            lemma_shot_filter_wf(self.screenshots@, pred, self.next_screenshot_id);
        }
        self.screenshots = out;
    }

    /// Reads every session that still awaits upload, whether or not it is
    /// still active: an open session may be synced incrementally.
    pub fn get_pending_sessions(&self) -> (r: Vec<Session>)
        ensures
            r@ == pending_sessions_of(self.sessions@),
    {
        let ghost pred = pending_pred();
        let n = self.sessions.len();
        let mut out: Vec<Session> = Vec::new();
        let mut k: usize = 0;
        while k < n
            invariant
                n == self.sessions@.len(),
                0 <= k <= n,
                out@ == self.sessions@.take(k as int).filter(pred),
                pred == pending_pred(),
            decreases n - k,
        {
            proof {
                self.sessions@.lemma_take_succ_push(k as int);
                self.sessions@.take(k as int).lemma_filter_push(self.sessions@[k as int], pred);
            }
            if matches!(self.sessions[k].status, SyncStatus::Pending) {
                out.push(self.sessions[k].clone());
            }
            k += 1;
        }
        proof {
            assert(self.sessions@.take(n as int) =~= self.sessions@);
        }
        out
    }
    /// Inserts a session held by the remote service as an already-done
    /// local row. Fails only when the row-id space is exhausted.
    pub fn create_imported_session(&mut self, r: &SyncSession) -> (res: Result<i64, StoreError>)
        requires
            old(self).wf(),
            r.acceptable(),
            !has_session_uuid(old(self).sessions@, r.uuid@),
            r.is_active ==> !has_active_for(old(self).sessions@, r.project_id@),
        ensures
            final(self).wf(),
            final(self).user == old(self).user,
            final(self).screenshots == old(self).screenshots,
            final(self).activity_logs == old(self).activity_logs,
            final(self).next_screenshot_id == old(self).next_screenshot_id,
            old(self).next_session_id == i64::MAX ==> res == Err::<i64, StoreError>(
                StoreError::Storage,
            ) && *final(self) == *old(self),
            old(self).next_session_id < i64::MAX ==> res == Ok::<i64, StoreError>(
                old(self).next_session_id,
            ) && final(self).sessions@ == old(self).sessions@.push(
                imported_session(*r, old(self).next_session_id),
            ) && final(self).next_session_id == old(self).next_session_id + 1,
    {
        if self.next_session_id == i64::MAX {
            return Err(StoreError::Storage);
        }
        let id = self.next_session_id;
        let s = Session {
            id: Some(id),
            uuid: r.uuid.clone(),
            project_id: r.project_id.clone(),
            start_time: r.start_time,
            end_time: r.end_time,
            is_active: r.is_active,
            idle_seconds: r.idle_seconds,
            deducted_seconds: r.deducted_seconds,
            status: SyncStatus::Done,
            keyboard_events: 0,
            mouse_events: 0,
        };
        self.sessions.push(s);
        self.next_session_id = id + 1;
        Ok(id)
    }

    /// Overwrites the local row carrying the remote record's identifier
    /// with the remote span and bookkeeping, marking it done.
    pub fn update_imported_session(&mut self, r: &SyncSession)
        requires
            old(self).wf(),
            r.acceptable(),
            merge_active_ok(old(self).sessions@, *r),
        ensures
            final(self).wf(),
            final(self).user == old(self).user,
            final(self).screenshots == old(self).screenshots,
            final(self).activity_logs == old(self).activity_logs,
            final(self).next_session_id == old(self).next_session_id,
            final(self).next_screenshot_id == old(self).next_screenshot_id,
            final(self).sessions@.len() == old(self).sessions@.len(),
            forall|i: int|
                0 <= i < old(self).sessions@.len() ==> final(self).sessions@[i] == merged_session(
                    #[trigger] old(self).sessions@[i],
                    *r,
                ),
    {
        let n = self.sessions.len();
        let mut k: usize = 0;
        while k < n
            invariant
                old(self).wf(),
                r.acceptable(),
                n == old(self).sessions@.len(),
                0 <= k <= n,
                self.sessions@.len() == n,
                self.user == old(self).user,
                self.screenshots == old(self).screenshots,
                self.activity_logs == old(self).activity_logs,
                self.next_session_id == old(self).next_session_id,
                self.next_screenshot_id == old(self).next_screenshot_id,
                forall|i: int|
                    0 <= i < k ==> self.sessions@[i] == merged_session(
                        #[trigger] old(self).sessions@[i],
                        *r,
                    ),
                forall|i: int| k <= i < n ==> self.sessions@[i] == old(self).sessions@[i],
            decreases n - k,
        {
            if crate::models::str_eq(&self.sessions[k].uuid, &r.uuid) {
                self.sessions[k].start_time = r.start_time;
                self.sessions[k].end_time = r.end_time;
                self.sessions[k].is_active = r.is_active;
                self.sessions[k].idle_seconds = r.idle_seconds;
                self.sessions[k].deducted_seconds = r.deducted_seconds;
                self.sessions[k].status = SyncStatus::Done;
            }
            k += 1;
        }
        proof {
            lemma_pointwise_merge_preserves_wf(*old(self), *self, *r);
        }
    }

    /// Sums, over the sessions of `project_id` that started at or after
    /// `day_start_ms`, the worked seconds (duration minus deducted idle,
    /// floored at zero), the still-open session measured up to `now_ms`.
    /// The total saturates at `u64::MAX`.
    pub fn get_today_total_time(&self, project_id: &String, now_ms: i64, day_start_ms: i64) -> (r:
        u64)
        requires
            self.wf(),
        ensures
            r as int == clip_u64(
                sum_worked_seconds(
                    self.sessions@,
                    project_id@,
                    day_start_ms as int,
                    now_ms as int,
                ),
            ),
    {
        let n = self.sessions.len();
        let mut total: u64 = 0;
        let mut k: usize = 0;
        while k < n
            invariant
                self.wf(),
                n == self.sessions@.len(),
                0 <= k <= n,
                total as int == clip_u64(
                    sum_worked_seconds(
                        self.sessions@.take(k as int),
                        project_id@,
                        day_start_ms as int,
                        now_ms as int,
                    ),
                ),
            decreases n - k,
        {
            let ghost prefix = self.sessions@.take(k as int);
            proof {
                assert(self.sessions@[k as int].valid());
                self.sessions@.lemma_take_succ_push(k as int);
                lemma_sum_worked_push(
                    prefix,
                    self.sessions@[k as int],
                    project_id@,
                    day_start_ms as int,
                    now_ms as int,
                );
                lemma_sum_worked_nonneg(prefix, project_id@, day_start_ms as int, now_ms as int);
            }
            if crate::models::str_eq(&self.sessions[k].project_id, project_id)
                && self.sessions[k].start_time >= day_start_ms {
                let dur_ms: i64 = if self.sessions[k].is_active {
                    if now_ms > self.sessions[k].start_time {
                        now_ms - self.sessions[k].start_time
                    } else {
                        0
                    }
                } else {
                    match self.sessions[k].end_time {
                        Some(e) => if e > self.sessions[k].start_time {
                            e - self.sessions[k].start_time
                        } else {
                            0
                        },
                        None => 0,
                    }
                };
                let worked: i64 = dur_ms / 1000 - self.sessions[k].deducted_seconds;
                if worked > 0 {
                    let d = worked as u64;
                    if total > u64::MAX - d {
                        total = u64::MAX;
                    } else {
                        total = total + d;
                    }
                }
            }
            k += 1;
        }
        proof {
            assert(self.sessions@.take(n as int) =~= self.sessions@);
        }
        total
    }
}

/// The summed worked seconds are never negative.
proof fn lemma_sum_worked_nonneg(ss: Seq<Session>, pid: Seq<char>, day_start: int, now: int)
    ensures
        sum_worked_seconds(ss, pid, day_start, now) >= 0,
    decreases ss.len(),
{
    if ss.len() > 0 {
        lemma_sum_worked_nonneg(ss.drop_last(), pid, day_start, now);
    }
}

/// Appending one session adds exactly its contribution to the sum.
proof fn lemma_sum_worked_push(
    ss: Seq<Session>,
    s: Session,
    pid: Seq<char>,
    day_start: int,
    now: int,
)
    ensures
        sum_worked_seconds(ss.push(s), pid, day_start, now) == sum_worked_seconds(
            ss,
            pid,
            day_start,
            now,
        ) + (if counts_for_day(s, pid, day_start) {
            s.worked_seconds(now)
        } else {
            0
        }),
{
    assert(ss.push(s).drop_last() =~= ss);
    assert(ss.push(s).last() == s);
}

/// A pointwise overwrite by one remote record keeps the store invariant.
proof fn lemma_pointwise_merge_preserves_wf(pre: Store, post: Store, r: SyncSession)
    requires
        pre.wf(),
        r.acceptable(),
        merge_active_ok(pre.sessions@, r),
        post.sessions@.len() == pre.sessions@.len(),
        forall|i: int|
            0 <= i < pre.sessions@.len() ==> post.sessions@[i] == merged_session(
                #[trigger] pre.sessions@[i],
                r,
            ),
        post.screenshots == pre.screenshots,
        post.activity_logs == pre.activity_logs,
        post.next_session_id == pre.next_session_id,
        post.next_screenshot_id == pre.next_screenshot_id,
    ensures
        post.wf(),
{
    let n = pre.sessions@.len() as int;
    assert forall|i: int| 0 <= i < n implies (#[trigger] post.sessions@[i]).valid() by {
        assert(pre.sessions@[i].valid());
    }
    assert forall|i: int, j: int|
        0 <= i < j < n implies (#[trigger] post.sessions@[i]).id != (
    #[trigger] post.sessions@[j]).id by {
        assert(pre.sessions@[i].id != pre.sessions@[j].id);
    }
    assert forall|i: int, j: int|
        0 <= i < j < n implies (#[trigger] post.sessions@[i]).uuid@ != (
    #[trigger] post.sessions@[j]).uuid@ by {
        assert(pre.sessions@[i].uuid@ != pre.sessions@[j].uuid@);
    }
    assert forall|i: int|
        0 <= i < n implies ((#[trigger] post.sessions@[i]).id matches Some(m) && m
        < post.next_session_id) by {
        assert(pre.sessions@[i].id matches Some(m) && m < pre.next_session_id);
    }
    assert forall|i: int, j: int|
        0 <= i < j < n && (#[trigger] post.sessions@[i]).is_active && (
    #[trigger] post.sessions@[j]).is_active implies post.sessions@[i].project_id@
        != post.sessions@[j].project_id@ by {
        let a = pre.sessions@[i];
        let b = pre.sessions@[j];
        if a.uuid@ == r.uuid@ && b.uuid@ == r.uuid@ {
            assert(a.uuid@ != b.uuid@);
        } else if a.uuid@ == r.uuid@ {
            // the overwritten row is active, so the remote record is, and
            // any other active row of the same project must be row i.
            assert(r.is_active);
            assert(b.is_active);
            if b.project_id@ == a.project_id@ {
                assert(j == i);
            }
        } else if b.uuid@ == r.uuid@ {
            assert(r.is_active);
            assert(a.is_active);
            if a.project_id@ == b.project_id@ {
                assert(i == j);
            }
        } else {
            assert(a.is_active && b.is_active);
        }
    }
}

/// Law: in a well-formed store at most one session per project is
/// active — two distinct active rows always belong to different projects.
pub proof fn lemma_single_active_per_project(st: Store, i: int, j: int)
    requires
        st.wf(),
        0 <= i < st.sessions@.len(),
        0 <= j < st.sessions@.len(),
        i != j,
        st.sessions@[i].is_active,
        st.sessions@[j].is_active,
    ensures
        st.sessions@[i].project_id@ != st.sessions@[j].project_id@,
{
    if i < j {
        assert(st.sessions@[i].is_active && st.sessions@[j].is_active);
    } else {
        assert(st.sessions@[j].is_active && st.sessions@[i].is_active);
    }
}

/// Law: in a well-formed store no session has more seconds deducted from
/// worked time than it ever flagged idle.
pub proof fn lemma_deducted_within_idle(st: Store, i: int)
    requires
        st.wf(),
        0 <= i < st.sessions@.len(),
    ensures
        0 <= st.sessions@[i].deducted_seconds <= st.sessions@[i].idle_seconds,
{
    assert(st.sessions@[i].valid());
}

/// Law: a row overwritten or inserted from an acceptable remote record
/// never deducts more seconds than it flags idle — the idle bound needs
/// nothing beyond the row's own validity and the record's acceptability.
pub proof fn lemma_remote_rows_respect_idle_bound(s: Session, r: SyncSession, id: i64)
    requires
        0 <= s.deducted_seconds <= s.idle_seconds,
        r.acceptable(),
    ensures
        0 <= merged_session(s, r).deducted_seconds <= merged_session(s, r).idle_seconds,
        0 <= imported_session(r, id).deducted_seconds <= imported_session(r, id).idle_seconds,
{
}

/// Names one original index holding the `i`-th element of a filtered
/// sequence.
proof fn lemma_filter_elem_index<T>(s: Seq<T>, p: spec_fn(T) -> bool, i: int) -> (j: int)
    requires
        0 <= i < s.filter(p).len(),
    ensures
        0 <= j < s.len(),
        s[j] == s.filter(p)[i],
    decreases s.len(),
{
    reveal(Seq::filter);
    if s.len() == 0 {
        0
    } else {
        let d = s.drop_last();
        let fd = d.filter(p);
        if i < fd.len() {
            let j = lemma_filter_elem_index(d, p, i);
            j
        } else {
            s.len() as int - 1
        }
    }
}

/// Filtering keeps every remaining activity log valid.
pub(crate) proof fn lemma_filter_keeps_all_valid(ls: Seq<ActivityLog>, p: spec_fn(ActivityLog) -> bool)
    requires
        all_logs_valid(ls),
    ensures
        all_logs_valid(ls.filter(p)),
{
    let f = ls.filter(p);
    assert forall|i: int| 0 <= i < f.len() implies (#[trigger] f[i]).valid() by {
        let j = lemma_filter_elem_index(ls, p, i);
        assert(ls[j].valid());
    }
}

/// Filtering the screenshot outbox keeps its rows valid, their ids
/// pairwise distinct and below the allocation bound.
pub(crate) proof fn lemma_shot_filter_wf(
    ps: Seq<PendingScreenshot>,
    p: spec_fn(PendingScreenshot) -> bool,
    bound: i64,
)
    requires
        all_shots_valid(ps),
        shot_ids_unique(ps),
        shot_ids_below(ps, bound),
    ensures
        all_shots_valid(ps.filter(p)),
        shot_ids_unique(ps.filter(p)),
        shot_ids_below(ps.filter(p), bound),
    decreases ps.len(),
{
    reveal(Seq::filter);
    let f = ps.filter(p);
    assert forall|i: int| 0 <= i < f.len() implies (#[trigger] f[i]).valid() && f[i].id
        < bound by {
        let j = lemma_filter_elem_index(ps, p, i);
        assert(ps[j].valid() && ps[j].id < bound);
    }
    if ps.len() > 0 {
        let d = ps.drop_last();
        let last = ps.last();
        assert forall|i: int| 0 <= i < d.len() implies (#[trigger] d[i]).valid() by {
            assert(ps[i].valid());
        }
        assert forall|i: int, j: int|
            0 <= i < j < d.len() implies (#[trigger] d[i]).id != (#[trigger] d[j]).id by {
            assert(ps[i].id != ps[j].id);
        }
        assert forall|i: int| 0 <= i < d.len() implies (#[trigger] d[i]).id < bound by {
            assert(ps[i].id < bound);
        }
        lemma_shot_filter_wf(d, p, bound);
        let fd = d.filter(p);
        if p(last) {
            assert(f == fd.push(last));
            assert forall|i: int| 0 <= i < fd.len() implies (#[trigger] fd[i]).id != last.id by {
                let j = lemma_filter_elem_index(d, p, i);
                assert(ps[j].id != ps[ps.len() - 1].id);
            }
            assert forall|i: int, j: int|
                0 <= i < j < f.len() implies (#[trigger] f[i]).id != (#[trigger] f[j]).id by {
                if j < fd.len() {
                    assert(fd[i].id != fd[j].id);
                } else {
                    assert(f[j] == last);
                    assert(f[i] == fd[i]);
                }
            }
        }
    }
}

/// A pointwise stop keeps the store invariant: rows keep their ids and
/// identifiers, stay valid, and sessions only ever become inactive.
proof fn lemma_pointwise_stop_preserves_wf(pre: Store, post: Store, pid: Seq<char>, now_ms: i64)
    requires
        pre.wf(),
        0 <= now_ms <= MAX_TS_MS,
        post.sessions@.len() == pre.sessions@.len(),
        forall|i: int|
            0 <= i < pre.sessions@.len() ==> post.sessions@[i] == stopped_session(
                #[trigger] pre.sessions@[i],
                pid,
                now_ms,
            ),
        post.screenshots == pre.screenshots,
        post.activity_logs == pre.activity_logs,
        post.next_session_id == pre.next_session_id,
        post.next_screenshot_id == pre.next_screenshot_id,
    ensures
        post.wf(),
{
    let n = pre.sessions@.len() as int;
    assert forall|i: int| 0 <= i < n implies (#[trigger] post.sessions@[i]).valid() by {
        assert(pre.sessions@[i].valid());
    }
    assert forall|i: int, j: int|
        0 <= i < j < n implies (#[trigger] post.sessions@[i]).id != (
    #[trigger] post.sessions@[j]).id by {
        assert(pre.sessions@[i].id != pre.sessions@[j].id);
    }
    assert forall|i: int, j: int|
        0 <= i < j < n implies (#[trigger] post.sessions@[i]).uuid@ != (
    #[trigger] post.sessions@[j]).uuid@ by {
        assert(pre.sessions@[i].uuid@ != pre.sessions@[j].uuid@);
    }
    assert forall|i: int, j: int|
        0 <= i < j < n && (#[trigger] post.sessions@[i]).is_active && (
    #[trigger] post.sessions@[j]).is_active implies post.sessions@[i].project_id@
        != post.sessions@[j].project_id@ by {
        assert(pre.sessions@[i].is_active && pre.sessions@[j].is_active);
    }
    assert forall|i: int|
        0 <= i < n implies ((#[trigger] post.sessions@[i]).id matches Some(m) && m
        < post.next_session_id) by {
        assert(pre.sessions@[i].id matches Some(m) && m < pre.next_session_id);
    }
}

/// A pointwise heartbeat keeps the store invariant: the updated row keeps
/// its id, identifier, project and active flag, and stays valid.
proof fn lemma_pointwise_heartbeat_preserves_wf(
    pre: Store,
    post: Store,
    session_id: i64,
    keyboard_events: i64,
    mouse_events: i64,
    now_ms: i64,
)
    requires
        pre.wf(),
        0 <= now_ms <= MAX_TS_MS,
        0 <= keyboard_events,
        0 <= mouse_events,
        post.sessions@.len() == pre.sessions@.len(),
        forall|i: int|
            0 <= i < pre.sessions@.len() ==> post.sessions@[i] == heartbeat_session(
                #[trigger] pre.sessions@[i],
                session_id,
                keyboard_events,
                mouse_events,
                now_ms,
            ),
        post.screenshots == pre.screenshots,
        post.activity_logs == pre.activity_logs,
        post.next_session_id == pre.next_session_id,
        post.next_screenshot_id == pre.next_screenshot_id,
    ensures
        post.wf(),
{
    let n = pre.sessions@.len() as int;
    assert forall|i: int| 0 <= i < n implies (#[trigger] post.sessions@[i]).valid() by {
        assert(pre.sessions@[i].valid());
    }
    assert forall|i: int, j: int|
        0 <= i < j < n implies (#[trigger] post.sessions@[i]).id != (
    #[trigger] post.sessions@[j]).id by {
        assert(pre.sessions@[i].id != pre.sessions@[j].id);
    }
    assert forall|i: int, j: int|
        0 <= i < j < n implies (#[trigger] post.sessions@[i]).uuid@ != (
    #[trigger] post.sessions@[j]).uuid@ by {
        assert(pre.sessions@[i].uuid@ != pre.sessions@[j].uuid@);
    }
    assert forall|i: int, j: int|
        0 <= i < j < n && (#[trigger] post.sessions@[i]).is_active && (
    #[trigger] post.sessions@[j]).is_active implies post.sessions@[i].project_id@
        != post.sessions@[j].project_id@ by {
        assert(pre.sessions@[i].is_active && pre.sessions@[j].is_active);
    }
    assert forall|i: int|
        0 <= i < n implies ((#[trigger] post.sessions@[i]).id matches Some(m) && m
        < post.next_session_id) by {
        assert(pre.sessions@[i].id matches Some(m) && m < pre.next_session_id);
    }
}

} // verus!
