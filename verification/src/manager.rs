//! The session manager: starting and stopping tracking for the currently
//! selected project, the heartbeat with forced rotation of over-long
//! sessions, and the day total.
//!
//! Each operation exists twice: a core that takes the clock reading and
//! the fresh identifier as arguments and carries an exact contract, and a
//! convenience form that samples them from the host wrappers and states
//! what holds of every outcome.

use vstd::prelude::*;

use crate::models::Session;
use crate::models::SyncStatus;
use crate::models::MAX_TS_MS;
use crate::models::ROTATION_LIMIT_MS;
use crate::store::clip_u64;
use crate::store::has_active_for;
use crate::store::has_session_uuid;
use crate::store::heartbeat_session;
use crate::store::stopped_session;
use crate::store::sum_worked_seconds;
use crate::store::Store;
use crate::store::StoreError;

verus! {

/// What a heartbeat did.
#[derive(Clone, Copy, PartialEq, Eq, Structural, Debug)]
pub enum HeartbeatOutcome {
    /// No active session carries the given row id; nothing changed.
    NoSession,
    /// End and event counters of the session were advanced in place.
    Updated,
    /// The session exceeded the rotation limit: it was closed and the
    /// carried row id is the replacement's.
    Rotated(i64),
}

/// What starting the timer did.
#[derive(Clone, Copy, PartialEq, Eq, Structural, Debug)]
pub enum StartOutcome {
    /// Not logged in, or no project selected; tracking is inactive.
    NotTracking,
    /// A session for the selected project is already active.
    AlreadyActive,
    /// A new session was created, with the carried row id.
    Started(i64),
}

/// Some session in `ss` carries row id `sid` and is active.
pub open spec fn has_active_id(ss: Seq<Session>, sid: i64) -> bool {
    exists|i: int|
        0 <= i < ss.len() && (#[trigger] ss[i]).id == Some(sid) && ss[i].is_active
}

/// The session row as a rotation leaves the rotated session: closed at
/// `now_ms` with the heartbeat's event counters, the final evidence of
/// the segment that just ended. Any other row is untouched.
pub open spec fn rotation_closed(
    s: Session,
    sid: i64,
    keyboard_events: i64,
    mouse_events: i64,
    now_ms: i64,
) -> Session {
    if s.id == Some(sid) {
        Session {
            is_active: false,
            end_time: Some(now_ms),
            keyboard_events: keyboard_events,
            mouse_events: mouse_events,
            ..s
        }
    } else {
        s
    }
}

/// The fresh row a session starts as.
pub open spec fn fresh_session(id: i64, uuid: Seq<char>, pid: Seq<char>, now_ms: i64, s: Session) -> bool {
    &&& s.id == Some(id)
    &&& s.uuid@ == uuid
    &&& s.project_id@ == pid
    &&& s.start_time == now_ms
    &&& s.end_time is None
    &&& s.is_active
    &&& s.idle_seconds == 0
    &&& s.deducted_seconds == 0
    &&& s.status == SyncStatus::Pending
    &&& s.keyboard_events == 0
    &&& s.mouse_events == 0
}

/// The project selected for tracking, if logged in and one is selected.
pub open spec fn tracked_project(st: Store) -> Option<String> {
    match st.user {
        Some(u) => u.current_project_id,
        None => None,
    }
}

/// How an in-place heartbeat at `now_ms` relates the old store to the
/// new one: every row is its pointwise heartbeat image and nothing else
/// moves.
pub open spec fn heartbeat_updated_rel(
    pre: Store,
    post: Store,
    session_id: i64,
    keyboard_events: i64,
    mouse_events: i64,
    now_ms: i64,
) -> bool {
    &&& 0 <= now_ms <= MAX_TS_MS
    &&& post.sessions@.len() == pre.sessions@.len()
    &&& (forall|j: int|
        0 <= j < pre.sessions@.len() ==> post.sessions@[j] == heartbeat_session(
            #[trigger] pre.sessions@[j],
            session_id,
            keyboard_events,
            mouse_events,
            now_ms,
        ))
    &&& post.next_session_id == pre.next_session_id
}

/// How a rotation at `now_ms` relates the old store to the new one: the
/// rotated row is closed with the heartbeat's counters, every other row
/// is untouched, and one fresh active session of the rotated row's
/// project — with a previously unused identifier and row id `new_id` —
/// is appended.
pub open spec fn heartbeat_rotated_rel(
    pre: Store,
    post: Store,
    session_id: i64,
    keyboard_events: i64,
    mouse_events: i64,
    now_ms: i64,
    new_id: i64,
) -> bool {
    &&& 0 <= now_ms <= MAX_TS_MS
    &&& new_id == pre.next_session_id
    &&& post.sessions@.len() == pre.sessions@.len() + 1
    &&& (forall|j: int|
        0 <= j < pre.sessions@.len() ==> post.sessions@[j] == rotation_closed(
            #[trigger] pre.sessions@[j],
            session_id,
            keyboard_events,
            mouse_events,
            now_ms,
        ))
    &&& (forall|i: int|
        0 <= i < pre.sessions@.len() && (#[trigger] pre.sessions@[i]).id == Some(session_id)
            && pre.sessions@[i].is_active ==> fresh_session(
            new_id,
            post.sessions@.last().uuid@,
            pre.sessions@[i].project_id@,
            now_ms,
            post.sessions@.last(),
        ))
    &&& !has_session_uuid(pre.sessions@, post.sessions@.last().uuid@)
    &&& post.next_session_id == pre.next_session_id + 1
}

impl Store {
    /// Applies one heartbeat to the active session with row id
    /// `session_id`: its end advances to `now_ms` and its event counters
    /// are overwritten. If its span already exceeds the rotation limit,
    /// the session is instead closed at `now_ms` — keeping the heartbeat's
    /// counters as the closed segment's evidence — and an active
    /// replacement with identifier `rotation_uuid` and zeroed counters is
    /// opened for the same project, as one atomic step. Fails, changing
    /// nothing, only when the replacement cannot be created because the
    /// identifier is taken or the row-id space is exhausted.
    pub fn heartbeat_at(
        &mut self,
        session_id: i64,
        keyboard_events: i64,
        mouse_events: i64,
        now_ms: i64,
        rotation_uuid: &String,
    ) -> (r: Result<HeartbeatOutcome, StoreError>)
        requires
            old(self).wf(),
            0 <= now_ms <= MAX_TS_MS,
            0 <= keyboard_events,
            0 <= mouse_events,
        ensures
            final(self).wf(),
            final(self).user == old(self).user,
            final(self).screenshots == old(self).screenshots,
            final(self).activity_logs == old(self).activity_logs,
            final(self).next_screenshot_id == old(self).next_screenshot_id,
            !has_active_id(old(self).sessions@, session_id) ==> r == Ok::<
                HeartbeatOutcome,
                StoreError,
            >(HeartbeatOutcome::NoSession) && *final(self) == *old(self),
            forall|i: int|
                0 <= i < old(self).sessions@.len() && (#[trigger] old(self).sessions@[i]).id
                    == Some(session_id) && old(self).sessions@[i].is_active ==> {
                    let s = old(self).sessions@[i];
                    &&& (now_ms - s.start_time <= ROTATION_LIMIT_MS ==> r == Ok::<
                        HeartbeatOutcome,
                        StoreError,
                    >(HeartbeatOutcome::Updated) && final(self).sessions@.len() == old(self).sessions@.len() && (forall|j: int|
                        0 <= j < old(self).sessions@.len() ==> final(self).sessions@[j]
                            == heartbeat_session(
                            #[trigger] old(self).sessions@[j],
                            session_id,
                            keyboard_events,
                            mouse_events,
                            now_ms,
                        )) && final(self).next_session_id == old(self).next_session_id)
                    &&& (now_ms - s.start_time > ROTATION_LIMIT_MS && !has_session_uuid(
                        old(self).sessions@,
                        rotation_uuid@,
                    ) && old(self).next_session_id < i64::MAX ==> r == Ok::<
                        HeartbeatOutcome,
                        StoreError,
                    >(HeartbeatOutcome::Rotated(old(self).next_session_id)) && final(self).sessions@.len() == old(self).sessions@.len() + 1 && (forall|j: int|
                        0 <= j < old(self).sessions@.len() ==> final(self).sessions@[j]
                            == rotation_closed(
                            #[trigger] old(self).sessions@[j],
                            session_id,
                            keyboard_events,
                            mouse_events,
                            now_ms,
                        )) && fresh_session(
                        old(self).next_session_id,
                        rotation_uuid@,
                        s.project_id@,
                        now_ms,
                        final(self).sessions@.last(),
                    ) && final(self).next_session_id == old(self).next_session_id + 1)
                    &&& (now_ms - s.start_time > ROTATION_LIMIT_MS && (has_session_uuid(
                        old(self).sessions@,
                        rotation_uuid@,
                    ) || old(self).next_session_id == i64::MAX) ==> r == Err::<
                        HeartbeatOutcome,
                        StoreError,
                    >(StoreError::Storage) && *final(self) == *old(self))
                },
            r == Ok::<HeartbeatOutcome, StoreError>(HeartbeatOutcome::NoSession) <==> !has_active_id(
                old(self).sessions@,
                session_id,
            ),
            r == Ok::<HeartbeatOutcome, StoreError>(HeartbeatOutcome::Updated)
                ==> heartbeat_updated_rel(
                *old(self),
                *final(self),
                session_id,
                keyboard_events,
                mouse_events,
                now_ms,
            ),
            r matches Ok(HeartbeatOutcome::Rotated(new_id)) ==> heartbeat_rotated_rel(
                *old(self),
                *final(self),
                session_id,
                keyboard_events,
                mouse_events,
                now_ms,
                new_id,
            ) && final(self).sessions@.last().uuid@ == rotation_uuid@,
            r is Err ==> *final(self) == *old(self),
    {
        let n = self.sessions.len();
        let mut idx: usize = 0;
        let mut found = false;
        while idx < n && !found
            invariant
                n == self.sessions@.len(),
                0 <= idx <= n,
                !found ==> forall|i: int|
                    0 <= i < idx ==> !((#[trigger] self.sessions@[i]).id == Some(session_id)
                        && self.sessions@[i].is_active),
                found ==> idx < n && self.sessions@[idx as int].id == Some(session_id)
                    && self.sessions@[idx as int].is_active,
            decreases n - idx + (if found { 0int } else { 1int }),
        {
            let id_matches = match self.sessions[idx].id {
                Some(id) => id == session_id,
                None => false,
            };
            if id_matches && self.sessions[idx].is_active {
                found = true;
            } else {
                idx += 1;
            }
        }
        if !found {
            return Ok(HeartbeatOutcome::NoSession);
        }
        proof {
            assert(self.sessions@[idx as int].valid());
            assert(has_active_id(old(self).sessions@, session_id));
        }
        let start = self.sessions[idx].start_time;
        if now_ms - start <= ROTATION_LIMIT_MS {
            self.update_session_heartbeat(session_id, keyboard_events, mouse_events, now_ms);
            return Ok(HeartbeatOutcome::Updated);
        }
        // Rotation: make sure the replacement can be created before
        // touching anything, so close-and-reopen is atomic.
        if self.get_session_by_uuid(rotation_uuid).is_some() {
            return Err(StoreError::Storage);
        }
        if self.next_session_id == i64::MAX {
            return Err(StoreError::Storage);
        }
        let project_id = self.sessions[idx].project_id.clone();
        self.sessions[idx].is_active = false;
        self.sessions[idx].end_time = Some(now_ms);
        self.sessions[idx].keyboard_events = keyboard_events;
        self.sessions[idx].mouse_events = mouse_events;
        proof {
            assert forall|j: int|
                0 <= j < old(self).sessions@.len() implies self.sessions@[j] == rotation_closed(
                #[trigger] old(self).sessions@[j],
                session_id,
                keyboard_events,
                mouse_events,
                now_ms,
            ) by {
                if j != idx as int {
                    assert(old(self).sessions@[j].id != old(self).sessions@[idx as int].id);
                }
            }
        }
        let new_id = self.next_session_id;
        let replacement = Session {
            id: Some(new_id),
            uuid: rotation_uuid.clone(),
            project_id: project_id,
            start_time: now_ms,
            end_time: None,
            is_active: true,
            idle_seconds: 0,
            deducted_seconds: 0,
            status: SyncStatus::Pending,
            keyboard_events: 0,
            mouse_events: 0,
        };
        self.sessions.push(replacement);
        self.next_session_id = new_id + 1;
        proof {
            let pre = old(self).sessions@;
            let post = self.sessions@;
            let m = pre.len() as int;
            assert forall|i: int| 0 <= i < post.len() implies (#[trigger] post[i]).valid() by {
                if i < m {
                    assert(pre[i].valid());
                }
            }
            assert forall|i: int, j: int|
                0 <= i < j < post.len() implies (#[trigger] post[i]).id != (
            #[trigger] post[j]).id by {
                if j < m {
                    assert(pre[i].id != pre[j].id);
                } else {
                    assert(pre[i].id matches Some(q) && q < old(self).next_session_id);
                }
            }
            assert forall|i: int, j: int|
                0 <= i < j < post.len() implies (#[trigger] post[i]).uuid@ != (
            #[trigger] post[j]).uuid@ by {
                if j < m {
                    assert(pre[i].uuid@ != pre[j].uuid@);
                } else {
                    assert(post[i].uuid@ == pre[i].uuid@);
                }
            }
            assert forall|i: int|
                0 <= i < post.len() implies ((#[trigger] post[i]).id matches Some(q) && q
                < self.next_session_id) by {
                if i < m {
                    assert(pre[i].id matches Some(q) && q < old(self).next_session_id);
                }
            }
            assert forall|i: int, j: int|
                0 <= i < j < post.len() && (#[trigger] post[i]).is_active && (
            #[trigger] post[j]).is_active implies post[i].project_id@ != post[j].project_id@ by {
                if j < m {
                    assert(pre[i].is_active && pre[j].is_active);
                } else {
                    // the replacement is active; any old row active for the
                    // same project would have clashed with the rotated one.
                    assert(post[i] == rotation_closed(
                        pre[i],
                        session_id,
                        keyboard_events,
                        mouse_events,
                        now_ms,
                    ));
                    assert(i != idx as int);
                    if i < idx as int {
                        assert(pre[i].is_active && pre[idx as int].is_active ==> pre[
                            i
                        ].project_id@ != pre[idx as int].project_id@);
                    } else {
                        assert(pre[idx as int].is_active && pre[i].is_active ==> pre[
                            idx as int
                        ].project_id@ != pre[i].project_id@);
                    }
                }
            }
            assert forall|i: int|
                0 <= i < m && (#[trigger] pre[i]).id == Some(session_id)
                    && pre[i].is_active implies fresh_session(
                new_id,
                post.last().uuid@,
                pre[i].project_id@,
                now_ms,
                post.last(),
            ) by {
                if i != idx as int {
                    assert(pre[i].id != pre[idx as int].id);
                }
            }
        }
        Ok(HeartbeatOutcome::Rotated(new_id))
    }

    /// Applies one heartbeat at the current clock reading, with a fresh
    /// random identifier standing by for a rotation. Whatever clock value
    /// and identifier came back: a no-op exactly when no active session
    /// carries the row id; otherwise either the pointwise in-place update
    /// or a full rotation, at a single clamped instant; a failure changes
    /// nothing.
    pub fn heartbeat(&mut self, session_id: i64, keyboard_events: i64, mouse_events: i64) -> (r:
        Result<HeartbeatOutcome, StoreError>)
        requires
            old(self).wf(),
            0 <= keyboard_events,
            0 <= mouse_events,
        ensures
            final(self).wf(),
            final(self).user == old(self).user,
            final(self).screenshots == old(self).screenshots,
            final(self).activity_logs == old(self).activity_logs,
            final(self).next_screenshot_id == old(self).next_screenshot_id,
            r == Ok::<HeartbeatOutcome, StoreError>(HeartbeatOutcome::NoSession) <==> !has_active_id(
                old(self).sessions@,
                session_id,
            ),
            r == Ok::<HeartbeatOutcome, StoreError>(HeartbeatOutcome::NoSession) ==> *final(self)
                == *old(self),
            r == Ok::<HeartbeatOutcome, StoreError>(HeartbeatOutcome::Updated) ==> exists|
                now_ms: i64,
            |
                #[trigger] heartbeat_updated_rel(
                    *old(self),
                    *final(self),
                    session_id,
                    keyboard_events,
                    mouse_events,
                    now_ms,
                ),
            r matches Ok(HeartbeatOutcome::Rotated(new_id)) ==> (exists|now_ms: i64|
                #[trigger] heartbeat_rotated_rel(
                    *old(self),
                    *final(self),
                    session_id,
                    keyboard_events,
                    mouse_events,
                    now_ms,
                    new_id,
                )) && final(self).sessions@.last().uuid@.len() == 36,
            r is Err ==> *final(self) == *old(self),
    {
        let now_ms = crate::clock::clock_now_ms();
        let rotation_uuid = crate::externals::new_session_uuid();
        let r = self.heartbeat_at(session_id, keyboard_events, mouse_events, now_ms, &rotation_uuid);
        proof {
            match r {
                Ok(HeartbeatOutcome::Updated) => {
                    assert(heartbeat_updated_rel(
                        *old(self),
                        *self,
                        session_id,
                        keyboard_events,
                        mouse_events,
                        now_ms,
                    ));
                },
                Ok(HeartbeatOutcome::Rotated(new_id)) => {
                    assert(heartbeat_rotated_rel(
                        *old(self),
                        *self,
                        session_id,
                        keyboard_events,
                        mouse_events,
                        now_ms,
                        new_id,
                    ));
                },
                _ => {},
            }
        }
        r
    }

    /// Starts tracking for the currently selected project: a no-op while
    /// no user is logged in, no project is selected, or a session for the
    /// project is already active; otherwise creates a fresh pending,
    /// active session at the current clock reading.
    pub fn start_timer(&mut self) -> (r: Result<StartOutcome, StoreError>)
        requires
            old(self).wf(),
        ensures
            final(self).wf(),
            final(self).user == old(self).user,
            final(self).screenshots == old(self).screenshots,
            final(self).activity_logs == old(self).activity_logs,
            final(self).next_screenshot_id == old(self).next_screenshot_id,
            tracked_project(*old(self)) is None ==> r == Ok::<StartOutcome, StoreError>(
                StartOutcome::NotTracking,
            ) && *final(self) == *old(self),
            tracked_project(*old(self)) matches Some(pid) ==> {
                &&& (has_active_for(old(self).sessions@, pid@) ==> r == Ok::<
                    StartOutcome,
                    StoreError,
                >(StartOutcome::AlreadyActive) && *final(self) == *old(self))
                &&& (!has_active_for(old(self).sessions@, pid@) ==> {
                    &&& (r matches Ok(o) ==> o matches StartOutcome::Started(id) && id == old(self).next_session_id && final(self).sessions@.len() == old(self).sessions@.len()
                        + 1 && (forall|j: int|
                        0 <= j < old(self).sessions@.len() ==> final(self).sessions@[j] == old(self).sessions@[j]) && final(self).sessions@.last().project_id@ == pid@
                        && final(self).sessions@.last().is_active && final(self).sessions@.last().status == SyncStatus::Pending && final(self).sessions@.last().idle_seconds == 0 && final(self).sessions@.last().deducted_seconds == 0 && final(self).sessions@.last().keyboard_events == 0 && final(self).sessions@.last().mouse_events == 0 && final(self).sessions@.last().uuid@.len()
                        == 36 && !has_session_uuid(
                        old(self).sessions@,
                        final(self).sessions@.last().uuid@,
                    ) && final(self).next_session_id == old(self).next_session_id + 1)
                    &&& (r is Err ==> *final(self) == *old(self))
                })
            },
    {
        let pid = match &self.user {
            Some(u) => match &u.current_project_id {
                Some(p) => p.clone(),
                None => {
                    return Ok(StartOutcome::NotTracking);
                },
            },
            None => {
                return Ok(StartOutcome::NotTracking);
            },
        };
        if self.get_active_session(&pid).is_some() {
            return Ok(StartOutcome::AlreadyActive);
        }
        let uuid = crate::externals::new_session_uuid();
        let now_ms = crate::clock::clock_now_ms();
        match self.start_session(&pid, &uuid, now_ms) {
            Ok(Some(id)) => Ok(StartOutcome::Started(id)),
            Ok(None) => Ok(StartOutcome::AlreadyActive),
            Err(e) => Err(e),
        }
    }

    /// Stops tracking for the currently selected project at the current
    /// clock reading. Returns the close timestamp when a project was
    /// selected, `None` (changing nothing) otherwise.
    pub fn stop_timer(&mut self) -> (r: Option<i64>)
        requires
            old(self).wf(),
        ensures
            final(self).wf(),
            final(self).user == old(self).user,
            final(self).screenshots == old(self).screenshots,
            final(self).activity_logs == old(self).activity_logs,
            final(self).next_session_id == old(self).next_session_id,
            final(self).next_screenshot_id == old(self).next_screenshot_id,
            tracked_project(*old(self)) is None <==> r is None,
            r is None ==> *final(self) == *old(self),
            r matches Some(now_ms) ==> 0 <= now_ms <= MAX_TS_MS && final(self).sessions@.len()
                == old(self).sessions@.len() && (forall|j: int|
                0 <= j < old(self).sessions@.len() ==> final(self).sessions@[j] == stopped_session(
                    #[trigger] old(self).sessions@[j],
                    tracked_project(*old(self))->Some_0@,
                    now_ms,
                )),
    {
        let pid = match &self.user {
            Some(u) => match &u.current_project_id {
                Some(p) => p.clone(),
                None => {
                    return None;
                },
            },
            None => {
                return None;
            },
        };
        let now_ms = crate::clock::clock_now_ms();
        self.stop_session(&pid, now_ms);
        Some(now_ms)
    }

    /// The day total for `project_id` at the current clock reading: the
    /// summed worked seconds of its sessions that started within the
    /// current local day.
    pub fn today_total(&self, project_id: &String) -> (r: u64)
        requires
            self.wf(),
        ensures
            exists|now_ms: i64, day_start_ms: i64|
                0 <= day_start_ms <= now_ms <= MAX_TS_MS && r as int == clip_u64(
                    #[trigger] sum_worked_seconds(
                        self.sessions@,
                        project_id@,
                        day_start_ms as int,
                        now_ms as int,
                    ),
                ),
    {
        let bounds = crate::clock::clock_today_bounds();
        let r = self.get_today_total_time(project_id, bounds.0, bounds.1);
        proof {
            assert(0 <= bounds.1 <= bounds.0 <= MAX_TS_MS && r as int == clip_u64(
                sum_worked_seconds(
                    self.sessions@,
                    project_id@,
                    bounds.1 as int,
                    bounds.0 as int,
                ),
            ));
        }
        r
    }
}

} // verus!
