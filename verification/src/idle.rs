//! Idle detection state and the idle reconciler: an abstract activity
//! pulse feeds `IdleState`; a detected gap stops the active session, and
//! the user's keep-or-discard decision adjusts the latest session of the
//! project before tracking resumes.

use vstd::prelude::*;

use crate::models::Session;
use crate::models::SyncStatus;
use crate::models::IDLE_THRESHOLD_SECS;
use crate::models::MAX_TS_MS;
use crate::store::has_active_for;
use crate::store::has_session_uuid;
use crate::store::stopped_session;
use crate::store::Store;
use crate::store::StoreError;

verus! {

/// Shared monitoring state fed by the host's input listeners: the moment
/// of the last observed input, whether monitoring is enabled, and the
/// event counters the heartbeat reports.
pub struct IdleState {
    /// Seconds since the epoch of the last observed input.
    pub last_activity_timestamp: u64,
    pub is_monitoring: bool,
    pub keyboard_count: u64,
    pub mouse_count: u64,
}

/// `a + 1`, saturating at the type's maximum.
pub open spec fn sat_inc_u64(a: u64) -> u64 {
    if a == u64::MAX {
        a
    } else {
        (a + 1) as u64
    }
}

impl IdleState {
    /// Fresh monitoring state at `now_secs`: monitoring off, counters
    /// zeroed, the last activity just now.
    pub fn new_at(now_secs: u64) -> (r: IdleState)
        ensures
            r == (IdleState {
                last_activity_timestamp: now_secs,
                is_monitoring: false,
                keyboard_count: 0,
                mouse_count: 0,
            }),
    {
        IdleState {
            last_activity_timestamp: now_secs,
            is_monitoring: false,
            keyboard_count: 0,
            mouse_count: 0,
        }
    }

    /// Fresh monitoring state at the current clock reading.
    pub fn new() -> (r: IdleState)
        ensures
            !r.is_monitoring,
            r.keyboard_count == 0,
            r.mouse_count == 0,
    {
        IdleState::new_at(crate::clock::clock_now_secs())
    }

    /// Turns monitoring on or off.
    pub fn set_monitoring(&mut self, on: bool)
        ensures
            *final(self) == (IdleState { is_monitoring: on, ..*old(self) }),
    {
        self.is_monitoring = on;
    }

    /// Zeroes the event counters, as done when a session segment begins.
    pub fn reset_counters(&mut self)
        ensures
            *final(self) == (IdleState { keyboard_count: 0, mouse_count: 0, ..*old(self) }),
    {
        self.keyboard_count = 0;
        self.mouse_count = 0;
    }

    /// One observed input at `now_secs`. While monitoring is off nothing
    /// is recorded. Otherwise the matching counter advances, the last
    /// activity moves to `now_secs`, and the gap since the previous
    /// activity is returned when it reaches the idle threshold.
    pub fn record_activity(&mut self, now_secs: u64, is_keyboard: bool) -> (r: Option<u64>)
        ensures
            !old(self).is_monitoring ==> *final(self) == *old(self) && r is None,
            old(self).is_monitoring ==> {
                let gap = if now_secs >= old(self).last_activity_timestamp {
                    (now_secs - old(self).last_activity_timestamp) as u64
                } else {
                    0u64
                };
                &&& final(self).last_activity_timestamp == now_secs
                &&& final(self).is_monitoring
                &&& final(self).keyboard_count == (if is_keyboard {
                    sat_inc_u64(old(self).keyboard_count)
                } else {
                    old(self).keyboard_count
                })
                &&& final(self).mouse_count == (if is_keyboard {
                    old(self).mouse_count
                } else {
                    sat_inc_u64(old(self).mouse_count)
                })
                &&& r == (if gap >= IDLE_THRESHOLD_SECS {
                    Some(gap)
                } else {
                    None::<u64>
                })
            },
    {
        if !self.is_monitoring {
            return None;
        }
        let last = self.last_activity_timestamp;
        self.last_activity_timestamp = now_secs;
        if is_keyboard {
            if self.keyboard_count < u64::MAX {
                self.keyboard_count = self.keyboard_count + 1;
            }
        } else {
            if self.mouse_count < u64::MAX {
                self.mouse_count = self.mouse_count + 1;
            }
        }
        let gap = if now_secs >= last {
            now_secs - last
        } else {
            0
        };
        if gap >= IDLE_THRESHOLD_SECS {
            Some(gap)
        } else {
            None
        }
    }
}

/// The index of the most-recently-started session of `pid`, later rows
/// winning ties, or `None` when the project has no session.
pub open spec fn latest_for(ss: Seq<Session>, pid: Seq<char>) -> Option<int>
    decreases ss.len(),
{
    if ss.len() == 0 {
        None
    } else {
        let prev = latest_for(ss.drop_last(), pid);
        if ss.last().project_id@ == pid {
            match prev {
                Some(p) => if ss[p].start_time > ss.last().start_time {
                    Some(p)
                } else {
                    Some(ss.len() - 1)
                },
                None => Some(ss.len() - 1),
            }
        } else {
            prev
        }
    }
}

/// `latest_for` names a session of the project when one exists, and
/// `None` exactly when none does.
pub proof fn lemma_latest_for_props(ss: Seq<Session>, pid: Seq<char>)
    ensures
        latest_for(ss, pid) matches Some(p) ==> 0 <= p < ss.len() && ss[p].project_id@ == pid,
        latest_for(ss, pid) is None ==> forall|i: int|
            0 <= i < ss.len() ==> (#[trigger] ss[i]).project_id@ != pid,
    decreases ss.len(),
{
    if ss.len() > 0 {
        lemma_latest_for_props(ss.drop_last(), pid);
        if latest_for(ss, pid) is None {
            assert forall|i: int| 0 <= i < ss.len() implies (#[trigger] ss[i]).project_id@
                != pid by {
                if i < ss.len() - 1 {
                    assert(ss.drop_last()[i] == ss[i]);
                }
            }
        }
    }
}

/// `a + b`, saturating at `i64::MAX`.
pub open spec fn sat_add_i64(a: int, b: int) -> int {
    if a + b > i64::MAX {
        i64::MAX as int
    } else {
        a + b
    }
}

/// The session row after an idle decision on a gap of `gap` seconds:
/// the gap is always added to the idle seconds; a discarded gap is also
/// deducted from worked time.
pub open spec fn idle_adjusted(s: Session, gap: int, keep: bool) -> Session {
    Session {
        idle_seconds: sat_add_i64(s.idle_seconds as int, gap) as i64,
        deducted_seconds: if keep {
            s.deducted_seconds
        } else {
            sat_add_i64(s.deducted_seconds as int, gap) as i64
        },
        ..s
    }
}

/// The session rows after an idle decision: the most-recently-started
/// session of `pid` is adjusted, everything else untouched.
pub open spec fn adjust_latest(ss: Seq<Session>, pid: Seq<char>, gap: int, keep: bool) -> Seq<
    Session,
> {
    match latest_for(ss, pid) {
        Some(i) => ss.update(i, idle_adjusted(ss[i], gap, keep)),
        None => ss,
    }
}

/// Adjusting the latest session preserves length, every field but the
/// idle bookkeeping, and validity of every row.
pub proof fn lemma_adjust_latest_props(ss: Seq<Session>, pid: Seq<char>, gap: int, keep: bool)
    requires
        0 <= gap,
    ensures
        adjust_latest(ss, pid, gap, keep).len() == ss.len(),
        forall|i: int|
            0 <= i < ss.len() ==> {
                let m = #[trigger] adjust_latest(ss, pid, gap, keep)[i];
                &&& m.id == ss[i].id
                &&& m.uuid@ == ss[i].uuid@
                &&& m.project_id@ == ss[i].project_id@
                &&& m.start_time == ss[i].start_time
                &&& m.end_time == ss[i].end_time
                &&& m.is_active == ss[i].is_active
                &&& m.status == ss[i].status
                &&& (ss[i].valid() ==> m.valid())
            },
{
    lemma_latest_for_props(ss, pid);
}

impl Store {
    /// Reacts to a detected idle gap: the active session of the currently
    /// selected project is stopped at `now_ms` at once, and the project id
    /// is handed back so the presentation layer can ask for the keep or
    /// discard decision. A no-op while not logged in or no project is
    /// selected.
    pub fn on_idle_gap(&mut self, now_ms: i64) -> (r: Option<String>)
        requires
            old(self).wf(),
            0 <= now_ms <= MAX_TS_MS,
        ensures
            final(self).wf(),
            final(self).user == old(self).user,
            final(self).screenshots == old(self).screenshots,
            final(self).activity_logs == old(self).activity_logs,
            final(self).next_session_id == old(self).next_session_id,
            final(self).next_screenshot_id == old(self).next_screenshot_id,
            r is Some <==> crate::manager::tracked_project(*old(self)) is Some,
            r is None ==> *final(self) == *old(self),
            r matches Some(pid) ==> pid@ == crate::manager::tracked_project(
                *old(self),
            )->Some_0@ && final(self).sessions@.len() == old(self).sessions@.len() && (forall|
                j: int,
            |
                0 <= j < old(self).sessions@.len() ==> final(self).sessions@[j] == stopped_session(
                    #[trigger] old(self).sessions@[j],
                    pid@,
                    now_ms,
                )),
    {
        let pid = match &self.user {
            Some(u) => match &u.current_project_id {
                Some(p) => p.clone(),
                None => {
                    return None;
                },
            },
            None => {
                return None;
            },
        };
        self.stop_session(&pid, now_ms);
        Some(pid)
    }

    /// Applies the user's decision on an idle gap of `gap_secs` seconds:
    /// the most-recently-started session of `project_id` always gains the
    /// gap as idle seconds; a discarded gap is also deducted from worked
    /// time; and tracking is then resumed with a fresh session carrying
    /// `new_uuid`, started at `now_ms`, unless one is already active.
    pub fn apply_idle_decision_at(
        &mut self,
        project_id: &String,
        gap_secs: u64,
        keep: bool,
        now_ms: i64,
        new_uuid: &String,
    ) -> (r: Result<Option<i64>, StoreError>)
        requires
            old(self).wf(),
            0 <= now_ms <= MAX_TS_MS,
        ensures
            final(self).wf(),
            final(self).user == old(self).user,
            final(self).screenshots == old(self).screenshots,
            final(self).activity_logs == old(self).activity_logs,
            final(self).next_screenshot_id == old(self).next_screenshot_id,
            ({
                let mid = adjust_latest(old(self).sessions@, project_id@, gap_secs as int, keep);
                &&& (has_active_for(old(self).sessions@, project_id@) ==> r == Ok::<
                    Option<i64>,
                    StoreError,
                >(None) && final(self).sessions@ == mid && final(self).next_session_id == old(self).next_session_id)
                &&& (!has_active_for(old(self).sessions@, project_id@) && !has_session_uuid(
                    old(self).sessions@,
                    new_uuid@,
                ) && old(self).next_session_id < i64::MAX ==> r == Ok::<Option<i64>, StoreError>(
                    Some(old(self).next_session_id),
                ) && final(self).sessions@ == mid.push(
                    (Session {
                        id: Some(old(self).next_session_id),
                        uuid: *new_uuid,
                        project_id: *project_id,
                        start_time: now_ms,
                        end_time: None,
                        is_active: true,
                        idle_seconds: 0,
                        deducted_seconds: 0,
                        status: SyncStatus::Pending,
                        keyboard_events: 0,
                        mouse_events: 0,
                    }),
                ) && final(self).next_session_id == old(self).next_session_id + 1)
                &&& (!has_active_for(old(self).sessions@, project_id@) && (has_session_uuid(
                    old(self).sessions@,
                    new_uuid@,
                ) || old(self).next_session_id == i64::MAX) ==> r == Err::<
                    Option<i64>,
                    StoreError,
                >(StoreError::Storage) && final(self).sessions@ == mid && final(self).next_session_id == old(self).next_session_id)
            }),
    {
        let ghost pre = self.sessions@;
        let n = self.sessions.len();
        let mut best: Option<usize> = None;
        let mut k: usize = 0;
        while k < n
            invariant
                n == self.sessions@.len(),
                0 <= k <= n,
                match best {
                    Some(b) => b < k && latest_for(self.sessions@.take(k as int), project_id@)
                        == Some(b as int),
                    None => latest_for(self.sessions@.take(k as int), project_id@) is None,
                },
            decreases n - k,
        {
            proof {
                self.sessions@.lemma_take_succ_push(k as int);
                assert(self.sessions@.take(k as int + 1).drop_last() =~= self.sessions@.take(
                    k as int,
                ));
            }
            if crate::models::str_eq(&self.sessions[k].project_id, project_id) {
                match best {
                    Some(b) => {
                        if !(self.sessions[b].start_time > self.sessions[k].start_time) {
                            best = Some(k);
                        }
                    },
                    None => {
                        best = Some(k);
                    },
                }
            }
            k += 1;
        }
        proof {
            assert(self.sessions@.take(n as int) =~= self.sessions@);
        }
        match best {
            Some(b) => {
                proof {
                    lemma_latest_for_props(pre, project_id@);
                    assert(pre[b as int].valid());
                }
                let gap_room: u64 = (i64::MAX - self.sessions[b].idle_seconds) as u64;
                let new_idle: i64 = if gap_secs > gap_room {
                    i64::MAX
                } else {
                    self.sessions[b].idle_seconds + (gap_secs as i64)
                };
                let new_deducted: i64 = if keep {
                    self.sessions[b].deducted_seconds
                } else {
                    let ded_room: u64 = (i64::MAX - self.sessions[b].deducted_seconds) as u64;
                    if gap_secs > ded_room {
                        i64::MAX
                    } else {
                        self.sessions[b].deducted_seconds + (gap_secs as i64)
                    }
                };
                self.sessions[b].idle_seconds = new_idle;
                self.sessions[b].deducted_seconds = new_deducted;
                proof {
                    assert(self.sessions@ =~= adjust_latest(
                        pre,
                        project_id@,
                        gap_secs as int,
                        keep,
                    ));
                    lemma_adjust_latest_props(pre, project_id@, gap_secs as int, keep);
                    lemma_adjusted_wf(*old(self), *self, project_id@, gap_secs as int, keep);
                }
            },
            None => {},
        }
        proof {
            assert(self.sessions@ =~= adjust_latest(pre, project_id@, gap_secs as int, keep));
            lemma_adjust_latest_props(pre, project_id@, gap_secs as int, keep);
            assert(has_active_for(self.sessions@, project_id@) == has_active_for(
                pre,
                project_id@,
            )) by {
                if has_active_for(self.sessions@, project_id@) {
                    let i = choose|i: int|
                        0 <= i < self.sessions@.len() && (#[trigger] self.sessions@[i]).is_active
                            && self.sessions@[i].project_id@ == project_id@;
                    assert(pre[i].is_active && pre[i].project_id@ == project_id@);
                }
                if has_active_for(pre, project_id@) {
                    let i = choose|i: int|
                        0 <= i < pre.len() && (#[trigger] pre[i]).is_active && pre[i].project_id@
                            == project_id@;
                    assert(self.sessions@[i].is_active && self.sessions@[i].project_id@
                        == project_id@);
                }
            }
            assert(has_session_uuid(self.sessions@, new_uuid@) == has_session_uuid(
                pre,
                new_uuid@,
            )) by {
                if has_session_uuid(self.sessions@, new_uuid@) {
                    let i = choose|i: int|
                        0 <= i < self.sessions@.len() && (#[trigger] self.sessions@[i]).uuid@
                            == new_uuid@;
                    assert(pre[i].uuid@ == new_uuid@);
                }
                if has_session_uuid(pre, new_uuid@) {
                    let i = choose|i: int|
                        0 <= i < pre.len() && (#[trigger] pre[i]).uuid@ == new_uuid@;
                    assert(self.sessions@[i].uuid@ == new_uuid@);
                }
            }
        }
        self.start_session(project_id, new_uuid, now_ms)
    }

    /// Applies the user's decision on an idle gap at the current clock
    /// reading, resuming tracking with a fresh random identifier.
    /// Whatever clock value and identifier came back: the adjustment is
    /// the pointwise `adjust_latest` image; a session was already active
    /// exactly when `Ok(None)` comes back and nothing is appended then;
    /// `Ok(Some(id))` appends one fresh active pending session of the
    /// project; a failure appends nothing beyond the adjustment.
    pub fn apply_idle_decision(&mut self, project_id: &String, gap_secs: u64, keep: bool) -> (r:
        Result<Option<i64>, StoreError>)
        requires
            old(self).wf(),
        ensures
            final(self).wf(),
            final(self).user == old(self).user,
            final(self).screenshots == old(self).screenshots,
            final(self).activity_logs == old(self).activity_logs,
            final(self).next_screenshot_id == old(self).next_screenshot_id,
            forall|j: int|
                0 <= j < old(self).sessions@.len() ==> final(self).sessions@[j]
                    == #[trigger] adjust_latest(
                    old(self).sessions@,
                    project_id@,
                    gap_secs as int,
                    keep,
                )[j],
            r == Ok::<Option<i64>, StoreError>(None) <==> has_active_for(
                old(self).sessions@,
                project_id@,
            ),
            r == Ok::<Option<i64>, StoreError>(None) || r is Err ==> final(self).sessions@.len()
                == old(self).sessions@.len() && final(self).next_session_id == old(self).next_session_id,
            r matches Ok(Some(id)) ==> id == old(self).next_session_id && final(self).next_session_id == old(self).next_session_id + 1 && final(self).sessions@.len()
                == old(self).sessions@.len() + 1 && ({
                let last = final(self).sessions@.last();
                &&& last.id == Some(id)
                &&& last.project_id@ == project_id@
                &&& last.is_active
                &&& last.status == SyncStatus::Pending
                &&& last.end_time is None
                &&& 0 <= last.start_time <= MAX_TS_MS
                &&& last.idle_seconds == 0
                &&& last.deducted_seconds == 0
                &&& last.keyboard_events == 0
                &&& last.mouse_events == 0
                &&& last.uuid@.len() == 36
                &&& !has_session_uuid(old(self).sessions@, last.uuid@)
            }),
    {
        let now_ms = crate::clock::clock_now_ms();
        let new_uuid = crate::externals::new_session_uuid();
        let r = self.apply_idle_decision_at(project_id, gap_secs, keep, now_ms, &new_uuid);
        proof {
            lemma_adjust_latest_props(old(self).sessions@, project_id@, gap_secs as int, keep);
        }
        r
    }
}

/// Adjusting the idle bookkeeping of one session keeps the store
/// invariant.
proof fn lemma_adjusted_wf(pre: Store, post: Store, pid: Seq<char>, gap: int, keep: bool)
    requires
        pre.wf(),
        0 <= gap,
        post.sessions@ == adjust_latest(pre.sessions@, pid, gap, keep),
        post.user == pre.user,
        post.screenshots == pre.screenshots,
        post.activity_logs == pre.activity_logs,
        post.next_session_id == pre.next_session_id,
        post.next_screenshot_id == pre.next_screenshot_id,
    ensures
        post.wf(),
{
    lemma_adjust_latest_props(pre.sessions@, pid, gap, keep);
    let n = pre.sessions@.len() as int;
    assert forall|i: int| 0 <= i < n implies (#[trigger] post.sessions@[i]).valid() by {
        assert(pre.sessions@[i].valid());
    }
    assert forall|i: int, j: int|
        0 <= i < j < n implies (#[trigger] post.sessions@[i]).id != (
    #[trigger] post.sessions@[j]).id by {
        assert(pre.sessions@[i].id != pre.sessions@[j].id);
    }
    assert forall|i: int, j: int|
        0 <= i < j < n implies (#[trigger] post.sessions@[i]).uuid@ != (
    #[trigger] post.sessions@[j]).uuid@ by {
        assert(pre.sessions@[i].uuid@ != pre.sessions@[j].uuid@);
    }
    assert forall|i: int, j: int|
        0 <= i < j < n && (#[trigger] post.sessions@[i]).is_active && (
    #[trigger] post.sessions@[j]).is_active implies post.sessions@[i].project_id@
        != post.sessions@[j].project_id@ by {
        assert(pre.sessions@[i].is_active && pre.sessions@[j].is_active);
    }
    assert forall|i: int|
        0 <= i < n implies ((#[trigger] post.sessions@[i]).id matches Some(m) && m
        < post.next_session_id) by {
        assert(pre.sessions@[i].id matches Some(m) && m < pre.next_session_id);
    }
}

} // verus!
