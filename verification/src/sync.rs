//! The sync engine: one cycle of the offline-sync protocol as an explicit
//! state machine.
//!
//! A cycle snapshots the outbox (`begin_sync`), asks its driver to POST the
//! session batch and, one by one, the pending screenshots, and folds every
//! response back in (`on_sessions_response`, `on_refresh_response`,
//! `on_screenshot_response`). The driver performs the I/O and nothing
//! else: which uploads are considered acknowledged, how a 401 is answered
//! with exactly one token refresh, and what `commit_sync` may delete
//! locally are all decided here. Evidence is deleted only after the
//! server confirmed receipt — never before.

use vstd::prelude::*;

use crate::models::ActivityLog;
use crate::models::PendingScreenshot;
use crate::models::Session;
use crate::models::SessionPayload;
use crate::models::SyncSession;
use crate::models::SyncStatus;
use crate::models::User;
use crate::store::logs_for;
use crate::store::pending_sessions_of;
use crate::store::Store;

verus! {

/// The driver's classification of a bulk session upload response.
#[derive(Clone, Copy, PartialEq, Eq, Structural, Debug)]
pub enum UploadResponse {
    /// A 2xx status: the whole batch is acknowledged.
    Success,
    /// A 401 status: the token has expired.
    Unauthorized,
    /// Any other HTTP status: the batch stays pending, the cycle goes on.
    Failure,
    /// No response at all: the cycle is abandoned and retried later.
    NetworkError,
}

/// Where a sync cycle stands.
#[derive(Clone, Copy, PartialEq, Eq, Structural, Debug)]
pub enum SyncPhase {
    /// The session batch awaits upload.
    Sessions,
    /// A 401 was answered; one token refresh is in flight.
    Refresh,
    /// Screenshots are uploaded one by one.
    Screenshots,
    /// All responses are in; the outcome may be committed to the store.
    Commit,
    /// A network error abandoned the cycle; nothing may be committed.
    Aborted,
    /// Authentication could not be refreshed; the driver must log out.
    LoggedOut,
}

/// One entry of the bulk session upload: the wire payload and the
/// session's activity logs (omitted from the wire body when empty).
pub struct SessionUpload {
    pub session: SessionPayload,
    pub activity_logs: Vec<ActivityLog>,
}

/// One sync cycle over a snapshot of the outbox.
pub struct SyncCycle {
    /// The bearer token to authenticate with; replaced by a refresh.
    pub token: String,
    /// The pending sessions, with their activity logs.
    pub uploads: Vec<SessionUpload>,
    /// The pending screenshots.
    pub screenshots: Vec<PendingScreenshot>,
    pub phase: SyncPhase,
    /// Whether the one permitted token refresh was already spent.
    pub refresh_attempted: bool,
    /// Whether the server acknowledged the session batch.
    pub sessions_acked: bool,
    /// One entry per answered screenshot, aligned with `screenshots`.
    pub shot_results: Vec<bool>,
}

impl SyncCycle {
    /// The cycle's own invariant: screenshot answers never outnumber the
    /// screenshots, the screenshot phase still has one outstanding, and
    /// the commit phase has them all.
    pub open spec fn wf(self) -> bool {
        &&& self.shot_results@.len() <= self.screenshots@.len()
        &&& (self.phase == SyncPhase::Screenshots ==> self.shot_results@.len()
            < self.screenshots@.len())
        &&& (self.phase == SyncPhase::Commit ==> self.shot_results@.len()
            == self.screenshots@.len())
        &&& (self.phase == SyncPhase::Sessions || self.phase == SyncPhase::Refresh
            ==> self.shot_results@.len() == 0)
    }

    /// The screenshot the driver should upload next.
    pub fn next_screenshot(&self) -> (r: Option<&PendingScreenshot>)
        requires
            self.wf(),
        ensures
            r is Some <==> self.phase == SyncPhase::Screenshots,
            r matches Some(p) ==> *p == self.screenshots@[self.shot_results@.len() as int],
    {
        if matches!(self.phase, SyncPhase::Screenshots) {
            Some(&self.screenshots[self.shot_results.len()])
        } else {
            None
        }
    }

    /// Folds the response to the bulk session upload in: a success
    /// acknowledges the whole batch; the first 401 asks for one token
    /// refresh and a repeated one gives up on the login; any other HTTP
    /// failure leaves the batch pending and moves on to the screenshots;
    /// no response at all abandons the cycle.
    pub fn on_sessions_response(&mut self, resp: UploadResponse)
        requires
            old(self).wf(),
            old(self).phase == SyncPhase::Sessions,
        ensures
            final(self).wf(),
            final(self).token == old(self).token,
            final(self).uploads == old(self).uploads,
            final(self).screenshots == old(self).screenshots,
            final(self).shot_results == old(self).shot_results,
            final(self).refresh_attempted == old(self).refresh_attempted,
            resp == UploadResponse::Success ==> final(self).sessions_acked && final(self).phase
                == (if old(self).screenshots@.len() > 0 {
                SyncPhase::Screenshots
            } else {
                SyncPhase::Commit
            }),
            resp == UploadResponse::Failure ==> !final(self).sessions_acked && final(self).phase
                == (if old(self).screenshots@.len() > 0 {
                SyncPhase::Screenshots
            } else {
                SyncPhase::Commit
            }),
            resp == UploadResponse::Unauthorized && !old(self).refresh_attempted ==> final(self).phase == SyncPhase::Refresh && final(self).sessions_acked == old(self).sessions_acked,
            resp == UploadResponse::Unauthorized && old(self).refresh_attempted ==> final(self).phase == SyncPhase::LoggedOut && final(self).sessions_acked == old(self).sessions_acked,
            resp == UploadResponse::NetworkError ==> final(self).phase == SyncPhase::Aborted
                && final(self).sessions_acked == old(self).sessions_acked,
    {
        match resp {
            UploadResponse::Success => {
                self.sessions_acked = true;
                self.phase = if self.screenshots.len() > 0 {
                    SyncPhase::Screenshots
                } else {
                    SyncPhase::Commit
                };
            },
            UploadResponse::Failure => {
                self.sessions_acked = false;
                self.phase = if self.screenshots.len() > 0 {
                    SyncPhase::Screenshots
                } else {
                    SyncPhase::Commit
                };
            },
            UploadResponse::Unauthorized => {
                self.phase = if self.refresh_attempted {
                    SyncPhase::LoggedOut
                } else {
                    SyncPhase::Refresh
                };
            },
            UploadResponse::NetworkError => {
                self.phase = SyncPhase::Aborted;
            },
        }
    }

    /// Folds the token refresh response in: a fresh token retries the
    /// same batch exactly once; a failed refresh gives up on the login.
    pub fn on_refresh_response(&mut self, new_token: Option<String>)
        requires
            old(self).wf(),
            old(self).phase == SyncPhase::Refresh,
        ensures
            final(self).wf(),
            final(self).uploads == old(self).uploads,
            final(self).screenshots == old(self).screenshots,
            final(self).shot_results == old(self).shot_results,
            final(self).sessions_acked == old(self).sessions_acked,
            new_token matches Some(t) ==> final(self).token == t && final(self).refresh_attempted
                && final(self).phase == SyncPhase::Sessions,
            new_token is None ==> final(self).token == old(self).token && final(self).refresh_attempted == old(self).refresh_attempted && final(self).phase
                == SyncPhase::LoggedOut,
    {
        match new_token {
            Some(t) => {
                self.token = t;
                self.refresh_attempted = true;
                self.phase = SyncPhase::Sessions;
            },
            None => {
                self.phase = SyncPhase::LoggedOut;
            },
        }
    }

    /// Folds one screenshot upload response in; failures are isolated and
    /// never block the remaining screenshots. After the last response the
    /// cycle is ready to commit.
    pub fn on_screenshot_response(&mut self, ok: bool)
        requires
            old(self).wf(),
            old(self).phase == SyncPhase::Screenshots,
        ensures
            final(self).wf(),
            final(self).token == old(self).token,
            final(self).uploads == old(self).uploads,
            final(self).screenshots == old(self).screenshots,
            final(self).refresh_attempted == old(self).refresh_attempted,
            final(self).sessions_acked == old(self).sessions_acked,
            final(self).shot_results@ == old(self).shot_results@.push(ok),
            final(self).phase == (if old(self).shot_results@.len() + 1 < old(self).screenshots@.len() {
                SyncPhase::Screenshots
            } else {
                SyncPhase::Commit
            }),
    {
        self.shot_results.push(ok);
        self.phase = if self.shot_results.len() < self.screenshots.len() {
            SyncPhase::Screenshots
        } else {
            SyncPhase::Commit
        };
    }
}

impl Store {
    /// Replaces the cached user's auth token, as the refresh step
    /// persists its result. A no-op while logged out.
    pub fn set_token(&mut self, token: &String)
        requires
            old(self).wf(),
        ensures
            final(self).wf(),
            final(self).sessions == old(self).sessions,
            final(self).screenshots == old(self).screenshots,
            final(self).activity_logs == old(self).activity_logs,
            final(self).next_session_id == old(self).next_session_id,
            final(self).next_screenshot_id == old(self).next_screenshot_id,
            old(self).user is None ==> *final(self) == *old(self),
            old(self).user matches Some(u) ==> final(self).user == (Some(
                User { token: *token, ..u },
            )),
    {
        match &mut self.user {
            Some(u) => {
                u.token = token.clone();
            },
            None => {},
        }
    }

    /// Snapshots the outbox into a fresh sync cycle: the current token,
    /// every pending session with its activity logs, and every pending
    /// screenshot. Returns `None`, leaving everything untouched, while
    /// not logged in. An empty outbox yields a cycle that is immediately
    /// ready to commit — and committing it changes nothing.
    pub fn begin_sync(&self) -> (r: Option<SyncCycle>)
        requires
            self.wf(),
        ensures
            r is Some <==> self.user is Some,
            r matches Some(c) ==> {
                let pending = pending_sessions_of(self.sessions@);
                &&& c.wf()
                &&& c.token@ == self.user->Some_0.token@
                &&& c.uploads@.len() == pending.len()
                &&& (forall|i: int|
                    0 <= i < pending.len() ==> (#[trigger] c.uploads@[i]).session
                        == SessionPayload::of_session(pending[i]))
                &&& (forall|i: int|
                    0 <= i < pending.len() ==> (#[trigger] c.uploads@[i]).activity_logs@
                        == logs_for(self.activity_logs@, pending[i].uuid@))
                &&& c.screenshots@ == self.screenshots@
                &&& c.shot_results@.len() == 0
                &&& !c.refresh_attempted
                &&& !c.sessions_acked
                &&& c.phase == (if pending.len() > 0 {
                    SyncPhase::Sessions
                } else if self.screenshots@.len() > 0 {
                    SyncPhase::Screenshots
                } else {
                    SyncPhase::Commit
                })
            },
    {
        let token = match &self.user {
            Some(u) => u.token.clone(),
            None => {
                return None;
            },
        };
        let pending = self.get_pending_sessions();
        let n = pending.len();
        let mut uploads: Vec<SessionUpload> = Vec::new();
        let mut k: usize = 0;
        while k < n
            invariant
                n == pending@.len(),
                0 <= k <= n,
                pending@ == pending_sessions_of(self.sessions@),
                uploads@.len() == k,
                forall|i: int|
                    0 <= i < k ==> (#[trigger] uploads@[i]).session == SessionPayload::of_session(
                        pending@[i],
                    ) && uploads@[i].activity_logs@ == logs_for(
                        self.activity_logs@,
                        pending@[i].uuid@,
                    ),
            decreases n - k,
        {
            let entry = SessionUpload {
                session: SessionPayload::from_session(&pending[k]),
                activity_logs: self.get_activity_logs_for_session(&pending[k].uuid),
            };
            uploads.push(entry);
            k += 1;
        }
        let screenshots = self.get_pending_screenshots();
        let phase = if uploads.len() > 0 {
            SyncPhase::Sessions
        } else if screenshots.len() > 0 {
            SyncPhase::Screenshots
        } else {
            SyncPhase::Commit
        };
        Some(
            SyncCycle {
                token,
                uploads,
                screenshots,
                phase,
                refresh_attempted: false,
                sessions_acked: false,
                shot_results: Vec::new(),
            },
        )
    }
}

/// The identifiers of the sessions in the upload batch.
pub open spec fn batch_uuids(uploads: Seq<SessionUpload>) -> Seq<Seq<char>> {
    uploads.map_values(|u: SessionUpload| u.session.uuid@)
}

/// Whether `u` is among the batch identifiers.
pub open spec fn in_batch(uuids: Seq<Seq<char>>, u: Seq<char>) -> bool {
    exists|k: int| 0 <= k < uuids.len() && uuids[k] == u
}

/// The session row as the commit leaves it: a row whose identifier is in
/// the acknowledged batch becomes done, any other row is untouched.
pub open spec fn mark_done_session(s: Session, uuids: Seq<Seq<char>>) -> Session {
    if in_batch(uuids, s.uuid@) {
        Session { status: SyncStatus::Done, ..s }
    } else {
        s
    }
}

/// The predicate keeping activity logs whose session is not in the
/// acknowledged batch.
pub open spec fn kept_log_pred(uuids: Seq<Seq<char>>) -> spec_fn(ActivityLog) -> bool {
    |l: ActivityLog| !in_batch(uuids, l.session_uuid@)
}

/// Whether the cycle recorded a successful upload for screenshot row
/// `id`.
pub open spec fn shot_acked(c: SyncCycle, id: i64) -> bool {
    exists|i: int|
        0 <= i < c.shot_results@.len() && i < c.screenshots@.len() && c.shot_results@[i]
            && c.screenshots@[i].id == id
}

/// The predicate keeping screenshots the cycle did not see acknowledged.
pub open spec fn kept_shot_pred(c: SyncCycle) -> spec_fn(PendingScreenshot) -> bool {
    |p: PendingScreenshot| !shot_acked(c, p.id)
}

/// Whether `uuid` is among the batch identifiers.
fn batch_contains(uploads: &Vec<SessionUpload>, uuid: &String) -> (r: bool)
    ensures
        r == in_batch(batch_uuids(uploads@), uuid@),
{
    let n = uploads.len();
    let mut k: usize = 0;
    while k < n
        invariant
            n == uploads@.len(),
            0 <= k <= n,
            forall|i: int| 0 <= i < k ==> (#[trigger] uploads@[i]).session.uuid@ != uuid@,
        decreases n - k,
    {
        if crate::models::str_eq(&uploads[k].session.uuid, uuid) {
            proof {
                assert(batch_uuids(uploads@)[k as int] == uuid@);
            }
            return true;
        }
        k += 1;
    }
    proof {
        assert forall|i: int| 0 <= i < batch_uuids(uploads@).len() implies batch_uuids(uploads@)[i]
            != uuid@ by {
            assert(uploads@[i].session.uuid@ != uuid@);
        }
    }
    false
}

impl SyncCycle {
    /// Whether the cycle recorded a successful upload for screenshot row
    /// `id`.
    fn shot_acked_check(&self, id: i64) -> (r: bool)
        requires
            self.wf(),
        ensures
            r == shot_acked(*self, id),
    {
        let n = self.shot_results.len();
        let mut k: usize = 0;
        while k < n
            invariant
                self.wf(),
                n == self.shot_results@.len(),
                n <= self.screenshots@.len(),
                0 <= k <= n,
                forall|i: int|
                    0 <= i < k ==> !((#[trigger] self.shot_results@[i])
                        && self.screenshots@[i].id == id),
            decreases n - k,
        {
            if self.shot_results[k] && self.screenshots[k].id == id {
                return true;
            }
            k += 1;
        }
        false
    }
}

impl Store {
    /// Commits one finished sync cycle in a single step: when the server
    /// acknowledged the session batch, every batch session is marked done
    /// and its activity logs are deleted — both together or not at all —
    /// and exactly the screenshots whose individual upload was
    /// acknowledged are deleted. Re-running a cycle that found an empty
    /// outbox commits no change at all.
    pub fn commit_sync(&mut self, cycle: &SyncCycle)
        requires
            old(self).wf(),
            cycle.wf(),
            cycle.phase == SyncPhase::Commit,
        ensures
            final(self).wf(),
            final(self).user == old(self).user,
            final(self).next_session_id == old(self).next_session_id,
            final(self).next_screenshot_id == old(self).next_screenshot_id,
            cycle.sessions_acked ==> final(self).sessions@.len() == old(self).sessions@.len() && (
            forall|i: int|
                0 <= i < old(self).sessions@.len() ==> final(self).sessions@[i]
                    == mark_done_session(
                    #[trigger] old(self).sessions@[i],
                    batch_uuids(cycle.uploads@),
                )) && final(self).activity_logs@ == old(self).activity_logs@.filter(
                kept_log_pred(batch_uuids(cycle.uploads@)),
            ),
            !cycle.sessions_acked ==> final(self).sessions == old(self).sessions && final(self).activity_logs == old(self).activity_logs,
            final(self).screenshots@ == old(self).screenshots@.filter(kept_shot_pred(*cycle)),
            cycle.uploads@.len() == 0 && cycle.screenshots@.len() == 0 ==> *final(self) == *old(self),
    {
        if cycle.uploads.len() == 0 && cycle.screenshots.len() == 0 {
            proof {
                lemma_filter_id(self.screenshots@, kept_shot_pred(*cycle));
                if cycle.sessions_acked {
                    lemma_filter_id(self.activity_logs@, kept_log_pred(batch_uuids(cycle.uploads@)));
                }
            }
            return ;
        }
        let ghost uuids = batch_uuids(cycle.uploads@);
        if cycle.sessions_acked {
            let n = self.sessions.len();
            let mut k: usize = 0;
            while k < n
                invariant
                    old(self).wf(),
                    uuids == batch_uuids(cycle.uploads@),
                    n == old(self).sessions@.len(),
                    0 <= k <= n,
                    self.sessions@.len() == n,
                    self.user == old(self).user,
                    self.screenshots == old(self).screenshots,
                    self.activity_logs == old(self).activity_logs,
                    self.next_session_id == old(self).next_session_id,
                    self.next_screenshot_id == old(self).next_screenshot_id,
                    forall|i: int|
                        0 <= i < k ==> self.sessions@[i] == mark_done_session(
                            #[trigger] old(self).sessions@[i],
                            uuids,
                        ),
                    forall|i: int| k <= i < n ==> self.sessions@[i] == old(self).sessions@[i],
                decreases n - k,
            {
                if batch_contains(&cycle.uploads, &self.sessions[k].uuid) {
                    self.sessions[k].status = SyncStatus::Done;
                }
                k += 1;
            }
            proof {
                lemma_pointwise_mark_preserves_wf(*old(self), *self, uuids);
            }
            let ghost pred = kept_log_pred(uuids);
            let m = self.activity_logs.len();
            let mut out: Vec<ActivityLog> = Vec::new();
            let mut j: usize = 0;
            while j < m
                invariant
                    m == self.activity_logs@.len(),
                    0 <= j <= m,
                    uuids == batch_uuids(cycle.uploads@),
                    pred == kept_log_pred(uuids),
                    out@ == self.activity_logs@.take(j as int).filter(pred),
                decreases m - j,
            {
                proof {
                    self.activity_logs@.lemma_take_succ_push(j as int);
                    self.activity_logs@.take(j as int).lemma_filter_push(
                        self.activity_logs@[j as int],
                        pred,
                    );
                }
                if !batch_contains(&cycle.uploads, &self.activity_logs[j].session_uuid) {
                    out.push(self.activity_logs[j].clone());
                }
                j += 1;
            }
            proof {
                assert(self.activity_logs@.take(m as int) =~= self.activity_logs@);
                crate::store::lemma_filter_keeps_all_valid(self.activity_logs@, pred);
            }
            self.activity_logs = out;
        }
        let ghost shot_pred = kept_shot_pred(*cycle);
        let m = self.screenshots.len();
        let mut out: Vec<PendingScreenshot> = Vec::new();
        let mut j: usize = 0;
        while j < m
            invariant
                cycle.wf(),
                m == self.screenshots@.len(),
                0 <= j <= m,
                shot_pred == kept_shot_pred(*cycle),
                out@ == self.screenshots@.take(j as int).filter(shot_pred),
            decreases m - j,
        {
            proof {
                self.screenshots@.lemma_take_succ_push(j as int);
                self.screenshots@.take(j as int).lemma_filter_push(
                    self.screenshots@[j as int],
                    shot_pred,
                );
            }
            if !cycle.shot_acked_check(self.screenshots[j].id) {
                out.push(self.screenshots[j].clone());
            }
            j += 1;
        }
        proof {
            assert(self.screenshots@.take(m as int) =~= self.screenshots@);
            crate::store::lemma_shot_filter_wf(
                self.screenshots@,
                shot_pred,
                self.next_screenshot_id,
            );
        }
        self.screenshots = out;
    }
}

/// Filtering with a predicate that holds everywhere changes nothing.
proof fn lemma_filter_id<T>(s: Seq<T>, p: spec_fn(T) -> bool)
    requires
        forall|i: int| 0 <= i < s.len() ==> p(#[trigger] s[i]),
    ensures
        s.filter(p) == s,
    decreases s.len(),
{
    reveal(Seq::filter);
    if s.len() > 0 {
        let d = s.drop_last();
        assert forall|i: int| 0 <= i < d.len() implies p(#[trigger] d[i]) by {
            assert(d[i] == s[i]);
        }
        lemma_filter_id(d, p);
        assert(s.filter(p) =~= s);
    }
}

/// What pull reconciliation did with one remote session record.
#[derive(Clone, Copy, PartialEq, Eq, Structural, Debug)]
pub enum MergeOutcome {
    /// No local row carried the identifier: inserted as an already-done
    /// row.
    Inserted,
    /// The remote estimated duration was strictly greater: the local row
    /// was overwritten.
    Updated,
    /// The remote estimated duration was not greater: the local row, and
    /// with it its idle and deducted bookkeeping, was left untouched.
    Unchanged,
    /// The record was malformed, or accepting it would have produced a
    /// second active session of one project: treated as a failure and
    /// skipped.
    Rejected,
}

/// The merge rule of pull reconciliation: a remote record overwrites the
/// local row only when its estimated duration is strictly greater.
pub open spec fn should_overwrite(local: Session, remote: SyncSession, now: int) -> bool {
    remote.est_duration_ms(now) > local.est_duration_ms(now)
}

/// Accepting the remote record would activate the row at `li` while
/// another session of the same project is active.
pub open spec fn merge_conflict(ss: Seq<Session>, li: int, r: SyncSession) -> bool {
    r.is_active && exists|j: int|
        0 <= j < ss.len() && j != li && (#[trigger] ss[j]).is_active && ss[j].project_id@
            == ss[li].project_id@
}

/// Law (round trip): a remote record whose estimated duration does not
/// exceed the local session's never overwrites it, so the local idle and
/// deducted bookkeeping cannot regress.
pub proof fn lemma_no_overwrite_without_longer_duration(
    local: Session,
    remote: SyncSession,
    now: int,
)
    requires
        remote.est_duration_ms(now) <= local.est_duration_ms(now),
    ensures
        !should_overwrite(local, remote, now),
{
}

/// Law (round trip): a remote record carrying the very span a local
/// session was uploaded with has the same estimated duration, so fetching
/// an uploaded session back never overwrites it.
pub proof fn lemma_round_trip_same_span(local: Session, remote: SyncSession, now: int)
    requires
        remote.start_time == local.start_time,
        remote.end_time == local.end_time,
    ensures
        remote.est_duration_ms(now) == local.est_duration_ms(now),
        !should_overwrite(local, remote, now),
{
}

/// The index of the local row carrying the remote record's identifier.
/// Meaningful when one exists; with unique identifiers it is the one.
pub open spec fn merge_target(ss: Seq<Session>, r: SyncSession) -> int {
    choose|i: int| 0 <= i < ss.len() && (#[trigger] ss[i]).uuid@ == r.uuid@
}

/// What merging one remote record into the given session rows decides,
/// as a function of the rows, the next row id, the record and `now`.
pub open spec fn merge_outcome_spec(
    ss: Seq<Session>,
    next_id: i64,
    r: SyncSession,
    now: int,
) -> MergeOutcome {
    if !r.acceptable() {
        MergeOutcome::Rejected
    } else if !crate::store::has_session_uuid(ss, r.uuid@) {
        if r.is_active && crate::store::has_active_for(ss, r.project_id@) {
            MergeOutcome::Rejected
        } else if next_id == i64::MAX {
            MergeOutcome::Rejected
        } else {
            MergeOutcome::Inserted
        }
    } else {
        let li = merge_target(ss, r);
        if !should_overwrite(ss[li], r, now) {
            MergeOutcome::Unchanged
        } else if merge_conflict(ss, li, r) {
            MergeOutcome::Rejected
        } else {
            MergeOutcome::Updated
        }
    }
}

/// The session rows after merging one remote record: untouched when the
/// record is rejected or not longer, pushed as an imported row when
/// unknown, the pointwise overwrite image when it wins.
pub open spec fn merge_step_sessions(
    ss: Seq<Session>,
    next_id: i64,
    r: SyncSession,
    now: int,
) -> Seq<Session> {
    match merge_outcome_spec(ss, next_id, r, now) {
        MergeOutcome::Inserted => ss.push(crate::store::imported_session(r, next_id)),
        MergeOutcome::Updated => ss.map_values(
            |s: Session| crate::store::merged_session(s, r),
        ),
        MergeOutcome::Unchanged => ss,
        MergeOutcome::Rejected => ss,
    }
}

/// The next row id after merging one remote record: advanced only by an
/// insertion.
pub open spec fn merge_step_next_id(ss: Seq<Session>, next_id: i64, r: SyncSession, now: int) -> i64 {
    if merge_outcome_spec(ss, next_id, r, now) == MergeOutcome::Inserted {
        (next_id + 1) as i64
    } else {
        next_id
    }
}

/// The session rows and the next row id after merging the first `k`
/// remote records, in order.
pub open spec fn reconcile_state(
    ss: Seq<Session>,
    next_id: i64,
    remote: Seq<SyncSession>,
    k: int,
    now: int,
) -> (Seq<Session>, i64)
    decreases k,
{
    if k <= 0 {
        (ss, next_id)
    } else {
        let prev = reconcile_state(ss, next_id, remote, k - 1, now);
        (
            merge_step_sessions(prev.0, prev.1, remote[k - 1], now),
            merge_step_next_id(prev.0, prev.1, remote[k - 1], now),
        )
    }
}

/// The estimated span in milliseconds: end minus start, `now` standing in
/// for a missing end, floored at zero.
fn est_duration_exec(start: i64, end: Option<i64>, now_ms: i64) -> (r: i64)
    requires
        0 <= start,
    ensures
        r as int == crate::models::est_span_ms(start as int, end, now_ms as int),
{
    let e = match end {
        Some(e) => e,
        None => now_ms,
    };
    if e > start {
        e - start
    } else {
        0
    }
}

impl Store {
    /// Merges one session record held by the remote service: a record
    /// with an unknown identifier is inserted as an already-done row; a
    /// known one overwrites the local row only when the remote estimated
    /// duration is strictly greater. A malformed record, and one that
    /// would produce a second active session of one project, is treated
    /// as a failure and skipped.
    pub fn merge_remote_session(&mut self, r: &SyncSession, now_ms: i64) -> (res: MergeOutcome)
        requires
            old(self).wf(),
        ensures
            final(self).wf(),
            final(self).user == old(self).user,
            final(self).screenshots == old(self).screenshots,
            final(self).activity_logs == old(self).activity_logs,
            final(self).next_screenshot_id == old(self).next_screenshot_id,
            !r.acceptable() ==> res == MergeOutcome::Rejected && *final(self) == *old(self),
            r.acceptable() && !crate::store::has_session_uuid(old(self).sessions@, r.uuid@) ==> {
                let conflict = r.is_active && crate::store::has_active_for(
                    old(self).sessions@,
                    r.project_id@,
                );
                &&& (conflict ==> res == MergeOutcome::Rejected && *final(self) == *old(self))
                &&& (!conflict && old(self).next_session_id == i64::MAX ==> res
                    == MergeOutcome::Rejected && *final(self) == *old(self))
                &&& (!conflict && old(self).next_session_id < i64::MAX ==> res
                    == MergeOutcome::Inserted && final(self).sessions@ == old(
                    self,
                ).sessions@.push(crate::store::imported_session(*r, old(self).next_session_id))
                    && final(self).next_session_id == old(self).next_session_id + 1)
            },
            r.acceptable() && crate::store::has_session_uuid(old(self).sessions@, r.uuid@)
                ==> forall|li: int|
                0 <= li < old(self).sessions@.len() && (#[trigger] old(self).sessions@[li]).uuid@
                    == r.uuid@ ==> {
                    let local = old(self).sessions@[li];
                    &&& (!should_overwrite(local, *r, now_ms as int) ==> res
                        == MergeOutcome::Unchanged && *final(self) == *old(self))
                    &&& (should_overwrite(local, *r, now_ms as int) && merge_conflict(
                        old(self).sessions@,
                        li,
                        *r,
                    ) ==> res == MergeOutcome::Rejected && *final(self) == *old(self))
                    &&& (should_overwrite(local, *r, now_ms as int) && !merge_conflict(
                        old(self).sessions@,
                        li,
                        *r,
                    ) ==> res == MergeOutcome::Updated && final(self).sessions@.len() == old(
                        self,
                    ).sessions@.len() && (forall|i: int|
                        0 <= i < old(self).sessions@.len() ==> final(self).sessions@[i]
                            == crate::store::merged_session(#[trigger] old(self).sessions@[i], *r))
                        && final(self).next_session_id == old(self).next_session_id)
                },
            res == merge_outcome_spec(
                old(self).sessions@,
                old(self).next_session_id,
                *r,
                now_ms as int,
            ),
            final(self).sessions@ == merge_step_sessions(
                old(self).sessions@,
                old(self).next_session_id,
                *r,
                now_ms as int,
            ),
            final(self).next_session_id == merge_step_next_id(
                old(self).sessions@,
                old(self).next_session_id,
                *r,
                now_ms as int,
            ),
    {
        if !r.check_acceptable() {
            return MergeOutcome::Rejected;
        }
        let local = match self.get_session_by_uuid(&r.uuid) {
            Some(s) => s,
            None => {
                if r.is_active && self.get_active_session(&r.project_id).is_some() {
                    return MergeOutcome::Rejected;
                }
                match self.create_imported_session(r) {
                    Ok(_) => {
                        proof {
                            assert(merge_outcome_spec(
                                old(self).sessions@,
                                old(self).next_session_id,
                                *r,
                                now_ms as int,
                            ) == MergeOutcome::Inserted);
                        }
                        return MergeOutcome::Inserted;
                    },
                    Err(_) => {
                        return MergeOutcome::Rejected;
                    },
                }
            },
        };
        let ghost li = choose|i: int|
            0 <= i < self.sessions@.len() && #[trigger] self.sessions@[i] == local && local.uuid@
                == r.uuid@;
        proof {
            assert(self.sessions@[li].valid());
            assert forall|i: int|
                0 <= i < self.sessions@.len() && (#[trigger] self.sessions@[i]).uuid@
                    == r.uuid@ implies i == li by {
                if i != li {
                    assert(self.sessions@[i].uuid@ != self.sessions@[li].uuid@);
                }
            }
            // The spec-level target is this very row: both carry the
            // identifier, and identifiers are unique.
            assert(crate::store::has_session_uuid(self.sessions@, r.uuid@));
            assert(0 <= merge_target(self.sessions@, *r) < self.sessions@.len()
                && self.sessions@[merge_target(self.sessions@, *r)].uuid@ == r.uuid@);
            assert(merge_target(self.sessions@, *r) == li);
            assert(self.sessions@[li] == local);
        }
        let local_dur = est_duration_exec(local.start_time, local.end_time, now_ms);
        let remote_dur = est_duration_exec(r.start_time, r.end_time, now_ms);
        if remote_dur <= local_dur {
            return MergeOutcome::Unchanged;
        }
        if r.is_active {
            match self.get_active_session(&local.project_id) {
                Some(a) => {
                    if !crate::models::str_eq(&a.uuid, &r.uuid) {
                        proof {
                            let ja = choose|j: int|
                                0 <= j < self.sessions@.len() && #[trigger] self.sessions@[j] == a
                                    && a.is_active && a.project_id@ == local.project_id@;
                            assert(ja != li);
                            assert(merge_conflict(self.sessions@, li, *r));
                        }
                        return MergeOutcome::Rejected;
                    }
                },
                None => {},
            }
        }
        proof {
            if r.is_active {
                assert forall|i: int, j: int|
                    0 <= i < self.sessions@.len() && 0 <= j < self.sessions@.len() && (
                #[trigger] self.sessions@[j]).uuid@ == r.uuid@ && (
                #[trigger] self.sessions@[i]).is_active && self.sessions@[i].project_id@
                    == self.sessions@[j].project_id@ implies i == j by {
                    assert(j == li);
                    assert(i == li) by {
                        if i != li {
                            assert(merge_conflict(self.sessions@, li, *r));
                            assert(false);
                        }
                    }
                }
                assert(!merge_conflict(self.sessions@, li, *r));
            }
            assert(crate::store::merge_active_ok(self.sessions@, *r));
        }
        self.update_imported_session(r);
        proof {
            assert(merge_outcome_spec(
                old(self).sessions@,
                old(self).next_session_id,
                *r,
                now_ms as int,
            ) == MergeOutcome::Updated);
            assert(self.sessions@ =~= merge_step_sessions(
                old(self).sessions@,
                old(self).next_session_id,
                *r,
                now_ms as int,
            ));
        }
        MergeOutcome::Updated
    }

    /// Merges every session record the remote service holds for the day,
    /// in order, reporting what happened to each: the final rows and the
    /// next row id are exactly the fold of the one-record merge over the
    /// records, each outcome taken in the state its record found. An
    /// empty response changes nothing.
    pub fn reconcile_remote(&mut self, remote: &Vec<SyncSession>, now_ms: i64) -> (r: Vec<
        MergeOutcome,
    >)
        requires
            old(self).wf(),
        ensures
            final(self).wf(),
            final(self).user == old(self).user,
            final(self).screenshots == old(self).screenshots,
            final(self).activity_logs == old(self).activity_logs,
            final(self).next_screenshot_id == old(self).next_screenshot_id,
            r@.len() == remote@.len(),
            final(self).sessions@ == reconcile_state(
                old(self).sessions@,
                old(self).next_session_id,
                remote@,
                remote@.len() as int,
                now_ms as int,
            ).0,
            final(self).next_session_id == reconcile_state(
                old(self).sessions@,
                old(self).next_session_id,
                remote@,
                remote@.len() as int,
                now_ms as int,
            ).1,
            forall|k: int|
                0 <= k < remote@.len() ==> {
                    let pre = reconcile_state(
                        old(self).sessions@,
                        old(self).next_session_id,
                        remote@,
                        k,
                        now_ms as int,
                    );
                    #[trigger] r@[k] == merge_outcome_spec(pre.0, pre.1, remote@[k], now_ms as int)
                },
            remote@.len() == 0 ==> *final(self) == *old(self),
    {
        let n = remote.len();
        let mut out: Vec<MergeOutcome> = Vec::new();
        let mut k: usize = 0;
        while k < n
            invariant
                n == remote@.len(),
                0 <= k <= n,
                out@.len() == k,
                k == 0 ==> *self == *old(self),
                self.wf(),
                self.user == old(self).user,
                self.screenshots == old(self).screenshots,
                self.activity_logs == old(self).activity_logs,
                self.next_screenshot_id == old(self).next_screenshot_id,
                self.sessions@ == reconcile_state(
                    old(self).sessions@,
                    old(self).next_session_id,
                    remote@,
                    k as int,
                    now_ms as int,
                ).0,
                self.next_session_id == reconcile_state(
                    old(self).sessions@,
                    old(self).next_session_id,
                    remote@,
                    k as int,
                    now_ms as int,
                ).1,
                forall|i: int|
                    0 <= i < k ==> {
                        let pre = reconcile_state(
                            old(self).sessions@,
                            old(self).next_session_id,
                            remote@,
                            i,
                            now_ms as int,
                        );
                        #[trigger] out@[i] == merge_outcome_spec(
                            pre.0,
                            pre.1,
                            remote@[i],
                            now_ms as int,
                        )
                    },
            decreases n - k,
        {
            let o = self.merge_remote_session(&remote[k], now_ms);
            out.push(o);
            k += 1;
        }
        out
    }
}

/// Marking batch sessions done keeps the store invariant: only the sync
/// status changes.
proof fn lemma_pointwise_mark_preserves_wf(pre: Store, post: Store, uuids: Seq<Seq<char>>)
    requires
        pre.wf(),
        post.sessions@.len() == pre.sessions@.len(),
        forall|i: int|
            0 <= i < pre.sessions@.len() ==> post.sessions@[i] == mark_done_session(
                #[trigger] pre.sessions@[i],
                uuids,
            ),
        post.next_session_id == pre.next_session_id,
        post.screenshots == pre.screenshots,
        post.activity_logs == pre.activity_logs,
        post.next_screenshot_id == pre.next_screenshot_id,
    ensures
        post.wf(),
{
    let n = pre.sessions@.len() as int;
    assert forall|i: int| 0 <= i < n implies (#[trigger] post.sessions@[i]).valid() by {
        assert(pre.sessions@[i].valid());
    }
    assert forall|i: int, j: int|
        0 <= i < j < n implies (#[trigger] post.sessions@[i]).id != (
    #[trigger] post.sessions@[j]).id by {
        assert(pre.sessions@[i].id != pre.sessions@[j].id);
    }
    assert forall|i: int, j: int|
        0 <= i < j < n implies (#[trigger] post.sessions@[i]).uuid@ != (
    #[trigger] post.sessions@[j]).uuid@ by {
        assert(pre.sessions@[i].uuid@ != pre.sessions@[j].uuid@);
    }
    assert forall|i: int, j: int|
        0 <= i < j < n && (#[trigger] post.sessions@[i]).is_active && (
    #[trigger] post.sessions@[j]).is_active implies post.sessions@[i].project_id@
        != post.sessions@[j].project_id@ by {
        assert(pre.sessions@[i].is_active && pre.sessions@[j].is_active);
    }
    assert forall|i: int|
        0 <= i < n implies ((#[trigger] post.sessions@[i]).id matches Some(m) && m
        < post.next_session_id) by {
        assert(pre.sessions@[i].id matches Some(m) && m < pre.next_session_id);
    }
}

} // verus!
