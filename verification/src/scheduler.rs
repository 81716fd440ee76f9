//! The build queue and scheduler: accepting submissions (single-flight,
//! deduplication, capacity), aborting builds, and the worker-loop steps
//! that promote queued requests to the active build.

use vstd::prelude::*;
use vstd::string::StringExecFns;

use crate::kv::KvMap;
use crate::state::AppState;
use crate::state::BuildProcess;
use crate::state::BuildRequest;
use crate::state::BuildResponse;
use crate::state::ProjectLog;
use crate::state::queue_has_key;
use crate::status::Status;

verus! {

/// The status a submission receives, decided in order: queue at capacity,
/// key already active, key already queued; otherwise accepted, as
/// `Building` when no build is active and `Pending` when one is.
pub open spec fn submit_decision(s: AppState, key: Seq<char>) -> Status {
    if s.builds.build_queue@.len() >= s.config.project.max_pending_build as int {
        Status::MaxPending
    } else if s.builds.active_conflicts(key) {
        Status::AlreadyBuilding
    } else if queue_has_key(s.builds.build_queue@, key) {
        Status::AlreadyQueue
    } else if s.builds.current_build is Some {
        Status::Pending
    } else {
        Status::Building
    }
}

/// True when the status stands for an accepted submission.
pub open spec fn is_accepted(st: Status) -> bool {
    st == Status::Pending || st == Status::Building
}

/// The `queued` milestone appended to the project event log when a
/// submission is accepted.
pub open spec fn queued_milestone(
    pl: ProjectLog,
    req: BuildRequest,
    now: i64,
    running: bool,
) -> bool {
    &&& pl.id == req.id
    &&& pl.timestamp == now
    &&& pl.unique_id == req.unique_id
    &&& pl.socket_token == req.socket_token
    &&& pl.step == 0
    &&& pl.state == (if !running {
        Status::Building
    } else {
        Status::Pending
    })
    &&& pl.message@ == "In Queue"@
}

impl AppState {
    /// Accepts or rejects a submission.  The rejection conditions are
    /// checked in order: queue at capacity (`MaxPending`), unique key
    /// equal to the active build's (`AlreadyBuilding`), unique key already
    /// queued (`AlreadyQueue`).  On acceptance the request goes to the
    /// tail of the queue and a `queued` milestone is appended to the
    /// project event log.
    pub fn submit(&mut self, req: BuildRequest, now: i64) -> (r: BuildResponse)
        requires
            old(self).wf(),
        ensures
            final(self).wf(),
            r.status == submit_decision(*old(self), req.unique_id@),
            final(self).config == old(self).config,
            final(self).builds.current_build == old(self).builds.current_build,
            final(self).builds.failed_history == old(self).builds.failed_history,
            final(self).is_queue_running == old(self).is_queue_running,
            final(self).is_terminated == old(self).is_terminated,
            final(self).project_token == old(self).project_token,
            !is_accepted(r.status) ==> *final(self) == *old(self),
            r.status == Status::AlreadyBuilding ==> (old(
                self,
            ).builds.current_build matches Some(b) && r.build_id == Some(b.id) && r.token == Some(
                b.socket_token,
            )),
            (r.status == Status::AlreadyQueue || r.status == Status::MaxPending) ==> r.build_id
                is None && r.token is None,
            is_accepted(r.status) ==> {
                &&& final(self).builds.build_queue@ == old(self).builds.build_queue@.push(req)
                &&& r.token == Some(req.socket_token)
                &&& r.build_id == Some(req.id)
                &&& final(self).project_logs@.len() == old(self).project_logs@.len() + 1
                &&& final(self).project_logs@.drop_last() == old(self).project_logs@
                &&& queued_milestone(
                    final(self).project_logs@.last(),
                    req,
                    now,
                    old(self).is_queue_running,
                )
            },
    {
        if self.builds.build_queue.len() >= self.config.project.max_pending_build as usize {
            return BuildResponse {
                message: "Max Pending Reached".to_owned(),
                status: Status::MaxPending,
                token: None,
                build_id: None,
            };
        }
        let mut is_already_running = false;
        match &self.builds.current_build {
            Some(b) => {
                if b.unique_id == req.unique_id {
                    return BuildResponse {
                        message: "Build already in progress".to_owned(),
                        status: Status::AlreadyBuilding,
                        token: Some(b.socket_token.clone()),
                        build_id: Some(b.id.clone()),
                    };
                }
                is_already_running = true;
            },
            None => {},
        }
        let n = self.builds.build_queue.len();
        let mut i: usize = 0;
        while i < n
            invariant
                *self == *old(self),
                old(self).wf(),
                old(self).builds.build_queue@.len() < old(
                    self,
                ).config.project.max_pending_build as int,
                !old(self).builds.active_conflicts(req.unique_id@),
                is_already_running == (old(self).builds.current_build is Some),
                n == self.builds.build_queue@.len(),
                i <= n,
                forall|j: int|
                    0 <= j < i ==> (#[trigger] self.builds.build_queue@[j]).unique_id@
                        != req.unique_id@,
            decreases n - i,
        {
            if self.builds.build_queue[i].unique_id == req.unique_id {
                return BuildResponse {
                    message: "Build already in queue".to_owned(),
                    status: Status::AlreadyQueue,
                    token: None,
                    build_id: None,
                };
            }
            i += 1;
        }
        let pl = ProjectLog {
            id: req.id.clone(),
            timestamp: now,
            unique_id: req.unique_id.clone(),
            socket_token: req.socket_token.clone(),
            step: 0,
            state: if !self.is_queue_running {
                Status::Building
            } else {
                Status::Pending
            },
            message: "In Queue".to_owned(),
        };
        let resp = BuildResponse {
            message: if is_already_running {
                "Build is in pending state".to_owned()
            } else {
                "Build started".to_owned()
            },
            status: if is_already_running {
                Status::Pending
            } else {
                Status::Building
            },
            token: Some(req.socket_token.clone()),
            build_id: Some(req.id.clone()),
        };
        self.builds.build_queue.push(req);
        self.project_logs.push(pl);
        proof {
            assert(self.project_logs@.drop_last() =~= old(self).project_logs@);
        }
        resp
    }

    /// The decision a submission with this key would receive right now,
    /// with nothing changed: the shell asks before it materializes the
    /// payload files, so that a rejected submission writes nothing.
    pub fn submit_probe(&self, unique_id: &String) -> (r: Status)
        ensures
            r == submit_decision(*self, unique_id@),
    {
        if self.builds.build_queue.len() >= self.config.project.max_pending_build as usize {
            return Status::MaxPending;
        }
        let mut is_already_running = false;
        match &self.builds.current_build {
            Some(b) => {
                if b.unique_id == *unique_id {
                    return Status::AlreadyBuilding;
                }
                is_already_running = true;
            },
            None => {},
        }
        let n = self.builds.build_queue.len();
        let mut i: usize = 0;
        while i < n
            invariant
                n == self.builds.build_queue@.len(),
                n < self.config.project.max_pending_build as int,
                !self.builds.active_conflicts(unique_id@),
                is_already_running == (self.builds.current_build is Some),
                i <= n,
                forall|j: int|
                    0 <= j < i ==> (#[trigger] self.builds.build_queue@[j]).unique_id@
                        != unique_id@,
            decreases n - i,
        {
            if self.builds.build_queue[i].unique_id == *unique_id {
                return Status::AlreadyQueue;
            }
            i += 1;
        }
        if is_already_running {
            Status::Pending
        } else {
            Status::Building
        }
    }

    /// Generates the build id and stream token, wraps the payload into a
    /// request, and submits it.  On acceptance the queued request carries
    /// the returned `build_id` and `token`.
    pub fn submit_request(&mut self, unique_id: String, payload: KvMap, now: i64) -> (r:
        BuildResponse)
        requires
            old(self).wf(),
        ensures
            final(self).wf(),
            r.status == submit_decision(*old(self), unique_id@),
            final(self).config == old(self).config,
            final(self).builds.current_build == old(self).builds.current_build,
            final(self).builds.failed_history == old(self).builds.failed_history,
            final(self).is_queue_running == old(self).is_queue_running,
            final(self).is_terminated == old(self).is_terminated,
            final(self).project_token == old(self).project_token,
            !is_accepted(r.status) ==> *final(self) == *old(self),
            is_accepted(r.status) ==> {
                &&& final(self).builds.build_queue@.len() == old(self).builds.build_queue@.len()
                    + 1
                &&& final(self).builds.build_queue@.drop_last() == old(self).builds.build_queue@
                &&& final(self).builds.build_queue@.last().unique_id == unique_id
                &&& final(self).builds.build_queue@.last().payload == payload
                &&& r.build_id == Some(final(self).builds.build_queue@.last().id)
                &&& r.token == Some(final(self).builds.build_queue@.last().socket_token)
            },
    {
        let id = crate::utils::new_build_id();
        let token = crate::utils::generate_token(32);
        let req = BuildRequest { id, unique_id, payload, socket_token: token };
        let r = self.submit(req, now);
        proof {
            if is_accepted(r.status) {
                assert(self.builds.build_queue@.drop_last() =~= old(self).builds.build_queue@);
            }
        }
        r
    }

    /// Aborts the build named by this unique key.  An active build is only
    /// asked to stop: the termination flag goes up and the pipeline unwinds
    /// at its next poll point.  A queued request is removed directly.  A
    /// key that is neither active nor queued is a no-op reported as
    /// `NotFound`.
    pub fn abort(&mut self, unique_id: &String) -> (r: BuildResponse)
        requires
            old(self).wf(),
        ensures
            final(self).wf(),
            final(self).config == old(self).config,
            final(self).builds.current_build == old(self).builds.current_build,
            final(self).builds.failed_history == old(self).builds.failed_history,
            final(self).is_queue_running == old(self).is_queue_running,
            final(self).project_token == old(self).project_token,
            final(self).project_logs == old(self).project_logs,
            old(self).builds.active_conflicts(unique_id@) ==> {
                &&& r.status == Status::Aborted
                &&& final(self).is_terminated
                &&& final(self).builds == old(self).builds
                &&& (old(self).builds.current_build matches Some(b) && r.build_id == Some(b.id))
            },
            !old(self).builds.active_conflicts(unique_id@) && queue_has_key(
                old(self).builds.build_queue@,
                unique_id@,
            ) ==> {
                &&& r.status == Status::Aborted
                &&& final(self).is_terminated == old(self).is_terminated
                &&& exists|i: int|
                    {
                        &&& 0 <= i < old(self).builds.build_queue@.len()
                        &&& (#[trigger] old(self).builds.build_queue@[i]).unique_id@ == unique_id@
                        &&& final(self).builds.build_queue@ == old(
                            self,
                        ).builds.build_queue@.remove(i)
                        &&& r.build_id == Some(old(self).builds.build_queue@[i].id)
                    }
            },
            !old(self).builds.active_conflicts(unique_id@) && !queue_has_key(
                old(self).builds.build_queue@,
                unique_id@,
            ) ==> *final(self) == *old(self) && r.status == Status::NotFound && r.build_id is None,
    {
        match &self.builds.current_build {
            Some(b) => {
                if b.unique_id == *unique_id {
                    let id = b.id.clone();
                    self.is_terminated = true;
                    return BuildResponse {
                        message: "Aborted".to_owned(),
                        status: Status::Aborted,
                        token: None,
                        build_id: Some(id),
                    };
                }
            },
            None => {},
        }
        let n = self.builds.build_queue.len();
        let mut i: usize = 0;
        while i < n
            invariant
                *self == *old(self),
                old(self).wf(),
                !old(self).builds.active_conflicts(unique_id@),
                n == self.builds.build_queue@.len(),
                i <= n,
                forall|j: int|
                    0 <= j < i ==> (#[trigger] self.builds.build_queue@[j]).unique_id@
                        != unique_id@,
            decreases n - i,
        {
            if self.builds.build_queue[i].unique_id == *unique_id {
                let id = self.builds.build_queue[i].id.clone();
                self.builds.build_queue.remove(i);
                proof {
                    let q0 = old(self).builds.build_queue@;
                    q0.remove_ensures(i as int);
                }
                return BuildResponse {
                    message: "Aborted".to_owned(),
                    status: Status::Aborted,
                    token: None,
                    build_id: Some(id),
                };
            }
            i += 1;
        }
        BuildResponse {
            message: "No Build Found".to_owned(),
            status: Status::NotFound,
            token: None,
            build_id: None,
        }
    }

    /// Raises the termination flag and drains the whole queue.
    pub fn abort_all(&mut self) -> (r: BuildResponse)
        requires
            old(self).wf(),
        ensures
            final(self).wf(),
            final(self).is_terminated,
            final(self).builds.build_queue@.len() == 0,
            final(self).config == old(self).config,
            final(self).builds.current_build == old(self).builds.current_build,
            final(self).builds.failed_history == old(self).builds.failed_history,
            final(self).is_queue_running == old(self).is_queue_running,
            final(self).project_token == old(self).project_token,
            final(self).project_logs == old(self).project_logs,
            r.status == Status::Aborted,
            r.build_id is None,
            r.token is None,
    {
        self.is_terminated = true;
        self.builds.build_queue.clear();
        BuildResponse {
            message: "Aborted".to_owned(),
            status: Status::Aborted,
            token: None,
            build_id: None,
        }
    }

    /// The number of queued requests.
    pub fn queue_len(&self) -> (n: usize)
        ensures
            n == self.builds.build_queue@.len(),
    {
        self.builds.build_queue.len()
    }

    /// Marks the worker loop as running; exactly one worker may run, so the
    /// shell starts one only when this flag was down.
    pub fn worker_start(&mut self)
        ensures
            *final(self) == (AppState { is_queue_running: true, ..*old(self) }),
    {
        self.is_queue_running = true;
    }

    /// Pops the queue head, or reports the queue empty.  Requests leave the
    /// queue in acceptance order.
    pub fn pop_next(&mut self) -> (r: Option<BuildRequest>)
        requires
            old(self).wf(),
        ensures
            final(self).wf(),
            *final(self) == (AppState {
                builds: final(self).builds,
                ..*old(self)
            }),
            final(self).builds.current_build == old(self).builds.current_build,
            final(self).builds.failed_history == old(self).builds.failed_history,
            match r {
                Some(req) => {
                    &&& old(self).builds.build_queue@.len() > 0
                    &&& req == old(self).builds.build_queue@[0]
                    &&& final(self).builds.build_queue@ == old(
                        self,
                    ).builds.build_queue@.drop_first()
                    &&& !queue_has_key(final(self).builds.build_queue@, req.unique_id@)
                },
                None => old(self).builds.build_queue@.len() == 0 && *final(self) == *old(self),
            },
    {
        if self.builds.build_queue.is_empty() {
            None
        } else {
            let req = self.builds.build_queue.remove(0);
            proof {
                assert(self.builds.build_queue@ =~= old(self).builds.build_queue@.drop_first());
            }
            Some(req)
        }
    }

    /// Promotes a popped request to the active build: status `Building`,
    /// step counter at 1, timing started, payload carried over.
    pub fn promote(&mut self, req: BuildRequest, now: i64)
        requires
            old(self).wf(),
            old(self).builds.current_build is None,
            !queue_has_key(old(self).builds.build_queue@, req.unique_id@),
        ensures
            final(self).wf(),
            final(self).config == old(self).config,
            final(self).builds.build_queue == old(self).builds.build_queue,
            final(self).builds.failed_history == old(self).builds.failed_history,
            final(self).is_queue_running == old(self).is_queue_running,
            final(self).is_terminated == old(self).is_terminated,
            final(self).project_token == old(self).project_token,
            final(self).project_logs == old(self).project_logs,
            final(self).builds.current_build matches Some(b) && {
                &&& b.id == req.id
                &&& b.unique_id == req.unique_id
                &&& b.status == Status::Building
                &&& b.current_step == 1
                &&& b.total_steps == old(self).config.project.build.commands@.len()
                &&& b.started_at == now
                &&& b.end_at == now
                &&& b.duration == 0
                &&& b.socket_token == req.socket_token
                &&& b.payload == req.payload
                &&& b.out_payload@ == Map::<Seq<char>, Seq<char>>::empty()
                &&& b.logs@.len() == 0
                &&& b.logs_wf()
            },
    {
        let total = self.config.project.build.commands.len();
        let bp = BuildProcess {
            id: req.id,
            unique_id: req.unique_id,
            status: Status::Building,
            current_step: 1,
            total_steps: total,
            started_at: now,
            end_at: now,
            duration: 0,
            socket_token: req.socket_token,
            payload: req.payload,
            out_payload: KvMap::new(),
            logs: Vec::new(),
        };
        self.builds.current_build = Some(bp);
    }

    /// Stamps the end time on the active build and computes its duration
    /// in whole seconds (zero when the clock ran backwards).
    pub fn seal_current(&mut self, now: i64)
        requires
            old(self).builds.current_build is Some,
        ensures
            final(self).builds.current_build is Some,
            ({
                let ob = old(self).builds.current_build->0;
                let b = final(self).builds.current_build->0;
                &&& b == (BuildProcess { end_at: now, duration: b.duration, ..ob })
                &&& b.duration == (if 0 <= ob.started_at && ob.started_at <= now {
                    (now - ob.started_at) / 1000
                } else {
                    0
                })
            }),
            *final(self) == (AppState { builds: final(self).builds, ..*old(self) }),
            final(self).builds == (crate::state::BuildState {
                current_build: final(self).builds.current_build,
                ..old(self).builds
            }),
    {
        match &mut self.builds.current_build {
            Some(b) => {
                b.end_at = now;
                b.duration = if 0 <= b.started_at && b.started_at <= now {
                    (now - b.started_at) / 1000
                } else {
                    0
                };
            },
            None => {},
        }
    }

    /// Takes the active build out, leaving none.
    pub fn take_current(&mut self) -> (r: BuildProcess)
        requires
            old(self).wf(),
            old(self).builds.current_build is Some,
        ensures
            final(self).wf(),
            old(self).builds.current_build matches Some(b) && r == b,
            final(self).builds.current_build is None,
            *final(self) == (AppState { builds: final(self).builds, ..*old(self) }),
            final(self).builds == (crate::state::BuildState {
                current_build: None,
                ..old(self).builds
            }),
    {
        let b = self.builds.current_build.take();
        match b {
            Some(b) => b,
            None => {
                proof {
                    assert(false);
                }
                unreached()
            },
        }
    }

    /// Lowers the termination flag; a fresh build starts with it down.
    pub fn reset_terminated(&mut self)
        ensures
            *final(self) == (AppState { is_terminated: false, ..*old(self) }),
    {
        self.is_terminated = false;
    }

    /// Marks the worker loop as stopped and clears the project event log,
    /// which is kept only while the queue is being worked.
    pub fn worker_exit(&mut self)
        ensures
            final(self).is_queue_running == false,
            final(self).project_logs@.len() == 0,
            final(self).config == old(self).config,
            final(self).builds == old(self).builds,
            final(self).is_terminated == old(self).is_terminated,
            final(self).project_token == old(self).project_token,
    {
        self.is_queue_running = false;
        self.project_logs.clear();
    }

    /// Appends a permanently failed build record to the history.
    pub fn record_failed(&mut self, b: BuildProcess)
        requires
            old(self).wf(),
        ensures
            final(self).wf(),
            final(self).builds.failed_history@ == old(self).builds.failed_history@.push(b),
            *final(self) == (AppState { builds: final(self).builds, ..*old(self) }),
            final(self).builds == (crate::state::BuildState {
                failed_history: final(self).builds.failed_history,
                ..old(self).builds
            }),
    {
        self.builds.failed_history.push(b);
    }

    /// Hands out the failed-notification history and clears it.
    pub fn take_failed_history(&mut self) -> (r: Vec<BuildProcess>)
        requires
            old(self).wf(),
        ensures
            final(self).wf(),
            r@ == old(self).builds.failed_history@,
            final(self).builds.failed_history@.len() == 0,
            *final(self) == (AppState { builds: final(self).builds, ..*old(self) }),
            final(self).builds == (crate::state::BuildState {
                failed_history: final(self).builds.failed_history,
                ..old(self).builds
            }),
    {
        let r = self.builds.failed_history.split_off(0);
        proof {
            assert(r@ =~= old(self).builds.failed_history@);
            assert(self.builds.failed_history@ =~= Seq::<BuildProcess>::empty());
        }
        r
    }
}

/// At most one build with a given unique key is anywhere in flight: in a
/// well-formed state, two queue positions holding the key coincide, and a
/// queued key is never also the active build's key.
pub proof fn lemma_at_most_one_active(s: AppState, key: Seq<char>, i: int, j: int)
    requires
        s.wf(),
        0 <= i < s.builds.build_queue@.len(),
        0 <= j < s.builds.build_queue@.len(),
        s.builds.build_queue@[i].unique_id@ == key,
        s.builds.build_queue@[j].unique_id@ == key,
    ensures
        i == j,
        !s.builds.active_conflicts(key),
{
    assert(queue_has_key(s.builds.build_queue@, key));
}

/// Capacity invariant: a well-formed queue never exceeds the configured
/// maximum, and a submission arriving with the queue at capacity is
/// decided `MaxPending`.
pub proof fn lemma_capacity(s: AppState, key: Seq<char>)
    requires
        s.wf(),
    ensures
        s.builds.build_queue@.len() <= s.config.project.max_pending_build as int,
        s.builds.build_queue@.len() == s.config.project.max_pending_build as int
            ==> submit_decision(s, key) == Status::MaxPending,
{
}

/// At-most-one-active: a submission whose unique key is already active or
/// already queued is never accepted — it is decided `AlreadyBuilding`,
/// `AlreadyQueue`, or `MaxPending` when the queue is also full.
pub proof fn lemma_duplicate_rejected(s: AppState, key: Seq<char>)
    requires
        s.wf(),
        s.builds.active_conflicts(key) || queue_has_key(s.builds.build_queue@, key),
    ensures
        !is_accepted(submit_decision(s, key)),
{
}

/// FIFO: the queue hands requests out in acceptance order — after two
/// accepted submissions the head is the earlier one, then the later one —
/// and removing a queued entry (an operator abort) leaves the relative
/// order of the remaining requests unchanged.
pub proof fn lemma_fifo_order(q: Seq<BuildRequest>, a: BuildRequest, b: BuildRequest, i: int)
    requires
        0 <= i < q.len(),
    ensures
        q.push(a).push(b)[q.len() as int] == a,
        q.push(a).push(b).drop_first().len() > 0 ==> q.push(a).push(b).drop_first()[q.len() - 1]
            == a,
        forall|k: int| 0 <= k < q.len() ==> q.push(a).push(b)[k] == q[k],
        forall|k: int| 0 <= k < i ==> q.remove(i)[k] == q[k],
        forall|k: int| i <= k < q.len() - 1 ==> q.remove(i)[k] == q[k + 1],
{
}

} // verus!
