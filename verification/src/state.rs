//! The shared build state: queue, active build, histories and flags.

use vstd::prelude::*;

use crate::config::Config;
use crate::kv::KvMap;
use crate::status::Status;

verus! {

/// A submission accepted into the queue, awaiting promotion to an active
/// build.  Consumed exactly once when the worker promotes it.
pub struct BuildRequest {
    pub id: String,
    pub unique_id: String,
    pub payload: KvMap,
    pub socket_token: String,
}

/// One captured output line of a build step.
pub struct BuildLog {
    pub timestamp: i64,
    pub status: Status,
    pub step: usize,
    pub message: String,
}

impl Clone for BuildLog {
    fn clone(&self) -> (r: Self)
        ensures
            r == *self,
    {
        BuildLog {
            timestamp: self.timestamp,
            status: self.status,
            step: self.step,
            message: self.message.clone(),
        }
    }
}

/// A lifecycle milestone of the project: build queued, step started,
/// build finished.  Distinct from the per-line build logs.
pub struct ProjectLog {
    pub id: String,
    pub timestamp: i64,
    pub unique_id: String,
    pub socket_token: String,
    pub step: usize,
    pub state: Status,
    pub message: String,
}

impl Clone for ProjectLog {
    fn clone(&self) -> (r: Self)
        ensures
            r == *self,
    {
        ProjectLog {
            id: self.id.clone(),
            timestamp: self.timestamp,
            unique_id: self.unique_id.clone(),
            socket_token: self.socket_token.clone(),
            step: self.step,
            state: self.state,
            message: self.message.clone(),
        }
    }
}

/// The single in-flight build: its identity, progress, timing, payload
/// tables and accumulated logs.
pub struct BuildProcess {
    pub id: String,
    pub unique_id: String,
    pub status: Status,
    pub current_step: usize,
    pub total_steps: usize,
    pub started_at: i64,
    pub end_at: i64,
    pub duration: i64,
    pub socket_token: String,
    pub payload: KvMap,
    pub out_payload: KvMap,
    pub logs: Vec<BuildLog>,
}

impl BuildProcess {
    /// Every log line belongs to a step no greater than the declared total.
    pub open spec fn logs_wf(self) -> bool {
        forall|i: int| 0 <= i < self.logs@.len() ==> (#[trigger] self.logs@[i]).step
            <= self.total_steps
    }
}

/// The structured reply to a submission, abort or token request.
pub struct BuildResponse {
    pub message: String,
    pub status: Status,
    pub token: Option<String>,
    pub build_id: Option<String>,
}

/// What the fan-out channels carry: a serialized batch, or the signal that
/// the current stream is over.
pub enum ChannelMessage {
    Data(String),
    Shutdown,
}

/// True when some queued request carries this unique key.
pub open spec fn queue_has_key(q: Seq<BuildRequest>, key: Seq<char>) -> bool {
    exists|i: int| 0 <= i < q.len() && (#[trigger] q[i]).unique_id@ == key
}

/// No two queued requests share a unique key.
pub open spec fn queue_keys_distinct(q: Seq<BuildRequest>) -> bool {
    forall|i: int, j: int| 0 <= i < j < q.len() ==> q[i].unique_id@ != q[j].unique_id@
}

/// Queue, active build and failed-notification history.
pub struct BuildState {
    pub build_queue: Vec<BuildRequest>,
    pub current_build: Option<BuildProcess>,
    pub failed_history: Vec<BuildProcess>,
}

impl BuildState {
    /// Fresh state: empty queue, no active build, empty history.
    pub fn new() -> (r: BuildState)
        ensures
            r.build_queue@.len() == 0,
            r.current_build is None,
            r.failed_history@.len() == 0,
    {
        BuildState { build_queue: Vec::new(), current_build: None, failed_history: Vec::new() }
    }

    /// Whether this unique key names the active build.
    pub open spec fn active_conflicts(self, key: Seq<char>) -> bool {
        match self.current_build {
            Some(b) => b.unique_id@ == key,
            None => false,
        }
    }

    /// The structural invariant: queued keys are pairwise distinct, the
    /// active build's key is not queued, and the queue respects capacity.
    pub open spec fn wf(self, cap: int) -> bool {
        &&& queue_keys_distinct(self.build_queue@)
        &&& match self.current_build {
            Some(b) => !queue_has_key(self.build_queue@, b.unique_id@),
            None => true,
        }
        &&& self.build_queue@.len() <= cap
    }
}

/// Everything the components share: the immutable configuration and the
/// mutable build state, flags, project token and event log.  The shell
/// around the library guards a value of this type with its locks and
/// passes it to the verified operations.
pub struct AppState {
    pub config: Config,
    pub builds: BuildState,
    pub is_queue_running: bool,
    pub is_terminated: bool,
    pub project_token: Option<String>,
    pub project_logs: Vec<ProjectLog>,
}

impl AppState {
    /// The structural invariant, with the capacity taken from configuration.
    pub open spec fn wf(self) -> bool {
        self.builds.wf(self.config.project.max_pending_build as int)
    }

    /// Fresh state around a loaded configuration.
    pub fn new(config: Config) -> (r: AppState)
        ensures
            r.config == config,
            r.builds.build_queue@.len() == 0,
            r.builds.current_build is None,
            r.builds.failed_history@.len() == 0,
            !r.is_queue_running,
            !r.is_terminated,
            r.project_token is None,
            r.project_logs@.len() == 0,
            r.wf(),
    {
        AppState {
            config,
            builds: BuildState::new(),
            is_queue_running: false,
            is_terminated: false,
            project_token: None,
            project_logs: Vec::new(),
        }
    }
}

} // verus!
