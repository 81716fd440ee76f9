//! The command execution pipeline: payload extraction, shell command
//! assembly, the per-step status and abort policy, and hook selection.
//!
//! Spawning processes is I/O and stays outside the library; every
//! decision between two spawns is a verified function here, and
//! [`run_plan`] states what a whole primary sequence decides once each
//! step's exit status is known.

use vstd::prelude::*;
use vstd::string::StringExecFns;

use crate::config::BuildConfig;
use crate::config::CommandConfig;
use crate::config::Payload;
use crate::config::PayloadType;
use crate::kv::KvMap;
use crate::state::AppState;
use crate::state::BuildLog;
use crate::state::BuildProcess;
use crate::state::ProjectLog;
use crate::status::Status;
use crate::template::spec_subst;
use crate::template::replace_placeholders;
use crate::paths::spec_secure_components;
use crate::paths::spec_join;
use crate::paths::secure_join_path;

verus! {

/// The suffix appended to every step's command: echo the sentinel, then
/// dump the environment for re-extraction.
pub open spec fn env_dump_suffix() -> Seq<char> {
    " && echo '+_+_+_\n' && env"@
}

/// The environment name a payload entry binds: the override key when
/// given, else the source key.
pub open spec fn env_name_of(s: Payload) -> Seq<char> {
    match s.key2 {
        Some(k2) => k2@,
        None => s.key1@,
    }
}

/// The relative file name of a `File` payload entry: the override key
/// when given, else the source key.
pub open spec fn file_rel_name(s: Payload) -> Seq<char> {
    match s.key2 {
        Some(k2) => k2@,
        None => s.key1@,
    }
}

/// The environment and parameter tables after the declared payload
/// entries are partitioned by kind.
pub open spec fn spec_extract(
    specs: Seq<Payload>,
    payload: Map<Seq<char>, Seq<char>>,
    env0: Map<Seq<char>, Seq<char>>,
    param0: Map<Seq<char>, Seq<char>>,
) -> (Map<Seq<char>, Seq<char>>, Map<Seq<char>, Seq<char>>)
    decreases specs.len(),
{
    if specs.len() == 0 {
        (env0, param0)
    } else {
        let (e, p) = spec_extract(specs.drop_last(), payload, env0, param0);
        let s = specs.last();
        if s.kind == PayloadType::Param {
            (e, p.insert(s.key1@, payload[s.key1@]))
        } else if s.kind == PayloadType::Env {
            (e.insert(env_name_of(s), payload[s.key1@]), p)
        } else {
            (e, p)
        }
    }
}

/// Partitions the declared payload entries: `Param` entries feed the
/// substitution table, `Env` entries the process environment (under
/// their override name when one is given); `File` entries are handled
/// when the submission materializes them.
pub fn extract_payload(
    specs: &Vec<Payload>,
    build_payload: &KvMap,
    env_map: &mut KvMap,
    param_map: &mut KvMap,
)
    requires
        forall|i: int|
            0 <= i < specs@.len() ==> (((#[trigger] specs@[i]).kind == PayloadType::Param
                || specs@[i].kind == PayloadType::Env) ==> build_payload@.contains_key(
                specs@[i].key1@,
            )),
    ensures
        (final(env_map)@, final(param_map)@) == spec_extract(
            specs@,
            build_payload@,
            old(env_map)@,
            old(param_map)@,
        ),
{
    let n = specs.len();
    let mut i: usize = 0;
    proof {
        assert(specs@.subrange(0, 0) =~= Seq::<Payload>::empty());
    }
    while i < n
        invariant
            n == specs@.len(),
            i <= n,
            forall|k: int|
                0 <= k < n ==> (((#[trigger] specs@[k]).kind == PayloadType::Param || specs@[k].kind
                    == PayloadType::Env) ==> build_payload@.contains_key(specs@[k].key1@)),
            (env_map@, param_map@) == spec_extract(
                specs@.subrange(0, i as int),
                build_payload@,
                old(env_map)@,
                old(param_map)@,
            ),
        decreases n - i,
    {
        let s = &specs[i];
        proof {
            assert(specs@.subrange(0, i + 1).drop_last() =~= specs@.subrange(0, i as int));
            assert(specs@.subrange(0, i + 1).last() == specs@[i as int]);
        }
        if s.kind == PayloadType::Param {
            match build_payload.get(&s.key1) {
                Some(v) => {
                    param_map.insert(s.key1.clone(), v.clone());
                },
                None => {
                    proof {
                        assert(false);
                    }
                },
            }
        } else if s.kind == PayloadType::Env {
            let name = match &s.key2 {
                Some(k2) => k2.clone(),
                None => s.key1.clone(),
            };
            match build_payload.get(&s.key1) {
                Some(v) => {
                    env_map.insert(name, v.clone());
                },
                None => {
                    proof {
                        assert(false);
                    }
                },
            }
        }
        i += 1;
    }
    proof {
        assert(specs@.subrange(0, n as int) =~= specs@);
    }
}

/// The full shell line of a step: the template with its parameters
/// substituted, then the sentinel echo and environment dump.
pub fn build_shell_command(template: &String, params: &KvMap) -> (r: String)
    ensures
        r@ == spec_subst(template@, params@) + env_dump_suffix(),
{
    let cmd = replace_placeholders(template.as_str(), params);
    cmd.concat(" && echo '+_+_+_\n' && env")
}

/// The build status after a step exits: a failing step records `Error`;
/// a succeeding one records `Success` but never downgrades an earlier
/// step's `Error`.
pub open spec fn spec_step_status(prev: Status, exit_success: bool) -> Status {
    if exit_success {
        if prev == Status::Error {
            Status::Error
        } else {
            Status::Success
        }
    } else {
        Status::Error
    }
}

/// Records a step's exit on the active build and decides whether the
/// primary sequence halts: it does exactly when the step failed and was
/// marked `abort_on_error`.
pub fn apply_step_result(build: &mut BuildProcess, exit_success: bool, abort_on_error: bool) -> (halt:
    bool)
    ensures
        *final(build) == (BuildProcess {
            status: spec_step_status(old(build).status, exit_success),
            ..*old(build)
        }),
        halt == (!exit_success && abort_on_error),
{
    if exit_success {
        if !matches!(build.status, Status::Error) {
            build.status = Status::Success;
        }
        false
    } else {
        build.status = Status::Error;
        abort_on_error
    }
}

/// The termination poll after a step: a raised flag overrides the step's
/// own outcome with `Aborted` and halts the sequence.
pub fn apply_termination(build: &mut BuildProcess, terminated: bool) -> (halt: bool)
    ensures
        terminated ==> *final(build) == (BuildProcess { status: Status::Aborted, ..*old(build) })
            && halt,
        !terminated ==> *final(build) == *old(build) && !halt,
{
    if terminated {
        build.status = Status::Aborted;
        true
    } else {
        false
    }
}

/// The post-hook list a finished primary sequence selects: the success
/// hooks only for a `Success` status, the failure hooks otherwise
/// (`Error` and `Aborted` alike).
pub fn select_hooks<'a>(status: &Status, build_config: &'a BuildConfig) -> (r: &'a Vec<
    CommandConfig,
>)
    ensures
        *status == Status::Success ==> r == &build_config.run_on_success,
        *status != Status::Success ==> r == &build_config.run_on_failure,
{
    if matches!(status, Status::Success) {
        &build_config.run_on_success
    } else {
        &build_config.run_on_failure
    }
}

/// What a primary sequence decides from position `k` on, given each
/// step's exit: the final status and the position after the last step
/// run.
pub open spec fn spec_plan_from(
    cmds: Seq<CommandConfig>,
    exits: Seq<bool>,
    st: Status,
    k: int,
) -> (Status, int)
    decreases cmds.len() - k,
{
    if k < 0 || k >= cmds.len() {
        (st, k)
    } else {
        let st1 = spec_step_status(st, exits[k]);
        if !exits[k] && cmds[k].abort_on_error {
            (st1, k + 1)
        } else {
            spec_plan_from(cmds, exits, st1, k + 1)
        }
    }
}

/// How many hooks of a list run, given each hook's exit: all of them,
/// unless a failing hook marked `abort_on_error` stops the list early.
/// The termination flag plays no part: hooks run to completion.
pub open spec fn spec_hook_count_from(cmds: Seq<CommandConfig>, exits: Seq<bool>, k: int) -> int
    decreases cmds.len() - k,
{
    if k < 0 || k >= cmds.len() {
        k
    } else if !exits[k] && cmds[k].abort_on_error {
        k + 1
    } else {
        spec_hook_count_from(cmds, exits, k + 1)
    }
}

/// Runs the primary step policy over known exit statuses: starting from
/// `Building`, applies [`spec_step_status`] per step and stops at the
/// first failing step marked `abort_on_error`.  Returns the final status
/// and how many steps ran.
pub fn run_plan(commands: &Vec<CommandConfig>, exits: &Vec<bool>) -> (r: (Status, usize))
    requires
        exits@.len() >= commands@.len(),
    ensures
        (r.0, r.1 as int) == spec_plan_from(commands@, exits@, Status::Building, 0),
{
    let n = commands.len();
    let mut st = Status::Building;
    let mut k: usize = 0;
    while k < n
        invariant
            n == commands@.len(),
            exits@.len() >= n,
            k <= n,
            spec_plan_from(commands@, exits@, Status::Building, 0) == spec_plan_from(
                commands@,
                exits@,
                st,
                k as int,
            ),
        decreases n - k,
    {
        let ok = exits[k];
        st = if ok {
            if matches!(st, Status::Error) {
                Status::Error
            } else {
                Status::Success
            }
        } else {
            Status::Error
        };
        k += 1;
        if !ok && commands[k - 1].abort_on_error {
            return (st, k);
        }
    }
    (st, k)
}

/// Counts how many hooks of a list run, given known exit statuses.
pub fn run_hooks_plan(hooks: &Vec<CommandConfig>, exits: &Vec<bool>) -> (r: usize)
    requires
        exits@.len() >= hooks@.len(),
    ensures
        r as int == spec_hook_count_from(hooks@, exits@, 0),
{
    let n = hooks.len();
    let mut k: usize = 0;
    while k < n
        invariant
            n == hooks@.len(),
            exits@.len() >= n,
            k <= n,
            spec_hook_count_from(hooks@, exits@, 0) == spec_hook_count_from(
                hooks@,
                exits@,
                k as int,
            ),
        decreases n - k,
    {
        let ok = exits[k];
        k += 1;
        if !ok && hooks[k - 1].abort_on_error {
            return k;
        }
    }
    k
}

proof fn lemma_plan_halts(cmds: Seq<CommandConfig>, exits: Seq<bool>, st: Status, k: int, i: int)
    requires
        exits.len() >= cmds.len(),
        0 <= k <= i < cmds.len(),
        forall|j: int| k <= j < i ==> exits[j],
        !exits[i],
        cmds[i].abort_on_error,
        st != Status::Error,
    ensures
        spec_plan_from(cmds, exits, st, k) == (Status::Error, i + 1),
    decreases i - k,
{
    if k < i {
        lemma_plan_halts(cmds, exits, spec_step_status(st, exits[k]), k + 1, i);
    }
}

proof fn lemma_hooks_all_run(cmds: Seq<CommandConfig>, exits: Seq<bool>, k: int)
    requires
        exits.len() >= cmds.len(),
        0 <= k <= cmds.len(),
        forall|j: int| k <= j < cmds.len() ==> exits[j],
    ensures
        spec_hook_count_from(cmds, exits, k) == cmds.len(),
    decreases cmds.len() - k,
{
    if k < cmds.len() {
        lemma_hooks_all_run(cmds, exits, k + 1);
    }
}

/// Abort-on-error policy: when every step before `i` succeeds and step
/// `i` fails with `abort_on_error` set, the primary sequence stops right
/// after step `i` with status `Error` — no later primary step runs — and
/// the selected `run_on_failure` hook list still runs in full (here:
/// whenever its own hooks succeed, since only a hook's own
/// `abort_on_error` failure may cut the list short).
pub proof fn lemma_abort_on_error_policy(
    cmds: Seq<CommandConfig>,
    exits: Seq<bool>,
    i: int,
    hooks: Seq<CommandConfig>,
    hook_exits: Seq<bool>,
)
    requires
        exits.len() >= cmds.len(),
        0 <= i < cmds.len(),
        forall|j: int| 0 <= j < i ==> exits[j],
        !exits[i],
        cmds[i].abort_on_error,
        hook_exits.len() >= hooks.len(),
        forall|j: int| 0 <= j < hooks.len() ==> hook_exits[j],
    ensures
        spec_plan_from(cmds, exits, Status::Building, 0) == (Status::Error, i + 1),
        spec_hook_count_from(hooks, hook_exits, 0) == hooks.len(),
{
    lemma_plan_halts(cmds, exits, Status::Building, 0, i);
    lemma_hooks_all_run(hooks, hook_exits, 0);
}

/// Validates an incoming submission payload: the unique build key and
/// every declared payload key must be present.
pub fn validate_submission(build_config: &BuildConfig, payload: &KvMap) -> (r: Option<Status>)
    ensures
        !payload@.contains_key(build_config.unique_build_key@) ==> r == Some(
            Status::MissingUniqueId,
        ),
        payload@.contains_key(build_config.unique_build_key@) && (exists|i: int|
            0 <= i < build_config.payload@.len() && !payload@.contains_key(
                (#[trigger] build_config.payload@[i]).key1@,
            )) ==> r == Some(Status::MissingPayload),
        (payload@.contains_key(build_config.unique_build_key@) && (forall|i: int|
            0 <= i < build_config.payload@.len() ==> payload@.contains_key(
                (#[trigger] build_config.payload@[i]).key1@,
            ))) <==> r is None,
    {
    if !payload.contains_key(&build_config.unique_build_key) {
        return Some(Status::MissingUniqueId);
    }
    let n = build_config.payload.len();
    let mut i: usize = 0;
    while i < n
        invariant
            n == build_config.payload@.len(),
            i <= n,
            payload@.contains_key(build_config.unique_build_key@),
            forall|j: int|
                0 <= j < i ==> payload@.contains_key(
                    (#[trigger] build_config.payload@[j]).key1@,
                ),
        decreases n - i,
    {
        if !payload.contains_key(&build_config.payload[i].key1) {
            return Some(Status::MissingPayload);
        }
        i += 1;
    }
    None
}

/// The files a submission materializes: for each `File` entry, the
/// secured path under the project root and the payload value to write;
/// `None` when some declared file path is rejected as insecure.
pub open spec fn spec_file_plan(
    specs: Seq<Payload>,
    payload: Map<Seq<char>, Seq<char>>,
    base: Seq<char>,
) -> Option<Seq<(Seq<char>, Seq<char>)>>
    decreases specs.len(),
{
    if specs.len() == 0 {
        Some(Seq::empty())
    } else {
        match spec_file_plan(specs.drop_last(), payload, base) {
            None => None,
            Some(v) => {
                let s = specs.last();
                if s.kind != PayloadType::File {
                    Some(v)
                } else {
                    match spec_secure_components(file_rel_name(s)) {
                        None => None,
                        Some(comps) => Some(v.push((spec_join(base, comps), payload[s.key1@]))),
                    }
                }
            },
        }
    }
}

proof fn lemma_file_plan_none_extends(
    s1: Seq<Payload>,
    s2: Seq<Payload>,
    payload: Map<Seq<char>, Seq<char>>,
    base: Seq<char>,
)
    requires
        spec_file_plan(s1, payload, base) is None,
    ensures
        spec_file_plan(s1 + s2, payload, base) is None,
    decreases s2.len(),
{
    if s2.len() == 0 {
        assert(s1 + s2 =~= s1);
    } else {
        lemma_file_plan_none_extends(s1, s2.drop_last(), payload, base);
        assert((s1 + s2).drop_last() =~= s1 + s2.drop_last());
    }
}

/// The view of a planned file list.
pub open spec fn plan_views(v: Seq<(String, String)>) -> Seq<(Seq<char>, Seq<char>)> {
    v.map_values(|p: (String, String)| (p.0@, p.1@))
}

/// Computes which files a submission materializes and with what content,
/// or rejects the submission when a declared path escapes the project
/// root.
pub fn plan_payload_files(specs: &Vec<Payload>, payload: &KvMap, project_path: &String) -> (r:
    Result<Vec<(String, String)>, ()>)
    requires
        forall|i: int|
            0 <= i < specs@.len() ==> ((#[trigger] specs@[i]).kind == PayloadType::File
                ==> payload@.contains_key(specs@[i].key1@)),
    ensures
        match r {
            Ok(v) => spec_file_plan(specs@, payload@, project_path@) == Some(plan_views(v@)),
            Err(_) => spec_file_plan(specs@, payload@, project_path@) is None,
        },
{
    let n = specs.len();
    let mut out: Vec<(String, String)> = Vec::new();
    let mut i: usize = 0;
    proof {
        assert(specs@.subrange(0, 0) =~= Seq::<Payload>::empty());
        assert(plan_views(out@) =~= Seq::<(Seq<char>, Seq<char>)>::empty());
    }
    while i < n
        invariant
            n == specs@.len(),
            i <= n,
            forall|k: int|
                0 <= k < n ==> ((#[trigger] specs@[k]).kind == PayloadType::File
                    ==> payload@.contains_key(specs@[k].key1@)),
            spec_file_plan(specs@.subrange(0, i as int), payload@, project_path@) == Some(
                plan_views(out@),
            ),
        decreases n - i,
    {
        let s = &specs[i];
        proof {
            assert(specs@.subrange(0, i + 1).drop_last() =~= specs@.subrange(0, i as int));
            assert(specs@.subrange(0, i + 1).last() == specs@[i as int]);
        }
        if s.kind == PayloadType::File {
            let rel = match &s.key2 {
                Some(k2) => k2.clone(),
                None => s.key1.clone(),
            };
            match secure_join_path(project_path.as_str(), rel.as_str()) {
                None => {
                    proof {
                        let pre = specs@.subrange(0, i + 1);
                        assert(spec_file_plan(pre, payload@, project_path@) is None);
                        lemma_file_plan_none_extends(
                            pre,
                            specs@.subrange(i + 1, n as int),
                            payload@,
                            project_path@,
                        );
                        assert(pre + specs@.subrange(i + 1, n as int) =~= specs@);
                    }
                    return Err(());
                },
                Some(path) => {
                    match payload.get(&s.key1) {
                        Some(content) => {
                            let ghost out0 = out@;
                            out.push((path, content.clone()));
                            proof {
                                assert(plan_views(out@) =~= plan_views(out0).push(
                                    (out@.last().0@, out@.last().1@),
                                ));
                            }
                        },
                        None => {
                            proof {
                                assert(false);
                            }
                        },
                    }
                },
            }
        }
        i += 1;
    }
    proof {
        assert(specs@.subrange(0, n as int) =~= specs@);
    }
    Ok(out)
}

impl AppState {
    /// Marks a step as started: bumps the active build's step counter,
    /// logs the `starting command` line, and appends the milestone to the
    /// project event log.  Returns the log line and the milestone so the
    /// shell can publish them on the fan-out channels.
    pub fn start_step(&mut self, step: usize, title: &String, now: i64) -> (r: (BuildLog,
        ProjectLog))
        requires
            old(self).builds.current_build is Some,
            step <= old(self).builds.current_build->0.total_steps,
            old(self).builds.current_build->0.logs_wf(),
        ensures
            *final(self) == (AppState {
                builds: final(self).builds,
                project_logs: final(self).project_logs,
                ..*old(self)
            }),
            final(self).builds == (crate::state::BuildState {
                current_build: final(self).builds.current_build,
                ..old(self).builds
            }),
            final(self).builds.current_build is Some,
            ({
                let ob = old(self).builds.current_build->0;
                let b = final(self).builds.current_build->0;
                &&& b == (BuildProcess { current_step: step, logs: b.logs, ..ob })
                &&& b.logs@ == ob.logs@.push(r.0)
                &&& b.logs_wf()
            }),
            r.0.timestamp == now && r.0.status == Status::StartingCommand && r.0.step == step
                && r.0.message@ == "Running command: "@ + title@,
            final(self).project_logs@ == old(self).project_logs@.push(r.1),
            ({
                let ob = old(self).builds.current_build->0;
                &&& r.1.id == ob.id
                &&& r.1.unique_id == ob.unique_id
                &&& r.1.socket_token == ob.socket_token
                &&& r.1.step == step
                &&& r.1.state == Status::StartingCommand
                &&& r.1.timestamp == now
                &&& r.1.message == *title
            }),
    {
        let msg = "Running command: ".to_owned().concat(title.as_str());
        let log = BuildLog {
            timestamp: now,
            status: Status::StartingCommand,
            step,
            message: msg,
        };
        let pl;
        match &mut self.builds.current_build {
            Some(b) => {
                b.current_step = step;
                b.logs.push(log.clone());
                pl = ProjectLog {
                    id: b.id.clone(),
                    unique_id: b.unique_id.clone(),
                    socket_token: b.socket_token.clone(),
                    step,
                    state: Status::StartingCommand,
                    timestamp: now,
                    message: title.clone(),
                };
            },
            None => {
                proof {
                    assert(false);
                }
                pl = ProjectLog {
                    id: String::new(),
                    unique_id: String::new(),
                    socket_token: String::new(),
                    step,
                    state: Status::StartingCommand,
                    timestamp: now,
                    message: title.clone(),
                };
            },
        }
        self.project_logs.push(pl.clone());
        (log, pl)
    }

    /// Logs the `build started` milestone for a freshly promoted build.
    /// Returns the milestone for the shell to publish.
    pub fn log_build_started(&mut self, now: i64) -> (r: ProjectLog)
        requires
            old(self).builds.current_build is Some,
        ensures
            *final(self) == (AppState { project_logs: final(self).project_logs, ..*old(self) }),
            final(self).project_logs@ == old(self).project_logs@.push(r),
            ({
                let ob = old(self).builds.current_build->0;
                &&& r.id == ob.id
                &&& r.unique_id == ob.unique_id
                &&& r.socket_token == ob.socket_token
                &&& r.step == 0
                &&& r.state == Status::Building
                &&& r.timestamp == now
                &&& r.message@ == "Starting build"@
            }),
    {
        let pl;
        match &self.builds.current_build {
            Some(b) => {
                pl = ProjectLog {
                    id: b.id.clone(),
                    unique_id: b.unique_id.clone(),
                    socket_token: b.socket_token.clone(),
                    step: 0,
                    state: Status::Building,
                    timestamp: now,
                    message: "Starting build".to_owned(),
                };
            },
            None => {
                proof {
                    assert(false);
                }
                pl = ProjectLog {
                    id: String::new(),
                    unique_id: String::new(),
                    socket_token: String::new(),
                    step: 0,
                    state: Status::Building,
                    timestamp: now,
                    message: "Starting build".to_owned(),
                };
            },
        }
        self.project_logs.push(pl.clone());
        pl
    }

    /// Logs the `finalizing` milestone that closes a build's pipeline,
    /// carrying its terminal status.  Returns the milestone for the shell
    /// to publish.
    pub fn finalize_step_log(&mut self, step: usize, now: i64) -> (r: ProjectLog)
        requires
            old(self).builds.current_build is Some,
        ensures
            *final(self) == (AppState { project_logs: final(self).project_logs, ..*old(self) }),
            final(self).project_logs@ == old(self).project_logs@.push(r),
            ({
                let ob = old(self).builds.current_build->0;
                &&& r.id == ob.id
                &&& r.unique_id == ob.unique_id
                &&& r.socket_token == ob.socket_token
                &&& r.step == step
                &&& r.state == ob.status
                &&& r.timestamp == now
                &&& r.message@ == "Finalizing build"@
            }),
    {
        let pl;
        match &self.builds.current_build {
            Some(b) => {
                pl = ProjectLog {
                    id: b.id.clone(),
                    unique_id: b.unique_id.clone(),
                    socket_token: b.socket_token.clone(),
                    step,
                    state: b.status,
                    timestamp: now,
                    message: "Finalizing build".to_owned(),
                };
            },
            None => {
                proof {
                    assert(false);
                }
                pl = ProjectLog {
                    id: String::new(),
                    unique_id: String::new(),
                    socket_token: String::new(),
                    step,
                    state: Status::Error,
                    timestamp: now,
                    message: "Finalizing build".to_owned(),
                };
            },
        }
        self.project_logs.push(pl.clone());
        pl
    }
}

} // verus!
