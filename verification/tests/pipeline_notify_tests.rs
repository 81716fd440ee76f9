use buildserver::capture::CaptureState;
use buildserver::config::AddressType;
use buildserver::config::AuthConfig;
use buildserver::config::AuthType;
use buildserver::config::BuildConfig;
use buildserver::config::CommandConfig;
use buildserver::config::Config;
use buildserver::config::Payload;
use buildserver::config::PayloadType;
use buildserver::config::ProjectConfig;
use buildserver::config::SslConfig;
use buildserver::kv::KvMap;
use buildserver::notify::assemble_out_payload;
use buildserver::notify::notify_outcome;
use buildserver::notify::out_file_targets;
use buildserver::pipeline::apply_step_result;
use buildserver::pipeline::apply_termination;
use buildserver::pipeline::build_shell_command;
use buildserver::pipeline::extract_payload;
use buildserver::pipeline::plan_payload_files;
use buildserver::pipeline::run_hooks_plan;
use buildserver::pipeline::run_plan;
use buildserver::pipeline::select_hooks;
use buildserver::pipeline::validate_submission;
use buildserver::state::AppState;
use buildserver::state::BuildRequest;
use buildserver::status::Status;

fn step(command: &str, title: &str, abort_on_error: bool) -> CommandConfig {
    CommandConfig {
        command: command.to_string(),
        title: title.to_string(),
        extract_envs: Vec::new(),
        abort_on_error,
        send_to_sock: true,
    }
}

fn config_with(commands: Vec<CommandConfig>, run_on_failure: Vec<CommandConfig>) -> Config {
    Config {
        name: "proj".to_string(),
        port: 8080,
        log_path: "/tmp/logs".to_string(),
        enable_logs: false,
        ssl: SslConfig {
            enable_ssl: false,
            certificate_path: String::new(),
            certificate_key_path: String::new(),
        },
        auth: AuthConfig {
            auth_type: AuthType::Token,
            address_type: AddressType::IP,
            allowed_addresses: Vec::new(),
            allowed_tokens: Vec::new(),
        },
        project: ProjectConfig {
            allow_multi_build: false,
            max_pending_build: 4,
            next_build_delay: 0,
            flush_interval: 500,
            build: BuildConfig {
                payload: Vec::new(),
                unique_build_key: "unique_id".to_string(),
                on_success_failure: "http://localhost/collect".to_string(),
                on_success_error_payload: Vec::new(),
                commands,
                run_on_success: Vec::new(),
                run_on_failure,
            },
            project_path: "/srv/proj".to_string(),
        },
        token_path: "/tmp/token".to_string(),
    }
}

#[test]
fn shell_command_gets_sentinel_suffix() {
    let mut params = KvMap::new();
    params.insert("branch".to_string(), "main".to_string());
    let cmd = build_shell_command(&"git checkout {branch}".to_string(), &params);
    assert_eq!(cmd, "git checkout main && echo '+_+_+_\n' && env");
}

#[test]
fn step_result_policy() {
    let cfg = config_with(vec![step("a", "a", false)], Vec::new());
    let mut st = AppState::new(cfg);
    let _ = st.submit(
        BuildRequest {
            id: "1".to_string(),
            unique_id: "b1".to_string(),
            payload: KvMap::new(),
            socket_token: "t".to_string(),
        },
        0,
    );
    let req = st.pop_next().unwrap();
    st.promote(req, 0);
    let b = st.builds.current_build.as_mut().unwrap();
    assert!(!apply_step_result(b, true, true));
    assert_eq!(b.status, Status::Success);
    assert!(!apply_step_result(b, false, false));
    assert_eq!(b.status, Status::Error);
    assert!(!apply_step_result(b, true, false));
    assert_eq!(b.status, Status::Error, "success never downgrades an earlier error");
    assert!(apply_step_result(b, false, true));
    assert!(apply_termination(b, true));
    assert_eq!(b.status, Status::Aborted);
}

#[test]
fn run_plan_stops_at_abort_on_error() {
    let cmds = vec![step("a", "a", false), step("b", "b", true), step("c", "c", false)];
    let (status, ran) = run_plan(&cmds, &vec![true, false, true]);
    assert_eq!(status, Status::Error);
    assert_eq!(ran, 2, "the third primary step never runs");
}

#[test]
fn run_plan_continues_past_tolerated_failure() {
    let cmds = vec![step("a", "a", false), step("b", "b", false)];
    let (status, ran) = run_plan(&cmds, &vec![false, true]);
    assert_eq!(ran, 2);
    assert_eq!(status, Status::Error, "a tolerated failure still marks the build");
}

#[test]
fn run_plan_all_success() {
    let cmds = vec![step("a", "a", true), step("b", "b", true)];
    let (status, ran) = run_plan(&cmds, &vec![true, true]);
    assert_eq!(status, Status::Success);
    assert_eq!(ran, 2);
}

#[test]
fn failure_hooks_run_in_full() {
    let hooks = vec![step("h1", "h1", true), step("h2", "h2", true)];
    assert_eq!(run_hooks_plan(&hooks, &vec![true, true]), 2);
    assert_eq!(run_hooks_plan(&hooks, &vec![false, true]), 1);
}

#[test]
fn hook_selection_follows_final_status() {
    let cfg = config_with(Vec::new(), vec![step("cleanup", "cleanup", false)]);
    let b = &cfg.project.build;
    assert_eq!(select_hooks(&Status::Success, b).len(), 0);
    assert_eq!(select_hooks(&Status::Error, b).len(), 1);
    assert_eq!(select_hooks(&Status::Aborted, b).len(), 1);
}

#[test]
fn validate_submission_reports_missing_keys() {
    let mut cfg = config_with(Vec::new(), Vec::new());
    cfg.project.build.payload = vec![Payload {
        kind: PayloadType::Param,
        key1: "branch".to_string(),
        key2: None,
    }];
    let empty = KvMap::new();
    assert_eq!(validate_submission(&cfg.project.build, &empty), Some(Status::MissingUniqueId));
    let mut with_key = KvMap::new();
    with_key.insert("unique_id".to_string(), "b1".to_string());
    assert_eq!(validate_submission(&cfg.project.build, &with_key), Some(Status::MissingPayload));
    with_key.insert("branch".to_string(), "main".to_string());
    assert_eq!(validate_submission(&cfg.project.build, &with_key), None);
}

#[test]
fn extract_payload_partitions_by_kind() {
    let specs = vec![
        Payload { kind: PayloadType::Param, key1: "branch".to_string(), key2: None },
        Payload {
            kind: PayloadType::Env,
            key1: "token".to_string(),
            key2: Some("API_TOKEN".to_string()),
        },
        Payload { kind: PayloadType::File, key1: "cfg".to_string(), key2: None },
    ];
    let mut payload = KvMap::new();
    payload.insert("branch".to_string(), "main".to_string());
    payload.insert("token".to_string(), "abc123".to_string());
    payload.insert("cfg".to_string(), "data".to_string());
    let mut env = KvMap::new();
    let mut params = KvMap::new();
    extract_payload(&specs, &payload, &mut env, &mut params);
    assert_eq!(params.get(&"branch".to_string()).map(String::as_str), Some("main"));
    assert_eq!(env.get(&"API_TOKEN".to_string()).map(String::as_str), Some("abc123"));
    assert!(env.get(&"token".to_string()).is_none());
    assert!(params.get(&"cfg".to_string()).is_none());
}

#[test]
fn file_plan_secures_paths_and_rejects_escape() {
    let specs = vec![Payload {
        kind: PayloadType::File,
        key1: "cfg".to_string(),
        key2: Some("conf/app.toml".to_string()),
    }];
    let mut payload = KvMap::new();
    payload.insert("cfg".to_string(), "data".to_string());
    let plan = plan_payload_files(&specs, &payload, &"/srv/proj".to_string()).expect("plan");
    assert_eq!(plan.len(), 1);
    assert_eq!(plan[0].0, "/srv/proj/conf/app.toml");
    assert_eq!(plan[0].1, "data");

    let bad = vec![Payload {
        kind: PayloadType::File,
        key1: "cfg".to_string(),
        key2: Some("../escape".to_string()),
    }];
    assert!(plan_payload_files(&bad, &payload, &"/srv/proj".to_string()).is_err());
}

#[test]
fn out_targets_skip_insecure_paths() {
    let specs = vec![
        Payload { kind: PayloadType::File, key1: "report".to_string(), key2: None },
        Payload { kind: PayloadType::File, key1: "bad".to_string(), key2: Some("../x".to_string()) },
        Payload { kind: PayloadType::Param, key1: "branch".to_string(), key2: None },
    ];
    let targets = out_file_targets(&specs, &"/srv/proj".to_string());
    assert_eq!(targets.len(), 1);
    assert_eq!(targets[0].0, "report");
    assert_eq!(targets[0].1, "/srv/proj/report");
}

#[test]
fn out_payload_copies_values_and_file_contents() {
    let cfg = config_with(vec![step("a", "a", true)], Vec::new());
    let mut st = AppState::new(cfg);
    let mut payload = KvMap::new();
    payload.insert("branch".to_string(), "main".to_string());
    let _ = st.submit(
        BuildRequest {
            id: "1".to_string(),
            unique_id: "b1".to_string(),
            payload,
            socket_token: "t".to_string(),
        },
        0,
    );
    let req = st.pop_next().unwrap();
    st.promote(req, 0);
    let mut build = st.take_current();
    let specs = vec![
        Payload { kind: PayloadType::Param, key1: "branch".to_string(), key2: None },
        Payload { kind: PayloadType::Param, key1: "missing".to_string(), key2: None },
        Payload { kind: PayloadType::File, key1: "report".to_string(), key2: None },
    ];
    let mut files = KvMap::new();
    files.insert("report".to_string(), "all green".to_string());
    assemble_out_payload(&mut build, &specs, &files);
    assert_eq!(build.out_payload.get(&"branch".to_string()).map(String::as_str), Some("main"));
    assert!(build.out_payload.get(&"missing".to_string()).is_none());
    assert_eq!(build.out_payload.get(&"report".to_string()).map(String::as_str), Some("all green"));
}

#[test]
fn notify_retry_policy() {
    let first_try = notify_outcome(true, true);
    assert!(!first_try.retried && !first_try.record_failure);
    let recovered = notify_outcome(false, true);
    assert!(recovered.retried);
    assert!(!recovered.record_failure, "a successful retry leaves the failed history alone");
    let lost = notify_outcome(false, false);
    assert!(lost.retried && lost.record_failure);
}

#[test]
fn end_to_end_error_build_with_failure_hook() {
    let commands = vec![step("echo hi", "say hi", false), step("exit 1", "fail", true)];
    let hooks = vec![step("echo cleanup", "cleanup", false)];
    let cfg = config_with(commands, hooks);
    let mut st = AppState::new(cfg);
    let mut payload = KvMap::new();
    payload.insert("unique_id".to_string(), "b1".to_string());
    let resp = st.submit(
        BuildRequest {
            id: "id-1".to_string(),
            unique_id: "b1".to_string(),
            payload,
            socket_token: "tok".to_string(),
        },
        0,
    );
    assert_eq!(resp.status, Status::Building);

    st.worker_start();
    let req = st.pop_next().unwrap();
    st.promote(req, 100);

    // step 1: `echo hi` succeeds and prints one line
    let (log, _event) = st.start_step(1, &"say hi".to_string(), 101);
    assert_eq!(log.message, "Running command: say hi");
    let mut cap = CaptureState::new();
    let mut env = KvMap::new();
    let extract: Vec<String> = Vec::new();
    {
        let b = st.builds.current_build.as_mut().unwrap();
        let _ = cap.on_stdout_line(b, &mut env, &extract, 1, false, false, 102, "hi");
        let _ = cap.on_flush(b, false);
        assert!(!apply_step_result(b, true, false));
    }

    // step 2: `exit 1` fails with abort_on_error: the sequence halts
    let _ = st.start_step(2, &"fail".to_string(), 103);
    let halted = {
        let b = st.builds.current_build.as_mut().unwrap();
        apply_step_result(b, false, true)
    };
    assert!(halted, "no third primary step runs");
    assert_eq!(st.builds.current_build.as_ref().unwrap().status, Status::Error);

    // the failure hooks run to completion
    {
        let b = st.builds.current_build.as_mut().unwrap();
        let hooks = select_hooks(&b.status, &st.config.project.build);
        assert_eq!(hooks.len(), 1);
        assert_eq!(hooks[0].command, "echo cleanup");
    }
    let mut hook_cap = CaptureState::new();
    {
        let b = st.builds.current_build.as_mut().unwrap();
        let cont = hook_cap.on_stdout_line(b, &mut env, &extract, 2, true, false, 104, "cleanup");
        assert!(cont);
        let _ = hook_cap.on_flush(b, false);
    }

    st.seal_current(5_100);
    let b = st.take_current();
    assert_eq!(b.status, Status::Error);
    let msgs: Vec<&str> = b
        .logs
        .iter()
        .filter(|l| l.status != Status::StartingCommand)
        .map(|l| l.message.as_str())
        .collect();
    assert_eq!(msgs, vec!["hi", "cleanup"]);
    assert_eq!(b.duration, 5);
}
