use buildserver::config::AddressType;
use buildserver::config::AuthConfig;
use buildserver::config::AuthType;
use buildserver::config::BuildConfig;
use buildserver::config::Config;
use buildserver::config::ProjectConfig;
use buildserver::config::SslConfig;
use buildserver::kv::KvMap;
use buildserver::state::AppState;
use buildserver::state::BuildRequest;
use buildserver::status::Status;

fn test_config(max_pending: u32) -> Config {
    Config {
        name: "proj".to_string(),
        port: 8080,
        log_path: "/tmp/logs".to_string(),
        enable_logs: false,
        ssl: SslConfig {
            enable_ssl: false,
            certificate_path: String::new(),
            certificate_key_path: String::new(),
        },
        auth: AuthConfig {
            auth_type: AuthType::Token,
            address_type: AddressType::IP,
            allowed_addresses: Vec::new(),
            allowed_tokens: vec!["secret".to_string()],
        },
        project: ProjectConfig {
            allow_multi_build: false,
            max_pending_build: max_pending,
            next_build_delay: 0,
            flush_interval: 500,
            build: BuildConfig {
                payload: Vec::new(),
                unique_build_key: "unique_id".to_string(),
                on_success_failure: "http://localhost/collect".to_string(),
                on_success_error_payload: Vec::new(),
                commands: Vec::new(),
                run_on_success: Vec::new(),
                run_on_failure: Vec::new(),
            },
            project_path: "/srv/proj".to_string(),
        },
        token_path: "/tmp/token".to_string(),
    }
}

fn request(id: &str, key: &str) -> BuildRequest {
    BuildRequest {
        id: id.to_string(),
        unique_id: key.to_string(),
        payload: KvMap::new(),
        socket_token: format!("tok-{}", id),
    }
}

#[test]
fn accepts_first_submission_as_building() {
    let mut st = AppState::new(test_config(5));
    let r = st.submit(request("1", "b1"), 100);
    assert_eq!(r.status, Status::Building);
    assert_eq!(r.build_id.as_deref(), Some("1"));
    assert_eq!(r.token.as_deref(), Some("tok-1"));
    assert_eq!(st.queue_len(), 1);
    assert_eq!(st.project_logs.len(), 1);
    assert_eq!(st.project_logs[0].message, "In Queue");
}

#[test]
fn rejects_duplicate_queued_key() {
    let mut st = AppState::new(test_config(5));
    let _ = st.submit(request("1", "b1"), 100);
    let r = st.submit(request("2", "b1"), 101);
    assert_eq!(r.status, Status::AlreadyQueue);
    assert!(r.build_id.is_none());
    assert_eq!(st.queue_len(), 1);
}

#[test]
fn rejects_key_of_active_build() {
    let mut st = AppState::new(test_config(5));
    let _ = st.submit(request("1", "b1"), 100);
    let req = st.pop_next().expect("queued request");
    st.promote(req, 200);
    let r = st.submit(request("2", "b1"), 201);
    assert_eq!(r.status, Status::AlreadyBuilding);
    assert_eq!(r.build_id.as_deref(), Some("1"));
    let r2 = st.submit(request("3", "b2"), 202);
    assert_eq!(r2.status, Status::Pending);
}

#[test]
fn capacity_limit_rejects_overflow() {
    let mut st = AppState::new(test_config(2));
    assert_eq!(st.submit(request("1", "a"), 1).status, Status::Building);
    assert_eq!(st.submit(request("2", "b"), 2).status, Status::Building);
    let r = st.submit(request("3", "c"), 3);
    assert_eq!(r.status, Status::MaxPending);
    assert_eq!(st.queue_len(), 2);
}

#[test]
fn fifo_pop_order() {
    let mut st = AppState::new(test_config(5));
    let _ = st.submit(request("1", "a"), 1);
    let _ = st.submit(request("2", "b"), 2);
    let _ = st.submit(request("3", "c"), 3);
    assert_eq!(st.pop_next().unwrap().unique_id, "a");
    assert_eq!(st.pop_next().unwrap().unique_id, "b");
    assert_eq!(st.pop_next().unwrap().unique_id, "c");
    assert!(st.pop_next().is_none());
}

#[test]
fn abort_of_queued_request_keeps_order_of_rest() {
    let mut st = AppState::new(test_config(5));
    let _ = st.submit(request("1", "a"), 1);
    let _ = st.submit(request("2", "b"), 2);
    let _ = st.submit(request("3", "c"), 3);
    let r = st.abort(&"b".to_string());
    assert_eq!(r.status, Status::Aborted);
    assert_eq!(r.build_id.as_deref(), Some("2"));
    assert!(!st.is_terminated);
    assert_eq!(st.pop_next().unwrap().unique_id, "a");
    assert_eq!(st.pop_next().unwrap().unique_id, "c");
}

#[test]
fn abort_of_active_build_raises_termination_flag() {
    let mut st = AppState::new(test_config(5));
    let _ = st.submit(request("1", "a"), 1);
    let req = st.pop_next().unwrap();
    st.promote(req, 10);
    let r = st.abort(&"a".to_string());
    assert_eq!(r.status, Status::Aborted);
    assert_eq!(r.build_id.as_deref(), Some("1"));
    assert!(st.is_terminated);
    assert!(st.builds.current_build.is_some());
}

#[test]
fn abort_of_unknown_key_is_a_noop() {
    let mut st = AppState::new(test_config(5));
    let _ = st.submit(request("1", "a"), 1);
    let r = st.abort(&"nope".to_string());
    assert_eq!(r.status, Status::NotFound);
    assert!(r.build_id.is_none());
    assert_eq!(st.queue_len(), 1);
    assert!(!st.is_terminated);
}

#[test]
fn abort_all_raises_flag_and_drains_queue() {
    let mut st = AppState::new(test_config(5));
    let _ = st.submit(request("1", "a"), 1);
    let _ = st.submit(request("2", "b"), 2);
    let r = st.abort_all();
    assert_eq!(r.status, Status::Aborted);
    assert!(st.is_terminated);
    assert_eq!(st.queue_len(), 0);
}

#[test]
fn promote_builds_fresh_active_record() {
    let mut cfg = test_config(5);
    cfg.project.build.commands = vec![
        buildserver::config::CommandConfig {
            command: "echo hi".to_string(),
            title: "step".to_string(),
            extract_envs: Vec::new(),
            abort_on_error: true,
            send_to_sock: true,
        },
    ];
    let mut st = AppState::new(cfg);
    let _ = st.submit(request("1", "a"), 1);
    let req = st.pop_next().unwrap();
    st.promote(req, 500);
    let b = st.builds.current_build.as_ref().unwrap();
    assert_eq!(b.status, Status::Building);
    assert_eq!(b.current_step, 1);
    assert_eq!(b.total_steps, 1);
    assert_eq!(b.started_at, 500);
    assert_eq!(b.duration, 0);
    assert!(b.logs.is_empty());
}

#[test]
fn seal_current_computes_duration_in_seconds() {
    let mut st = AppState::new(test_config(5));
    let _ = st.submit(request("1", "a"), 1);
    let req = st.pop_next().unwrap();
    st.promote(req, 1_000);
    st.seal_current(11_000);
    let b = st.builds.current_build.as_ref().unwrap();
    assert_eq!(b.end_at, 11_000);
    assert_eq!(b.duration, 10);
}

#[test]
fn take_current_clears_the_slot() {
    let mut st = AppState::new(test_config(5));
    let _ = st.submit(request("1", "a"), 1);
    let req = st.pop_next().unwrap();
    st.promote(req, 1);
    let b = st.take_current();
    assert_eq!(b.unique_id, "a");
    assert!(st.builds.current_build.is_none());
}

#[test]
fn worker_flags_and_event_log_reset() {
    let mut st = AppState::new(test_config(5));
    st.worker_start();
    assert!(st.is_queue_running);
    let _ = st.submit(request("1", "a"), 1);
    assert_eq!(st.project_logs.len(), 1);
    assert_eq!(st.project_logs[0].state, Status::Pending);
    st.worker_exit();
    assert!(!st.is_queue_running);
    assert!(st.project_logs.is_empty());
}

#[test]
fn failed_history_records_and_drains() {
    let mut st = AppState::new(test_config(5));
    let _ = st.submit(request("1", "a"), 1);
    let req = st.pop_next().unwrap();
    st.promote(req, 1);
    let b = st.take_current();
    st.record_failed(b);
    assert_eq!(st.builds.failed_history.len(), 1);
    let drained = st.take_failed_history();
    assert_eq!(drained.len(), 1);
    assert_eq!(drained[0].unique_id, "a");
    assert!(st.builds.failed_history.is_empty());
}

#[test]
fn submit_request_generates_id_and_token() {
    let mut st = AppState::new(test_config(5));
    let r = st.submit_request("b1".to_string(), KvMap::new(), 7);
    assert_eq!(r.status, Status::Building);
    let id = r.build_id.expect("id");
    let token = r.token.expect("token");
    assert_eq!(id.len(), 36);
    assert_eq!(token.len(), 32);
    assert!(token.chars().all(|c| c.is_ascii_alphanumeric()));
    let queued = st.pop_next().unwrap();
    assert_eq!(queued.id, id);
    assert_eq!(queued.socket_token, token);
}

#[test]
fn submit_probe_matches_submit_outcome() {
    let mut st = AppState::new(test_config(1));
    assert_eq!(st.submit_probe(&"a".to_string()), Status::Building);
    let _ = st.submit(request("1", "a"), 1);
    assert_eq!(st.submit_probe(&"a".to_string()), Status::MaxPending);
    let mut st2 = AppState::new(test_config(5));
    let _ = st2.submit(request("1", "a"), 1);
    assert_eq!(st2.submit_probe(&"a".to_string()), Status::AlreadyQueue);
    let req = st2.pop_next().unwrap();
    st2.promote(req, 2);
    assert_eq!(st2.submit_probe(&"a".to_string()), Status::AlreadyBuilding);
    assert_eq!(st2.submit_probe(&"b".to_string()), Status::Pending);
    let r = st2.submit(request("2", "b"), 3);
    assert_eq!(r.status, Status::Pending);
}
