use buildserver::config::BuildConfig;
use buildserver::config::PayloadType;
use buildserver::config::ProjectConfig;
use buildserver::config::default_on_error;
use buildserver::config::default_to_sock;
use buildserver::kv::KvMap;
use buildserver::status::Status;
use buildserver::utils::generate_token;
use buildserver::utils::new_build_id;

#[test]
fn status_wire_names() {
    assert_eq!(Status::Error.as_str(), "error");
    assert_eq!(Status::Success.as_str(), "success");
    assert_eq!(Status::Pending.as_str(), "pending");
    assert_eq!(Status::Building.as_str(), "building");
    assert_eq!(Status::Full.as_str(), "full");
    assert_eq!(Status::AlreadyBuilding.as_str(), "already_building");
    assert_eq!(Status::AlreadyQueue.as_str(), "already_queue");
    assert_eq!(Status::Aborted.as_str(), "aborted");
    assert_eq!(Status::NotFound.as_str(), "not_found");
    assert_eq!(Status::SomethingWentWrong.as_str(), "something_went_wrong");
    assert_eq!(Status::Unauthorized.as_str(), "unauthorized");
    assert_eq!(Status::MissingUniqueId.as_str(), "missing_unique_id");
    assert_eq!(Status::MaxPending.as_str(), "max_pending");
    assert_eq!(Status::MissingPayload.as_str(), "missing_payload");
    assert_eq!(Status::FileCreateFailed.as_str(), "file_create_failed");
    assert_eq!(Status::MissingProjectToken.as_str(), "missing_project_token");
    assert_eq!(Status::StartingCommand.as_str(), "starting_command");
    assert_eq!(Status::ChangeProjectToken.as_str(), "change_project_token");
}

#[test]
fn payload_type_parses_config_spelling() {
    assert_eq!(PayloadType::from_str("env"), Ok(PayloadType::Env));
    assert_eq!(PayloadType::from_str("param"), Ok(PayloadType::Param));
    assert_eq!(PayloadType::from_str("file"), Ok(PayloadType::File));
    assert_eq!(PayloadType::from_str("other"), Err(()));
    assert_eq!(PayloadType::from_str("Env"), Err(()));
}

#[test]
fn step_flag_defaults() {
    assert!(default_to_sock());
    assert!(default_on_error());
}

#[test]
fn kv_map_binds_and_shadows() {
    let mut m = KvMap::new();
    assert!(m.get(&"a".to_string()).is_none());
    m.insert("a".to_string(), "1".to_string());
    m.insert("b".to_string(), "2".to_string());
    assert_eq!(m.get(&"a".to_string()).map(String::as_str), Some("1"));
    assert_eq!(m.get(&"b".to_string()).map(String::as_str), Some("2"));
    m.insert("a".to_string(), "3".to_string());
    assert_eq!(m.get(&"a".to_string()).map(String::as_str), Some("3"));
    assert!(m.contains_key(&"b".to_string()));
    assert!(!m.contains_key(&"c".to_string()));
}

#[test]
fn generated_tokens_have_requested_shape() {
    let t = generate_token(32);
    assert_eq!(t.len(), 32);
    assert!(t.chars().all(|c| c.is_ascii_alphanumeric()));
    let t2 = generate_token(0);
    assert!(t2.is_empty());
    let id = new_build_id();
    assert_eq!(id.len(), 36);
    assert_eq!(id.chars().filter(|c| *c == '-').count(), 4);
}

#[test]
fn flush_interval_is_floored_at_500ms() {
    let mut project = ProjectConfig {
        allow_multi_build: false,
        max_pending_build: 1,
        next_build_delay: 0,
        flush_interval: 200,
        build: BuildConfig {
            payload: Vec::new(),
            unique_build_key: "unique_id".to_string(),
            on_success_failure: String::new(),
            on_success_error_payload: Vec::new(),
            commands: Vec::new(),
            run_on_success: Vec::new(),
            run_on_failure: Vec::new(),
        },
        project_path: "/srv/proj".to_string(),
    };
    assert_eq!(project.flush_period_millis(), 500);
    project.flush_interval = 500;
    assert_eq!(project.flush_period_millis(), 500);
    project.flush_interval = 2_000;
    assert_eq!(project.flush_period_millis(), 2_000);
}
