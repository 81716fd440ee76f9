use buildserver::capture::CaptureState;
use buildserver::kv::KvMap;
use buildserver::state::BuildProcess;
use buildserver::status::Status;

fn active_build(total_steps: usize) -> BuildProcess {
    BuildProcess {
        id: "1".to_string(),
        unique_id: "b1".to_string(),
        status: Status::Building,
        current_step: 1,
        total_steps,
        started_at: 0,
        end_at: 0,
        duration: 0,
        socket_token: "tok".to_string(),
        payload: KvMap::new(),
        out_payload: KvMap::new(),
        logs: Vec::new(),
    }
}

#[test]
fn lines_are_buffered_then_flushed_once_in_order() {
    let mut cap = CaptureState::new();
    let mut build = active_build(1);
    let mut env = KvMap::new();
    let extract: Vec<String> = Vec::new();
    for line in ["one", "two", "three"] {
        let cont = cap.on_stdout_line(&mut build, &mut env, &extract, 1, false, false, 5, line);
        assert!(cont);
    }
    assert!(build.logs.is_empty());
    let batch = cap.on_flush(&mut build, true).expect("published batch");
    assert_eq!(batch.len(), 3);
    let msgs: Vec<&str> = build.logs.iter().map(|l| l.message.as_str()).collect();
    assert_eq!(msgs, vec!["one", "two", "three"]);
    assert!(cap.on_flush(&mut build, true).is_none());
    assert_eq!(build.logs.len(), 3);
}

#[test]
fn flush_mid_burst_loses_and_duplicates_nothing() {
    let mut cap = CaptureState::new();
    let mut build = active_build(1);
    let mut env = KvMap::new();
    let extract: Vec<String> = Vec::new();
    let _ = cap.on_stdout_line(&mut build, &mut env, &extract, 1, false, false, 5, "a");
    let _ = cap.on_flush(&mut build, false);
    let _ = cap.on_stdout_line(&mut build, &mut env, &extract, 1, false, false, 6, "b");
    let _ = cap.on_stdout_line(&mut build, &mut env, &extract, 1, false, false, 7, "c");
    let _ = cap.on_flush(&mut build, false);
    let _ = cap.on_flush(&mut build, false);
    let msgs: Vec<&str> = build.logs.iter().map(|l| l.message.as_str()).collect();
    assert_eq!(msgs, vec!["a", "b", "c"]);
}

#[test]
fn blank_lines_are_dropped_and_messages_trimmed() {
    let mut cap = CaptureState::new();
    let mut build = active_build(1);
    let mut env = KvMap::new();
    let extract: Vec<String> = Vec::new();
    let _ = cap.on_stdout_line(&mut build, &mut env, &extract, 1, false, false, 5, "   ");
    let _ = cap.on_stdout_line(&mut build, &mut env, &extract, 1, false, false, 5, "");
    let _ = cap.on_stdout_line(&mut build, &mut env, &extract, 1, false, false, 5, "  hi  ");
    let _ = cap.on_flush(&mut build, false);
    let msgs: Vec<&str> = build.logs.iter().map(|l| l.message.as_str()).collect();
    assert_eq!(msgs, vec!["hi"]);
}

#[test]
fn sentinel_switches_to_env_mode_and_extracts_declared_keys() {
    let mut cap = CaptureState::new();
    let mut build = active_build(1);
    let mut env = KvMap::new();
    let extract = vec!["VERSION".to_string()];
    let _ = cap.on_stdout_line(&mut build, &mut env, &extract, 1, false, false, 5, "real output");
    let _ = cap.on_stdout_line(&mut build, &mut env, &extract, 1, false, false, 5, "+_+_+_");
    let _ = cap.on_stdout_line(&mut build, &mut env, &extract, 1, false, false, 5, "VERSION=1.2");
    let _ = cap.on_stdout_line(&mut build, &mut env, &extract, 1, false, false, 5, "HOME=/root");
    let _ = cap.on_flush(&mut build, false);
    let msgs: Vec<&str> = build.logs.iter().map(|l| l.message.as_str()).collect();
    assert_eq!(msgs, vec!["real output"]);
    assert_eq!(build.payload.get(&"VERSION".to_string()).map(String::as_str), Some("1.2"));
    assert_eq!(env.get(&"VERSION".to_string()).map(String::as_str), Some("1.2"));
    assert!(env.get(&"HOME".to_string()).is_none());
}

#[test]
fn termination_flag_stops_stdout_loop_unless_bypassed() {
    let mut cap = CaptureState::new();
    let mut build = active_build(1);
    let mut env = KvMap::new();
    let extract: Vec<String> = Vec::new();
    let cont = cap.on_stdout_line(&mut build, &mut env, &extract, 1, false, true, 5, "line");
    assert!(!cont);
    let cont_hook = cap.on_stdout_line(&mut build, &mut env, &extract, 1, true, true, 5, "line");
    assert!(cont_hook);
}

#[test]
fn stderr_lines_carry_error_status() {
    let mut cap = CaptureState::new();
    let mut build = active_build(2);
    let cont = cap.on_stderr_line(&mut build, 2, false, false, 9, "boom");
    assert!(cont);
    let _ = cap.on_flush(&mut build, false);
    assert_eq!(build.logs.len(), 1);
    assert_eq!(build.logs[0].status, Status::Error);
    assert_eq!(build.logs[0].step, 2);
    assert_eq!(build.logs[0].message, "boom");
}
