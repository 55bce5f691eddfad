use tor_bridge::channel::ErrorSlot;
use tor_bridge::errors::ErrorKind;
use tor_bridge::paths::decode_path;
use tor_bridge::start::{advance, conclude_bootstrap, issue_handle, StartPhase, StepOutcome};

fn drive(phase: StartPhase, outcomes: Vec<StepOutcome>, slot: &mut ErrorSlot) -> StartPhase {
    let mut current = phase;
    for outcome in outcomes {
        current = advance(current, outcome, slot);
    }
    current
}

#[test]
fn successful_start_returns_handle_and_no_error() {
    let mut slot = ErrorSlot::empty();
    let outcomes = vec![
        StepOutcome::Success,
        StepOutcome::Success,
        StepOutcome::Success,
        StepOutcome::Success,
        StepOutcome::Success,
        StepOutcome::Success,
        StepOutcome::Success,
    ];
    let phase = drive(StartPhase::DecodeStateDir, outcomes, &mut slot);
    assert_eq!(phase, StartPhase::Succeeded);
    let handle = issue_handle(phase, 9050);
    assert!(handle.is_some());
    assert_eq!(handle.unwrap().proxy_port, 9050);
    assert_eq!(slot.read_message().as_str(), "");
}

#[test]
fn failing_start_returns_null_and_records_error() {
    let mut slot = ErrorSlot::empty();
    let outcomes = vec![
        StepOutcome::Success,
        StepOutcome::Success,
        StepOutcome::Success,
        StepOutcome::Success,
        StepOutcome::Failure(String::from("no usable directory information")),
    ];
    let phase = drive(StartPhase::DecodeStateDir, outcomes, &mut slot);
    assert_eq!(phase, StartPhase::Failed);
    assert!(issue_handle(phase, 9050).is_none());
    let message = slot.read_message();
    assert!(!message.is_empty());
    assert_eq!(
        message.as_str(),
        "could not build the client configuration: no usable directory information"
    );
}

#[test]
fn failure_is_terminal_and_keeps_first_record() {
    let mut slot = ErrorSlot::empty();
    let mut phase = advance(
        StartPhase::CreateRuntime,
        StepOutcome::Failure(String::from("out of threads")),
        &mut slot,
    );
    assert_eq!(phase, StartPhase::Failed);
    phase = advance(phase, StepOutcome::Success, &mut slot);
    assert_eq!(phase, StartPhase::Failed);
    phase = advance(phase, StepOutcome::Failure(String::from("later noise")), &mut slot);
    assert_eq!(phase, StartPhase::Failed);
    assert_eq!(
        slot.read_message().as_str(),
        "could not start the async runtime: out of threads"
    );
}

#[test]
fn file_limit_failure_does_not_fail_the_start() {
    let mut slot = ErrorSlot::empty();
    let phase = advance(
        StartPhase::RaiseFileLimit,
        StepOutcome::Failure(String::from("operation not permitted")),
        &mut slot,
    );
    assert_eq!(phase, StartPhase::BuildConfig);
    assert_eq!(slot.read_message().as_str(), "");
}

#[test]
fn proxy_spawn_outcome_is_ignored() {
    let mut slot = ErrorSlot::empty();
    let phase = advance(
        StartPhase::SpawnProxy,
        StepOutcome::Failure(String::from("never reported at this layer")),
        &mut slot,
    );
    assert_eq!(phase, StartPhase::Succeeded);
    assert_eq!(slot.read_message().as_str(), "");
}

#[test]
fn each_fatal_phase_records_its_kind() {
    let cases = vec![
        (StartPhase::DecodeStateDir, "invalid path encoding: boom"),
        (StartPhase::DecodeCacheDir, "invalid path encoding: boom"),
        (StartPhase::CreateRuntime, "could not start the async runtime: boom"),
        (StartPhase::BuildConfig, "could not build the client configuration: boom"),
        (StartPhase::BootstrapClient, "client bootstrap failed: boom"),
    ];
    for (phase, expected) in cases {
        let mut slot = ErrorSlot::empty();
        let next = advance(phase, StepOutcome::Failure(String::from("boom")), &mut slot);
        assert_eq!(next, StartPhase::Failed);
        assert_eq!(slot.read_message().as_str(), expected);
    }
}

#[test]
fn malformed_state_dir_yields_failure_with_decoding_error() {
    let mut slot = ErrorSlot::empty();
    let bad_bytes = vec![0xff, 0xfe, 0x2f, 0x74, 0x6d, 0x70];
    let phase = match decode_path(bad_bytes) {
        Ok(_) => panic!("malformed bytes must not decode"),
        Err(detail) => advance(StartPhase::DecodeStateDir, StepOutcome::Failure(detail), &mut slot),
    };
    assert_eq!(phase, StartPhase::Failed);
    assert!(issue_handle(phase, 9050).is_none());
    assert_eq!(
        slot.read_message().as_str(),
        "invalid path encoding: the bytes are not valid UTF-8 text"
    );
}

#[test]
fn valid_paths_decode_to_their_text() {
    let decoded = decode_path(b"/tmp/state".to_vec());
    assert_eq!(decoded.unwrap().as_str(), "/tmp/state");
    let decoded = decode_path(b"/tmp/cache".to_vec());
    assert_eq!(decoded.unwrap().as_str(), "/tmp/cache");
    assert!(decode_path(vec![0x80]).is_err());
}

#[test]
fn scenario_start_on_port_9050_with_tmp_directories() {
    let mut slot = ErrorSlot::empty();
    let mut phase = StartPhase::DecodeStateDir;
    let state_dir = decode_path(b"/tmp/state".to_vec()).unwrap();
    phase = advance(phase, StepOutcome::Success, &mut slot);
    let cache_dir = decode_path(b"/tmp/cache".to_vec()).unwrap();
    phase = advance(phase, StepOutcome::Success, &mut slot);
    assert_eq!(state_dir.as_str(), "/tmp/state");
    assert_eq!(cache_dir.as_str(), "/tmp/cache");
    // The remaining phases stand for the outside work on a reachable network.
    for _ in 0..5 {
        phase = advance(phase, StepOutcome::Success, &mut slot);
    }
    assert_eq!(phase, StartPhase::Succeeded);
    let handle = issue_handle(phase, 9050).expect("a successful start must yield a handle");
    assert_eq!(handle.proxy_port, 9050);
    assert_eq!(slot.read_message().as_str(), "");
}

#[test]
fn rebootstrap_succeeds_without_touching_the_error_channel() {
    let mut slot = ErrorSlot::empty();
    assert!(conclude_bootstrap(StepOutcome::Success, &mut slot));
    assert_eq!(slot.read_message().as_str(), "");
}

#[test]
fn rebootstrap_failure_returns_false_and_records() {
    let mut slot = ErrorSlot::empty();
    let ok = conclude_bootstrap(
        StepOutcome::Failure(String::from("connection reset")),
        &mut slot,
    );
    assert!(!ok);
    assert_eq!(
        slot.read_message().as_str(),
        "client bootstrap failed: connection reset"
    );
}

#[test]
fn error_kinds_are_distinct() {
    assert_ne!(ErrorKind::PathEncoding, ErrorKind::RuntimeInit);
    assert_ne!(ErrorKind::ConfigBuild, ErrorKind::Bootstrap);
}
