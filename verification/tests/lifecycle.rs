use wsf::channel::MAX_INPUT_SIZE;
use wsf::config::HarnessConfig;
use wsf::controller::ExecutionController;
use wsf::lifecycle::{FatalCondition, StopCause, EXIT_FAILURE, EXIT_SUCCESS};
use wsf::snapshot::{ConfigError, SnapshotHandle};

#[test]
fn fixed_configuration_holds_the_fixed_values() {
    let config = HarnessConfig::fixed(Some(String::from("clean-boot"))).unwrap();
    assert_eq!(config.cores, "1");
    assert_eq!(config.timeout_secs, 5);
    assert_eq!(config.broker_port, 1337);
    assert_eq!(config.corpus_dir, "./corpus");
    assert_eq!(config.objective_dir, "./crashes");
    assert_eq!(config.tokens_file, "./tokens/test.dict");
    assert_eq!(config.input_capacity, MAX_INPUT_SIZE);
    assert_eq!(config.baseline.name(), "clean-boot");
}

#[test]
fn fixed_configuration_requires_the_snapshot_name() {
    assert_eq!(
        HarnessConfig::fixed(None).map(|c| c.timeout_secs),
        Err(ConfigError::MissingSnapshotName)
    );
}

#[test]
fn shutdown_is_a_success_with_a_benign_message() {
    let cause = StopCause::ShutdownRequested;
    assert!(cause.is_benign());
    assert_eq!(cause.exit_code(), 0);
    assert_eq!(cause.exit_code(), EXIT_SUCCESS);
    assert_eq!(cause.message(), "Fuzzing stopped by user. Good bye.");
}

#[test]
fn every_fatal_condition_is_a_failure() {
    let conditions = [
        FatalCondition::MissingSnapshotName,
        FatalCondition::MissingSnapshot,
        FatalCondition::MissingSeedDirectory,
        FatalCondition::MalformedDictionary,
        FatalCondition::Unexpected,
    ];
    for condition in conditions {
        let cause = StopCause::Fatal(condition);
        assert!(!cause.is_benign());
        assert_eq!(cause.exit_code(), EXIT_FAILURE);
        assert_ne!(cause.exit_code(), 0);
        assert_ne!(cause.message(), StopCause::ShutdownRequested.message());
    }
}

#[test]
fn messages_of_the_fatal_conditions() {
    assert_eq!(
        StopCause::Fatal(FatalCondition::MissingSnapshotName).message(),
        "name of the baseline snapshot is not set"
    );
    assert_eq!(
        StopCause::Fatal(FatalCondition::MissingSnapshot).message(),
        "baseline snapshot is absent"
    );
    assert_eq!(
        StopCause::Fatal(FatalCondition::MissingSeedDirectory).message(),
        "failed to load the initial corpus"
    );
    assert_eq!(
        StopCause::Fatal(FatalCondition::MalformedDictionary).message(),
        "dictionary of tokens is malformed"
    );
    assert_eq!(
        StopCause::Fatal(FatalCondition::Unexpected).message(),
        "unexpected exit of the fuzz loop"
    );
}

#[test]
fn configuration_error_is_fatal() {
    assert_eq!(
        FatalCondition::from_config(ConfigError::MissingSnapshotName),
        FatalCondition::MissingSnapshotName
    );
}

#[test]
fn target_is_at_baseline_between_iterations_only() {
    let mut controller = ExecutionController::new(8, SnapshotHandle::new(String::from("b")));
    assert!(!controller.at_baseline());
    controller.restored().unwrap();
    assert!(controller.at_baseline());
    controller.begin_iteration(b"in").unwrap();
    assert!(!controller.at_baseline());
    controller
        .complete_run(wsf::controller::RunOutcome::Returned(1))
        .unwrap();
    assert!(!controller.at_baseline());
    controller.restored().unwrap();
    assert!(controller.at_baseline());
}
