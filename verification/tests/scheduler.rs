use s3_benchrunner_rust::config::BenchmarkConfig;
use s3_benchrunner_rust::config::ChecksumAlgorithm;
use s3_benchrunner_rust::config::TaskAction;
use s3_benchrunner_rust::config::TaskConfig;
use s3_benchrunner_rust::config::WorkloadConfig;
use s3_benchrunner_rust::scheduler::aggregate_results;
use s3_benchrunner_rust::scheduler::plan_task;
use s3_benchrunner_rust::scheduler::RunState;
use s3_benchrunner_rust::scheduler::RunStatus;
use s3_benchrunner_rust::scheduler::TaskStep;
use s3_benchrunner_rust::RunnerError;

fn two_task_config(checksum: Option<ChecksumAlgorithm>) -> BenchmarkConfig {
    let workload = WorkloadConfig {
        version: 2,
        files_on_disk: true,
        checksum,
        max_repeat_count: 1,
        max_repeat_secs: 60,
        tasks: vec![
            TaskConfig { action: TaskAction::Download, key: "a.bin".to_string(), size: 1000 },
            TaskConfig { action: TaskAction::Upload, key: "b.bin".to_string(), size: 2000 },
        ],
    };
    BenchmarkConfig::new(workload, "bkt".to_string(), "eu-west-1".to_string(), 0)
        .expect("version 2 must assemble")
}

#[test]
fn tasks_dispatch_by_their_action() {
    let config = two_task_config(None);
    match plan_task(&config, 0).expect("no checksum: task must dispatch") {
        TaskStep::Download { key, size, files_on_disk } => {
            assert_eq!(key, "a.bin");
            assert_eq!(size, 1000);
            assert!(files_on_disk);
        }
        TaskStep::Upload { .. } => panic!("task 0 is a download"),
    }
    match plan_task(&config, 1).expect("no checksum: task must dispatch") {
        TaskStep::Upload { key } => assert_eq!(key, "b.bin"),
        TaskStep::Download { .. } => panic!("task 1 is an upload"),
    }
}

#[test]
fn checksum_request_skips_every_task() {
    let config = two_task_config(Some(ChecksumAlgorithm::CRC32));
    for i in 0..2 {
        match plan_task(&config, i) {
            Ok(_) => panic!("checksum workload must not dispatch"),
            Err(RunnerError::SkipBenchmark(m)) => {
                assert_eq!(m, "checksums not yet implemented");
            }
            Err(RunnerError::Fail(_)) => panic!("checksum request must skip, not fail"),
        }
    }
}

#[test]
fn checksum_run_ends_skipped_with_a_checksum_message() {
    let config = two_task_config(Some(ChecksumAlgorithm::SHA1));
    let results: Vec<Result<(), RunnerError>> =
        (0..2).map(|i| plan_task(&config, i).map(|_| ())).collect();
    match aggregate_results(2, &results) {
        RunStatus::Skipped(m) => assert!(m.contains("checksum")),
        other => panic!("expected a skip, got {other:?}"),
    }
}

#[test]
fn all_tasks_succeeding_makes_the_run_succeed() {
    let results: Vec<Result<(), RunnerError>> = vec![Ok(()), Ok(()), Ok(())];
    assert!(matches!(aggregate_results(3, &results), RunStatus::Succeeded));
}

#[test]
fn a_run_of_no_tasks_succeeds() {
    let results: Vec<Result<(), RunnerError>> = Vec::new();
    assert!(matches!(aggregate_results(0, &results), RunStatus::Succeeded));
}

#[test]
fn successes_alone_leave_the_run_waiting() {
    let results: Vec<Result<(), RunnerError>> = vec![Ok(()), Ok(())];
    assert!(matches!(aggregate_results(3, &results), RunStatus::Running));
}

#[test]
fn first_failure_decides_the_run() {
    let results: Vec<Result<(), RunnerError>> = vec![
        Ok(()),
        Err(RunnerError::Fail("failed downloading: b.bin".to_string())),
        Err(RunnerError::Fail("failed downloading: c.bin".to_string())),
        Ok(()),
    ];
    match aggregate_results(4, &results) {
        RunStatus::Failed(m) => assert_eq!(m, "failed downloading: b.bin"),
        other => panic!("expected a failure, got {other:?}"),
    }
}

#[test]
fn skip_outranks_pending_successes() {
    let results: Vec<Result<(), RunnerError>> = vec![
        Ok(()),
        Err(RunnerError::SkipBenchmark("checksums not yet implemented".to_string())),
    ];
    match aggregate_results(5, &results) {
        RunStatus::Skipped(m) => assert_eq!(m, "checksums not yet implemented"),
        other => panic!("expected a skip, got {other:?}"),
    }
}

#[test]
fn a_failure_ahead_of_a_skip_still_fails_the_run() {
    let results: Vec<Result<(), RunnerError>> = vec![
        Err(RunnerError::Fail("failed downloading: a.bin".to_string())),
        Err(RunnerError::SkipBenchmark("checksums not yet implemented".to_string())),
    ];
    match aggregate_results(2, &results) {
        RunStatus::Failed(m) => assert_eq!(m, "failed downloading: a.bin"),
        other => panic!("expected the first failure, got {other:?}"),
    }
}

#[test]
fn run_state_stops_waiting_at_the_first_failure() {
    let mut state = RunState::new(3);
    assert!(!state.is_terminal());
    state.on_task_result(&Ok(()));
    assert!(!state.is_terminal());
    state.on_task_result(&Err(RunnerError::Fail("failed uploading: b.bin".to_string())));
    // Fail-fast: terminal after the first failure, with one task still in flight.
    assert!(state.is_terminal());
    match state.into_result() {
        Err(RunnerError::Fail(m)) => assert_eq!(m, "failed uploading: b.bin"),
        other => panic!("expected the first failure, got {other:?}"),
    }
}

#[test]
fn run_state_succeeds_once_every_task_completed() {
    let mut state = RunState::new(2);
    state.on_task_result(&Ok(()));
    assert!(!state.is_terminal());
    state.on_task_result(&Ok(()));
    assert!(state.is_terminal());
    assert!(state.into_result().is_ok());
}
