use s3_benchrunner_rust::config::BenchmarkConfig;
use s3_benchrunner_rust::config::ChecksumAlgorithm;
use s3_benchrunner_rust::config::TaskAction;
use s3_benchrunner_rust::config::TaskConfig;
use s3_benchrunner_rust::config::WorkloadConfig;
use s3_benchrunner_rust::config::workload_parse_failure;
use s3_benchrunner_rust::RunnerError;

fn sample_workload(version: u32) -> WorkloadConfig {
    WorkloadConfig {
        version,
        files_on_disk: true,
        checksum: None,
        max_repeat_count: 3,
        max_repeat_secs: 60,
        tasks: vec![TaskConfig { action: TaskAction::Download, key: "a.bin".to_string(), size: 1000 }],
    }
}

#[test]
fn supported_version_assembles_the_config() {
    let r = BenchmarkConfig::new(sample_workload(2), "bkt".to_string(), "eu-west-1".to_string(), 5_000);
    let config = r.expect("version 2 must assemble");
    assert_eq!(config.workload.version, 2);
    assert_eq!(config.workload.tasks.len(), 1);
    assert_eq!(config.workload.tasks[0].key, "a.bin");
    assert_eq!(config.bucket, "bkt");
    assert_eq!(config.region, "eu-west-1");
    assert_eq!(config.target_throughput_megabits_per_sec, 5_000);
}

#[test]
fn unsupported_version_skips_never_fails() {
    for version in [0u32, 1, 3, 4, 250] {
        let r = BenchmarkConfig::new(
            sample_workload(version),
            "bkt".to_string(),
            "eu-west-1".to_string(),
            0,
        );
        match r {
            Ok(_) => panic!("version {version} must not assemble"),
            Err(e) => assert!(e.is_skip(), "version mismatch must skip, not fail"),
        }
    }
}

#[test]
fn version_skip_message_names_the_version() {
    let r = BenchmarkConfig::new(sample_workload(3), String::new(), String::new(), 0);
    match r {
        Ok(_) => panic!("must not assemble"),
        Err(RunnerError::SkipBenchmark(m)) => {
            assert_eq!(m, "Workload version not supported: 3");
        }
        Err(RunnerError::Fail(_)) => panic!("must skip, not fail"),
    }
}

#[test]
fn version_skip_message_renders_every_digit() {
    let r = BenchmarkConfig::new(sample_workload(250), String::new(), String::new(), 0);
    match r {
        Ok(_) => panic!("must not assemble"),
        Err(e) => assert_eq!(e.message().as_str(), "Workload version not supported: 250"),
    }
    let r0 = BenchmarkConfig::new(sample_workload(0), String::new(), String::new(), 0);
    match r0 {
        Ok(_) => panic!("must not assemble"),
        Err(e) => assert_eq!(e.message().as_str(), "Workload version not supported: 0"),
    }
}

#[test]
fn undecodable_workload_is_a_skip() {
    let e = workload_parse_failure("w.json", "missing field `tasks`");
    assert!(e.is_skip());
    assert_eq!(
        e.message().as_str(),
        "Can't parse 'w.json'. Different version maybe? - missing field `tasks`"
    );
}

#[test]
fn cloning_an_error_keeps_its_kind_and_message() {
    let e = workload_parse_failure("w.json", "eof");
    let c = e.clone();
    assert!(c.is_skip());
    assert_eq!(c.message(), e.message());
}

#[test]
fn checksum_field_round_trips_through_the_model() {
    let mut w = sample_workload(2);
    w.checksum = Some(ChecksumAlgorithm::SHA256);
    assert_eq!(w.checksum, Some(ChecksumAlgorithm::SHA256));
    assert_ne!(w.checksum, Some(ChecksumAlgorithm::CRC32C));
}
