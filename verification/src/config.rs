//! The workload model: the in-memory representation of a parsed benchmark
//! definition, and its assembly (together with caller-supplied parameters)
//! into the immutable configuration one benchmark run reads.
use vstd::prelude::*;

use crate::text::concat_str;
use crate::text::dec_seq;
use crate::text::u64_to_decimal;
use crate::ErrorModel;
use crate::RunnerError;

verus! {

/// The single workload schema version this engine understands. A workload
/// declaring any other version is skipped, never failed.
pub const SUPPORTED_VERSION: u32 = 2;

/// Possible values for a workload's "checksum" field. Requesting any of
/// them is currently unsupported and causes the whole benchmark to be
/// skipped.
#[derive(Debug, Clone, Copy, PartialEq, Eq, Structural)]
pub enum ChecksumAlgorithm {
    CRC32,
    CRC32C,
    SHA1,
    SHA256,
}

/// Possible values for a task's "action" field.
#[derive(Debug, Clone, Copy, PartialEq, Eq, Structural)]
pub enum TaskAction {
    Download,
    Upload,
}

/// One task of a workload: a single upload or download of one named object.
#[derive(Debug)]
pub struct TaskConfig {
    pub action: TaskAction,
    /// Object identifier; doubles as the local file path when the workload
    /// materializes files on disk.
    pub key: String,
    /// Expected byte length; used to validate download completeness.
    pub size: u64,
}

/// A parsed benchmark definition: an ordered sequence of tasks plus global
/// execution parameters.
#[derive(Debug)]
pub struct WorkloadConfig {
    pub version: u32,
    /// Whether downloaded bytes are persisted to local files.
    pub files_on_disk: bool,
    /// Optional checksum request; `Some` is currently unsupported.
    pub checksum: Option<ChecksumAlgorithm>,
    /// Bound on repeated execution, consumed by an outer harness.
    pub max_repeat_count: u32,
    /// Time budget for repeated execution, in whole seconds, consumed by an
    /// outer harness.
    pub max_repeat_secs: u64,
    /// Declaration order governs dispatch order only; concurrent scheduling
    /// means tasks complete out of order.
    pub tasks: Vec<TaskConfig>,
}

/// All configuration for a benchmark run: the workload plus caller-supplied
/// bucket, region, and target throughput. Assembled once and never mutated;
/// concurrent tasks share it read-only.
#[derive(Debug)]
pub struct BenchmarkConfig {
    pub workload: WorkloadConfig,
    pub bucket: String,
    pub region: String,
    /// Target throughput in megabits per second (one gigabit per second is
    /// 1000 megabits per second), kept integral so the planner's arithmetic
    /// is exact.
    pub target_throughput_megabits_per_sec: u64,
}

/// The message reported when a workload declares an unsupported version.
pub open spec fn version_skip_message(version: int) -> Seq<char> {
    "Workload version not supported: "@ + dec_seq(version)
}

/// The message reported when the workload document cannot be decoded.
pub open spec fn parse_skip_message(path: Seq<char>, detail: Seq<char>) -> Seq<char> {
    "Can't parse '"@ + path + "'. Different version maybe? - "@ + detail
}

impl BenchmarkConfig {
    /// Assemble the configuration for one benchmark run, validating the
    /// workload's schema version first: a mismatch skips the whole
    /// benchmark, it never fails it.
    pub fn new(
        workload: WorkloadConfig,
        bucket: String,
        region: String,
        target_throughput_megabits_per_sec: u64,
    ) -> (r: Result<BenchmarkConfig, RunnerError>)
        ensures
            r is Ok <==> workload.version == SUPPORTED_VERSION,
            r matches Ok(c) ==> c.workload == workload && c.bucket == bucket && c.region == region
                && c.target_throughput_megabits_per_sec == target_throughput_megabits_per_sec,
            r matches Err(e) ==> e@ == ErrorModel::Skip(
                version_skip_message(workload.version as int),
            ),
    {
        if workload.version != SUPPORTED_VERSION {
            let digits = u64_to_decimal(workload.version as u64);
            let msg = concat_str("Workload version not supported: ", digits.as_str());
            return Err(RunnerError::SkipBenchmark(msg));
        }
        Ok(
            BenchmarkConfig {
                workload,
                bucket,
                region,
                target_throughput_megabits_per_sec,
            },
        )
    }
}

/// The error for a workload document that could not be decoded at all.
/// The most common cause is a schema-version mismatch, so the condition is
/// reported as a skip rather than a failure.
pub fn workload_parse_failure(path: &str, detail: &str) -> (e: RunnerError)
    ensures
        e@ == ErrorModel::Skip(parse_skip_message(path@, detail@)),
{
    let head = concat_str("Can't parse '", path);
    let mid = concat_str(head.as_str(), "'. Different version maybe? - ");
    let msg = concat_str(mid.as_str(), detail);
    RunnerError::SkipBenchmark(msg)
}

} // verus!
