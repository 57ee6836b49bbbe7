//! Core logic of a benchmark driver that replays a declarative workload of
//! object-storage upload/download tasks: the workload model, the concurrency
//! planner, the fail-fast task scheduler, and download size accounting.
//!
//! Everything that touches the network, the filesystem, or an async runtime
//! lives outside this crate; the functions here take and return plain values
//! and carry contracts for all of them.
use vstd::prelude::*;

pub mod config;
pub mod download;
pub mod planner;
pub mod scheduler;
pub mod text;

verus! {

/// Spec-level shape of a [`RunnerError`]: which kind it is, and its message
/// as a sequence of characters.
pub enum ErrorModel {
    Skip(Seq<char>),
    Fail(Seq<char>),
}

/// Terminal error of a benchmark run.
#[derive(Debug)]
pub enum RunnerError {
    /// The runner knows it cannot run this workload (unsupported schema
    /// version, unsupported checksum request). Not the user's fault, not a
    /// bug; reported distinctly from failure.
    SkipBenchmark(String),
    /// A hard failure: a transfer failed, a download's byte count did not
    /// match the declared size, or a local file could not be written.
    Fail(String),
}

impl View for RunnerError {
    type V = ErrorModel;

    open spec fn view(&self) -> ErrorModel {
        match self {
            RunnerError::SkipBenchmark(m) => ErrorModel::Skip(m@),
            RunnerError::Fail(m) => ErrorModel::Fail(m@),
        }
    }
}

impl Clone for RunnerError {
    fn clone(&self) -> (r: Self)
        ensures
            r@ == self@,
    {
        match self {
            RunnerError::SkipBenchmark(m) => RunnerError::SkipBenchmark(m.clone()),
            RunnerError::Fail(m) => RunnerError::Fail(m.clone()),
        }
    }
}

impl RunnerError {
    /// True exactly for the skip outcome, which callers must surface
    /// distinctly from a failure.
    pub fn is_skip(&self) -> (r: bool)
        ensures
            r <==> self@ is Skip,
    {
        match self {
            RunnerError::SkipBenchmark(_) => true,
            RunnerError::Fail(_) => false,
        }
    }

    /// The human-readable message carried by either kind of error.
    pub fn message(&self) -> (m: &String)
        ensures
            self@ is Skip ==> self@ == ErrorModel::Skip(m@),
            self@ is Fail ==> self@ == ErrorModel::Fail(m@),
    {
        match self {
            RunnerError::SkipBenchmark(m) => m,
            RunnerError::Fail(m) => m,
        }
    }
}

} // verus!
