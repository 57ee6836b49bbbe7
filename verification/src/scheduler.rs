//! The task scheduler's decision logic: which operation each task of a
//! workload becomes, and how per-task outcomes, arriving in completion
//! order, aggregate into the run's single verdict with fail-fast
//! semantics.
//!
//! The surrounding harness fans the planned steps out as concurrent
//! operations and feeds each outcome back as it completes; every decision
//! it acts on is computed here.
use vstd::prelude::*;

use crate::config::BenchmarkConfig;
use crate::config::TaskAction;
use crate::config::WorkloadConfig;
use crate::ErrorModel;
use crate::RunnerError;

verus! {

/// The message carried by the skip that a checksum-requesting workload
/// resolves to.
pub open spec fn checksum_skip_message() -> Seq<char> {
    "checksums not yet implemented"@
}

/// The one operation a task becomes when it is dispatched.
pub enum TaskStep {
    /// Fetch the object `key` and verify that exactly `size` bytes arrive;
    /// when `files_on_disk` is set, the chunks are also written, in arrival
    /// order, to a local file named by `key`.
    Download { key: String, size: u64, files_on_disk: bool },
    /// Send the local object named by `key`.
    Upload { key: String },
}

/// Spec-level shape of a [`TaskStep`].
pub enum StepModel {
    Download(Seq<char>, u64, bool),
    Upload(Seq<char>),
}

impl View for TaskStep {
    type V = StepModel;

    open spec fn view(&self) -> StepModel {
        match self {
            TaskStep::Download { key, size, files_on_disk } => StepModel::Download(
                key@,
                *size,
                *files_on_disk,
            ),
            TaskStep::Upload { key } => StepModel::Upload(key@),
        }
    }
}

/// The step that task `i` of workload `w` is dispatched as, assuming the
/// workload requests no checksum.
pub open spec fn step_for(w: WorkloadConfig, i: int) -> StepModel {
    match w.tasks[i].action {
        TaskAction::Download => StepModel::Download(w.tasks[i].key@, w.tasks[i].size, w.files_on_disk),
        TaskAction::Upload => StepModel::Upload(w.tasks[i].key@),
    }
}

/// Decide what task `task_index` becomes: the checksum gate first — a
/// workload requesting any checksum algorithm resolves every task as a
/// skip rather than attempting it — then dispatch by the task's action.
pub fn plan_task(config: &BenchmarkConfig, task_index: usize) -> (r: Result<TaskStep, RunnerError>)
    requires
        task_index < config.workload.tasks@.len(),
    ensures
        r is Err <==> config.workload.checksum is Some,
        r matches Err(e) ==> e@ == ErrorModel::Skip(checksum_skip_message()),
        r matches Ok(step) ==> step@ == step_for(config.workload, task_index as int),
{
    if config.workload.checksum.is_some() {
        return Err(RunnerError::SkipBenchmark("checksums not yet implemented".to_owned()));
    }
    let task = &config.workload.tasks[task_index];
    match task.action {
        TaskAction::Download => Ok(
            TaskStep::Download {
                key: task.key.clone(),
                size: task.size,
                files_on_disk: config.workload.files_on_disk,
            },
        ),
        TaskAction::Upload => Ok(TaskStep::Upload { key: task.key.clone() }),
    }
}

/// Spec-level outcome of one task: `None` for success, `Some` for the
/// error it resolved with.
pub open spec fn outcome_model(r: Result<(), RunnerError>) -> Option<ErrorModel> {
    match r {
        Result::Ok(_) => Option::None,
        Result::Err(e) => Option::Some(e@),
    }
}

/// The outcomes of a sequence of task results, each taken by
/// [`outcome_model`].
pub open spec fn outcome_models(rs: Seq<Result<(), RunnerError>>) -> Seq<Option<ErrorModel>> {
    rs.map_values(|r: Result<(), RunnerError>| outcome_model(r))
}

/// Spec-level verdict of a run: still waiting on tasks, or one of the
/// three terminal outcomes. A run reports no partial successes.
pub enum RunVerdict {
    Running,
    Succeeded,
    Skipped(Seq<char>),
    Failed(Seq<char>),
}

/// Exec-level verdict of a run, mirroring [`RunVerdict`].
#[derive(Debug)]
pub enum RunStatus {
    Running,
    Succeeded,
    Skipped(String),
    Failed(String),
}

impl View for RunStatus {
    type V = RunVerdict;

    open spec fn view(&self) -> RunVerdict {
        match self {
            RunStatus::Running => RunVerdict::Running,
            RunStatus::Succeeded => RunVerdict::Succeeded,
            RunStatus::Skipped(m) => RunVerdict::Skipped(m@),
            RunStatus::Failed(m) => RunVerdict::Failed(m@),
        }
    }
}

/// The terminal verdict that one failed task forces on the whole run: a
/// skip invalidates the benchmark, anything else is a hard failure.
pub open spec fn task_error_verdict(e: ErrorModel) -> RunVerdict {
    match e {
        ErrorModel::Skip(m) => RunVerdict::Skipped(m),
        ErrorModel::Fail(m) => RunVerdict::Failed(m),
    }
}

/// The verdict after one more task, out of `total`, resolves while the run
/// is still going: its error, if any, becomes terminal at once; otherwise
/// the run succeeds exactly when it was the last task.
pub open spec fn next_verdict(total: int, completed_after: int, outcome: Option<ErrorModel>) -> RunVerdict {
    match outcome {
        Option::Some(e) => task_error_verdict(e),
        Option::None => if completed_after == total {
            RunVerdict::Succeeded
        } else {
            RunVerdict::Running
        },
    }
}

/// The verdict of a run of `total` tasks after the outcomes in `outcomes`
/// have arrived, in completion order: the first error is terminal and
/// nothing after it changes the verdict.
pub open spec fn run_verdict(total: int, outcomes: Seq<Option<ErrorModel>>) -> RunVerdict
    decreases outcomes.len(),
{
    if outcomes.len() == 0 {
        if total == 0 {
            RunVerdict::Succeeded
        } else {
            RunVerdict::Running
        }
    } else {
        let prev = run_verdict(total, outcomes.drop_last());
        if prev is Running {
            next_verdict(total, outcomes.len() as int, outcomes.last())
        } else {
            prev
        }
    }
}

/// One run's verdict as it unfolds: tasks are fed in as they complete, the
/// first error ends the run, and the harness is told to stop waiting.
///
/// A run moves from running to exactly one terminal verdict and never
/// back; a state is single-use.
pub struct RunState {
    total: usize,
    completed: usize,
    status: RunStatus,
}

impl RunState {
    /// How many tasks the run dispatched.
    pub closed spec fn total_tasks(&self) -> int {
        self.total as int
    }

    /// How many task outcomes have been observed.
    pub closed spec fn completed_tasks(&self) -> int {
        self.completed as int
    }

    /// The verdict so far.
    pub closed spec fn verdict(&self) -> RunVerdict {
        self.status@
    }

    /// Internal invariant: completions never exceed the task count, the
    /// run keeps running only while outcomes are missing, and success
    /// means every outcome arrived.
    pub closed spec fn wf(&self) -> bool {
        &&& self.completed <= self.total
        &&& (self.status@ is Running ==> self.completed < self.total)
        &&& (self.status@ is Succeeded ==> self.completed == self.total)
    }

    /// Start a run of `total` dispatched tasks. A run of no tasks has
    /// nothing left to wait on and succeeds at once.
    pub fn new(total: usize) -> (s: RunState)
        ensures
            s.wf(),
            s.total_tasks() == total as int,
            s.completed_tasks() == 0,
            s.verdict() == run_verdict(total as int, Seq::<Option<ErrorModel>>::empty()),
    {
        let status = if total == 0 {
            RunStatus::Succeeded
        } else {
            RunStatus::Running
        };
        RunState { total, completed: 0, status }
    }

    /// Record the next task to complete. The first task to resolve with an
    /// error makes the run's verdict terminal: a skip outranks pending
    /// successes, a failure fails the run. If instead every task resolves
    /// successfully, the last of them makes the run succeed.
    pub fn on_task_result(&mut self, result: &Result<(), RunnerError>)
        requires
            old(self).wf(),
            old(self).verdict() is Running,
        ensures
            final(self).wf(),
            final(self).total_tasks() == old(self).total_tasks(),
            final(self).completed_tasks() == old(self).completed_tasks() + 1,
            final(self).verdict() == next_verdict(
                old(self).total_tasks(),
                old(self).completed_tasks() + 1,
                outcome_model(*result),
            ),
    {
        self.completed = self.completed + 1;
        match result {
            Result::Ok(_) => {
                if self.completed == self.total {
                    self.status = RunStatus::Succeeded;
                }
            },
            Result::Err(RunnerError::SkipBenchmark(m)) => {
                self.status = RunStatus::Skipped(m.clone());
            },
            Result::Err(RunnerError::Fail(m)) => {
                self.status = RunStatus::Failed(m.clone());
            },
        }
    }

    /// Whether the verdict is terminal, so the harness must stop waiting
    /// on the remaining tasks (fail-fast).
    pub fn is_terminal(&self) -> (b: bool)
        ensures
            b <==> !(self.verdict() is Running),
    {
        match &self.status {
            RunStatus::Running => false,
            _ => true,
        }
    }

    /// The verdict, surrendered once the harness stops feeding outcomes.
    pub fn into_status(self) -> (s: RunStatus)
        ensures
            s@ == self.verdict(),
    {
        self.status
    }

    /// The run's overall result: success, or the first error observed,
    /// with a skip kept distinct from a failure.
    pub fn into_result(self) -> (r: Result<(), RunnerError>)
        requires
            !(self.verdict() is Running),
        ensures
            r is Ok <==> self.verdict() is Succeeded,
            r matches Err(e) ==> task_error_verdict(e@) == self.verdict(),
    {
        match self.status {
            RunStatus::Running => {
                proof {
                    assert(false);  // excluded: the verdict is terminal
                }
                Err(RunnerError::Fail(String::new()))
            },
            RunStatus::Succeeded => Ok(()),
            RunStatus::Skipped(m) => Err(RunnerError::SkipBenchmark(m)),
            RunStatus::Failed(m) => Err(RunnerError::Fail(m)),
        }
    }
}

/// Aggregate task results that arrived in completion order into the run's
/// verdict, stopping at the first error exactly as the live scheduler
/// does: outcomes after it are not consulted.
pub fn aggregate_results(total: usize, results: &Vec<Result<(), RunnerError>>) -> (s: RunStatus)
    requires
        results@.len() <= total,
    ensures
        s@ == run_verdict(total as int, outcome_models(results@)),
{
    let ghost models = outcome_models(results@);
    let mut state = RunState::new(total);
    let mut finished = state.is_terminal();
    let mut i: usize = 0;
    while i < results.len() && !finished
        invariant
            i <= results@.len(),
            results@.len() <= total,
            models == outcome_models(results@),
            state.wf(),
            state.total_tasks() == total as int,
            state.completed_tasks() == i as int,
            finished <==> !(state.verdict() is Running),
            state.verdict() == run_verdict(total as int, models.take(i as int)),
        decreases results@.len() - i,
    {
        state.on_task_result(&results[i]);
        proof {
            assert(models.take(i + 1).drop_last() =~= models.take(i as int));
            assert(models.take(i + 1).last() == outcome_model(results@[i as int]));
        }
        i = i + 1;
        finished = state.is_terminal();
    }
    proof {
        if i < results@.len() {
            lemma_terminal_persists(total as int, models, i as int);
        } else {
            assert(models.take(i as int) =~= models);
        }
    }
    state.into_status()
}

/// Fail-fast is sound: once the outcomes seen so far make the verdict
/// terminal, the outcomes still outstanding cannot change it, so the
/// scheduler may stop waiting.
pub proof fn lemma_terminal_persists(total: int, outcomes: Seq<Option<ErrorModel>>, i: int)
    requires
        0 <= i <= outcomes.len(),
        !(run_verdict(total, outcomes.take(i)) is Running),
    ensures
        run_verdict(total, outcomes) == run_verdict(total, outcomes.take(i)),
    decreases outcomes.len() - i,
{
    if i == outcomes.len() {
        assert(outcomes.take(i) =~= outcomes);
    } else {
        assert(outcomes.take(i + 1).drop_last() =~= outcomes.take(i));
        lemma_terminal_persists(total, outcomes, i + 1);
    }
}

/// While every outcome seen is a success, the run is still going, and the
/// moment the seen outcomes are all `total` of them it has succeeded.
proof fn lemma_all_success_so_far(total: int, outcomes: Seq<Option<ErrorModel>>)
    requires
        outcomes.len() <= total,
        forall|j: int| 0 <= j < outcomes.len() ==> outcomes[j] is None,
    ensures
        run_verdict(total, outcomes) == if outcomes.len() == total {
            RunVerdict::Succeeded
        } else {
            RunVerdict::Running
        },
    decreases outcomes.len(),
{
    if outcomes.len() > 0 {
        assert(forall|j: int|
            0 <= j < outcomes.drop_last().len() ==> outcomes.drop_last()[j] is None);
        lemma_all_success_so_far(total, outcomes.drop_last());
    }
}

/// If every one of a run's tasks resolves successfully, the run succeeds.
pub proof fn lemma_all_success_succeeds(total: int, outcomes: Seq<Option<ErrorModel>>)
    requires
        outcomes.len() == total,
        forall|j: int| 0 <= j < outcomes.len() ==> outcomes[j] is None,
    ensures
        run_verdict(total, outcomes) == RunVerdict::Succeeded,
{
    lemma_all_success_so_far(total, outcomes);
}

/// The first task to resolve with an error decides the run: whatever
/// completes after it, the verdict is that error's — a skip skips the run,
/// a failure fails it.
pub proof fn lemma_first_error_decides(
    total: int,
    outcomes: Seq<Option<ErrorModel>>,
    k: int,
    e: ErrorModel,
)
    requires
        outcomes.len() <= total,
        0 <= k < outcomes.len(),
        forall|j: int| 0 <= j < k ==> outcomes[j] is None,
        outcomes[k] == Option::Some(e),
    ensures
        run_verdict(total, outcomes) == task_error_verdict(e),
{
    assert(forall|j: int| 0 <= j < outcomes.take(k).len() ==> outcomes.take(k)[j] is None);
    lemma_all_success_so_far(total, outcomes.take(k));
    assert(outcomes.take(k + 1).drop_last() =~= outcomes.take(k));
    assert(run_verdict(total, outcomes.take(k + 1)) == task_error_verdict(e));
    lemma_terminal_persists(total, outcomes, k + 1);
}

/// A run that every task resolves as the checksum skip — as each task of a
/// checksum-requesting workload does — ends skipped with that message,
/// even though every task would otherwise have succeeded.
pub proof fn lemma_checksum_run_skips(total: int, outcomes: Seq<Option<ErrorModel>>)
    requires
        0 < outcomes.len() <= total,
        forall|j: int|
            0 <= j < outcomes.len() ==> outcomes[j] == Option::Some(
                ErrorModel::Skip(checksum_skip_message()),
            ),
    ensures
        run_verdict(total, outcomes) == RunVerdict::Skipped(checksum_skip_message()),
{
    lemma_first_error_decides(total, outcomes, 0, ErrorModel::Skip(checksum_skip_message()));
}

/// Success is only pronounced once every dispatched task has completed.
proof fn lemma_success_needs_all(total: int, outcomes: Seq<Option<ErrorModel>>)
    requires
        outcomes.len() <= total,
        run_verdict(total, outcomes) is Succeeded,
    ensures
        outcomes.len() == total,
    decreases outcomes.len(),
{
    if outcomes.len() > 0 {
        let prev = run_verdict(total, outcomes.drop_last());
        if !(prev is Running) {
            lemma_success_needs_all(total, outcomes.drop_last());
        }
    }
}

/// No task's failure is silently swallowed: while the run reports success
/// or is still going, not one observed outcome was an error.
pub proof fn lemma_success_means_all_succeeded(total: int, outcomes: Seq<Option<ErrorModel>>)
    requires
        outcomes.len() <= total,
        run_verdict(total, outcomes) is Succeeded || run_verdict(total, outcomes) is Running,
    ensures
        forall|j: int| 0 <= j < outcomes.len() ==> outcomes[j] is None,
    decreases outcomes.len(),
{
    if outcomes.len() > 0 {
        let prev = run_verdict(total, outcomes.drop_last());
        if prev is Succeeded {
            lemma_success_needs_all(total, outcomes.drop_last());
            assert(false);
        }
        assert(prev is Running);
        lemma_success_means_all_succeeded(total, outcomes.drop_last());
        assert(forall|j: int|
            0 <= j < outcomes.len() - 1 ==> outcomes[j] == outcomes.drop_last()[j]);
    }
}

} // verus!
