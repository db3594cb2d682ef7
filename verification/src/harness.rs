//! Planning and accounting of repeated execution: how often and by how many
//! workers a descriptor runs, which attempt a worker may start next, and what
//! the attempts add up to.

use vstd::prelude::*;
use crate::error::ExecError;
use crate::request::{RawRequestSpec, RequestSpec, ScenarioSpec};
use crate::span::TimeSpan;
use crate::OutputFormat;

verus! {

/// How a descriptor is to be executed.
#[derive(Debug, Clone)]
pub struct ExecutionConfig<'a> {
    pub output: OutputFormat,
    /// Limit on the time to connect.
    pub conn_timeout_secs: Option<TimeSpan>,
    /// Limit on the time of a request.
    pub request_timeout_secs: Option<TimeSpan>,
    pub user_agent: &'a str,
    pub verbose: bool,
    /// How many attempts to make.
    pub count: Option<u32>,
    /// For how many seconds to start attempts; when positive it takes
    /// precedence over `count`.
    pub duration_secs: u32,
    /// How many workers make the attempts; `0` stands for `1`.
    pub concurrency: u32,
}

impl<'a> ExecutionConfig<'a> {
    /// One attempt by one worker, without time limits, for a human reader.
    #[must_use]
    pub fn new(user_agent: &'a str) -> (c: Self)
        ensures
            c.output == OutputFormat::Human,
            c.conn_timeout_secs is None,
            c.request_timeout_secs is None,
            c.user_agent == user_agent,
            !c.verbose,
            c.count is None,
            c.duration_secs == 0,
            c.concurrency == 1,
    {
        ExecutionConfig {
            output: OutputFormat::Human,
            conn_timeout_secs: None,
            request_timeout_secs: None,
            user_agent,
            verbose: false,
            count: None,
            duration_secs: 0,
            concurrency: 1,
        }
    }
}

/// When a repeated run stops starting attempts.
#[derive(Debug, Clone, Copy, PartialEq, Eq, Structural)]
pub enum RepeatMode {
    /// After so many attempts.
    Count(u32),
    /// After so many seconds.
    Duration(u32),
}

/// Why a request to repeat was set aside.
#[derive(Debug, Clone, Copy, PartialEq, Eq, Structural)]
pub enum PlanWarning {
    /// A custom handler cannot run for a duration.
    DurationIgnored,
    /// A custom handler cannot run in parallel.
    CountIgnored,
}

/// How a descriptor runs.
#[derive(Debug, Clone, Copy, PartialEq, Eq, Structural)]
pub enum RunPlan {
    /// Once, by the caller itself; with the warning to give, if any.
    Single(Option<PlanWarning>),
    /// Repeatedly, by so many workers.
    Repeat { mode: RepeatMode, workers: u32 },
}

/// The number of workers that a concurrency stands for: `0` stands for `1`.
pub open spec fn spec_workers(concurrency: u32) -> u32 {
    if concurrency == 0 {
        1
    } else {
        concurrency
    }
}

/// The plan for a descriptor. A positive duration asks for a run by
/// duration; else a count above one asks for a run by count; else the
/// descriptor runs once. A custom handler runs once whatever is asked, with a
/// warning where something else was asked.
pub open spec fn spec_plan(
    is_custom_handler: bool,
    count: Option<u32>,
    duration_secs: u32,
    concurrency: u32,
) -> RunPlan {
    if duration_secs > 0 {
        if is_custom_handler {
            RunPlan::Single(Some(PlanWarning::DurationIgnored))
        } else {
            RunPlan::Repeat {
                mode: RepeatMode::Duration(duration_secs),
                workers: spec_workers(concurrency),
            }
        }
    } else if count is Some && count->0 > 1 {
        if is_custom_handler {
            RunPlan::Single(Some(PlanWarning::CountIgnored))
        } else {
            RunPlan::Repeat { mode: RepeatMode::Count(count->0), workers: spec_workers(concurrency) }
        }
    } else {
        RunPlan::Single(None)
    }
}

/// Plans the execution of `spec` under `config`.
pub fn plan_run(spec: &RequestSpec, config: &ExecutionConfig<'_>) -> (plan: RunPlan)
    ensures
        plan == spec_plan(
            *spec is CustomHandler,
            config.count,
            config.duration_secs,
            config.concurrency,
        ),
{
    let is_custom_handler = match spec {
        RequestSpec::CustomHandler { .. } => true,
        _ => false,
    };
    let workers: u32 = if config.concurrency == 0 {
        1
    } else {
        config.concurrency
    };
    if config.duration_secs > 0 {
        if is_custom_handler {
            RunPlan::Single(Some(PlanWarning::DurationIgnored))
        } else {
            RunPlan::Repeat { mode: RepeatMode::Duration(config.duration_secs), workers }
        }
    } else {
        match config.count {
            Some(c) => {
                if c > 1 {
                    if is_custom_handler {
                        RunPlan::Single(Some(PlanWarning::CountIgnored))
                    } else {
                        RunPlan::Repeat { mode: RepeatMode::Count(c), workers }
                    }
                } else {
                    RunPlan::Single(None)
                }
            },
            None => RunPlan::Single(None),
        }
    }
}

/// A concurrency of `0` gives the plan that a concurrency of `1` gives.
pub proof fn lemma_zero_workers_is_one(
    is_custom_handler: bool,
    count: Option<u32>,
    duration_secs: u32,
)
    ensures
        spec_plan(is_custom_handler, count, duration_secs, 0) == spec_plan(
            is_custom_handler,
            count,
            duration_secs,
            1,
        ),
{
}

/// A custom handler is never repeated: its plan is a single run, and where a
/// repetition was asked for the plan carries a warning.
pub proof fn lemma_custom_handler_runs_once(count: Option<u32>, duration_secs: u32, concurrency: u32)
    ensures
        spec_plan(true, count, duration_secs, concurrency) is Single,
        (duration_secs > 0 || (count is Some && count->0 > 1)) ==> spec_plan(
            true,
            count,
            duration_secs,
            concurrency,
        )->Single_0 is Some,
{
}

/// The text of a warning.
pub fn warning_text(warning: PlanWarning) -> (s: &'static str)
    ensures
        s@ == (match warning {
            PlanWarning::DurationIgnored => "Warning: Custom handlers cannot be executed with duration. Ignoring --duration option."@,
            PlanWarning::CountIgnored => "Warning: Custom handlers cannot be executed in parallel. Ignoring --count option."@,
        }),
{
    match warning {
        PlanWarning::DurationIgnored => "Warning: Custom handlers cannot be executed with duration. Ignoring --duration option.",
        PlanWarning::CountIgnored => "Warning: Custom handlers cannot be executed in parallel. Ignoring --count option.",
    }
}

/// What the executor is to run for a descriptor.
#[derive(Debug)]
pub enum Work<'a> {
    /// One request.
    Request(&'a RawRequestSpec),
    /// A scenario.
    Scenario(&'a ScenarioSpec),
}

/// The work that a descriptor stands for. A custom handler is no work of the
/// executor: it belongs to the application that registered it.
pub fn work_of<'a>(spec: &'a RequestSpec) -> (r: Result<Work<'a>, ExecError>)
    ensures
        match *spec {
            RequestSpec::Simple(raw) => r == Ok::<Work<'a>, ExecError>(Work::Request(&raw)),
            RequestSpec::Scenario(s) => r == Ok::<Work<'a>, ExecError>(Work::Scenario(&s)),
            RequestSpec::CustomHandler { .. } => r == Err::<Work<'a>, ExecError>(
                ExecError::CustomHandlerNotExecutable,
            ),
        },
{
    match spec {
        RequestSpec::Simple(raw) => Ok(Work::Request(raw)),
        RequestSpec::Scenario(s) => Ok(Work::Scenario(s)),
        RequestSpec::CustomHandler { .. } => Err(ExecError::CustomHandlerNotExecutable),
    }
}

/// The output format of the attempts of a repeated run: JSON when verbose,
/// else none.
pub fn worker_output(verbose: bool) -> (o: OutputFormat)
    ensures
        o == (if verbose {
            OutputFormat::Json
        } else {
            OutputFormat::Quiet
        }),
{
    if verbose {
        OutputFormat::Json
    } else {
        OutputFormat::Quiet
    }
}

/// Whether a counter that has granted `granted` attempts grants one more.
/// By count, until the count is reached. By duration, until the stop flag is
/// set.
pub open spec fn spec_grants(mode: RepeatMode, granted: u32, stopped: bool) -> bool {
    match mode {
        RepeatMode::Count(n) => granted < n,
        RepeatMode::Duration(_) => !stopped && granted < u32::MAX,
    }
}

/// The counter that hands out the attempts of a repeated run. The indices it
/// grants start at 1 and rise by 1.
#[derive(Debug)]
pub struct AttemptCounter {
    mode: RepeatMode,
    granted: u32,
}

impl AttemptCounter {
    /// When the counter stops granting attempts.
    pub closed spec fn mode(&self) -> RepeatMode {
        self.mode
    }

    /// The number of attempts granted so far.
    pub closed spec fn granted(&self) -> u32 {
        self.granted
    }

    /// A counter that has granted nothing yet.
    pub fn new(mode: RepeatMode) -> (c: Self)
        ensures
            c.mode() == mode,
            c.granted() == 0,
    {
        AttemptCounter { mode, granted: 0 }
    }

    /// The number of attempts granted so far.
    pub fn count(&self) -> (n: u32)
        ensures
            n == self.granted(),
    {
        self.granted
    }

    /// Asks for the next attempt. `stopped` tells whether the stop flag is
    /// set. Returns the index of the attempt that the caller is to make, or
    /// `None` when no further attempt is to be started.
    pub fn claim(&mut self, stopped: bool) -> (r: Option<u32>)
        ensures
            final(self).mode() == old(self).mode(),
            spec_grants(old(self).mode(), old(self).granted(), stopped) ==> r == Some(
                (old(self).granted() + 1) as u32,
            ) && final(self).granted() == old(self).granted() + 1,
            !spec_grants(old(self).mode(), old(self).granted(), stopped) ==> r is None
                && final(self).granted() == old(self).granted(),
    {
        let grants = match self.mode {
            RepeatMode::Count(n) => self.granted < n,
            RepeatMode::Duration(_) => !stopped && self.granted < u32::MAX,
        };
        if grants {
            self.granted = self.granted + 1;
            Some(self.granted)
        } else {
            None
        }
    }
}

/// The number of attempts that a fresh counter has granted after it was
/// asked `stopped.len()` times, the stop flag being `stopped[i]` at the
/// `i`-th time.
pub open spec fn spec_granted_after(mode: RepeatMode, stopped: Seq<bool>) -> nat
    decreases stopped.len(),
{
    if stopped.len() == 0 {
        0
    } else {
        let before = spec_granted_after(mode, stopped.drop_last());
        if before <= u32::MAX && spec_grants(mode, before as u32, stopped.last()) {
            before + 1
        } else {
            before
        }
    }
}

/// By count, a counter grants exactly as many attempts as it is asked for,
/// up to the count and never beyond it.
pub proof fn lemma_count_grants(n: u32, stopped: Seq<bool>)
    ensures
        spec_granted_after(RepeatMode::Count(n), stopped) == if stopped.len() <= n {
            stopped.len()
        } else {
            n as nat
        },
    decreases stopped.len(),
{
    if stopped.len() > 0 {
        lemma_count_grants(n, stopped.drop_last());
    }
}

/// By count, once a counter has refused an attempt it has granted exactly
/// the count: every worker that was sent away leaves the full number of
/// attempts behind.
pub proof fn lemma_count_refusal_means_all(n: u32, stopped: Seq<bool>)
    requires
        stopped.len() > 0,
        !spec_grants(
            RepeatMode::Count(n),
            spec_granted_after(RepeatMode::Count(n), stopped.drop_last()) as u32,
            stopped.last(),
        ),
    ensures
        spec_granted_after(RepeatMode::Count(n), stopped) == n,
{
    lemma_count_grants(n, stopped.drop_last());
    lemma_count_grants(n, stopped);
}

/// The result of one attempt.
#[derive(Debug, Clone, Copy, PartialEq, Eq, Structural)]
pub struct ExecutionResult {
    pub duration: TimeSpan,
    pub is_success: bool,
}

/// The result of an attempt that took `duration` and ended with `exit_code`,
/// or with a failure where there is none: an attempt succeeds exactly when
/// its exit code is 0.
pub fn attempt_result(duration: TimeSpan, exit_code: Option<i32>) -> (r: ExecutionResult)
    ensures
        r.duration == duration,
        r.is_success == (exit_code == Some(0i32)),
{
    let is_success = match exit_code {
        Some(code) => code == 0,
        None => false,
    };
    ExecutionResult { duration, is_success }
}

/// What the attempts of a run add up to.
#[derive(Debug, Clone, Copy, PartialEq, Eq, Structural)]
pub struct Summary {
    /// The number of attempts.
    pub total: u64,
    /// The number of attempts that succeeded.
    pub successes: u64,
    /// The number of attempts that failed.
    pub errors: u64,
    /// The durations of the attempts together, in nanoseconds.
    pub total_nanos: u128,
    /// The shortest duration.
    pub min: Option<TimeSpan>,
    /// The longest duration.
    pub max: Option<TimeSpan>,
}

/// The sum of `a` and `b`, or the largest `u64` where the sum is larger.
pub open spec fn spec_add_u64(a: u64, b: u64) -> u64 {
    if a + b > u64::MAX {
        u64::MAX
    } else {
        (a + b) as u64
    }
}

/// The sum of `a` and `b`, or the largest `u128` where the sum is larger.
pub open spec fn spec_add_u128(a: u128, b: nat) -> u128 {
    if a + b > u128::MAX {
        u128::MAX
    } else {
        (a + b) as u128
    }
}

impl Summary {
    /// The summary of no attempt.
    pub open spec fn spec_empty() -> Summary {
        Summary { total: 0, successes: 0, errors: 0, total_nanos: 0, min: None, max: None }
    }

    /// The summary with one more attempt.
    pub open spec fn spec_record(self, r: ExecutionResult) -> Summary {
        Summary {
            total: spec_add_u64(self.total, 1),
            successes: if r.is_success {
                spec_add_u64(self.successes, 1)
            } else {
                self.successes
            },
            errors: if r.is_success {
                self.errors
            } else {
                spec_add_u64(self.errors, 1)
            },
            total_nanos: spec_add_u128(self.total_nanos, r.duration.total_nanos()),
            min: match self.min {
                Some(m) => if r.duration.spec_less_than(m) {
                    Some(r.duration)
                } else {
                    Some(m)
                },
                None => Some(r.duration),
            },
            max: match self.max {
                Some(m) => if m.spec_less_than(r.duration) {
                    Some(r.duration)
                } else {
                    Some(m)
                },
                None => Some(r.duration),
            },
        }
    }

    /// The summary of the attempts `results`.
    pub open spec fn spec_of(results: Seq<ExecutionResult>) -> Summary
        decreases results.len(),
    {
        if results.len() == 0 {
            Summary::spec_empty()
        } else {
            Summary::spec_of(results.drop_last()).spec_record(results.last())
        }
    }

    /// The exit code of a run: `0` when no attempt failed, else `1`.
    pub open spec fn spec_exit_code(&self) -> i32 {
        if self.errors > 0 {
            1
        } else {
            0
        }
    }

    /// The summary of no attempt.
    pub fn new() -> (s: Self)
        ensures
            s == Summary::spec_empty(),
    {
        Summary { total: 0, successes: 0, errors: 0, total_nanos: 0, min: None, max: None }
    }

    /// Takes one more attempt into the summary.
    pub fn record(&mut self, r: &ExecutionResult)
        ensures
            *final(self) == old(self).spec_record(*r),
    {
        if self.total < u64::MAX {
            self.total = self.total + 1;
        }
        if r.is_success {
            if self.successes < u64::MAX {
                self.successes = self.successes + 1;
            }
        } else {
            if self.errors < u64::MAX {
                self.errors = self.errors + 1;
            }
        }
        let nanos = r.duration.as_nanos();
        if nanos > u128::MAX - self.total_nanos {
            self.total_nanos = u128::MAX;
        } else {
            self.total_nanos = self.total_nanos + nanos;
        }
        self.min = match self.min {
            Some(m) => if r.duration.less_than(&m) {
                Some(r.duration)
            } else {
                Some(m)
            },
            None => Some(r.duration),
        };
        self.max = match self.max {
            Some(m) => if m.less_than(&r.duration) {
                Some(r.duration)
            } else {
                Some(m)
            },
            None => Some(r.duration),
        };
    }

    /// The exit code of the run.
    pub fn exit_code(&self) -> (code: i32)
        ensures
            code == self.spec_exit_code(),
    {
        if self.errors > 0 {
            1
        } else {
            0
        }
    }

    /// Whether the summary is to be shown: more than one attempt ran and the
    /// output is not meant for a machine.
    pub fn is_shown(&self, output: OutputFormat) -> (b: bool)
        ensures
            b == (self.total > 1 && output != OutputFormat::Json),
    {
        self.total > 1 && !matches!(output, OutputFormat::Json)
    }
}

/// Sums up the attempts of a run.
pub fn summarize(results: &Vec<ExecutionResult>) -> (s: Summary)
    ensures
        s == Summary::spec_of(results@),
{
    let mut s = Summary::new();
    let mut i: usize = 0;
    while i < results.len()
        invariant
            i <= results.len(),
            s == Summary::spec_of(results@.take(i as int)),
        decreases results.len() - i,
    {
        s.record(&results[i]);
        i += 1;
        proof {
            assert(results@.take(i as int).drop_last() == results@.take(i - 1));
        }
    }
    proof {
        assert(results@.take(results.len() as int) == results@);
    }
    s
}

/// A summary counts every attempt once, as a success or as a failure, and
/// its exit code is 0 exactly when every attempt succeeded.
pub proof fn lemma_summary_counts(results: Seq<ExecutionResult>)
    requires
        results.len() <= u64::MAX,
    ensures
        Summary::spec_of(results).total == results.len(),
        Summary::spec_of(results).successes + Summary::spec_of(results).errors == results.len(),
        Summary::spec_of(results).spec_exit_code() == 0 <==> forall|i: int|
            0 <= i < results.len() ==> (#[trigger] results[i]).is_success,
    decreases results.len(),
{
    if results.len() > 0 {
        let head = results.drop_last();
        lemma_summary_counts(head);
        assert forall|i: int| 0 <= i < head.len() implies head[i] == results[i] by {}
        if Summary::spec_of(results).spec_exit_code() == 0 {
            assert forall|i: int| 0 <= i < results.len() implies (#[trigger] results[i]).is_success by {
                if i < head.len() {
                    assert(head[i].is_success);
                }
            }
        } else {
            if results.last().is_success {
                let k = choose|k: int| 0 <= k < head.len() && !(#[trigger] head[k]).is_success;
                assert(!results[k].is_success);
            } else {
                assert(!results[results.len() - 1].is_success);
            }
        }
    }
}

/// A run of `n` attempts by count, `n` above one, by however many workers.
/// The plan repeats by count. When the counter has refused an attempt, as
/// it has when the workers are done, it has granted exactly `n`; and the
/// summary of one result for each granted attempt counts exactly `n`.
pub proof fn lemma_count_run_is_exact(
    n: u32,
    concurrency: u32,
    stopped: Seq<bool>,
    results: Seq<ExecutionResult>,
)
    requires
        n > 1,
        stopped.len() > 0,
        !spec_grants(
            RepeatMode::Count(n),
            spec_granted_after(RepeatMode::Count(n), stopped.drop_last()) as u32,
            stopped.last(),
        ),
        results.len() == spec_granted_after(RepeatMode::Count(n), stopped),
    ensures
        spec_plan(false, Some(n), 0, concurrency) == (RunPlan::Repeat {
            mode: RepeatMode::Count(n),
            workers: spec_workers(concurrency),
        }),
        spec_workers(concurrency) >= 1,
        results.len() == n,
        Summary::spec_of(results).total == n,
{
    lemma_count_refusal_means_all(n, stopped);
    lemma_summary_counts(results);
}

} // verus!
