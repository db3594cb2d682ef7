use rclib::{
    attempt_result, exit_code_for_status, plan_run, summarize, warning_text, work_of,
    worker_output, AttemptCounter, ExecError, ExecutionConfig, ExecutionResult, OutputFormat,
    PlanWarning, RawRequestSpec, RepeatMode, RequestSpec, RunPlan, StringMap, Summary, TimeSpan,
    Work,
};

fn simple() -> RequestSpec {
    RequestSpec::Simple(RawRequestSpec {
        base_url: None,
        method: "GET".to_string(),
        endpoint: "https://example.com/".to_string(),
        headers: vec![],
        body: None,
        multipart: false,
        file_fields: StringMap::new(),
        table_view: None,
    })
}

fn handler() -> RequestSpec {
    RequestSpec::CustomHandler { handler_name: "export".to_string(), vars: StringMap::new() }
}

fn config(count: Option<u32>, duration_secs: u32, concurrency: u32) -> ExecutionConfig<'static> {
    let mut c = ExecutionConfig::new("agent");
    c.count = count;
    c.duration_secs = duration_secs;
    c.concurrency = concurrency;
    c
}

#[test]
fn one_attempt_when_nothing_is_asked() {
    assert_eq!(plan_run(&simple(), &config(None, 0, 1)), RunPlan::Single(None));
    assert_eq!(plan_run(&simple(), &config(Some(0), 0, 8)), RunPlan::Single(None));
    assert_eq!(plan_run(&simple(), &config(Some(1), 0, 8)), RunPlan::Single(None));
    assert_eq!(plan_run(&handler(), &config(Some(1), 0, 8)), RunPlan::Single(None));
}

#[test]
fn a_count_above_one_repeats() {
    assert_eq!(
        plan_run(&simple(), &config(Some(2), 0, 3)),
        RunPlan::Repeat { mode: RepeatMode::Count(2), workers: 3 }
    );
}

#[test]
fn a_duration_takes_precedence_over_a_count() {
    assert_eq!(
        plan_run(&simple(), &config(Some(5), 30, 2)),
        RunPlan::Repeat { mode: RepeatMode::Duration(30), workers: 2 }
    );
    assert_eq!(
        plan_run(&simple(), &config(None, 1, 1)),
        RunPlan::Repeat { mode: RepeatMode::Duration(1), workers: 1 }
    );
}

#[test]
fn no_workers_means_one_worker() {
    for (count, duration) in [(Some(10), 0), (None, 5), (Some(3), 7), (None, 0), (Some(1), 0)] {
        assert_eq!(
            plan_run(&simple(), &config(count, duration, 0)),
            plan_run(&simple(), &config(count, duration, 1))
        );
        assert_eq!(
            plan_run(&handler(), &config(count, duration, 0)),
            plan_run(&handler(), &config(count, duration, 1))
        );
    }
    assert_eq!(
        plan_run(&simple(), &config(Some(10), 0, 0)),
        RunPlan::Repeat { mode: RepeatMode::Count(10), workers: 1 }
    );
}

#[test]
fn a_custom_handler_runs_once_with_a_warning() {
    let plan = plan_run(&handler(), &config(Some(10), 0, 4));
    assert_eq!(plan, RunPlan::Single(Some(PlanWarning::CountIgnored)));
    assert_eq!(
        warning_text(PlanWarning::CountIgnored),
        "Warning: Custom handlers cannot be executed in parallel. Ignoring --count option."
    );
    let plan = plan_run(&handler(), &config(Some(10), 3, 4));
    assert_eq!(plan, RunPlan::Single(Some(PlanWarning::DurationIgnored)));
    assert_eq!(
        warning_text(PlanWarning::DurationIgnored),
        "Warning: Custom handlers cannot be executed with duration. Ignoring --duration option."
    );
}

#[test]
fn a_handler_is_no_work_of_the_executor() {
    assert_eq!(work_of(&handler()).unwrap_err(), ExecError::CustomHandlerNotExecutable);
    assert_eq!(
        ExecError::CustomHandlerNotExecutable.message(),
        "Custom handlers should be handled by the calling application, not by the library"
    );
    assert!(matches!(work_of(&simple()), Ok(Work::Request(_))));
}

#[test]
fn workers_are_quiet_unless_verbose() {
    assert_eq!(worker_output(false), OutputFormat::Quiet);
    assert_eq!(worker_output(true), OutputFormat::Json);
}

/// Workers take turns asking the counter, each until it is sent away.
fn run_workers(mode: RepeatMode, workers: usize, stop_after: Option<usize>) -> Vec<u32> {
    let mut counter = AttemptCounter::new(mode);
    let mut active = vec![true; workers];
    let mut granted = vec![];
    let mut asked = 0;
    while active.iter().any(|a| *a) {
        for w in 0..workers {
            if !active[w] {
                continue;
            }
            let stopped = stop_after.map_or(false, |n| asked >= n);
            asked += 1;
            match counter.claim(stopped) {
                Some(index) => granted.push(index),
                None => active[w] = false,
            }
        }
    }
    assert_eq!(counter.count() as usize, granted.len());
    granted
}

#[test]
fn by_count_exactly_as_many_attempts_as_asked() {
    for workers in [1usize, 2, 3, 7, 16] {
        for n in [2u32, 3, 5, 10] {
            let granted = run_workers(RepeatMode::Count(n), workers, None);
            let expected: Vec<u32> = (1..=n).collect();
            assert_eq!(granted, expected);
            let results: Vec<ExecutionResult> = granted
                .iter()
                .map(|_| attempt_result(TimeSpan::from_millis(5), Some(0)))
                .collect();
            assert_eq!(summarize(&results).total, n as u64);
        }
    }
}

#[test]
fn by_count_the_stop_flag_is_not_looked_at() {
    let mut counter = AttemptCounter::new(RepeatMode::Count(2));
    assert_eq!(counter.claim(true), Some(1));
    assert_eq!(counter.claim(false), Some(2));
    assert_eq!(counter.claim(false), None);
    assert_eq!(counter.claim(true), None);
    assert_eq!(counter.count(), 2);
}

#[test]
fn by_duration_attempts_start_until_the_flag_is_set() {
    let granted = run_workers(RepeatMode::Duration(1), 3, Some(7));
    assert_eq!(granted, vec![1, 2, 3, 4, 5, 6, 7]);
    let mut counter = AttemptCounter::new(RepeatMode::Duration(1));
    assert_eq!(counter.claim(true), None);
    assert_eq!(counter.claim(false), Some(1));
    assert_eq!(counter.claim(true), None);
    assert_eq!(counter.count(), 1);
}

#[test]
fn an_attempt_succeeds_when_its_exit_code_is_zero() {
    let d = TimeSpan::from_millis(12);
    assert!(attempt_result(d, Some(0)).is_success);
    assert!(!attempt_result(d, Some(1)).is_success);
    assert!(!attempt_result(d, Some(-1)).is_success);
    assert!(!attempt_result(d, None).is_success);
    assert_eq!(attempt_result(d, Some(2)).duration, d);
}

#[test]
fn a_summary_adds_up_the_attempts() {
    let results = vec![
        attempt_result(TimeSpan::from_millis(300), Some(0)),
        attempt_result(TimeSpan::from_millis(100), Some(1)),
        attempt_result(TimeSpan::from_millis(2_500), Some(0)),
        attempt_result(TimeSpan::from_millis(100), None),
    ];
    let s = summarize(&results);
    assert_eq!(s.total, 4);
    assert_eq!(s.successes, 2);
    assert_eq!(s.errors, 2);
    assert_eq!(s.total_nanos, 3_000_000_000);
    assert_eq!(s.min, Some(TimeSpan::from_millis(100)));
    assert_eq!(s.max, Some(TimeSpan { secs: 2, nanos: 500_000_000 }));
    assert_eq!(s.exit_code(), 1);
    assert!(s.is_shown(OutputFormat::Human));
    assert!(s.is_shown(OutputFormat::Quiet));
    assert!(!s.is_shown(OutputFormat::Json));
}

#[test]
fn a_summary_without_failures_exits_with_zero() {
    let results = vec![attempt_result(TimeSpan::from_secs(1), Some(0))];
    let s = summarize(&results);
    assert_eq!(s.exit_code(), 0);
    assert!(!s.is_shown(OutputFormat::Human));
    let empty = summarize(&vec![]);
    assert_eq!(empty, Summary::new());
    assert_eq!(empty.total, 0);
    assert_eq!(empty.min, None);
    assert_eq!(empty.exit_code(), 0);
    let mut by_hand = Summary::new();
    by_hand.record(&results[0]);
    assert_eq!(by_hand, s);
}

#[test]
fn the_exit_code_of_a_status() {
    assert_eq!(exit_code_for_status(200), 0);
    assert_eq!(exit_code_for_status(204), 0);
    assert_eq!(exit_code_for_status(299), 0);
    assert_eq!(exit_code_for_status(199), 1);
    assert_eq!(exit_code_for_status(300), 1);
    assert_eq!(exit_code_for_status(404), 1);
    assert_eq!(exit_code_for_status(500), 1);
}

#[test]
fn spans_of_time() {
    assert_eq!(TimeSpan::from_millis(1_500), TimeSpan { secs: 1, nanos: 500_000_000 });
    assert_eq!(TimeSpan::from_millis(0), TimeSpan::from_secs(0));
    assert_eq!(TimeSpan::from_secs(3).as_secs(), 3);
    assert_eq!(TimeSpan::from_millis(1_500).as_nanos(), 1_500_000_000);
    assert!(!TimeSpan::from_secs(10).exceeds_secs(10));
    assert!(TimeSpan { secs: 10, nanos: 1 }.exceeds_secs(10));
    assert!(TimeSpan::from_secs(11).exceeds_secs(10));
    assert!(!TimeSpan { secs: 9, nanos: 999_999_999 }.exceeds_secs(10));
    assert!(TimeSpan { secs: 9, nanos: 1_000_000_001 }.exceeds_secs(10));
    assert!(!TimeSpan { secs: 0, nanos: 4_000_000_000 }.exceeds_secs(5));
    assert!(TimeSpan::from_millis(999).less_than(&TimeSpan::from_secs(1)));
    assert!(!TimeSpan::from_secs(1).less_than(&TimeSpan::from_secs(1)));
    assert!(TimeSpan::from_secs(0).exceeds_secs(0) == false);
}
