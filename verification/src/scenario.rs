//! The schedule-then-poll scenario as a state machine. The machine decides;
//! its driver sends the requests, reads the clock and sleeps, and hands back
//! what came of it.

use vstd::prelude::*;
use serde_json::Value;
use crate::assemble::{build_raw_spec_from_step, spec_is_step_request};
use crate::error::ExecError;
use crate::json::{
    extract_jsonpath_value, extract_response_variables, json_parsed, json_text, parse_json,
    response_status, spec_extract, spec_extract_leaves, spec_extract_variables,
    spec_is_extract_failure, spec_status,
};
use crate::mapping::{CompletionCondition, ConditionModel, ScenarioStep};
use crate::request::{
    prepare_request, spec_is_prepare_failure, spec_is_prepared, PreparedRequest, RawRequestSpec,
    ScenarioSpec,
};
use crate::span::TimeSpan;
use crate::strmap::StringMap;
use crate::text::text_eq;

verus! {

/// Where a scenario stands.
#[derive(Debug, Clone, Copy, PartialEq, Eq, Structural)]
pub enum ScenarioState {
    /// The scheduling request is out; its reply is awaited.
    Scheduling,
    /// Polling; the time since polling began is awaited.
    AwaitingClock,
    /// A poll request is out; its reply is awaited.
    Polling,
    /// Between two polls; the end of the sleep is awaited.
    Sleeping,
    /// Ended: a `success` condition matched.
    Succeeded,
    /// Ended: an `error` condition matched.
    Failed,
    /// Ended: the polling deadline passed.
    TimedOut,
    /// Ended: the scenario could not go on.
    Aborted,
}

impl ScenarioState {
    /// Whether the scenario has ended.
    pub open spec fn spec_is_final(&self) -> bool {
        self is Succeeded || self is Failed || self is TimedOut || self is Aborted
    }

    /// Whether the scenario has ended.
    pub fn is_final(&self) -> (b: bool)
        ensures
            b == self.spec_is_final(),
    {
        match self {
            ScenarioState::Succeeded => true,
            ScenarioState::Failed => true,
            ScenarioState::TimedOut => true,
            ScenarioState::Aborted => true,
            _ => false,
        }
    }
}

/// A running scenario: its state and its bindings.
#[derive(Debug)]
pub struct ScenarioRun {
    pub state: ScenarioState,
    pub vars: StringMap,
}

/// What the driver reports to the machine.
#[derive(Debug)]
pub enum ScenarioEvent {
    /// The request was answered.
    Reply { status: u16, body: String },
    /// The request got no answer; holds the transport's description.
    TransportFailed(String),
    /// The time since polling began.
    Clock(TimeSpan),
    /// The sleep is over.
    Woke,
}

/// How a scenario ended.
#[derive(Debug)]
pub enum ScenarioOutcome {
    /// A `success` condition matched; holds the body of the last response.
    Succeeded { body: String },
    /// An `error` condition matched; holds the message and the body of the
    /// last response.
    Failed { message: String, body: String },
    /// The scenario was cut short.
    Error(ExecError),
}

impl ScenarioOutcome {
    /// The process exit code of the outcome: `0` for success, `1` otherwise.
    pub open spec fn spec_exit_code(&self) -> i32 {
        match self {
            ScenarioOutcome::Succeeded { .. } => 0,
            _ => 1,
        }
    }

    /// The process exit code of the outcome.
    pub fn exit_code(&self) -> (code: i32)
        ensures
            code == self.spec_exit_code(),
    {
        match self {
            ScenarioOutcome::Succeeded { .. } => 0,
            _ => 1,
        }
    }
}

/// What the machine asks of the driver.
#[derive(Debug)]
pub enum ScenarioAction {
    /// Send the request and report the reply or the transport's failure.
    Send(PreparedRequest),
    /// Report the time since polling began; the first such request begins
    /// the polling.
    ReadClock,
    /// Sleep for so many seconds and report the end of the sleep.
    Sleep(u64),
    /// The scenario has ended in this way.
    Finish(ScenarioOutcome),
    /// The scenario had ended before; there is nothing to do.
    Halt,
}

/// A running scenario after a step, and what the driver is to do next.
#[derive(Debug)]
pub struct Transition {
    pub run: ScenarioRun,
    pub action: ScenarioAction,
}

/// What a poll response means under the completion conditions.
#[derive(Debug)]
pub enum PollVerdict {
    /// The first matching condition says `success`.
    Succeeded,
    /// The first matching condition says `error`; holds the message.
    Failed(String),
    /// The first matching condition names an unknown action; holds it.
    UnknownAction(String),
    /// No condition matches.
    Pending,
}

/// What a verdict says.
pub enum VerdictModel {
    Succeeded,
    Failed(Seq<char>),
    UnknownAction(Seq<char>),
    Pending,
}

impl View for PollVerdict {
    type V = VerdictModel;

    open spec fn view(&self) -> VerdictModel {
        match self {
            PollVerdict::Succeeded => VerdictModel::Succeeded,
            PollVerdict::Failed(m) => VerdictModel::Failed(m@),
            PollVerdict::UnknownAction(a) => VerdictModel::UnknownAction(a@),
            PollVerdict::Pending => VerdictModel::Pending,
        }
    }
}

/// What the conditions `v` say.
pub open spec fn condition_models(v: Seq<CompletionCondition>) -> Seq<ConditionModel> {
    Seq::new(v.len(), |i: int| v[i]@)
}

/// The index of the first condition at or after `from` whose status is
/// `status`, or `conditions.len()` when there is none.
pub open spec fn spec_first_match(conditions: Seq<ConditionModel>, status: Seq<char>, from: int) -> int
    decreases conditions.len() - from,
{
    if from < 0 || from >= conditions.len() {
        conditions.len() as int
    } else if conditions[from].status == status {
        from
    } else {
        spec_first_match(conditions, status, from + 1)
    }
}

/// The message of a failure under the condition `c`: the text found in the
/// response under the condition's error field, or `Unknown error` when
/// nothing is found there; without an error field the condition's own
/// message, or `Operation failed` when it has none.
pub open spec fn spec_failure_message(doc: Seq<char>, c: ConditionModel) -> Seq<char> {
    match c.error_field {
        Some(field) => match spec_extract(doc, field) {
            Some(m) => m,
            None => "Unknown error"@,
        },
        None => match c.error_message {
            Some(m) => m,
            None => "Operation failed"@,
        },
    }
}

/// What the response document `doc` means under `conditions`. The conditions
/// are read in order and the first whose status is the response's status
/// decides.
pub open spec fn spec_poll_verdict(doc: Seq<char>, conditions: Seq<ConditionModel>) -> VerdictModel {
    match spec_status(doc) {
        None => VerdictModel::Pending,
        Some(status) => {
            let i = spec_first_match(conditions, status, 0);
            if 0 <= i < conditions.len() {
                let c = conditions[i];
                if c.action == "success"@ {
                    VerdictModel::Succeeded
                } else if c.action == "error"@ {
                    VerdictModel::Failed(spec_failure_message(doc, c))
                } else {
                    VerdictModel::UnknownAction(c.action)
                }
            } else {
                VerdictModel::Pending
            }
        },
    }
}

/// Reads a poll response against the completion conditions.
pub fn poll_verdict(json: &Value, conditions: &Vec<CompletionCondition>) -> (v: PollVerdict)
    ensures
        v@ == spec_poll_verdict(json_text(*json), condition_models(conditions@)),
{
    let status = match response_status(json) {
        Some(status) => status,
        None => {
            return PollVerdict::Pending;
        },
    };
    let ghost models = condition_models(conditions@);
    let mut i: usize = 0;
    while i < conditions.len()
        invariant
            i <= conditions.len(),
            models == condition_models(conditions@),
            spec_status(json_text(*json)) == Some(status@),
            spec_first_match(models, status@, 0) == spec_first_match(models, status@, i as int),
        decreases conditions.len() - i,
    {
        let c = &conditions[i];
        proof {
            assert(models[i as int] == c@);
        }
        if text_eq(status.as_str(), c.status.as_str()) {
            if text_eq(c.action.as_str(), "success") {
                return PollVerdict::Succeeded;
            } else if text_eq(c.action.as_str(), "error") {
                let message = match &c.error_field {
                    Some(field) => match extract_jsonpath_value(json, field.as_str()) {
                        Some(m) => m,
                        None => "Unknown error".to_owned(),
                    },
                    None => match &c.error_message {
                        Some(m) => m.clone(),
                        None => "Operation failed".to_owned(),
                    },
                };
                return PollVerdict::Failed(message);
            } else {
                return PollVerdict::UnknownAction(c.action.clone());
            }
        }
        i += 1;
    }
    PollVerdict::Pending
}

/// Whether `t` ends the scenario as aborted.
pub open spec fn spec_aborts(t: Transition) -> bool {
    t.run.state is Aborted && t.action is Finish && t.action->Finish_0 is Error
}

/// The failure that an aborting transition reports.
pub open spec fn spec_failure(t: Transition) -> ExecError {
    t.action->Finish_0->Error_0
}

/// Whether `t` either sends the request of `step` under `vars` and moves to
/// `next`, or aborts with the failure of making that request ready.
pub open spec fn spec_sends_or_aborts(
    t: Transition,
    base_url: Option<String>,
    step: ScenarioStep,
    vars: Map<Seq<char>, Seq<char>>,
    next: ScenarioState,
) -> bool {
    exists|raw: RawRequestSpec| #[trigger]
        spec_is_step_request(raw, base_url, step, vars) && ({
            ||| (t.run.state == next && t.action is Send && spec_is_prepared(
                t.action->Send_0,
                raw,
            ))
            ||| (spec_aborts(t) && spec_is_prepare_failure(raw, spec_failure(t)))
        })
}

/// Whether `t` is how the scenario of `spec` begins: with the bindings of
/// `spec`; aborted where the scenario is not a `job_with_polling` of two
/// steps whose first is `schedule_job`; else with the scheduling request
/// sent.
pub open spec fn spec_starts(spec: ScenarioSpec, t: Transition) -> bool {
    let sc = spec.scenario;
    &&& t.run.vars.pairs() == spec.vars.pairs()
    &&& if sc.scenario_type@ != "job_with_polling"@ {
        spec_aborts(t) && spec_failure(t) is UnsupportedScenarioType && spec_failure(
            t,
        )->UnsupportedScenarioType_0@ == sc.scenario_type@
    } else if sc.steps@.len() != 2 {
        spec_aborts(t) && spec_failure(t) == ExecError::WrongStepCount
    } else if sc.steps@[0].name@ != "schedule_job"@ {
        spec_aborts(t) && spec_failure(t) == ExecError::FirstStepNotSchedule
    } else {
        spec_sends_or_aborts(t, spec.base_url, sc.steps@[0], spec.vars@, ScenarioState::Scheduling)
    }
}

/// Whether `t` aborts with the failure `e` and leaves the bindings alone.
pub open spec fn spec_aborts_with(before: ScenarioRun, t: Transition, e: ExecError) -> bool {
    spec_aborts(t) && spec_failure(t) == e && t.run.vars.pairs() == before.vars.pairs()
}

/// How the reply to the scheduling request is taken. A status outside
/// `200..=299` aborts. Else the body is parsed as JSON, and a body that is
/// not JSON aborts. Then the extraction rules of the first step are
/// applied, and their failure aborts, with the bindings made until then.
/// Then the second step must be `poll_job` and have a polling policy; with
/// both, polling begins.
pub open spec fn spec_after_schedule(
    spec: ScenarioSpec,
    before: ScenarioRun,
    status: u16,
    body: String,
    t: Transition,
) -> bool {
    let steps = spec.scenario.steps@;
    if !(200 <= status <= 299) {
        spec_aborts(t) && spec_failure(t) is HttpStatus && spec_failure(t)->HttpStatus_status
            == status && spec_failure(t)->HttpStatus_body@ == body@ && t.run.vars.pairs()
            == before.vars.pairs()
    } else {
        match spec_extract_variables(body@, steps[0].extract_response.pairs(), before.vars.pairs()) {
            Err(f) => spec_aborts(t) && spec_is_extract_failure(spec_failure(t), f)
                && t.run.vars.pairs() == spec_extract_leaves(
                body@,
                steps[0].extract_response.pairs(),
                before.vars.pairs(),
            ),
            Ok(bound) => {
                &&& t.run.vars.pairs() == bound
                &&& if steps[1].name@ != "poll_job"@ {
                    spec_aborts(t) && spec_failure(t) == ExecError::SecondStepNotPoll
                } else if steps[1].polling is None {
                    spec_aborts(t) && spec_failure(t) == ExecError::MissingPollingConfig
                } else {
                    t.run.state is AwaitingClock && t.action is ReadClock
                }
            },
        }
    }
}

/// How the time since polling began is taken: past the deadline the scenario
/// times out; else the poll request is sent, made from the second step under
/// the current bindings.
pub open spec fn spec_after_clock(
    spec: ScenarioSpec,
    before: ScenarioRun,
    elapsed: TimeSpan,
    t: Transition,
) -> bool {
    let step = spec.scenario.steps@[1];
    &&& t.run.vars.pairs() == before.vars.pairs()
    &&& if step.polling is None {
        spec_aborts(t) && spec_failure(t) == ExecError::MissingPollingConfig
    } else if elapsed.spec_exceeds_secs(step.polling->0.timeout_seconds) {
        t.run.state is TimedOut && t.action is Finish && t.action->Finish_0 is Error
            && t.action->Finish_0->Error_0 == ExecError::PollingTimeout(
            step.polling->0.timeout_seconds,
        )
    } else {
        spec_sends_or_aborts(t, spec.base_url, step, before.vars@, ScenarioState::Polling)
    }
}

/// How the reply to a poll is taken. A status outside `200..=299` aborts, and
/// so does a body that is not JSON. Else the completion conditions decide:
/// success and failure end the scenario with the body of the reply, an
/// unknown action aborts, and without a match the machine sleeps for the
/// polling interval.
pub open spec fn spec_after_poll(
    spec: ScenarioSpec,
    before: ScenarioRun,
    status: u16,
    body: String,
    t: Transition,
) -> bool {
    let step = spec.scenario.steps@[1];
    &&& t.run.vars.pairs() == before.vars.pairs()
    &&& if !(200 <= status <= 299) {
        spec_aborts(t) && spec_failure(t) is HttpStatus && spec_failure(t)->HttpStatus_status
            == status && spec_failure(t)->HttpStatus_body@ == body@
    } else if step.polling is None {
        spec_aborts(t) && spec_failure(t) == ExecError::MissingPollingConfig
    } else {
        match json_parsed(body@) {
            None => spec_aborts(t) && spec_failure(t) == ExecError::PollResponseNotJson,
            Some(doc) => match spec_poll_verdict(
                doc,
                condition_models(step.polling->0.completion_conditions@),
            ) {
                VerdictModel::Succeeded => t.run.state is Succeeded && t.action is Finish
                    && t.action->Finish_0 is Succeeded && t.action->Finish_0->Succeeded_body@
                    == body@,
                VerdictModel::Failed(message) => t.run.state is Failed && t.action is Finish
                    && t.action->Finish_0 is Failed && t.action->Finish_0->Failed_message@
                    == message && t.action->Finish_0->Failed_body@ == body@,
                VerdictModel::UnknownAction(action) => spec_aborts(t) && spec_failure(t)
                    is UnknownCompletionAction && spec_failure(t)->UnknownCompletionAction_0@
                    == action,
                VerdictModel::Pending => t.run.state is Sleeping && t.action == ScenarioAction::Sleep(
                    step.polling->0.interval_seconds,
                ),
            },
        }
    }
}

/// Whether `t` is the step that the scenario of `spec` takes from `before`
/// on `event`. A scenario that has ended stays as it is and asks for
/// nothing. A scenario that does not have two steps aborts. A failure of the
/// transport aborts. An event that the state does not wait for aborts.
pub open spec fn spec_steps(
    spec: ScenarioSpec,
    before: ScenarioRun,
    event: ScenarioEvent,
    t: Transition,
) -> bool {
    if before.state.spec_is_final() {
        t.run.state == before.state && t.run.vars.pairs() == before.vars.pairs() && t.action
            is Halt
    } else if spec.scenario.steps@.len() != 2 {
        spec_aborts_with(before, t, ExecError::WrongStepCount)
    } else {
        match (before.state, event) {
            (ScenarioState::Scheduling, ScenarioEvent::Reply { status, body }) => spec_after_schedule(
                spec,
                before,
                status,
                body,
                t,
            ),
            (ScenarioState::Polling, ScenarioEvent::Reply { status, body }) => spec_after_poll(
                spec,
                before,
                status,
                body,
                t,
            ),
            (ScenarioState::Scheduling, ScenarioEvent::TransportFailed(d)) => spec_aborts(t)
                && spec_failure(t) is Transport && spec_failure(t)->Transport_0@ == d@
                && t.run.vars.pairs() == before.vars.pairs(),
            (ScenarioState::Polling, ScenarioEvent::TransportFailed(d)) => spec_aborts(t)
                && spec_failure(t) is Transport && spec_failure(t)->Transport_0@ == d@
                && t.run.vars.pairs() == before.vars.pairs(),
            (ScenarioState::AwaitingClock, ScenarioEvent::Clock(elapsed)) => spec_after_clock(
                spec,
                before,
                elapsed,
                t,
            ),
            (ScenarioState::Sleeping, ScenarioEvent::Woke) => t.run.state is AwaitingClock
                && t.action is ReadClock && t.run.vars.pairs() == before.vars.pairs(),
            _ => spec_aborts_with(before, t, ExecError::UnexpectedEvent),
        }
    }
}

fn abort(vars: StringMap, e: ExecError) -> (t: Transition)
    ensures
        spec_aborts(t),
        spec_failure(t) == e,
        t.run.vars == vars,
{
    Transition {
        run: ScenarioRun { state: ScenarioState::Aborted, vars },
        action: ScenarioAction::Finish(ScenarioOutcome::Error(e)),
    }
}

fn send_step(
    base_url: &Option<String>,
    step: &ScenarioStep,
    vars: StringMap,
    next: ScenarioState,
) -> (t: Transition)
    ensures
        spec_sends_or_aborts(t, *base_url, *step, vars@, next),
        t.run.vars == vars,
{
    let raw = match build_raw_spec_from_step(base_url, step, &vars) {
        Ok(raw) => raw,
        Err(e) => {
            return abort(vars, e);
        },
    };
    match prepare_request(&raw) {
        Ok(p) => {
            let t = Transition {
                run: ScenarioRun { state: next, vars },
                action: ScenarioAction::Send(p),
            };
            proof {
                assert(spec_is_step_request(raw, *base_url, *step, vars@));
            }
            t
        },
        Err(e) => {
            let t = abort(vars, e);
            proof {
                assert(spec_is_step_request(raw, *base_url, *step, vars@));
            }
            t
        },
    }
}

/// Begins the scenario of `spec`: checks its shape and sends the scheduling
/// request.
pub fn start_scenario(spec: &ScenarioSpec) -> (t: Transition)
    ensures
        spec_starts(*spec, t),
{
    let vars = spec.vars.clone();
    let sc = &spec.scenario;
    if !text_eq(sc.scenario_type.as_str(), "job_with_polling") {
        return abort(vars, ExecError::UnsupportedScenarioType(sc.scenario_type.clone()));
    }
    if sc.steps.len() != 2 {
        return abort(vars, ExecError::WrongStepCount);
    }
    if !text_eq(sc.steps[0].name.as_str(), "schedule_job") {
        return abort(vars, ExecError::FirstStepNotSchedule);
    }
    send_step(&spec.base_url, &sc.steps[0], vars, ScenarioState::Scheduling)
}

fn after_schedule(spec: &ScenarioSpec, before: ScenarioRun, status: u16, body: String) -> (t:
    Transition)
    requires
        spec.scenario.steps@.len() == 2,
    ensures
        spec_after_schedule(*spec, before, status, body, t),
{
    let steps = &spec.scenario.steps;
    let mut vars = before.vars;
    if !(200 <= status && status <= 299) {
        return abort(vars, ExecError::HttpStatus { status, body });
    }
    match extract_response_variables(body.as_str(), &steps[0].extract_response, &mut vars) {
        Err(e) => {
            return abort(vars, e);
        },
        Ok(()) => {},
    }
    if !text_eq(steps[1].name.as_str(), "poll_job") {
        return abort(vars, ExecError::SecondStepNotPoll);
    }
    if steps[1].polling.is_none() {
        return abort(vars, ExecError::MissingPollingConfig);
    }
    Transition {
        run: ScenarioRun { state: ScenarioState::AwaitingClock, vars },
        action: ScenarioAction::ReadClock,
    }
}

fn after_clock(spec: &ScenarioSpec, before: ScenarioRun, elapsed: TimeSpan) -> (t: Transition)
    requires
        spec.scenario.steps@.len() == 2,
    ensures
        spec_after_clock(*spec, before, elapsed, t),
{
    let step = &spec.scenario.steps[1];
    let vars = before.vars;
    match &step.polling {
        None => abort(vars, ExecError::MissingPollingConfig),
        Some(policy) => {
            if elapsed.exceeds_secs(policy.timeout_seconds) {
                Transition {
                    run: ScenarioRun { state: ScenarioState::TimedOut, vars },
                    action: ScenarioAction::Finish(
                        ScenarioOutcome::Error(ExecError::PollingTimeout(policy.timeout_seconds)),
                    ),
                }
            } else {
                send_step(&spec.base_url, step, vars, ScenarioState::Polling)
            }
        },
    }
}

fn after_poll(spec: &ScenarioSpec, before: ScenarioRun, status: u16, body: String) -> (t:
    Transition)
    requires
        spec.scenario.steps@.len() == 2,
    ensures
        spec_after_poll(*spec, before, status, body, t),
{
    let step = &spec.scenario.steps[1];
    let vars = before.vars;
    if !(200 <= status && status <= 299) {
        return abort(vars, ExecError::HttpStatus { status, body });
    }
    let policy = match &step.polling {
        None => {
            return abort(vars, ExecError::MissingPollingConfig);
        },
        Some(policy) => policy,
    };
    let json = match parse_json(body.as_str()) {
        None => {
            return abort(vars, ExecError::PollResponseNotJson);
        },
        Some(json) => json,
    };
    match poll_verdict(&json, &policy.completion_conditions) {
        PollVerdict::Succeeded => Transition {
            run: ScenarioRun { state: ScenarioState::Succeeded, vars },
            action: ScenarioAction::Finish(ScenarioOutcome::Succeeded { body }),
        },
        PollVerdict::Failed(message) => Transition {
            run: ScenarioRun { state: ScenarioState::Failed, vars },
            action: ScenarioAction::Finish(ScenarioOutcome::Failed { message, body }),
        },
        PollVerdict::UnknownAction(action) => abort(
            vars,
            ExecError::UnknownCompletionAction(action),
        ),
        PollVerdict::Pending => Transition {
            run: ScenarioRun { state: ScenarioState::Sleeping, vars },
            action: ScenarioAction::Sleep(policy.interval_seconds),
        },
    }
}

/// Takes one step of the scenario of `spec`: from where `before` stands, on
/// what the driver reports, to where the scenario stands next and what the
/// driver is to do.
pub fn step_scenario(spec: &ScenarioSpec, before: ScenarioRun, event: ScenarioEvent) -> (t:
    Transition)
    ensures
        spec_steps(*spec, before, event, t),
{
    if before.state.is_final() {
        return Transition { run: before, action: ScenarioAction::Halt };
    }
    if spec.scenario.steps.len() != 2 {
        return abort(before.vars, ExecError::WrongStepCount);
    }
    match (before.state, event) {
        (ScenarioState::Scheduling, ScenarioEvent::Reply { status, body }) => after_schedule(
            spec,
            before,
            status,
            body,
        ),
        (ScenarioState::Polling, ScenarioEvent::Reply { status, body }) => after_poll(
            spec,
            before,
            status,
            body,
        ),
        (ScenarioState::Scheduling, ScenarioEvent::TransportFailed(d)) => abort(
            before.vars,
            ExecError::Transport(d),
        ),
        (ScenarioState::Polling, ScenarioEvent::TransportFailed(d)) => abort(
            before.vars,
            ExecError::Transport(d),
        ),
        (ScenarioState::AwaitingClock, ScenarioEvent::Clock(elapsed)) => after_clock(
            spec,
            before,
            elapsed,
        ),
        (ScenarioState::Sleeping, ScenarioEvent::Woke) => Transition {
            run: ScenarioRun { state: ScenarioState::AwaitingClock, vars: before.vars },
            action: ScenarioAction::ReadClock,
        },
        (_, _) => abort(before.vars, ExecError::UnexpectedEvent),
    }
}

/// A reply to a poll whose status first matches a condition that says
/// `success` ends the scenario as succeeded, with exit code 0 and the body of
/// that reply. From then on the scenario asks for nothing: no further poll is
/// sent.
pub proof fn lemma_success_ends_polling(
    spec: ScenarioSpec,
    before: ScenarioRun,
    status: u16,
    body: String,
    t: Transition,
    later_event: ScenarioEvent,
    later: Transition,
)
    requires
        spec.scenario.steps@.len() == 2,
        spec.scenario.steps@[1].polling is Some,
        before.state is Polling,
        200 <= status <= 299,
        json_parsed(body@) is Some,
        spec_poll_verdict(
            json_parsed(body@)->0,
            condition_models(spec.scenario.steps@[1].polling->0.completion_conditions@),
        ) is Succeeded,
        spec_steps(spec, before, ScenarioEvent::Reply { status, body }, t),
        spec_steps(spec, t.run, later_event, later),
    ensures
        t.run.state is Succeeded,
        t.action is Finish,
        t.action->Finish_0.spec_exit_code() == 0,
        t.action->Finish_0->Succeeded_body@ == body@,
        later.run.state is Succeeded,
        later.action is Halt,
{
}

/// Once more time has passed than the polling policy allows, the scenario
/// ends as timed out: the failure is of the kind `Timeout`, the exit code is
/// 1, and no poll is sent.
pub proof fn lemma_deadline_times_out(
    spec: ScenarioSpec,
    before: ScenarioRun,
    elapsed: TimeSpan,
    t: Transition,
)
    requires
        spec.scenario.steps@.len() == 2,
        spec.scenario.steps@[1].polling is Some,
        before.state is AwaitingClock,
        elapsed.spec_exceeds_secs(spec.scenario.steps@[1].polling->0.timeout_seconds),
        spec_steps(spec, before, ScenarioEvent::Clock(elapsed), t),
    ensures
        t.run.state is TimedOut,
        t.action is Finish,
        t.action->Finish_0 is Error,
        t.action->Finish_0->Error_0.spec_kind() == crate::error::ErrorKind::Timeout,
        t.action->Finish_0.spec_exit_code() == 1,
{
}

/// A reply to a poll that matches no condition puts the scenario to sleep
/// for the polling interval, and the end of the sleep leads to the next look
/// at the clock: the scenario polls again unless the deadline has passed.
pub proof fn lemma_pending_polls_again(
    spec: ScenarioSpec,
    before: ScenarioRun,
    status: u16,
    body: String,
    t: Transition,
    woken: Transition,
)
    requires
        spec.scenario.steps@.len() == 2,
        spec.scenario.steps@[1].polling is Some,
        before.state is Polling,
        200 <= status <= 299,
        json_parsed(body@) is Some,
        spec_poll_verdict(
            json_parsed(body@)->0,
            condition_models(spec.scenario.steps@[1].polling->0.completion_conditions@),
        ) is Pending,
        spec_steps(spec, before, ScenarioEvent::Reply { status, body }, t),
        spec_steps(spec, t.run, ScenarioEvent::Woke, woken),
    ensures
        t.run.state is Sleeping,
        t.action == ScenarioAction::Sleep(spec.scenario.steps@[1].polling->0.interval_seconds),
        woken.run.state is AwaitingClock,
        woken.action is ReadClock,
        woken.run.vars.pairs() == before.vars.pairs(),
{
}

/// Whether `ts` is a run of the scenario of `spec` on the events `events`:
/// it begins as the scenario begins, and each event leads from one
/// transition to the next.
pub open spec fn spec_is_run(spec: ScenarioSpec, events: Seq<ScenarioEvent>, ts: Seq<Transition>) -> bool {
    &&& ts.len() == events.len() + 1
    &&& spec_starts(spec, ts[0])
    &&& forall|i: int|
        0 <= i < events.len() ==> spec_steps(spec, ts[i].run, events[i], #[trigger] ts[i + 1])
}

/// The number of requests that the first `n` transitions of a run send.
pub open spec fn spec_requests_sent(ts: Seq<Transition>, n: int) -> nat
    decreases n,
{
    if n <= 0 || n > ts.len() {
        0
    } else {
        spec_requests_sent(ts, n - 1) + (if ts[n - 1].action is Send {
            1nat
        } else {
            0nat
        })
    }
}

/// Once a run has ended, every later transition asks for nothing.
proof fn lemma_ended_run_halts(
    spec: ScenarioSpec,
    events: Seq<ScenarioEvent>,
    ts: Seq<Transition>,
    end: int,
    n: int,
)
    requires
        spec_is_run(spec, events, ts),
        0 <= end < n <= ts.len(),
        ts[end].run.state.spec_is_final(),
    ensures
        ts[n - 1].run.state == ts[end].run.state,
        spec_requests_sent(ts, n) == spec_requests_sent(ts, end + 1),
    decreases n,
{
    if n - 1 > end {
        lemma_ended_run_halts(spec, events, ts, end, n - 1);
        assert(spec_steps(spec, ts[n - 2].run, events[n - 2], ts[n - 2 + 1]));
    }
}

/// A run whose first poll is answered with a status that first matches a
/// `success` condition ends as succeeded with exit code 0 on that answer,
/// and however long the run is fed with events it sends two requests in
/// all: the scheduling request and one poll.
pub proof fn lemma_first_poll_success_sends_one_poll(
    spec: ScenarioSpec,
    events: Seq<ScenarioEvent>,
    ts: Seq<Transition>,
)
    requires
        spec_is_run(spec, events, ts),
        events.len() >= 3,
        ts[0].action is Send,
        ts[1].run.state is AwaitingClock,
        events[1] is Clock,
        ts[2].action is Send,
        events[2] matches ScenarioEvent::Reply { status, body } && 200 <= status <= 299
            && json_parsed(body@) is Some && spec.scenario.steps@[1].polling is Some
            && spec_poll_verdict(
            json_parsed(body@)->0,
            condition_models(spec.scenario.steps@[1].polling->0.completion_conditions@),
        ) is Succeeded,
    ensures
        ts[3].run.state is Succeeded,
        ts[3].action is Finish,
        ts[3].action->Finish_0.spec_exit_code() == 0,
        spec_requests_sent(ts, ts.len() as int) == 2,
{
    assert(spec_steps(spec, ts[1].run, events[1], ts[1int + 1]));
    assert(spec_steps(spec, ts[2].run, events[2], ts[2int + 1]));
    assert(ts[2].run.state is Polling);
    assert(spec.scenario.steps@.len() == 2);
    assert(!(ts[1].action is Send));
    assert(spec_requests_sent(ts, 4) == 2) by {
        reveal_with_fuel(spec_requests_sent, 5);
    }
    lemma_ended_run_halts(spec, events, ts, 3, ts.len() as int);
}

/// A run in which an extraction rule of the scheduling step finds nothing in
/// the answer is aborted on that answer, and however long the run is fed
/// with events it sends the scheduling request only: no poll is sent.
pub proof fn lemma_failed_extraction_sends_no_poll(
    spec: ScenarioSpec,
    events: Seq<ScenarioEvent>,
    ts: Seq<Transition>,
)
    requires
        spec_is_run(spec, events, ts),
        events.len() >= 1,
        ts[0].action is Send,
        events[0] matches ScenarioEvent::Reply { status, body } && 200 <= status <= 299
            && spec_extract_variables(
            body@,
            spec.scenario.steps@[0].extract_response.pairs(),
            ts[0].run.vars.pairs(),
        ) is Err,
    ensures
        ts[1].run.state is Aborted,
        ts[1].action is Finish,
        ts[1].action->Finish_0.spec_exit_code() == 1,
        spec_requests_sent(ts, ts.len() as int) == 1,
{
    assert(spec_steps(spec, ts[0].run, events[0], ts[0int + 1]));
    assert(ts[0].run.state is Scheduling);
    assert(spec.scenario.steps@.len() == 2);
    assert(spec_requests_sent(ts, 2) == 1) by {
        reveal_with_fuel(spec_requests_sent, 3);
    }
    lemma_ended_run_halts(spec, events, ts, 1, ts.len() as int);
}

} // verus!
