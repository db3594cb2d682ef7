//! Error types.

use vstd::prelude::*;
use vstd::std_specs::convert::FromSpecImpl;
use crate::mapping::opt_view;
use crate::text::{push_decimal, push_text, spec_decimal};

verus! {

/// An input/output error, `std::io::Error`. It is carried as it is.
#[verifier::external_type_specification]
#[verifier::external_body]
pub struct ExIoError(std::io::Error);

/// The general error type of the library.
#[derive(Debug)]
pub enum Error {
    /// An error with a message.
    Generic(String),
    /// An input/output error.
    Io(std::io::Error),
    /// An error in the command line.
    CliError(String),
}

/// The text that `std::io::Error` displays. Nothing is claimed of it.
#[verifier::external_body]
fn io_error_text(err: &std::io::Error) -> String {
    format!("{}", err)
}

impl Error {
    /// The text before the detail in the message of each variant.
    pub open spec fn spec_prefix(&self) -> Seq<char> {
        match self {
            Error::Generic(_) => Seq::empty(),
            Error::Io(_) => "IO error: "@,
            Error::CliError(_) => "CLI error: "@,
        }
    }

    /// The message of the error: for `Generic` the message itself, for
    /// `CliError` the message after `CLI error: `, for `Io` the text of the
    /// underlying error after `IO error: `.
    pub fn message(&self) -> (m: String)
        ensures
            self.spec_prefix().is_prefix_of(m@),
            self matches Error::Generic(s) ==> m@ == s@,
            self matches Error::CliError(s) ==> m@ == "CLI error: "@ + s@,
    {
        match self {
            Error::Generic(s) => s.clone(),
            Error::Io(err) => {
                let mut m = String::new();
                push_text(&mut m, "IO error: ");
                let detail = io_error_text(err);
                push_text(&mut m, detail.as_str());
                m
            },
            Error::CliError(s) => {
                let mut m = String::new();
                push_text(&mut m, "CLI error: ");
                push_text(&mut m, s.as_str());
                m
            },
        }
    }

    /// The underlying input/output error, which only `Io` has.
    pub fn source(&self) -> (r: Option<&std::io::Error>)
        ensures
            r == (match self {
                Error::Io(err) => Some(err),
                _ => None,
            }),
    {
        match self {
            Error::Io(err) => Some(err),
            _ => None,
        }
    }
}

impl From<std::io::Error> for Error {
    fn from(err: std::io::Error) -> (e: Error) {
        Error::Io(err)
    }
}

impl FromSpecImpl<std::io::Error> for Error {
    open spec fn obeys_from_spec() -> bool {
        true
    }

    open spec fn from_spec(err: std::io::Error) -> Error {
        Error::Io(err)
    }
}

/// The kinds of failure of an execution.
#[derive(Debug, Clone, Copy, PartialEq, Eq, Structural)]
pub enum ErrorKind {
    /// The descriptor or the scenario cannot be executed as it is written.
    Configuration,
    /// The transport failed: no response was received.
    Network,
    /// A response that had to be JSON is not.
    ResponseParse,
    /// A scenario step failed.
    Scenario,
    /// The polling deadline passed.
    Timeout,
}

/// The reason phrase that goes with an HTTP status, such as `Not Found` with
/// 404; `None` for a status without one.
pub uninterp spec fn reason_phrase(status: u16) -> Option<Seq<char>>;

/// The reason phrase of a status from 100 to 999: what
/// `StatusCode::canonical_reason` of the `http` crate gives for the status
/// code that `StatusCode::from_u16` makes of the number. Nothing is claimed
/// of the phrases themselves.
#[verifier::external_body]
fn status_reason(status: u16) -> (r: Option<String>)
    requires
        100 <= status <= 999,
    ensures
        opt_view(r) == reason_phrase(status),
{
    match reqwest::StatusCode::from_u16(status) {
        Ok(code) => code.canonical_reason().map(String::from),
        Err(_) => None,
    }
}

/// How a status is written in a message: its number and, for a status from
/// 100 to 999, a space and the reason phrase, or `<unknown status code>`
/// where it has none. Another number stands alone.
pub open spec fn spec_status_text(status: u16, reason: Option<Seq<char>>) -> Seq<char> {
    if 100 <= status <= 999 {
        spec_decimal(status as nat) + " "@ + (match reason {
            Some(phrase) => phrase,
            None => "<unknown status code>"@,
        })
    } else {
        spec_decimal(status as nat)
    }
}

/// Writes a status with the reason phrase that was found for it.
pub fn status_text(status: u16, reason: &Option<String>) -> (r: String)
    ensures
        r@ == spec_status_text(status, opt_view(*reason)),
{
    let mut r = String::new();
    push_decimal(&mut r, status as u64);
    if 100 <= status && status <= 999 {
        push_text(&mut r, " ");
        match reason {
            Some(phrase) => {
                push_text(&mut r, phrase.as_str());
            },
            None => {
                push_text(&mut r, "<unknown status code>");
            },
        }
    }
    proof {
        assert(r@ =~= spec_status_text(status, opt_view(*reason)));
    }
    r
}

/// A status with its reason phrase, as a message shows it.
pub fn status_line(status: u16) -> (r: String)
    ensures
        r@ == spec_status_text(status, reason_phrase(status)),
{
    if 100 <= status && status <= 999 {
        let reason = status_reason(status);
        status_text(status, &reason)
    } else {
        status_text(status, &None)
    }
}

/// A failure of an execution.
#[derive(Debug, Clone, PartialEq, Eq)]
pub enum ExecError {
    /// The method, in upper case, is none of the seven supported.
    UnsupportedMethod(String),
    /// A header line has no colon; holds the line.
    InvalidHeaderFormat(String),
    /// A header's name is not a valid header name; holds the name.
    InvalidHeaderName(String),
    /// A header's value is not a valid header value; holds the header's name
    /// in lower case.
    InvalidHeaderValue(String),
    /// The header map accepts no further header.
    TooManyHeaders,
    /// The endpoint is relative and there is no base URL.
    MissingBaseUrl,
    /// A completion condition that matched names an action other than
    /// `success` and `error`; holds the action.
    UnknownCompletionAction(String),
    /// The scenario's type is not known; holds the type.
    UnsupportedScenarioType(String),
    /// A `job_with_polling` scenario does not have two steps.
    WrongStepCount,
    /// The first step is not named `schedule_job`.
    FirstStepNotSchedule,
    /// The second step is not named `poll_job`.
    SecondStepNotPoll,
    /// The polling step has no polling policy.
    MissingPollingConfig,
    /// A custom handler was handed to the executor.
    CustomHandlerNotExecutable,
    /// No handler is registered under the name that a command gives; holds
    /// the name.
    HandlerNotRegistered(String),
    /// The transport failed; holds its description.
    Transport(String),
    /// A scenario step was answered with a status outside `200..=299`.
    HttpStatus { status: u16, body: String },
    /// The response to the scheduling step is not JSON.
    ScheduleResponseNotJson,
    /// The response to a poll is not JSON.
    PollResponseNotJson,
    /// An extraction rule found nothing in the response.
    ExtractionFailed { variable: String, path: String },
    /// Polling went on for longer than the policy allows; holds the limit in
    /// seconds.
    PollingTimeout(u64),
    /// A scenario was handed an event that its state does not wait for.
    UnexpectedEvent,
}

impl ExecError {
    /// The kind of the failure.
    pub open spec fn spec_kind(&self) -> ErrorKind {
        match self {
            ExecError::UnsupportedMethod(_) => ErrorKind::Configuration,
            ExecError::InvalidHeaderFormat(_) => ErrorKind::Configuration,
            ExecError::InvalidHeaderName(_) => ErrorKind::Configuration,
            ExecError::InvalidHeaderValue(_) => ErrorKind::Configuration,
            ExecError::TooManyHeaders => ErrorKind::Configuration,
            ExecError::MissingBaseUrl => ErrorKind::Configuration,
            ExecError::UnknownCompletionAction(_) => ErrorKind::Configuration,
            ExecError::UnsupportedScenarioType(_) => ErrorKind::Configuration,
            ExecError::WrongStepCount => ErrorKind::Configuration,
            ExecError::FirstStepNotSchedule => ErrorKind::Configuration,
            ExecError::SecondStepNotPoll => ErrorKind::Configuration,
            ExecError::MissingPollingConfig => ErrorKind::Configuration,
            ExecError::CustomHandlerNotExecutable => ErrorKind::Configuration,
            ExecError::HandlerNotRegistered(_) => ErrorKind::Configuration,
            ExecError::Transport(_) => ErrorKind::Network,
            ExecError::HttpStatus { .. } => ErrorKind::Scenario,
            ExecError::ScheduleResponseNotJson => ErrorKind::ResponseParse,
            ExecError::PollResponseNotJson => ErrorKind::ResponseParse,
            ExecError::ExtractionFailed { .. } => ErrorKind::Scenario,
            ExecError::PollingTimeout(_) => ErrorKind::Timeout,
            ExecError::UnexpectedEvent => ErrorKind::Scenario,
        }
    }

    /// The kind of the failure.
    pub fn kind(&self) -> (k: ErrorKind)
        ensures
            k == self.spec_kind(),
    {
        match self {
            ExecError::UnsupportedMethod(_) => ErrorKind::Configuration,
            ExecError::InvalidHeaderFormat(_) => ErrorKind::Configuration,
            ExecError::InvalidHeaderName(_) => ErrorKind::Configuration,
            ExecError::InvalidHeaderValue(_) => ErrorKind::Configuration,
            ExecError::TooManyHeaders => ErrorKind::Configuration,
            ExecError::MissingBaseUrl => ErrorKind::Configuration,
            ExecError::UnknownCompletionAction(_) => ErrorKind::Configuration,
            ExecError::UnsupportedScenarioType(_) => ErrorKind::Configuration,
            ExecError::WrongStepCount => ErrorKind::Configuration,
            ExecError::FirstStepNotSchedule => ErrorKind::Configuration,
            ExecError::SecondStepNotPoll => ErrorKind::Configuration,
            ExecError::MissingPollingConfig => ErrorKind::Configuration,
            ExecError::CustomHandlerNotExecutable => ErrorKind::Configuration,
            ExecError::HandlerNotRegistered(_) => ErrorKind::Configuration,
            ExecError::Transport(_) => ErrorKind::Network,
            ExecError::HttpStatus { .. } => ErrorKind::Scenario,
            ExecError::ScheduleResponseNotJson => ErrorKind::ResponseParse,
            ExecError::PollResponseNotJson => ErrorKind::ResponseParse,
            ExecError::ExtractionFailed { .. } => ErrorKind::Scenario,
            ExecError::PollingTimeout(_) => ErrorKind::Timeout,
            ExecError::UnexpectedEvent => ErrorKind::Scenario,
        }
    }

    /// The message of the failure.
    pub open spec fn spec_message(&self) -> Seq<char> {
        match self {
            ExecError::UnsupportedMethod(m) => "Unsupported HTTP method: "@ + m@,
            ExecError::InvalidHeaderFormat(h) => "Invalid header format, expected 'Key: Value', got: "@
                + h@,
            ExecError::InvalidHeaderName(n) => "Invalid header name: "@ + n@,
            ExecError::InvalidHeaderValue(n) => "Invalid header value for "@ + n@,
            ExecError::TooManyHeaders => "Too many headers"@,
            ExecError::MissingBaseUrl => "Endpoint is relative but no --base-url provided"@,
            ExecError::UnknownCompletionAction(a) => "Unknown completion action: "@ + a@,
            ExecError::UnsupportedScenarioType(t) => "Unsupported scenario type: "@ + t@,
            ExecError::WrongStepCount => "job_with_polling scenario must have exactly 2 steps (schedule_job, poll_job)"@,
            ExecError::FirstStepNotSchedule => "First step must be named 'schedule_job'"@,
            ExecError::SecondStepNotPoll => "Second step must be named 'poll_job'"@,
            ExecError::MissingPollingConfig => "poll_job step must have polling configuration"@,
            ExecError::CustomHandlerNotExecutable => "Custom handlers should be handled by the calling application, not by the library"@,
            ExecError::HandlerNotRegistered(n) => "No handler registered for "@ + n@,
            ExecError::Transport(d) => "HTTP request failed: "@ + d@,
            ExecError::HttpStatus { status, body } => "HTTP request failed with status "@
                + spec_status_text(*status, reason_phrase(*status)) + ": "@ + body@,
            ExecError::ScheduleResponseNotJson => "Failed to parse response as JSON for variable extraction"@,
            ExecError::PollResponseNotJson => "Failed to parse polling response as JSON"@,
            ExecError::ExtractionFailed { variable, path } => "Failed to extract variable '"@
                + variable@ + "' using JSONPath '"@ + path@ + "'"@,
            ExecError::PollingTimeout(secs) => "Polling timeout after "@ + spec_decimal(
                *secs as nat,
            ) + " seconds"@,
            ExecError::UnexpectedEvent => "Unexpected event for the scenario's state"@,
        }
    }

    /// The message of the failure.
    pub fn message(&self) -> (m: String)
        ensures
            m@ == self.spec_message(),
    {
        let mut m = String::new();
        match self {
            ExecError::UnsupportedMethod(s) => {
                push_text(&mut m, "Unsupported HTTP method: ");
                push_text(&mut m, s.as_str());
            },
            ExecError::InvalidHeaderFormat(h) => {
                push_text(&mut m, "Invalid header format, expected 'Key: Value', got: ");
                push_text(&mut m, h.as_str());
            },
            ExecError::InvalidHeaderName(n) => {
                push_text(&mut m, "Invalid header name: ");
                push_text(&mut m, n.as_str());
            },
            ExecError::InvalidHeaderValue(n) => {
                push_text(&mut m, "Invalid header value for ");
                push_text(&mut m, n.as_str());
            },
            ExecError::TooManyHeaders => {
                push_text(&mut m, "Too many headers");
            },
            ExecError::MissingBaseUrl => {
                push_text(&mut m, "Endpoint is relative but no --base-url provided");
            },
            ExecError::UnknownCompletionAction(a) => {
                push_text(&mut m, "Unknown completion action: ");
                push_text(&mut m, a.as_str());
            },
            ExecError::UnsupportedScenarioType(t) => {
                push_text(&mut m, "Unsupported scenario type: ");
                push_text(&mut m, t.as_str());
            },
            ExecError::WrongStepCount => {
                push_text(
                    &mut m,
                    "job_with_polling scenario must have exactly 2 steps (schedule_job, poll_job)",
                );
            },
            ExecError::FirstStepNotSchedule => {
                push_text(&mut m, "First step must be named 'schedule_job'");
            },
            ExecError::SecondStepNotPoll => {
                push_text(&mut m, "Second step must be named 'poll_job'");
            },
            ExecError::MissingPollingConfig => {
                push_text(&mut m, "poll_job step must have polling configuration");
            },
            ExecError::CustomHandlerNotExecutable => {
                push_text(
                    &mut m,
                    "Custom handlers should be handled by the calling application, not by the library",
                );
            },
            ExecError::HandlerNotRegistered(n) => {
                push_text(&mut m, "No handler registered for ");
                push_text(&mut m, n.as_str());
            },
            ExecError::Transport(d) => {
                push_text(&mut m, "HTTP request failed: ");
                push_text(&mut m, d.as_str());
            },
            ExecError::HttpStatus { status, body } => {
                push_text(&mut m, "HTTP request failed with status ");
                let line = status_line(*status);
                push_text(&mut m, line.as_str());
                push_text(&mut m, ": ");
                push_text(&mut m, body.as_str());
            },
            ExecError::ScheduleResponseNotJson => {
                push_text(&mut m, "Failed to parse response as JSON for variable extraction");
            },
            ExecError::PollResponseNotJson => {
                push_text(&mut m, "Failed to parse polling response as JSON");
            },
            ExecError::ExtractionFailed { variable, path } => {
                push_text(&mut m, "Failed to extract variable '");
                push_text(&mut m, variable.as_str());
                push_text(&mut m, "' using JSONPath '");
                push_text(&mut m, path.as_str());
                push_text(&mut m, "'");
            },
            ExecError::PollingTimeout(secs) => {
                push_text(&mut m, "Polling timeout after ");
                push_decimal(&mut m, *secs);
                push_text(&mut m, " seconds");
            },
            ExecError::UnexpectedEvent => {
                push_text(&mut m, "Unexpected event for the scenario's state");
            },
        }
        proof {
            assert(m@ =~= self.spec_message());
        }
        m
    }
}

} // verus!
