//! Declarative REST client core: turns an operation descriptor into requests,
//! drives polling scenarios and plans load runs.

use vstd::prelude::*;

pub mod assemble;
pub mod cli;
pub mod error;
pub mod harness;
pub mod json;
pub mod mapping;
pub mod render;
pub mod request;
pub mod scenario;
pub mod span;
pub mod strmap;
pub mod table;
pub mod template;
pub mod tree;
pub mod text;

pub use assemble::{
    apply_file_overrides, build_raw_spec_from_step, build_request_from_command,
    build_request_with_uuid, build_simple_request, file_override_of, FileOverride,
};
pub use error::{status_line, status_text, Error, ErrorKind, ExecError};
pub use harness::{
    attempt_result, plan_run, summarize, warning_text, work_of, worker_output, AttemptCounter,
    ExecutionConfig, ExecutionResult, PlanWarning, RepeatMode, RunPlan, Summary, Work,
};
pub use json::{
    extract_jsonpath_value, extract_response_variables, path_is_supported, pick_text,
    response_status, JsonPick,
};
pub use render::{
    get_value_by_path, human_lines, scalar_to_string, scalar_to_string_with_modifier,
    table_columns, table_lines, JsonNode, SizeTexts,
};
pub use request::{
    build_url, has_no_headers, method_named, parse_headers, parse_method, prepare_request,
    HttpMethod, PreparedRequest, RawRequestSpec, RequestBody, RequestSpec, ScenarioSpec,
};
pub use scenario::{
    poll_verdict, start_scenario, step_scenario, PollVerdict, ScenarioAction, ScenarioEvent,
    ScenarioOutcome, ScenarioRun, ScenarioState, Transition,
};
pub use span::TimeSpan;
pub use strmap::{NameSet, StringMap};
pub use table::{
    humanize_column_label, humanize_column_label_with_modifier, parse_column_spec,
    size_modifier_named, ColumnSpec, SizeModifier,
};
pub use template::substitute_template;
pub use tree::{
    build_command_tree, command_name, common_arg, merge_arg_specs, pattern_path, resolve_args,
    tree_set, CommandTree, Leaf, TreeNode,
};

verus! {

/// How the outcome of an operation is presented.
#[derive(Debug, Clone, Copy, PartialEq, Eq, Structural)]
pub enum OutputFormat {
    Json,
    Human,
    Quiet,
}

/// The process exit code that stands for an HTTP status: `0` for a status in
/// `200..=299`, `1` for any other.
pub open spec fn spec_exit_code_for_status(status: u16) -> i32 {
    if 200 <= status && status <= 299 {
        0
    } else {
        1
    }
}

/// The process exit code that stands for an HTTP status.
pub fn exit_code_for_status(status: u16) -> (code: i32)
    ensures
        code == spec_exit_code_for_status(status),
{
    if 200 <= status && status <= 299 {
        0
    } else {
        1
    }
}

} // verus!
