//! Reading JSON responses: parsing, members, and extraction by path.

use vstd::prelude::*;
use serde_json::Value;
use crate::error::ExecError;
use crate::mapping::opt_view;
use crate::strmap::{pairs_insert, StringMap};
use crate::text::chars_of;

verus! {

/// A JSON value, `serde_json::Value`. What it holds is spoken of through
/// `json_text`.
#[verifier::external_type_specification]
#[verifier::external_body]
pub struct ExJsonValue(serde_json::Value);

/// What a JSON value holds: its compact JSON text.
pub uninterp spec fn json_text(value: Value) -> Seq<char>;

/// The document that a text holds, as compact JSON text; `None` where
/// `serde_json::from_str` refuses the text.
pub uninterp spec fn json_parsed(body: Seq<char>) -> Option<Seq<char>>;

/// The text of the string that the document `doc` holds under the key `key`
/// of its top-level object; `None` where `doc` is no object, has no such key,
/// or holds there something other than a string.
pub uninterp spec fn json_member_text(doc: Seq<char>, key: Seq<char>) -> Option<Seq<char>>;

/// The first value that `jsonpath_lib::select` finds in the document `doc`
/// under the path `path`; `None` where it refuses the path or finds nothing.
pub uninterp spec fn jsonpath_first(doc: Seq<char>, path: Seq<char>) -> Option<PickModel>;

/// A value picked from a document.
#[derive(Debug)]
pub enum JsonPick {
    /// A string; holds its text.
    Text(String),
    /// A number; holds its notation.
    Number(String),
    /// A boolean.
    Bool(bool),
    /// Any other value; holds its compact JSON text.
    Other(String),
}

/// What a picked value says.
pub enum PickModel {
    Text(Seq<char>),
    Number(Seq<char>),
    Bool(bool),
    Other(Seq<char>),
}

impl View for JsonPick {
    type V = PickModel;

    open spec fn view(&self) -> PickModel {
        match self {
            JsonPick::Text(s) => PickModel::Text(s@),
            JsonPick::Number(s) => PickModel::Number(s@),
            JsonPick::Bool(b) => PickModel::Bool(*b),
            JsonPick::Other(s) => PickModel::Other(s@),
        }
    }
}

/// What an optional picked value says.
pub open spec fn pick_view(p: Option<JsonPick>) -> Option<PickModel> {
    match p {
        Some(p) => Some(p@),
        None => None,
    }
}

/// Parses a text with `serde_json::from_str`.
#[verifier::external_body]
pub(crate) fn parse_json(body: &str) -> (r: Option<Value>)
    ensures
        r is Some <==> json_parsed(body@) is Some,
        r is Some ==> json_parsed(body@) == Some(json_text(r->0)),
{
    serde_json::from_str::<Value>(body).ok()
}

/// Looks a key up with `Value::get` and reads the string there with
/// `Value::as_str`.
#[verifier::external_body]
fn json_member_string(doc: &Value, key: &str) -> (r: Option<String>)
    ensures
        opt_view(r) == json_member_text(json_text(*doc), key@),
{
    doc.get(key)?.as_str().map(|s| s.to_string())
}

/// Evaluates a path with `jsonpath_lib::select` and hands out the first value
/// found, by its variant. Only a supported path is evaluated: on some other
/// paths, such as a slice with the step 0 or a filter on a range, the
/// evaluator stops the program, and with repeated descents into all levels
/// or long chains of unions it may not come to an end.
#[verifier::external_body]
fn jsonpath_select_first(doc: &Value, path: &str) -> (r: Option<JsonPick>)
    requires
        spec_path_supported(path@),
    ensures
        pick_view(r) == jsonpath_first(json_text(*doc), path@),
{
    let found = jsonpath_lib::select(doc, path).ok()?;
    match found.first()? {
        Value::String(s) => Some(JsonPick::Text(s.clone())),
        Value::Number(n) => Some(JsonPick::Number(n.to_string())),
        Value::Bool(b) => Some(JsonPick::Bool(*b)),
        other => Some(JsonPick::Other(other.to_string())),
    }
}

/// A character that marks a filter, a slice or a second root in a path: one
/// of `?:()@=<>&|!$`.
pub open spec fn is_filter_char(c: char) -> bool {
    ||| c == '?'
    ||| c == ':'
    ||| c == '('
    ||| c == ')'
    ||| c == '@'
    ||| c == '='
    ||| c == '<'
    ||| c == '>'
    ||| c == '&'
    ||| c == '|'
    ||| c == '!'
    ||| c == '$'
}

/// The number of places before `n` at which `path` holds two dots in a row.
pub open spec fn spec_double_dots(path: Seq<char>, n: int) -> nat
    decreases n,
{
    if n <= 0 || n >= path.len() {
        0
    } else {
        spec_double_dots(path, n - 1) + (if path[n - 1] == '.' && path[n] == '.' {
            1nat
        } else {
            0nat
        })
    }
}

/// The number of commas among the first `n` characters of `path`.
pub open spec fn spec_commas(path: Seq<char>, n: int) -> nat
    decreases n,
{
    if n <= 0 || n > path.len() {
        0
    } else {
        spec_commas(path, n - 1) + (if path[n - 1] == ',' {
            1nat
        } else {
            0nat
        })
    }
}

/// The paths that are evaluated: `$` followed by member names, plain or
/// quoted, dots, wildcards, bracketed indices and unions of indices or
/// names, such as `$.job.id`, `$..id`, `$.items[0].id`, `$.items[*].id`,
/// `$['job id']` and `$.items[0,1]`. A path has at most 1024 characters, at
/// most one descent into all levels (`..`) and at most eight commas, and
/// after its first character none of `?:()@=<>&|!$`, inside a quoted name
/// or outside. So filters and slices are not among them: the evaluator does
/// not answer every such path, and none is handed to it.
pub open spec fn spec_path_supported(path: Seq<char>) -> bool {
    &&& 1 <= path.len() <= 1024
    &&& path[0] == '$'
    &&& forall|i: int| 1 <= i < path.len() ==> !is_filter_char(#[trigger] path[i])
    &&& spec_double_dots(path, path.len() - 1) <= 1
    &&& spec_commas(path, path.len() as int) <= 8
}

/// Whether `path` is among the paths that are evaluated.
pub fn path_is_supported(path: &str) -> (b: bool)
    ensures
        b == spec_path_supported(path@),
{
    let p = chars_of(path);
    if p.len() < 1 || p.len() > 1024 || p[0] != '$' {
        return false;
    }
    let mut doubles: usize = 0;
    let mut commas: usize = 0;
    let mut i: usize = 1;
    proof {
        assert(spec_commas(p@, 0) == 0);
        assert(spec_commas(p@, 1) == 0);
    }
    while i < p.len()
        invariant
            1 <= i <= p.len() <= 1024,
            p@ == path@,
            p@[0] == '$',
            forall|k: int| 1 <= k < i ==> !is_filter_char(#[trigger] p@[k]),
            doubles == spec_double_dots(p@, i - 1),
            commas == spec_commas(p@, i as int),
            doubles <= i,
            commas <= i,
        decreases p.len() - i,
    {
        let c = p[i];
        let blocked = c == '?' || c == ':' || c == '(' || c == ')' || c == '@' || c == '=' || c
            == '<' || c == '>' || c == '&' || c == '|' || c == '!' || c == '$';
        if blocked {
            proof {
                assert(is_filter_char(p@[i as int]));
            }
            return false;
        }
        if c == '.' && p[i - 1] == '.' {
            doubles += 1;
        }
        if c == ',' {
            commas += 1;
        }
        i += 1;
    }
    doubles <= 1 && commas <= 8
}

/// The text that a picked value is bound as: a string's own text, a number's
/// notation, `true` or `false`, or the JSON text of any other value.
pub open spec fn spec_pick_text(p: PickModel) -> Seq<char> {
    match p {
        PickModel::Text(s) => s,
        PickModel::Number(s) => s,
        PickModel::Bool(b) => if b {
            "true"@
        } else {
            "false"@
        },
        PickModel::Other(s) => s,
    }
}

/// The text that a picked value is bound as.
pub fn pick_text(p: JsonPick) -> (s: String)
    ensures
        s@ == spec_pick_text(p@),
{
    match p {
        JsonPick::Text(s) => s,
        JsonPick::Number(s) => s,
        JsonPick::Bool(b) => if b {
            "true".to_owned()
        } else {
            "false".to_owned()
        },
        JsonPick::Other(s) => s,
    }
}

/// The text found in the document `doc` under `path`: that of the first
/// value that the path selects; `None` where the path is not supported or
/// selects nothing.
pub open spec fn spec_extract(doc: Seq<char>, path: Seq<char>) -> Option<Seq<char>> {
    if spec_path_supported(path) {
        match jsonpath_first(doc, path) {
            Some(p) => Some(spec_pick_text(p)),
            None => None,
        }
    } else {
        None
    }
}

/// Extracts a text from a JSON value by a path.
pub fn extract_jsonpath_value(json: &Value, path: &str) -> (r: Option<String>)
    ensures
        opt_view(r) == spec_extract(json_text(*json), path@),
{
    if !path_is_supported(path) {
        return None;
    }
    match jsonpath_select_first(json, path) {
        Some(p) => Some(pick_text(p)),
        None => None,
    }
}

/// The status of a response document: the string under its `status` key.
pub open spec fn spec_status(doc: Seq<char>) -> Option<Seq<char>> {
    json_member_text(doc, "status"@)
}

/// The status of a response: the string under the `status` key of its
/// top-level object, if there is one.
pub fn response_status(json: &Value) -> (r: Option<String>)
    ensures
        opt_view(r) == spec_status(json_text(*json)),
{
    json_member_string(json, "status")
}

/// The bindings after the first `n` extraction rules have been applied to
/// the document `doc`, each rule binding its variable to the text found
/// under its path. `None` where one of them found nothing.
pub open spec fn spec_extract_upto(
    doc: Seq<char>,
    rules: Seq<(Seq<char>, Seq<char>)>,
    vars: Seq<(Seq<char>, Seq<char>)>,
    n: int,
) -> Option<Seq<(Seq<char>, Seq<char>)>>
    decreases n,
{
    if n <= 0 || n > rules.len() {
        Some(vars)
    } else {
        match spec_extract_upto(doc, rules, vars, n - 1) {
            None => None,
            Some(bound) => match spec_extract(doc, rules[n - 1].1) {
                None => None,
                Some(text) => Some(pairs_insert(bound, rules[n - 1].0, text)),
            },
        }
    }
}

/// The index of the first extraction rule that finds nothing in `doc`, or
/// `rules.len()` when every rule finds something.
pub open spec fn spec_first_unmatched(doc: Seq<char>, rules: Seq<(Seq<char>, Seq<char>)>, from: int) -> int
    decreases rules.len() - from,
{
    if from < 0 || from >= rules.len() {
        rules.len() as int
    } else if spec_extract(doc, rules[from].1) is None {
        from
    } else {
        spec_first_unmatched(doc, rules, from + 1)
    }
}

/// What applying the extraction rules to a response body gives: the new
/// bindings, or the failure. The body must be JSON, whether or not there
/// are rules. The rules are then applied in order, and the first that finds
/// nothing fails the extraction; without rules the bindings stay as they
/// are.
pub open spec fn spec_extract_variables(
    body: Seq<char>,
    rules: Seq<(Seq<char>, Seq<char>)>,
    vars: Seq<(Seq<char>, Seq<char>)>,
) -> Result<Seq<(Seq<char>, Seq<char>)>, ExtractFailure> {
    match json_parsed(body) {
        None => Err(ExtractFailure::NotJson),
        Some(doc) => {
            let bad = spec_first_unmatched(doc, rules, 0);
            if bad < rules.len() {
                Err(ExtractFailure::Unmatched(rules[bad].0, rules[bad].1))
            } else {
                Ok(spec_extract_upto(doc, rules, vars, rules.len() as int)->0)
            }
        },
    }
}

/// The bindings that an extraction leaves behind: on success the new
/// bindings; on failure those made before the failing rule; and where the
/// body is not JSON, those it began with.
pub open spec fn spec_extract_leaves(
    body: Seq<char>,
    rules: Seq<(Seq<char>, Seq<char>)>,
    vars: Seq<(Seq<char>, Seq<char>)>,
) -> Seq<(Seq<char>, Seq<char>)> {
    match json_parsed(body) {
        None => vars,
        Some(doc) => spec_extract_upto(doc, rules, vars, spec_first_unmatched(doc, rules, 0))->0,
    }
}

/// Why an extraction failed.
pub enum ExtractFailure {
    /// The body is not JSON.
    NotJson,
    /// The rule for this variable, with this path, found nothing.
    Unmatched(Seq<char>, Seq<char>),
}

/// Whether `e` is the failure that `f` describes.
pub open spec fn spec_is_extract_failure(e: ExecError, f: ExtractFailure) -> bool {
    match f {
        ExtractFailure::NotJson => e == ExecError::ScheduleResponseNotJson,
        ExtractFailure::Unmatched(variable, path) => e is ExtractionFailed
            && e->ExtractionFailed_variable@ == variable && e->ExtractionFailed_path@ == path,
    }
}

proof fn lemma_first_unmatched(doc: Seq<char>, rules: Seq<(Seq<char>, Seq<char>)>, from: int)
    requires
        0 <= from <= rules.len(),
    ensures
        from <= spec_first_unmatched(doc, rules, from) <= rules.len(),
        spec_first_unmatched(doc, rules, from) < rules.len() ==> spec_extract(
            doc,
            rules[spec_first_unmatched(doc, rules, from)].1,
        ) is None,
        forall|k: int|
            from <= k < spec_first_unmatched(doc, rules, from) ==> spec_extract(
                doc,
                (#[trigger] rules[k]).1,
            ) is Some,
    decreases rules.len() - from,
{
    if from < rules.len() && spec_extract(doc, rules[from].1) is Some {
        lemma_first_unmatched(doc, rules, from + 1);
    }
}

/// A body that is not JSON fails the extraction, whatever the rules are,
/// and leaves the bindings as they were.
pub proof fn lemma_unparsed_body_fails(
    body: Seq<char>,
    rules: Seq<(Seq<char>, Seq<char>)>,
    vars: Seq<(Seq<char>, Seq<char>)>,
)
    requires
        json_parsed(body) is None,
    ensures
        spec_extract_variables(body, rules, vars) == Err::<
            Seq<(Seq<char>, Seq<char>)>,
            ExtractFailure,
        >(ExtractFailure::NotJson),
        spec_extract_leaves(body, rules, vars) == vars,
{
}

/// A rule whose path finds nothing in the response fails the extraction,
/// whatever the other rules find.
pub proof fn lemma_unmatched_rule_fails(
    body: Seq<char>,
    rules: Seq<(Seq<char>, Seq<char>)>,
    vars: Seq<(Seq<char>, Seq<char>)>,
    i: int,
)
    requires
        0 <= i < rules.len(),
        json_parsed(body) is None || spec_extract(json_parsed(body)->0, rules[i].1) is None,
    ensures
        spec_extract_variables(body, rules, vars) is Err,
{
    if json_parsed(body) is Some {
        lemma_first_unmatched(json_parsed(body)->0, rules, 0);
    }
}

/// Parses a response body and applies the extraction rules to it: each rule
/// binds its variable to the text found under its path. A body that is not
/// JSON fails the extraction and leaves the bindings as they are. On the
/// failure of a rule the bindings that earlier rules made stay.
pub fn extract_response_variables(
    response_body: &str,
    extractions: &StringMap,
    variables: &mut StringMap,
) -> (r: Result<(), ExecError>)
    ensures
        match spec_extract_variables(response_body@, extractions.pairs(), old(variables).pairs()) {
            Ok(bound) => r is Ok && final(variables).pairs() == bound,
            Err(f) => r is Err && spec_is_extract_failure(r->Err_0, f),
        },
        final(variables).pairs() == spec_extract_leaves(
            response_body@,
            extractions.pairs(),
            old(variables).pairs(),
        ),
{
    let json = match parse_json(response_body) {
        Some(json) => json,
        None => {
            return Err(ExecError::ScheduleResponseNotJson);
        },
    };
    let ghost doc = json_text(json);
    let ghost rules = extractions.pairs();
    let ghost start = variables.pairs();
    let mut i: usize = 0;
    proof {
        lemma_first_unmatched(doc, rules, 0);
    }
    while i < extractions.len()
        invariant
            i <= extractions.pairs().len(),
            rules == extractions.pairs(),
            start == old(variables).pairs(),
            doc == json_text(json),
            json_parsed(response_body@) == Some(doc),
            spec_extract_upto(doc, rules, start, i as int) == Some(variables.pairs()),
            spec_first_unmatched(doc, rules, 0) == spec_first_unmatched(doc, rules, i as int),
        decreases extractions.pairs().len() - i,
    {
        let name = extractions.key_at(i);
        let path = extractions.value_at(i);
        match extract_jsonpath_value(&json, path.as_str()) {
            Some(text) => {
                variables.insert(name.clone(), text);
            },
            None => {
                proof {
                    assert(rules[i as int].1 == path@);
                    assert(spec_first_unmatched(doc, rules, i as int) == i);
                }
                return Err(
                    ExecError::ExtractionFailed { variable: name.clone(), path: path.clone() },
                );
            },
        }
        i += 1;
    }
    Ok(())
}

} // verus!
