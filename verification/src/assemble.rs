//! Assembling what is to be executed from a command, the bindings and the
//! arguments that the caller supplied.

use vstd::prelude::*;
use crate::error::ExecError;
use crate::mapping::{
    clone_opt, clone_strings, opt_view, opt_views, ArgSpec, CommandSpec, ScenarioStep,
};
use crate::request::{RawRequestSpec, RequestSpec, ScenarioSpec};
use crate::strmap::{
    lemma_insert_get, pairs_get, pairs_insert, pairs_map, NameSet, StringMap,
};
use crate::template::{spec_substitute, substitute_template};
use crate::text::{push_text, text_eq, views};

verus! {

/// A fresh random identifier from `Uuid::new_v4`, in the hyphenated form of 36
/// characters. Nothing else is known of it.
#[verifier::external_body]
fn fresh_uuid() -> (id: String)
    ensures
        id@.len() == 36,
{
    uuid::Uuid::new_v4().to_string()
}

/// Whether `arg` asks for a file override under the bindings `vars`: it is of
/// type `file`, names the variable to replace, and is itself bound to a path
/// that is not empty.
pub open spec fn spec_is_file_override(arg: ArgSpec, vars: Seq<(Seq<char>, Seq<char>)>) -> bool {
    &&& arg.arg_type is Some && arg.arg_type->0@ == "file"@
    &&& arg.file_overrides_value_of is Some
    &&& arg.name is Some
    &&& pairs_get(vars, arg.name->0@) is Some
    &&& pairs_get(vars, arg.name->0@)->0.len() > 0
}

/// The bindings after the file override of `arg`: where `arg` asks for one
/// and the file at its path is among `files`, the variable it names is bound
/// to the file's content.
pub open spec fn spec_file_override(
    arg: ArgSpec,
    vars: Seq<(Seq<char>, Seq<char>)>,
    files: Seq<(Seq<char>, Seq<char>)>,
) -> Seq<(Seq<char>, Seq<char>)> {
    if spec_is_file_override(arg, vars) {
        match pairs_get(files, pairs_get(vars, arg.name->0@)->0) {
            Some(content) => pairs_insert(vars, arg.file_overrides_value_of->0@, content),
            None => vars,
        }
    } else {
        vars
    }
}

/// The bindings after the file overrides of the first `n` arguments, taken
/// in order.
pub open spec fn spec_file_overrides_upto(
    args: Seq<ArgSpec>,
    vars: Seq<(Seq<char>, Seq<char>)>,
    files: Seq<(Seq<char>, Seq<char>)>,
    n: int,
) -> Seq<(Seq<char>, Seq<char>)>
    decreases n,
{
    if n <= 0 || n > args.len() {
        vars
    } else {
        spec_file_override(args[n - 1], spec_file_overrides_upto(args, vars, files, n - 1), files)
    }
}

/// A file override that is due: the variable to bind and the path of the
/// file whose content it is bound to.
#[derive(Debug)]
pub struct FileOverride {
    pub target: String,
    pub path: String,
}

/// The file override that `arg` asks for under `vars`, if it asks for one.
pub fn file_override_of(arg: &ArgSpec, vars: &StringMap) -> (r: Option<FileOverride>)
    ensures
        r is Some <==> spec_is_file_override(*arg, vars.pairs()),
        r is Some ==> r->0.target@ == arg.file_overrides_value_of->0@ && Some(r->0.path@)
            == pairs_get(vars.pairs(), arg.name->0@),
{
    let is_file = match &arg.arg_type {
        Some(t) => text_eq(t.as_str(), "file"),
        None => false,
    };
    if !is_file {
        return None;
    }
    match (&arg.file_overrides_value_of, &arg.name) {
        (Some(target), Some(name)) => match vars.get(name.as_str()) {
            Some(path) => {
                if path.as_str().is_empty() {
                    None
                } else {
                    Some(FileOverride { target: target.clone(), path: path.clone() })
                }
            },
            None => None,
        },
        _ => None,
    }
}

/// Applies the file overrides of `args`, in order. `files` holds the content
/// of each readable file by its path; a file that is not among them is
/// skipped.
pub fn apply_file_overrides(args: &[ArgSpec], vars: &mut StringMap, files: &StringMap)
    ensures
        final(vars).pairs() == spec_file_overrides_upto(
            args@,
            old(vars).pairs(),
            files.pairs(),
            args@.len() as int,
        ),
{
    let mut i: usize = 0;
    while i < args.len()
        invariant
            i <= args@.len(),
            vars.pairs() == spec_file_overrides_upto(
                args@,
                old(vars).pairs(),
                files.pairs(),
                i as int,
            ),
        decreases args@.len() - i,
    {
        match file_override_of(&args[i], vars) {
            Some(due) => match files.get(due.path.as_str()) {
                Some(content) => {
                    vars.insert(due.target, content.clone());
                },
                None => {},
            },
            None => {},
        }
        i += 1;
    }
}

/// The request as it stands at some point of the assembly.
pub struct Draft {
    pub method: Seq<char>,
    pub endpoint: Seq<char>,
    pub body: Option<Seq<char>>,
    pub headers: Seq<(Seq<char>, Seq<char>)>,
}

/// `base` with the first `n` header templates added, each value substituted.
pub open spec fn spec_headers_upto(
    templates: Seq<(Seq<char>, Seq<char>)>,
    vars: Map<Seq<char>, Seq<char>>,
    base: Seq<(Seq<char>, Seq<char>)>,
    n: int,
) -> Seq<(Seq<char>, Seq<char>)>
    decreases n,
{
    if n <= 0 || n > templates.len() {
        base
    } else {
        pairs_insert(
            spec_headers_upto(templates, vars, base, n - 1),
            templates[n - 1].0,
            spec_substitute(templates[n - 1].1, vars),
        )
    }
}

/// The substitution of an optional template.
pub open spec fn spec_substitute_opt(t: Option<String>, vars: Map<Seq<char>, Seq<char>>) -> Option<
    Seq<char>,
> {
    match t {
        Some(t) => Some(spec_substitute(t@, vars)),
        None => None,
    }
}

/// The request that the command itself describes, before any argument is
/// looked at.
pub open spec fn spec_command_draft(cmd: CommandSpec, vars: Map<Seq<char>, Seq<char>>) -> Draft {
    Draft {
        method: cmd.method->0@,
        endpoint: spec_substitute(cmd.endpoint->0@, vars),
        body: spec_substitute_opt(cmd.body, vars),
        headers: spec_headers_upto(
            cmd.headers.pairs(),
            vars,
            Seq::empty(),
            cmd.headers.pairs().len() as int,
        ),
    }
}

/// Whether the caller supplied `arg`.
pub open spec fn spec_is_selected(arg: ArgSpec, selected: Set<Seq<char>>) -> bool {
    arg.name is Some && selected.contains(arg.name->0@)
}

/// The draft after one argument: where the caller supplied it, its endpoint,
/// method and body replace the draft's, and its headers are added to the
/// draft's.
pub open spec fn spec_apply_arg(
    d: Draft,
    arg: ArgSpec,
    vars: Map<Seq<char>, Seq<char>>,
    selected: Set<Seq<char>>,
) -> Draft {
    if spec_is_selected(arg, selected) {
        Draft {
            method: match arg.method {
                Some(m) => m@,
                None => d.method,
            },
            endpoint: match arg.endpoint {
                Some(e) => spec_substitute(e@, vars),
                None => d.endpoint,
            },
            body: match arg.body {
                Some(b) => Some(spec_substitute(b@, vars)),
                None => d.body,
            },
            headers: match arg.headers {
                Some(h) => spec_headers_upto(h.pairs(), vars, d.headers, h.pairs().len() as int),
                None => d.headers,
            },
        }
    } else {
        d
    }
}

/// The draft after the first `n` arguments, taken in the order in which the
/// command declares them.
pub open spec fn spec_draft_upto(
    cmd: CommandSpec,
    vars: Map<Seq<char>, Seq<char>>,
    selected: Set<Seq<char>>,
    n: int,
) -> Draft
    decreases n,
{
    if n <= 0 || n > cmd.args@.len() {
        spec_command_draft(cmd, vars)
    } else {
        spec_apply_arg(spec_draft_upto(cmd, vars, selected, n - 1), cmd.args@[n - 1], vars, selected)
    }
}

/// The header lines of a request: `Key: Value` for each header, in order.
pub open spec fn spec_header_lines(headers: Seq<(Seq<char>, Seq<char>)>) -> Seq<Seq<char>> {
    Seq::new(headers.len(), |i: int| headers[i].0 + ": "@ + headers[i].1)
}

/// The files to upload after the first `n` arguments: each argument that is
/// marked as an upload and bound to a path gives its name and that path.
pub open spec fn spec_file_fields_upto(
    args: Seq<ArgSpec>,
    vars: Seq<(Seq<char>, Seq<char>)>,
    n: int,
) -> Seq<(Seq<char>, Seq<char>)>
    decreases n,
{
    if n <= 0 || n > args.len() {
        Seq::empty()
    } else {
        let before = spec_file_fields_upto(args, vars, n - 1);
        let arg = args[n - 1];
        if arg.file_upload && arg.name is Some && pairs_get(vars, arg.name->0@) is Some {
            pairs_insert(before, arg.name->0@, pairs_get(vars, arg.name->0@)->0)
        } else {
            before
        }
    }
}

/// The bindings that a command is assembled under: those of the caller, with
/// `uuid` bound to the fresh identifier, after the file overrides.
pub open spec fn spec_bound_vars(
    cmd: CommandSpec,
    vars: Seq<(Seq<char>, Seq<char>)>,
    files: Seq<(Seq<char>, Seq<char>)>,
    uuid: Seq<char>,
) -> Seq<(Seq<char>, Seq<char>)> {
    spec_file_overrides_upto(
        cmd.args@,
        pairs_insert(vars, "uuid"@, uuid),
        files,
        cmd.args@.len() as int,
    )
}

/// The file override of an argument leaves every bound name bound.
proof fn lemma_override_keeps(
    arg: ArgSpec,
    vars: Seq<(Seq<char>, Seq<char>)>,
    files: Seq<(Seq<char>, Seq<char>)>,
    name: Seq<char>,
)
    requires
        pairs_get(vars, name) is Some,
    ensures
        pairs_get(spec_file_override(arg, vars, files), name) is Some,
{
    if spec_is_file_override(arg, vars) {
        let path = pairs_get(vars, arg.name->0@)->0;
        if pairs_get(files, path) is Some {
            lemma_insert_get(vars, arg.file_overrides_value_of->0@, pairs_get(files, path)->0, name);
        }
    }
}

proof fn lemma_overrides_keep(
    args: Seq<ArgSpec>,
    vars: Seq<(Seq<char>, Seq<char>)>,
    files: Seq<(Seq<char>, Seq<char>)>,
    n: int,
    name: Seq<char>,
)
    requires
        pairs_get(vars, name) is Some,
    ensures
        pairs_get(spec_file_overrides_upto(args, vars, files, n), name) is Some,
    decreases n,
{
    if 0 < n <= args.len() {
        lemma_overrides_keep(args, vars, files, n - 1, name);
        lemma_override_keeps(
            args[n - 1],
            spec_file_overrides_upto(args, vars, files, n - 1),
            files,
            name,
        );
    }
}

/// The bindings that a command is assembled under always bind `uuid`, and
/// they bind every name that the caller bound.
pub proof fn lemma_bindings_hold_uuid(
    cmd: CommandSpec,
    vars: Seq<(Seq<char>, Seq<char>)>,
    files: Seq<(Seq<char>, Seq<char>)>,
    uuid: Seq<char>,
    name: Seq<char>,
)
    ensures
        pairs_get(spec_bound_vars(cmd, vars, files, uuid), "uuid"@) is Some,
        pairs_get(vars, name) is Some ==> pairs_get(spec_bound_vars(cmd, vars, files, uuid), name)
            is Some,
{
    let with_uuid = pairs_insert(vars, "uuid"@, uuid);
    lemma_insert_get(vars, "uuid"@, uuid, "uuid"@);
    lemma_insert_get(vars, "uuid"@, uuid, name);
    lemma_overrides_keep(cmd.args@, with_uuid, files, cmd.args@.len() as int, "uuid"@);
    if pairs_get(vars, name) is Some {
        lemma_overrides_keep(cmd.args@, with_uuid, files, cmd.args@.len() as int, name);
    }
}

/// Whether `raw` is the request that the command describes under the bound
/// variables `bound`.
pub open spec fn spec_is_simple_request(
    raw: RawRequestSpec,
    base_url: Option<String>,
    cmd: CommandSpec,
    bound: Seq<(Seq<char>, Seq<char>)>,
    selected: Set<Seq<char>>,
) -> bool {
    let d = spec_draft_upto(cmd, pairs_map(bound), selected, cmd.args@.len() as int);
    &&& opt_view(raw.base_url) == opt_view(base_url)
    &&& raw.method@ == d.method
    &&& raw.endpoint@ == d.endpoint
    &&& opt_view(raw.body) == d.body
    &&& views(raw.headers@) == spec_header_lines(d.headers)
    &&& raw.multipart == cmd.multipart
    &&& raw.file_fields.pairs() == (if cmd.multipart {
        spec_file_fields_upto(cmd.args@, bound, cmd.args@.len() as int)
    } else {
        Seq::empty()
    })
    &&& opt_views(raw.table_view) == opt_views(cmd.table_view)
}

/// Whether `r` is what the command asks to execute, given the fresh
/// identifier `uuid`: its custom handler with the bound variables; else its
/// scenario with them; else the request it describes.
pub open spec fn spec_is_request(
    r: RequestSpec,
    base_url: Option<String>,
    cmd: CommandSpec,
    vars: Seq<(Seq<char>, Seq<char>)>,
    selected: Set<Seq<char>>,
    files: Seq<(Seq<char>, Seq<char>)>,
    uuid: Seq<char>,
) -> bool {
    let bound = spec_bound_vars(cmd, vars, files, uuid);
    if cmd.custom_handler is Some {
        r matches RequestSpec::CustomHandler { handler_name, vars: handler_vars }
            && handler_name@ == cmd.custom_handler->0@ && handler_vars.pairs() == bound
    } else if cmd.scenario is Some {
        r matches RequestSpec::Scenario(s) && opt_view(s.base_url) == opt_view(base_url)
            && s.scenario@ == cmd.scenario->0@ && s.vars.pairs() == bound
    } else {
        r matches RequestSpec::Simple(raw) && spec_is_simple_request(
            raw,
            base_url,
            cmd,
            bound,
            selected,
        )
    }
}

/// Adds the header templates of `templates` to `headers`, each value
/// substituted.
fn add_headers(headers: &mut StringMap, templates: &StringMap, vars: &StringMap)
    ensures
        final(headers).pairs() == spec_headers_upto(
            templates.pairs(),
            vars@,
            old(headers).pairs(),
            templates.pairs().len() as int,
        ),
{
    let mut i: usize = 0;
    while i < templates.len()
        invariant
            i <= templates.pairs().len(),
            headers.pairs() == spec_headers_upto(
                templates.pairs(),
                vars@,
                old(headers).pairs(),
                i as int,
            ),
        decreases templates.pairs().len() - i,
    {
        let value = substitute_template(templates.value_at(i).as_str(), vars);
        headers.insert(templates.key_at(i).clone(), value);
        i += 1;
    }
}

/// The header lines of `headers`.
fn header_lines(headers: &StringMap) -> (lines: Vec<String>)
    ensures
        views(lines@) == spec_header_lines(headers.pairs()),
{
    let mut lines: Vec<String> = Vec::new();
    let mut i: usize = 0;
    while i < headers.len()
        invariant
            i <= headers.pairs().len(),
            lines@.len() == i,
            forall|k: int|
                0 <= k < i ==> lines@[k]@ == headers.pairs()[k].0 + ": "@ + headers.pairs()[k].1,
        decreases headers.pairs().len() - i,
    {
        let mut line = String::new();
        push_text(&mut line, headers.key_at(i).as_str());
        push_text(&mut line, ": ");
        push_text(&mut line, headers.value_at(i).as_str());
        proof {
            assert(line@ =~= headers.pairs()[i as int].0 + ": "@ + headers.pairs()[i as int].1);
        }
        lines.push(line);
        i += 1;
    }
    proof {
        assert(views(lines@) =~= spec_header_lines(headers.pairs()));
    }
    lines
}

/// The files to upload: see `spec_file_fields_upto`.
fn file_fields_of(args: &Vec<ArgSpec>, vars: &StringMap) -> (fields: StringMap)
    ensures
        fields.pairs() == spec_file_fields_upto(args@, vars.pairs(), args@.len() as int),
{
    let mut fields = StringMap::new();
    let mut i: usize = 0;
    while i < args.len()
        invariant
            i <= args@.len(),
            fields.pairs() == spec_file_fields_upto(args@, vars.pairs(), i as int),
        decreases args@.len() - i,
    {
        let arg = &args[i];
        if arg.file_upload {
            match &arg.name {
                Some(name) => match vars.get(name.as_str()) {
                    Some(path) => {
                        fields.insert(name.clone(), path.clone());
                    },
                    None => {},
                },
                None => {},
            }
        }
        i += 1;
    }
    fields
}

/// Builds the request that a command describes, under variables that are
/// already bound: the command's templates are substituted, then the
/// arguments that the caller supplied are applied in the order in which the
/// command declares them.
pub fn build_simple_request(
    base_url: Option<String>,
    cmd: &CommandSpec,
    bound: &StringMap,
    selected_args: &NameSet,
) -> (raw: RawRequestSpec)
    requires
        cmd.method is Some,
        cmd.endpoint is Some,
    ensures
        spec_is_simple_request(raw, base_url, *cmd, bound.pairs(), selected_args@),
{
    let ghost vars = bound@;
    let ghost selected = selected_args@;
    let mut method = match &cmd.method {
        Some(m) => m.clone(),
        None => String::new(),
    };
    let mut endpoint = match &cmd.endpoint {
        Some(e) => substitute_template(e.as_str(), bound),
        None => String::new(),
    };
    let mut body = match &cmd.body {
        Some(b) => Some(substitute_template(b.as_str(), bound)),
        None => None,
    };
    let mut headers = StringMap::new();
    add_headers(&mut headers, &cmd.headers, bound);
    let mut i: usize = 0;
    while i < cmd.args.len()
        invariant
            i <= cmd.args@.len(),
            vars == bound@,
            selected == selected_args@,
            (Draft {
                method: method@,
                endpoint: endpoint@,
                body: opt_view(body),
                headers: headers.pairs(),
            }) == spec_draft_upto(*cmd, vars, selected, i as int),
        decreases cmd.args@.len() - i,
    {
        let arg = &cmd.args[i];
        let is_selected = match &arg.name {
            Some(name) => selected_args.contains(name.as_str()),
            None => false,
        };
        if is_selected {
            match &arg.endpoint {
                Some(e) => {
                    endpoint = substitute_template(e.as_str(), bound);
                },
                None => {},
            }
            match &arg.method {
                Some(m) => {
                    method = m.clone();
                },
                None => {},
            }
            match &arg.headers {
                Some(h) => {
                    add_headers(&mut headers, h, bound);
                },
                None => {},
            }
            match &arg.body {
                Some(b) => {
                    body = Some(substitute_template(b.as_str(), bound));
                },
                None => {},
            }
        }
        i += 1;
    }
    let lines = header_lines(&headers);
    let file_fields = if cmd.multipart {
        file_fields_of(&cmd.args, bound)
    } else {
        StringMap::new()
    };
    let table_view = match &cmd.table_view {
        Some(columns) => Some(clone_strings(columns)),
        None => None,
    };
    RawRequestSpec {
        base_url,
        method,
        endpoint,
        headers: lines,
        body,
        multipart: cmd.multipart,
        file_fields,
        table_view,
    }
}

/// Builds what a command asks to execute, given the identifier to bind
/// `uuid` to. See `build_request_from_command`.
pub fn build_request_with_uuid(
    base_url: Option<String>,
    cmd: &CommandSpec,
    vars: &StringMap,
    selected_args: &NameSet,
    files: &StringMap,
    uuid: String,
) -> (r: RequestSpec)
    requires
        cmd.custom_handler is None && cmd.scenario is None ==> cmd.method is Some && cmd.endpoint
            is Some,
    ensures
        spec_is_request(r, base_url, *cmd, vars.pairs(), selected_args@, files.pairs(), uuid@),
{
    let mut bound = vars.clone();
    bound.insert("uuid".to_owned(), uuid);
    apply_file_overrides(cmd.args.as_slice(), &mut bound, files);
    match &cmd.custom_handler {
        Some(name) => {
            return RequestSpec::CustomHandler { handler_name: name.clone(), vars: bound };
        },
        None => {},
    }
    match &cmd.scenario {
        Some(scenario) => {
            return RequestSpec::Scenario(
                ScenarioSpec { base_url, scenario: scenario.clone(), vars: bound },
            );
        },
        None => {},
    }
    RequestSpec::Simple(build_simple_request(base_url, cmd, &bound, selected_args))
}

/// Builds what a command asks to execute. The bindings are those of `vars`
/// with `uuid` bound to a fresh identifier, after the file overrides of the
/// command's arguments; `files` holds the content of each readable file by
/// its path. A command with a custom handler gives the handler's name and
/// the bindings; one with a scenario gives the scenario and the bindings; any
/// other gives the request that its templates and the supplied arguments
/// describe.
pub fn build_request_from_command(
    base_url: Option<String>,
    cmd: &CommandSpec,
    vars: &StringMap,
    selected_args: &NameSet,
    files: &StringMap,
) -> (r: RequestSpec)
    requires
        cmd.custom_handler is None && cmd.scenario is None ==> cmd.method is Some && cmd.endpoint
            is Some,
    ensures
        exists|uuid: Seq<char>|
            uuid.len() == 36 && #[trigger] spec_is_request(
                r,
                base_url,
                *cmd,
                vars.pairs(),
                selected_args@,
                files.pairs(),
                uuid,
            ),
{
    let uuid = fresh_uuid();
    build_request_with_uuid(base_url, cmd, vars, selected_args, files, uuid)
}

/// The request of a scenario step under the bindings `vars`: the step's
/// templates substituted, no upload and no column hints.
pub open spec fn spec_is_step_request(
    raw: RawRequestSpec,
    base_url: Option<String>,
    step: ScenarioStep,
    vars: Map<Seq<char>, Seq<char>>,
) -> bool {
    &&& opt_view(raw.base_url) == opt_view(base_url)
    &&& raw.method@ == step.method@
    &&& raw.endpoint@ == spec_substitute(step.endpoint@, vars)
    &&& opt_view(raw.body) == spec_substitute_opt(step.body, vars)
    &&& views(raw.headers@) == spec_header_lines(
        spec_headers_upto(
            step.headers.pairs(),
            vars,
            Seq::empty(),
            step.headers.pairs().len() as int,
        ),
    )
    &&& !raw.multipart
    &&& raw.file_fields.pairs().len() == 0
    &&& raw.table_view is None
}

/// Builds the request of a scenario step under the current bindings. This
/// never fails.
pub fn build_raw_spec_from_step(
    base_url: &Option<String>,
    step: &ScenarioStep,
    variables: &StringMap,
) -> (r: Result<RawRequestSpec, ExecError>)
    ensures
        r is Ok,
        spec_is_step_request(r->Ok_0, *base_url, *step, variables@),
{
    let endpoint = substitute_template(step.endpoint.as_str(), variables);
    let body = match &step.body {
        Some(b) => Some(substitute_template(b.as_str(), variables)),
        None => None,
    };
    let mut headers = StringMap::new();
    add_headers(&mut headers, &step.headers, variables);
    let lines = header_lines(&headers);
    Ok(
        RawRequestSpec {
            base_url: clone_opt(base_url),
            method: step.method.clone(),
            endpoint,
            headers: lines,
            body,
            multipart: false,
            file_fields: StringMap::new(),
            table_view: None,
        },
    )
}

} // verus!
