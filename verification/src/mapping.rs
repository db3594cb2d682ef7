//! The command mapping: commands, their arguments and scenarios.

use vstd::prelude::*;
use crate::strmap::StringMap;
use crate::text::{
    chars_of, skip_char, spec_skip_char, spec_trim_end_matches, spec_words, string_of,
    trim_end_len, views, words,
};

verus! {

/// A flat list of commands.
#[derive(Debug, Clone)]
pub struct FlatSpec {
    pub commands: Vec<CommandSpec>,
}

/// One command: the templates of its request, or a scenario, or the name of a
/// custom handler.
#[derive(Debug)]
pub struct CommandSpec {
    /// Name inside a group.
    pub name: Option<String>,
    /// Description for help.
    pub about: Option<String>,
    /// Pattern such as `sysinfo get {id}`.
    pub pattern: String,
    /// HTTP method.
    pub method: Option<String>,
    /// Endpoint template such as `/sysinfo/?id={id}`.
    pub endpoint: Option<String>,
    /// Body template.
    pub body: Option<String>,
    /// Header templates by header name.
    pub headers: StringMap,
    /// Column hints for rendering list responses.
    pub table_view: Option<Vec<String>>,
    /// Multi-step scenario.
    pub scenario: Option<Scenario>,
    /// Whether the request is a multipart upload.
    pub multipart: bool,
    /// Name of a custom handler.
    pub custom_handler: Option<String>,
    /// Argument specifications.
    pub args: Vec<ArgSpec>,
    /// Names of common arguments taken from the enclosing group.
    pub use_common_args: Vec<String>,
}

/// One argument of a command.
#[derive(Debug)]
pub struct ArgSpec {
    /// Name of the variable used in templates.
    pub name: Option<String>,
    /// Name of the common argument this one builds on.
    pub inherit: Option<String>,
    /// Help text.
    pub help: Option<String>,
    /// Whether the argument is positional.
    pub positional: Option<bool>,
    /// Long flag name.
    pub long: Option<String>,
    /// Short flag.
    pub short: Option<String>,
    /// Whether the argument is required.
    pub required: Option<bool>,
    /// Default value.
    pub default: Option<String>,
    /// Argument type, such as `bool` or `file`.
    pub arg_type: Option<String>,
    /// Values of a boolean flag by whether it is set.
    pub value: Option<ConditionalValue>,
    /// Whether the argument names a file to upload.
    pub file_upload: bool,
    /// For a `file` argument, the variable that the file's content replaces.
    pub file_overrides_value_of: Option<String>,
    /// Endpoint that replaces the command's when the argument is supplied.
    pub endpoint: Option<String>,
    /// Method that replaces the command's when the argument is supplied.
    pub method: Option<String>,
    /// Headers added to the command's when the argument is supplied.
    pub headers: Option<StringMap>,
    /// Body that replaces the command's when the argument is supplied.
    pub body: Option<String>,
}

impl ArgSpec {
    /// Every optional field is absent and every flag is off.
    pub open spec fn is_blank(&self) -> bool {
        &&& self.name is None
        &&& self.inherit is None
        &&& self.help is None
        &&& self.positional is None
        &&& self.long is None
        &&& self.short is None
        &&& self.required is None
        &&& self.default is None
        &&& self.arg_type is None
        &&& self.value is None
        &&& !self.file_upload
        &&& self.file_overrides_value_of is None
        &&& self.endpoint is None
        &&& self.method is None
        &&& self.headers is None
        &&& self.body is None
    }

    /// A required positional argument named `name`, with nothing else set.
    pub open spec fn is_positional_named(&self, name: Seq<char>) -> bool {
        &&& self.name is Some && self.name->0@ == name
        &&& self.inherit is None
        &&& self.help is None
        &&& self.positional == Some(true)
        &&& self.long is Some && self.long->0@ == name
        &&& self.short is None
        &&& self.required == Some(true)
        &&& self.default is None
        &&& self.arg_type is None
        &&& self.value is None
        &&& !self.file_upload
        &&& self.file_overrides_value_of is None
        &&& self.endpoint is None
        &&& self.method is None
        &&& self.headers is None
        &&& self.body is None
    }
}

impl Default for ArgSpec {
    fn default() -> (a: Self)
        ensures
            a.is_blank(),
    {
        ArgSpec {
            name: None,
            inherit: None,
            help: None,
            positional: None,
            long: None,
            short: None,
            required: None,
            default: None,
            arg_type: None,
            value: None,
            file_upload: false,
            file_overrides_value_of: None,
            endpoint: None,
            method: None,
            headers: None,
            body: None,
        }
    }
}

/// The value a boolean flag stands for, by whether it is set.
#[derive(Debug)]
pub enum ConditionalValue {
    Mapping { if_set: Option<String>, if_not_set: Option<String> },
    Sequence(Vec<ConditionalValueEntry>),
}

#[derive(Debug)]
pub struct ConditionalValueEntry {
    pub if_set: Option<String>,
    pub if_not_set: Option<String>,
}

/// What a conditional value says: the value when the flag is set, and the
/// value when it is not.
pub struct EntryModel {
    pub if_set: Option<Seq<char>>,
    pub if_not_set: Option<Seq<char>>,
}

pub enum ConditionalModel {
    Mapping(EntryModel),
    Sequence(Seq<EntryModel>),
}

impl View for ConditionalValueEntry {
    type V = EntryModel;

    open spec fn view(&self) -> EntryModel {
        EntryModel { if_set: opt_view(self.if_set), if_not_set: opt_view(self.if_not_set) }
    }
}

impl View for ConditionalValue {
    type V = ConditionalModel;

    open spec fn view(&self) -> ConditionalModel {
        match self {
            ConditionalValue::Mapping { if_set, if_not_set } => ConditionalModel::Mapping(
                EntryModel { if_set: opt_view(*if_set), if_not_set: opt_view(*if_not_set) },
            ),
            ConditionalValue::Sequence(entries) => ConditionalModel::Sequence(
                Seq::new(entries@.len(), |i: int| entries@[i]@),
            ),
        }
    }
}

impl Clone for ConditionalValueEntry {
    fn clone(&self) -> (r: Self)
        ensures
            r@ == self@,
    {
        ConditionalValueEntry {
            if_set: clone_opt(&self.if_set),
            if_not_set: clone_opt(&self.if_not_set),
        }
    }
}

impl Clone for ConditionalValue {
    fn clone(&self) -> (r: Self)
        ensures
            r@ == self@,
    {
        match self {
            ConditionalValue::Mapping { if_set, if_not_set } => ConditionalValue::Mapping {
                if_set: clone_opt(if_set),
                if_not_set: clone_opt(if_not_set),
            },
            ConditionalValue::Sequence(entries) => {
                let mut copy: Vec<ConditionalValueEntry> = Vec::new();
                let mut i: usize = 0;
                while i < entries.len()
                    invariant
                        i <= entries.len(),
                        copy@.len() == i,
                        forall|k: int| 0 <= k < i ==> copy@[k]@ == entries@[k]@,
                    decreases entries.len() - i,
                {
                    copy.push(entries[i].clone());
                    i += 1;
                }
                let r = ConditionalValue::Sequence(copy);
                proof {
                    assert(r@->Sequence_0 =~= self@->Sequence_0);
                }
                r
            },
        }
    }
}

/// What an argument says.
pub struct ArgModel {
    pub name: Option<Seq<char>>,
    pub inherit: Option<Seq<char>>,
    pub help: Option<Seq<char>>,
    pub positional: Option<bool>,
    pub long: Option<Seq<char>>,
    pub short: Option<Seq<char>>,
    pub required: Option<bool>,
    pub default: Option<Seq<char>>,
    pub arg_type: Option<Seq<char>>,
    pub value: Option<ConditionalModel>,
    pub file_upload: bool,
    pub file_overrides_value_of: Option<Seq<char>>,
    pub endpoint: Option<Seq<char>>,
    pub method: Option<Seq<char>>,
    pub headers: Option<Seq<(Seq<char>, Seq<char>)>>,
    pub body: Option<Seq<char>>,
}

impl View for ArgSpec {
    type V = ArgModel;

    open spec fn view(&self) -> ArgModel {
        ArgModel {
            name: opt_view(self.name),
            inherit: opt_view(self.inherit),
            help: opt_view(self.help),
            positional: self.positional,
            long: opt_view(self.long),
            short: opt_view(self.short),
            required: self.required,
            default: opt_view(self.default),
            arg_type: opt_view(self.arg_type),
            value: match self.value {
                Some(v) => Some(v@),
                None => None,
            },
            file_upload: self.file_upload,
            file_overrides_value_of: opt_view(self.file_overrides_value_of),
            endpoint: opt_view(self.endpoint),
            method: opt_view(self.method),
            headers: match self.headers {
                Some(h) => Some(h.pairs()),
                None => None,
            },
            body: opt_view(self.body),
        }
    }
}

/// What the arguments `v` say.
pub open spec fn arg_models(v: Seq<ArgSpec>) -> Seq<ArgModel> {
    Seq::new(v.len(), |i: int| v[i]@)
}

impl Clone for ArgSpec {
    fn clone(&self) -> (r: Self)
        ensures
            r@ == self@,
    {
        ArgSpec {
            name: clone_opt(&self.name),
            inherit: clone_opt(&self.inherit),
            help: clone_opt(&self.help),
            positional: self.positional,
            long: clone_opt(&self.long),
            short: clone_opt(&self.short),
            required: self.required,
            default: clone_opt(&self.default),
            arg_type: clone_opt(&self.arg_type),
            value: match &self.value {
                Some(v) => Some(v.clone()),
                None => None,
            },
            file_upload: self.file_upload,
            file_overrides_value_of: clone_opt(&self.file_overrides_value_of),
            endpoint: clone_opt(&self.endpoint),
            method: clone_opt(&self.method),
            headers: match &self.headers {
                Some(h) => Some(h.clone()),
                None => None,
            },
            body: clone_opt(&self.body),
        }
    }
}

/// A copy of a list of arguments.
pub fn clone_args(args: &Vec<ArgSpec>) -> (r: Vec<ArgSpec>)
    ensures
        arg_models(r@) == arg_models(args@),
{
    let mut r: Vec<ArgSpec> = Vec::new();
    let mut i: usize = 0;
    while i < args.len()
        invariant
            i <= args.len(),
            r@.len() == i,
            forall|k: int| 0 <= k < i ==> r@[k]@ == args@[k]@,
        decreases args.len() - i,
    {
        r.push(args[i].clone());
        i += 1;
    }
    proof {
        assert(arg_models(r@) =~= arg_models(args@));
    }
    r
}

/// A copy of a list of strings.
pub fn clone_strings(v: &Vec<String>) -> (r: Vec<String>)
    ensures
        views(r@) == views(v@),
{
    let mut r: Vec<String> = Vec::new();
    let mut i: usize = 0;
    while i < v.len()
        invariant
            i <= v.len(),
            r@.len() == i,
            forall|k: int| 0 <= k < i ==> r@[k]@ == v@[k]@,
        decreases v.len() - i,
    {
        r.push(v[i].clone());
        i += 1;
    }
    proof {
        assert(views(r@) =~= views(v@));
    }
    r
}

/// The texts of an optional list of strings.
pub open spec fn opt_views(o: Option<Vec<String>>) -> Option<Seq<Seq<char>>> {
    match o {
        Some(v) => Some(views(v@)),
        None => None,
    }
}

/// What a command says.
pub struct CommandModel {
    pub name: Option<Seq<char>>,
    pub about: Option<Seq<char>>,
    pub pattern: Seq<char>,
    pub method: Option<Seq<char>>,
    pub endpoint: Option<Seq<char>>,
    pub body: Option<Seq<char>>,
    pub headers: Seq<(Seq<char>, Seq<char>)>,
    pub table_view: Option<Seq<Seq<char>>>,
    pub scenario: Option<ScenarioModel>,
    pub multipart: bool,
    pub custom_handler: Option<Seq<char>>,
    pub args: Seq<ArgModel>,
    pub use_common_args: Seq<Seq<char>>,
}

impl View for CommandSpec {
    type V = CommandModel;

    open spec fn view(&self) -> CommandModel {
        CommandModel {
            name: opt_view(self.name),
            about: opt_view(self.about),
            pattern: self.pattern@,
            method: opt_view(self.method),
            endpoint: opt_view(self.endpoint),
            body: opt_view(self.body),
            headers: self.headers.pairs(),
            table_view: opt_views(self.table_view),
            scenario: match self.scenario {
                Some(s) => Some(s@),
                None => None,
            },
            multipart: self.multipart,
            custom_handler: opt_view(self.custom_handler),
            args: arg_models(self.args@),
            use_common_args: views(self.use_common_args@),
        }
    }
}

impl Clone for CommandSpec {
    fn clone(&self) -> (r: Self)
        ensures
            r@ == self@,
    {
        CommandSpec {
            name: clone_opt(&self.name),
            about: clone_opt(&self.about),
            pattern: self.pattern.clone(),
            method: clone_opt(&self.method),
            endpoint: clone_opt(&self.endpoint),
            body: clone_opt(&self.body),
            headers: self.headers.clone(),
            table_view: match &self.table_view {
                Some(v) => Some(clone_strings(v)),
                None => None,
            },
            scenario: match &self.scenario {
                Some(s) => Some(s.clone()),
                None => None,
            },
            multipart: self.multipart,
            custom_handler: clone_opt(&self.custom_handler),
            args: clone_args(&self.args),
            use_common_args: clone_strings(&self.use_common_args),
        }
    }
}

/// The texts of an optional string.
pub open spec fn opt_view(o: Option<String>) -> Option<Seq<char>> {
    match o {
        Some(s) => Some(s@),
        None => None,
    }
}

/// A copy of an optional string.
pub fn clone_opt(o: &Option<String>) -> (r: Option<String>)
    ensures
        opt_view(r) == opt_view(*o),
{
    match o {
        Some(s) => Some(s.clone()),
        None => None,
    }
}

/// A multi-step operation.
#[derive(Debug)]
pub struct Scenario {
    pub scenario_type: String,
    pub steps: Vec<ScenarioStep>,
}

/// One step of a scenario: a request template, what to extract from its
/// response, and how to poll.
#[derive(Debug)]
pub struct ScenarioStep {
    pub name: String,
    pub method: String,
    pub endpoint: String,
    pub body: Option<String>,
    pub headers: StringMap,
    pub extract_response: StringMap,
    pub polling: Option<PollingConfig>,
}

/// How often to poll, for how long, and what ends the polling.
#[derive(Debug)]
pub struct PollingConfig {
    pub interval_seconds: u64,
    pub timeout_seconds: u64,
    pub completion_conditions: Vec<CompletionCondition>,
}

/// A rule that maps a status of the response to a final action.
#[derive(Debug)]
pub struct CompletionCondition {
    pub status: String,
    pub action: String,
    pub error_field: Option<String>,
    pub error_message: Option<String>,
}

/// What a completion condition says.
pub struct ConditionModel {
    pub status: Seq<char>,
    pub action: Seq<char>,
    pub error_field: Option<Seq<char>>,
    pub error_message: Option<Seq<char>>,
}

/// What a polling policy says.
pub struct PollingModel {
    pub interval_seconds: u64,
    pub timeout_seconds: u64,
    pub completion_conditions: Seq<ConditionModel>,
}

/// What a scenario step says.
pub struct StepModel {
    pub name: Seq<char>,
    pub method: Seq<char>,
    pub endpoint: Seq<char>,
    pub body: Option<Seq<char>>,
    pub headers: Seq<(Seq<char>, Seq<char>)>,
    pub extract_response: Seq<(Seq<char>, Seq<char>)>,
    pub polling: Option<PollingModel>,
}

/// What a scenario says.
pub struct ScenarioModel {
    pub scenario_type: Seq<char>,
    pub steps: Seq<StepModel>,
}

impl View for CompletionCondition {
    type V = ConditionModel;

    open spec fn view(&self) -> ConditionModel {
        ConditionModel {
            status: self.status@,
            action: self.action@,
            error_field: opt_view(self.error_field),
            error_message: opt_view(self.error_message),
        }
    }
}

impl View for PollingConfig {
    type V = PollingModel;

    open spec fn view(&self) -> PollingModel {
        PollingModel {
            interval_seconds: self.interval_seconds,
            timeout_seconds: self.timeout_seconds,
            completion_conditions: Seq::new(
                self.completion_conditions@.len(),
                |i: int| self.completion_conditions@[i]@,
            ),
        }
    }
}

impl View for ScenarioStep {
    type V = StepModel;

    open spec fn view(&self) -> StepModel {
        StepModel {
            name: self.name@,
            method: self.method@,
            endpoint: self.endpoint@,
            body: opt_view(self.body),
            headers: self.headers.pairs(),
            extract_response: self.extract_response.pairs(),
            polling: match self.polling {
                Some(p) => Some(p@),
                None => None,
            },
        }
    }
}

impl View for Scenario {
    type V = ScenarioModel;

    open spec fn view(&self) -> ScenarioModel {
        ScenarioModel {
            scenario_type: self.scenario_type@,
            steps: Seq::new(self.steps@.len(), |i: int| self.steps@[i]@),
        }
    }
}

impl Clone for CompletionCondition {
    fn clone(&self) -> (r: Self)
        ensures
            r@ == self@,
    {
        CompletionCondition {
            status: self.status.clone(),
            action: self.action.clone(),
            error_field: clone_opt(&self.error_field),
            error_message: clone_opt(&self.error_message),
        }
    }
}

impl Clone for PollingConfig {
    fn clone(&self) -> (r: Self)
        ensures
            r@ == self@,
    {
        let mut conditions: Vec<CompletionCondition> = Vec::new();
        let mut i: usize = 0;
        while i < self.completion_conditions.len()
            invariant
                i <= self.completion_conditions.len(),
                conditions@.len() == i,
                forall|k: int| 0 <= k < i ==> conditions@[k]@ == self.completion_conditions@[k]@,
            decreases self.completion_conditions.len() - i,
        {
            conditions.push(self.completion_conditions[i].clone());
            i += 1;
        }
        let r = PollingConfig {
            interval_seconds: self.interval_seconds,
            timeout_seconds: self.timeout_seconds,
            completion_conditions: conditions,
        };
        proof {
            assert(r@.completion_conditions =~= self@.completion_conditions);
        }
        r
    }
}

impl Clone for ScenarioStep {
    fn clone(&self) -> (r: Self)
        ensures
            r@ == self@,
    {
        ScenarioStep {
            name: self.name.clone(),
            method: self.method.clone(),
            endpoint: self.endpoint.clone(),
            body: clone_opt(&self.body),
            headers: self.headers.clone(),
            extract_response: self.extract_response.clone(),
            polling: match &self.polling {
                Some(p) => Some(p.clone()),
                None => None,
            },
        }
    }
}

impl Clone for Scenario {
    fn clone(&self) -> (r: Self)
        ensures
            r@ == self@,
    {
        let mut steps: Vec<ScenarioStep> = Vec::new();
        let mut i: usize = 0;
        while i < self.steps.len()
            invariant
                i <= self.steps.len(),
                steps@.len() == i,
                forall|k: int| 0 <= k < i ==> steps@[k]@ == self.steps@[k]@,
            decreases self.steps.len() - i,
        {
            steps.push(self.steps[i].clone());
            i += 1;
        }
        let r = Scenario { scenario_type: self.scenario_type.clone(), steps };
        proof {
            assert(r@.steps =~= self@.steps);
        }
        r
    }
}

/// A hierarchical mapping: groups of commands and the arguments they share.
#[derive(Debug, Clone)]
pub struct HierSpec {
    pub common_args: Vec<(String, ArgSpec)>,
    pub commands: Vec<CommandGroup>,
}

/// A named group of commands and subgroups.
#[derive(Debug)]
pub struct CommandGroup {
    pub name: String,
    pub about: Option<String>,
    pub common_args: Vec<(String, ArgSpec)>,
    pub subcommands: Vec<CommandNode>,
}

#[derive(Debug)]
pub enum CommandNode {
    Command(CommandSpec),
    Group(CommandGroup),
}

/// What a list of shared arguments says: each key with its argument.
pub open spec fn common_models(v: Seq<(String, ArgSpec)>) -> Seq<(Seq<char>, ArgModel)> {
    Seq::new(v.len(), |i: int| (v[i].0@, v[i].1@))
}

/// What a group of commands says.
pub struct GroupModel {
    pub name: Seq<char>,
    pub about: Option<Seq<char>>,
    pub common_args: Seq<(Seq<char>, ArgModel)>,
    pub subcommands: Seq<CommandNodeModel>,
}

/// What a node of a group says.
pub enum CommandNodeModel {
    Command(CommandModel),
    Group(GroupModel),
}

/// The group without a name and without commands.
pub open spec fn spec_empty_group() -> GroupModel {
    GroupModel {
        name: Seq::empty(),
        about: None,
        common_args: Seq::empty(),
        subcommands: Seq::empty(),
    }
}

impl CommandGroup {
    /// What the group and the groups under it say.
    pub open spec fn model(self) -> GroupModel
        decreases self,
    {
        GroupModel {
            name: self.name@,
            about: opt_view(self.about),
            common_args: common_models(self.common_args@),
            subcommands: Seq::new(
                self.subcommands@.len(),
                |i: int|
                    if 0 <= i < self.subcommands@.len() {
                        self.subcommands@[i].model()
                    } else {
                        CommandNodeModel::Group(spec_empty_group())
                    },
            ),
        }
    }
}

impl CommandNode {
    /// What the node says.
    pub open spec fn model(self) -> CommandNodeModel
        decreases self,
    {
        match self {
            CommandNode::Command(c) => CommandNodeModel::Command(c@),
            CommandNode::Group(g) => CommandNodeModel::Group(g.model()),
        }
    }
}

/// A copy of a list of shared arguments.
fn clone_common(common: &Vec<(String, ArgSpec)>) -> (r: Vec<(String, ArgSpec)>)
    ensures
        common_models(r@) == common_models(common@),
{
    let mut r: Vec<(String, ArgSpec)> = Vec::new();
    let mut i: usize = 0;
    while i < common.len()
        invariant
            i <= common.len(),
            r@.len() == i,
            forall|k: int|
                0 <= k < i ==> r@[k].0@ == common@[k].0@ && r@[k].1@ == common@[k].1@,
        decreases common.len() - i,
    {
        r.push((common[i].0.clone(), common[i].1.clone()));
        i += 1;
    }
    proof {
        assert(common_models(r@) =~= common_models(common@));
    }
    r
}

/// A copy of a group, with copies of all that stands under it.
fn copy_group(group: &CommandGroup) -> (r: CommandGroup)
    ensures
        r.model() == group.model(),
    decreases group,
{
    let mut subcommands: Vec<CommandNode> = Vec::new();
    let mut i: usize = 0;
    while i < group.subcommands.len()
        invariant
            i <= group.subcommands.len(),
            subcommands@.len() == i,
            forall|k: int|
                0 <= k < i ==> (#[trigger] subcommands@[k]).model()
                    == group.subcommands@[k].model(),
        decreases group.subcommands.len() - i,
    {
        subcommands.push(copy_node(&group.subcommands[i]));
        i += 1;
    }
    let r = CommandGroup {
        name: group.name.clone(),
        about: clone_opt(&group.about),
        common_args: clone_common(&group.common_args),
        subcommands,
    };
    proof {
        assert(r.model().subcommands =~= group.model().subcommands);
    }
    r
}

/// A copy of a node: of the command, or of the group with all under it.
fn copy_node(node: &CommandNode) -> (r: CommandNode)
    ensures
        r.model() == node.model(),
    decreases node,
{
    match node {
        CommandNode::Command(c) => CommandNode::Command(c.clone()),
        CommandNode::Group(g) => CommandNode::Group(copy_group(g)),
    }
}

impl Clone for CommandGroup {
    fn clone(&self) -> (r: Self)
        ensures
            r.model() == self.model(),
    {
        copy_group(self)
    }
}

impl Clone for CommandNode {
    fn clone(&self) -> (r: Self)
        ensures
            r.model() == self.model(),
    {
        copy_node(self)
    }
}

#[derive(Debug, Clone)]
pub enum MappingRoot {
    Hier(HierSpec),
    Flat(FlatSpec),
}

/// Whether a token of a pattern is a placeholder: it begins with `{`, ends
/// with `}` and holds at least one character between them.
pub open spec fn spec_is_placeholder(token: Seq<char>) -> bool {
    token.len() >= 3 && token[0] == '{' && token.last() == '}'
}

/// Whether a token of a pattern is a placeholder.
pub fn is_placeholder(token: &str) -> (b: bool)
    ensures
        b == spec_is_placeholder(token@),
{
    let v = chars_of(token);
    v.len() >= 3 && v[0] == '{' && v[v.len() - 1] == '}'
}

/// A placeholder without its leading `{`s and its trailing `}`s.
pub open spec fn spec_strip_braces(token: Seq<char>) -> Seq<char> {
    let rest = token.skip(spec_skip_char(token, '{', 0));
    spec_trim_end_matches(rest, '}')
}

fn strip_braces(token: &Vec<char>) -> (s: String)
    ensures
        s@ == spec_strip_braces(token@),
{
    let start = skip_char(token, '{', 0);
    let mut rest: Vec<char> = Vec::new();
    let mut i: usize = start;
    while i < token.len()
        invariant
            start <= i <= token.len(),
            rest@ == token@.subrange(start as int, i as int),
        decreases token.len() - i,
    {
        rest.push(token[i]);
        i += 1;
        proof {
            assert(token@.subrange(start as int, i as int) == token@.subrange(
                start as int,
                i - 1,
            ).push(token@[i - 1]));
        }
    }
    proof {
        assert(rest@ == token@.skip(start as int));
        assert(rest@.take(rest.len() as int) == rest@);
    }
    let end = trim_end_len(&rest, rest.len(), '}');
    let s = string_of(&rest, 0, end);
    proof {
        assert(rest@.subrange(0, end as int) == rest@.take(end as int));
    }
    s
}

/// The names of the placeholders among `words`, in order.
pub open spec fn spec_placeholder_names(words: Seq<Seq<char>>) -> Seq<Seq<char>>
    decreases words.len(),
{
    if words.len() == 0 {
        Seq::empty()
    } else {
        let head = spec_placeholder_names(words.drop_last());
        if spec_is_placeholder(words.last()) {
            head.push(spec_strip_braces(words.last()))
        } else {
            head
        }
    }
}

/// A required positional argument named `name`, with nothing else set.
pub open spec fn spec_positional_arg(name: Seq<char>) -> ArgModel {
    ArgModel {
        name: Some(name),
        inherit: None,
        help: None,
        positional: Some(true),
        long: Some(name),
        short: None,
        required: Some(true),
        default: None,
        arg_type: None,
        value: None,
        file_upload: false,
        file_overrides_value_of: None,
        endpoint: None,
        method: None,
        headers: None,
        body: None,
    }
}

/// The arguments that a pattern implies.
pub open spec fn spec_derived_args(pattern: Seq<char>) -> Seq<ArgModel> {
    let names = spec_placeholder_names(spec_words(pattern));
    Seq::new(names.len(), |i: int| spec_positional_arg(names[i]))
}

/// The arguments that a pattern implies: one required positional argument
/// for each placeholder among its words, in order, named by the placeholder.
pub fn derive_args_from_pattern(pattern: &str) -> (args: Vec<ArgSpec>)
    ensures
        arg_models(args@) == spec_derived_args(pattern@),
        args@.len() == spec_placeholder_names(spec_words(pattern@)).len(),
        forall|i: int|
            0 <= i < args@.len() ==> (#[trigger] args@[i]).is_positional_named(
                spec_placeholder_names(spec_words(pattern@))[i],
            ),
{
    let v = chars_of(pattern);
    let toks = words(&v);
    let mut args: Vec<ArgSpec> = Vec::new();
    let mut i: usize = 0;
    while i < toks.len()
        invariant
            i <= toks.len(),
            views(toks@) == spec_words(pattern@),
            args@.len() == spec_placeholder_names(views(toks@).take(i as int)).len(),
            forall|k: int|
                0 <= k < args@.len() ==> (#[trigger] args@[k]).is_positional_named(
                    spec_placeholder_names(views(toks@).take(i as int))[k],
                ),
        decreases toks.len() - i,
    {
        let t = chars_of(toks[i].as_str());
        let ghost prev = views(toks@).take(i as int);
        proof {
            let next = views(toks@).take(i + 1);
            assert(next.drop_last() == prev);
            assert(next.last() == toks@[i as int]@);
        }
        if t.len() >= 3 && t[0] == '{' && t[t.len() - 1] == '}' {
            let name = strip_braces(&t);
            args.push(
                ArgSpec {
                    name: Some(name.clone()),
                    inherit: None,
                    help: None,
                    positional: Some(true),
                    long: Some(name),
                    short: None,
                    required: Some(true),
                    default: None,
                    arg_type: None,
                    value: None,
                    file_upload: false,
                    file_overrides_value_of: None,
                    endpoint: None,
                    method: None,
                    headers: None,
                    body: None,
                },
            );
        }
        i += 1;
    }
    proof {
        assert(views(toks@).take(toks.len() as int) == views(toks@));
        let names = spec_placeholder_names(spec_words(pattern@));
        assert forall|k: int| 0 <= k < args@.len() implies args@[k]@ == spec_positional_arg(
            names[k],
        ) by {
            assert(args@[k].is_positional_named(names[k]));
        }
        assert(arg_models(args@) =~= spec_derived_args(pattern@));
    }
    args
}

} // verus!
