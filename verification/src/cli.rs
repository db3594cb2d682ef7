//! Helpers around the command line: scanning of raw arguments, the registry
//! of custom handlers and its check against a mapping.

use vstd::prelude::*;
pub use crate::tree::TreeNode;
use crate::error::{Error, ExecError};
use crate::mapping::{
    arg_models, clone_args, derive_args_from_pattern, spec_derived_args, ArgModel, ArgSpec,
    CommandGroup, CommandModel, CommandNode, CommandSpec, ConditionalModel, ConditionalValue,
    EntryModel, MappingRoot,
};
use crate::strmap::{pairs_get, pairs_insert, NameSet, StringMap};
use crate::text::{
    chars_of, has_at, join, push_text, spec_has_at, spec_join, string_of, text_eq, views,
};

verus! {

/// What `pre_scan_value` finds from the argument `from` on.
pub open spec fn spec_pre_scan_from(args: Seq<Seq<char>>, key: Seq<char>, from: int) -> Option<
    Seq<char>,
>
    decreases args.len() - from,
{
    if from < 0 || from >= args.len() {
        None
    } else if args[from] == key && from + 1 < args.len() {
        Some(args[from + 1])
    } else if spec_has_at(args[from], 0, key + seq!['=']) {
        Some(args[from].skip((key.len() + 1) as int))
    } else {
        spec_pre_scan_from(args, key, from + 1)
    }
}

/// Looks for the value of the option `key` among raw arguments, before they
/// are parsed: the first argument that is `key` and has a successor gives
/// that successor; the first that begins with `key=` gives what follows the
/// `=`. Whichever comes first wins.
pub fn pre_scan_value(args: &[String], key: &str) -> (r: Option<String>)
    ensures
        (match r {
            Some(v) => Some(v@),
            None => None,
        }) == spec_pre_scan_from(views(args@), key@, 0),
{
    let mut prefix: Vec<char> = chars_of(key);
    prefix.push('=');
    let mut i: usize = 0;
    while i < args.len()
        invariant
            i <= args@.len(),
            prefix@ == key@ + seq!['='],
            spec_pre_scan_from(views(args@), key@, 0) == spec_pre_scan_from(
                views(args@),
                key@,
                i as int,
            ),
        decreases args@.len() - i,
    {
        proof {
            assert(views(args@)[i as int] == args@[i as int]@);
        }
        if text_eq(args[i].as_str(), key) && i + 1 < args.len() {
            proof {
                assert(views(args@)[i + 1] == args@[i + 1]@);
            }
            return Some(args[i + 1].clone());
        }
        let a = chars_of(args[i].as_str());
        if has_at(&a, 0, &prefix) {
            let rest = string_of(&a, prefix.len(), a.len());
            proof {
                assert(a@.subrange(prefix.len() as int, a.len() as int) == a@.skip(
                    (key@.len() + 1) as int,
                ));
            }
            return Some(rest);
        }
        i += 1;
    }
    None
}

/// Gives a string the lifetime of the program with `Box::leak`; the text
/// stays what it was.
#[verifier::external_body]
fn leak_string(s: String) -> (r: &'static str)
    ensures
        r@ == s@,
{
    Box::leak(s.into_boxed_str())
}

/// A text with the lifetime of the program: that of the string that `s`
/// converts into. The memory is never given back.
pub fn leak_str<S: Into<String>>(s: S) -> (r: &'static str)
    ensures
        exists|converted: String| #[trigger]
            call_ensures(S::into, (s,), converted) && r@ == converted@,
{
    let converted: String = s.into();
    leak_string(converted)
}

/// The handlers that an application registers, by name.
pub struct HandlerRegistry<H> {
    handlers: Vec<(String, H)>,
}

impl<H> HandlerRegistry<H> {
    /// The names, in the order in which they were first registered.
    pub closed spec fn names(&self) -> Seq<Seq<char>> {
        Seq::new(self.handlers@.len(), |i: int| self.handlers@[i].0@)
    }

    /// The handler registered at position `i`.
    pub closed spec fn handler_at(&self, i: int) -> H {
        self.handlers@[i].1
    }

    /// Whether a handler is registered under `name`.
    pub open spec fn spec_contains(&self, name: Seq<char>) -> bool {
        self.names().contains(name)
    }

    #[verifier::type_invariant]
    spec fn distinct_names(&self) -> bool {
        forall|i: int, j: int|
            0 <= i < j < self.names().len() ==> self.names()[i] != self.names()[j]
    }

    /// A registry without handlers.
    pub fn new() -> (r: Self)
        ensures
            r.names() == Seq::<Seq<char>>::empty(),
    {
        let r = HandlerRegistry { handlers: Vec::new() };
        proof {
            assert(r.names() =~= Seq::empty());
        }
        r
    }

    /// The position of `name`, or the number of handlers where it is not
    /// registered.
    fn position(&self, name: &str) -> (i: usize)
        ensures
            i <= self.names().len(),
            i < self.names().len() ==> self.names()[i as int] == name@,
            forall|k: int| 0 <= k < i ==> self.names()[k] != name@,
    {
        let mut i: usize = 0;
        while i < self.handlers.len()
            invariant
                i <= self.handlers@.len(),
                forall|k: int| 0 <= k < i ==> self.names()[k] != name@,
            decreases self.handlers@.len() - i,
        {
            if text_eq(self.handlers[i].0.as_str(), name) {
                return i;
            }
            i += 1;
        }
        i
    }

    /// Registers `f` under `name`, in place of what was registered there.
    pub fn register(&mut self, name: &str, f: H)
        ensures
            final(self).spec_contains(name@),
            old(self).spec_contains(name@) ==> final(self).names() == old(self).names(),
            !old(self).spec_contains(name@) ==> final(self).names() == old(self).names().push(
                name@,
            ),
            forall|i: int|
                0 <= i < final(self).names().len() ==> #[trigger] final(self).handler_at(i) == (
                if final(self).names()[i] == name@ {
                    f
                } else {
                    old(self).handler_at(i)
                }),
    {
        proof {
            use_type_invariant(&*self);
        }
        let i = self.position(name);
        let ghost before = self.names();
        let mut taken = HandlerRegistry { handlers: Vec::new() };
        proof {
            assert(taken.names() =~= Seq::empty());
        }
        std::mem::swap(self, &mut taken);
        let mut handlers = taken.handlers;
        let ghost old_handlers = handlers@;
        if i < handlers.len() {
            handlers.set(i, (name.to_owned(), f));
        } else {
            handlers.push((name.to_owned(), f));
        }
        let ghost after = Seq::new(handlers@.len(), |k: int| handlers@[k].0@);
        proof {
            if i < old_handlers.len() {
                assert(after =~= before);
            } else {
                assert(after =~= before.push(name@));
                assert(!before.contains(name@)) by {
                    if before.contains(name@) {
                        let k = choose|k: int| 0 <= k < before.len() && before[k] == name@;
                        assert(before[k] != name@);
                    }
                }
            }
            assert(after[i as int] == name@);
            assert forall|a: int, b: int| 0 <= a < b < after.len() implies after[a] != after[b] by {
                if a < before.len() && a != i {
                    assert(after[a] == before[a]);
                }
                if b < before.len() && b != i {
                    assert(after[b] == before[b]);
                }
            }
        }
        *self = HandlerRegistry { handlers };
        proof {
            assert(self.names() =~= after);
            assert(self.names().contains(name@));
        }
    }

    /// The handler registered under `name`.
    pub fn get(&self, name: &str) -> (r: Option<&H>)
        ensures
            r is Some <==> self.spec_contains(name@),
            r is Some ==> exists|i: int|
                0 <= i < self.names().len() && self.names()[i] == name@ && *r->0
                    == #[trigger] self.handler_at(i),
    {
        let i = self.position(name);
        if i < self.handlers.len() {
            let r = &self.handlers[i].1;
            proof {
                assert(self.names()[i as int] == name@);
                assert(*r == self.handler_at(i as int));
            }
            Some(r)
        } else {
            proof {
                if self.names().contains(name@) {
                    let k = choose|k: int| 0 <= k < self.names().len() && self.names()[k] == name@;
                    assert(self.names()[k] != name@);
                }
            }
            None
        }
    }

    /// Whether a handler is registered under `name`.
    pub fn contains(&self, name: &str) -> (b: bool)
        ensures
            b == self.spec_contains(name@),
    {
        self.get(name).is_some()
    }
}

/// Looks up the handler that a command names. That none is registered under
/// the name is a failure of the configuration.
pub fn lookup_handler<'a, H>(registry: &'a HandlerRegistry<H>, name: &str) -> (r: Result<
    &'a H,
    ExecError,
>)
    ensures
        r is Ok <==> registry.spec_contains(name@),
        r is Ok ==> exists|i: int|
            0 <= i < registry.names().len() && registry.names()[i] == name@ && *r->Ok_0
                == #[trigger] registry.handler_at(i),
        r is Err ==> r->Err_0 is HandlerNotRegistered && r->Err_0->HandlerNotRegistered_0@
            == name@,
{
    match registry.get(name) {
        Some(h) => Ok(h),
        None => Err(ExecError::HandlerNotRegistered(name.to_owned())),
    }
}

/// The handler that a command names and `registered` lacks, if any.
pub open spec fn spec_missing_of(cmd: CommandSpec, registered: Set<Seq<char>>) -> Seq<Seq<char>> {
    if cmd.custom_handler is Some && !registered.contains(cmd.custom_handler->0@) {
        seq![cmd.custom_handler->0@]
    } else {
        Seq::empty()
    }
}

/// The handlers that the first `n` commands of a flat mapping name and
/// `registered` lacks, in order.
pub open spec fn spec_missing_flat(
    commands: Seq<CommandSpec>,
    registered: Set<Seq<char>>,
    n: int,
) -> Seq<Seq<char>>
    decreases n,
{
    if n <= 0 || n > commands.len() {
        Seq::empty()
    } else {
        spec_missing_flat(commands, registered, n - 1) + spec_missing_of(
            commands[n - 1],
            registered,
        )
    }
}

/// The handlers that the first `n` nodes of a group name and `registered`
/// lacks, subgroups being walked where they stand.
pub open spec fn spec_missing_group(group: CommandGroup, registered: Set<Seq<char>>, n: int) -> Seq<
    Seq<char>,
>
    decreases group, n,
{
    if n <= 0 || n > group.subcommands@.len() {
        Seq::empty()
    } else {
        spec_missing_group(group, registered, n - 1) + (match group.subcommands@[n - 1] {
            CommandNode::Group(g) => spec_missing_group(g, registered, g.subcommands@.len() as int),
            CommandNode::Command(c) => spec_missing_of(c, registered),
        })
    }
}

/// The handlers that the first `n` groups name and `registered` lacks.
pub open spec fn spec_missing_groups(
    groups: Seq<CommandGroup>,
    registered: Set<Seq<char>>,
    n: int,
) -> Seq<Seq<char>>
    decreases n,
{
    if n <= 0 || n > groups.len() {
        Seq::empty()
    } else {
        spec_missing_groups(groups, registered, n - 1) + spec_missing_group(
            groups[n - 1],
            registered,
            groups[n - 1].subcommands@.len() as int,
        )
    }
}

/// The handlers that a mapping names and `registered` lacks, in the order
/// of the mapping; a handler that several commands name is listed for each.
pub open spec fn spec_missing(root: MappingRoot, registered: Set<Seq<char>>) -> Seq<Seq<char>> {
    match root {
        MappingRoot::Flat(flat) => spec_missing_flat(
            flat.commands@,
            registered,
            flat.commands@.len() as int,
        ),
        MappingRoot::Hier(hier) => spec_missing_groups(
            hier.commands@,
            registered,
            hier.commands@.len() as int,
        ),
    }
}

/// The names under which `registry` holds a handler.
pub open spec fn spec_registered<H>(registry: HandlerRegistry<H>) -> Set<Seq<char>> {
    Set::new(|name: Seq<char>| registry.spec_contains(name))
}

fn note_missing<H>(cmd: &CommandSpec, registry: &HandlerRegistry<H>, missing: &mut Vec<String>)
    ensures
        views(final(missing)@) == views(old(missing)@) + spec_missing_of(
            *cmd,
            spec_registered(*registry),
        ),
{
    let ghost before = views(missing@);
    match &cmd.custom_handler {
        Some(h) => {
            if !registry.contains(h.as_str()) {
                missing.push(h.clone());
                proof {
                    assert(views(missing@) =~= before + seq![h@]);
                }
                return;
            }
        },
        None => {},
    }
    proof {
        assert(views(missing@) =~= before + Seq::<Seq<char>>::empty());
    }
}

fn walk_group<H>(group: &CommandGroup, registry: &HandlerRegistry<H>, missing: &mut Vec<String>)
    ensures
        views(final(missing)@) == views(old(missing)@) + spec_missing_group(
            *group,
            spec_registered(*registry),
            group.subcommands@.len() as int,
        ),
    decreases group,
{
    let ghost start = views(missing@);
    let ghost registered = spec_registered(*registry);
    let mut i: usize = 0;
    proof {
        assert(start + spec_missing_group(*group, registered, 0) =~= start);
    }
    while i < group.subcommands.len()
        invariant
            i <= group.subcommands@.len(),
            registered == spec_registered(*registry),
            views(missing@) == start + spec_missing_group(*group, registered, i as int),
        decreases group.subcommands@.len() - i,
    {
        let ghost before = views(missing@);
        match &group.subcommands[i] {
            CommandNode::Group(g) => {
                walk_group(g, registry, missing);
            },
            CommandNode::Command(c) => {
                note_missing(c, registry, missing);
            },
        }
        i += 1;
        proof {
            assert(views(missing@) =~= start + spec_missing_group(*group, registered, i as int));
        }
    }
}

/// Checks that every custom handler that the mapping names is registered.
/// Where some are not, the failure lists them, in the order of the mapping.
pub fn validate_handlers<H>(root: &MappingRoot, registry: &HandlerRegistry<H>) -> (r: Result<
    (),
    Error,
>)
    ensures
        spec_missing(*root, spec_registered(*registry)).len() == 0 ==> r is Ok,
        spec_missing(*root, spec_registered(*registry)).len() > 0 ==> r is Err && r->Err_0
            is Generic && r->Err_0->Generic_0@ == "Missing custom handlers: "@ + spec_join(
            spec_missing(*root, spec_registered(*registry)),
            ", "@,
        ),
{
    let mut missing: Vec<String> = Vec::new();
    let ghost registered = spec_registered(*registry);
    proof {
        assert(views(missing@) =~= Seq::empty());
    }
    match root {
        MappingRoot::Flat(flat) => {
            let mut i: usize = 0;
            while i < flat.commands.len()
                invariant
                    i <= flat.commands@.len(),
                    registered == spec_registered(*registry),
                    views(missing@) == spec_missing_flat(flat.commands@, registered, i as int),
                decreases flat.commands@.len() - i,
            {
                note_missing(&flat.commands[i], registry, &mut missing);
                i += 1;
            }
        },
        MappingRoot::Hier(hier) => {
            let mut i: usize = 0;
            while i < hier.commands.len()
                invariant
                    i <= hier.commands@.len(),
                    registered == spec_registered(*registry),
                    views(missing@) == spec_missing_groups(hier.commands@, registered, i as int),
                decreases hier.commands@.len() - i,
            {
                walk_group(&hier.commands[i], registry, &mut missing);
                i += 1;
            }
        },
    }
    if missing.len() == 0 {
        Ok(())
    } else {
        let mut message = String::new();
        push_text(&mut message, "Missing custom handlers: ");
        let list = join(&missing, ", ");
        push_text(&mut message, list.as_str());
        proof {
            assert(message@ =~= "Missing custom handlers: "@ + spec_join(views(missing@), ", "@));
        }
        Err(Error::Generic(message))
    }
}

/// The arguments that a command takes: its own, or those that its pattern
/// implies where it has none of its own.
pub open spec fn spec_effective_args(cmd: CommandModel) -> Seq<ArgModel> {
    if cmd.args.len() == 0 {
        spec_derived_args(cmd.pattern)
    } else {
        cmd.args
    }
}

/// The arguments that a command takes.
pub fn effective_args(cmd: &CommandSpec) -> (args: Vec<ArgSpec>)
    ensures
        arg_models(args@) == spec_effective_args(cmd@),
{
    if cmd.args.len() == 0 {
        derive_args_from_pattern(cmd.pattern.as_str())
    } else {
        clone_args(&cmd.args)
    }
}

/// The name under which an argument is given on the command line: its long
/// flag, or else its name, or else nothing.
pub open spec fn spec_arg_id(arg: ArgModel) -> Seq<char> {
    match arg.long {
        Some(long) => long,
        None => match arg.name {
            Some(name) => name,
            None => Seq::empty(),
        },
    }
}

/// The name under which `arg` is given on the command line.
pub fn arg_id(arg: &ArgSpec) -> (id: String)
    ensures
        id@ == spec_arg_id(arg@),
{
    match &arg.long {
        Some(long) => long.clone(),
        None => match &arg.name {
            Some(name) => name.clone(),
            None => String::new(),
        },
    }
}

/// Whether an argument is a flag: its type is `bool`.
pub open spec fn spec_is_flag(arg: ArgModel) -> bool {
    arg.arg_type == Some("bool"@)
}

/// Whether `arg` is a flag.
pub fn is_flag(arg: &ArgSpec) -> (b: bool)
    ensures
        b == spec_is_flag(arg@),
{
    match &arg.arg_type {
        Some(t) => text_eq(t.as_str(), "bool"),
        None => false,
    }
}

/// The side of an entry that counts for a flag that is set, or not set.
pub open spec fn spec_side(entry: EntryModel, is_set: bool) -> Option<Seq<char>> {
    if is_set {
        entry.if_set
    } else {
        entry.if_not_set
    }
}

/// The first value at or after `from` that the entries give for a flag that
/// is set, or not set.
pub open spec fn spec_first_side(entries: Seq<EntryModel>, is_set: bool, from: int) -> Option<
    Seq<char>,
>
    decreases entries.len() - from,
{
    if from < 0 || from >= entries.len() {
        None
    } else if spec_side(entries[from], is_set) is Some {
        spec_side(entries[from], is_set)
    } else {
        spec_first_side(entries, is_set, from + 1)
    }
}

/// The text that a flag stands for: what its conditional value gives for
/// its state, or else `true` or `false`.
pub open spec fn spec_flag_text(value: Option<ConditionalModel>, is_set: bool) -> Seq<char> {
    let given = match value {
        Some(ConditionalModel::Mapping(entry)) => spec_side(entry, is_set),
        Some(ConditionalModel::Sequence(entries)) => spec_first_side(entries, is_set, 0),
        None => None,
    };
    match given {
        Some(text) => text,
        None => if is_set {
            "true"@
        } else {
            "false"@
        },
    }
}

fn side_of(if_set: &Option<String>, if_not_set: &Option<String>, is_set: bool) -> (r: Option<
    String,
>)
    ensures
        crate::mapping::opt_view(r) == spec_side(
            EntryModel {
                if_set: crate::mapping::opt_view(*if_set),
                if_not_set: crate::mapping::opt_view(*if_not_set),
            },
            is_set,
        ),
{
    if is_set {
        crate::mapping::clone_opt(if_set)
    } else {
        crate::mapping::clone_opt(if_not_set)
    }
}

/// The text that a flag with the conditional value `value` stands for.
pub fn flag_text(value: &Option<ConditionalValue>, is_set: bool) -> (text: String)
    ensures
        text@ == spec_flag_text(
            match *value {
                Some(v) => Some(v@),
                None => None,
            },
            is_set,
        ),
{
    let given: Option<String> = match value {
        Some(ConditionalValue::Mapping { if_set, if_not_set }) => side_of(
            if_set,
            if_not_set,
            is_set,
        ),
        Some(ConditionalValue::Sequence(entries)) => {
            let ghost models = Seq::new(entries@.len(), |i: int| entries@[i]@);
            let mut found: Option<String> = None;
            let mut i: usize = 0;
            while i < entries.len() && found.is_none()
                invariant
                    i <= entries@.len(),
                    models == Seq::new(entries@.len(), |i: int| entries@[i]@),
                    found is None ==> spec_first_side(models, is_set, 0) == spec_first_side(
                        models,
                        is_set,
                        i as int,
                    ),
                    found is Some ==> spec_first_side(models, is_set, 0) == Some(found->0@),
                decreases entries@.len() - i + (if found is None { 1int } else { 0int }),
            {
                let e = &entries[i];
                proof {
                    assert(models[i as int] == e@);
                }
                found = side_of(&e.if_set, &e.if_not_set, is_set);
                if found.is_none() {
                    i += 1;
                }
            }
            found
        },
        None => None,
    };
    match given {
        Some(text) => text,
        None => if is_set {
            "true".to_owned()
        } else {
            "false".to_owned()
        },
    }
}

/// What the command line gave for the arguments of a command.
pub struct Collected {
    /// The bindings.
    pub vars: Seq<(Seq<char>, Seq<char>)>,
    /// The names of the arguments that were supplied.
    pub selected: Set<Seq<char>>,
    /// Whether a required argument is missing.
    pub missing_required: bool,
}

/// What is collected after one more argument. An argument without a name on
/// the command line gives nothing. A flag binds its variable to the text it
/// stands for, and counts as supplied when it is set. Any other argument
/// binds its variable to the value given and counts as supplied; without a
/// value it binds its variable to its default; without a default, a
/// required argument is missing.
pub open spec fn spec_collect_arg(
    c: Collected,
    arg: ArgModel,
    flags: Set<Seq<char>>,
    values: Seq<(Seq<char>, Seq<char>)>,
) -> Collected {
    let id = spec_arg_id(arg);
    if id.len() == 0 {
        c
    } else if spec_is_flag(arg) {
        match arg.name {
            Some(name) => Collected {
                vars: pairs_insert(c.vars, name, spec_flag_text(arg.value, flags.contains(id))),
                selected: if flags.contains(id) {
                    c.selected.insert(name)
                } else {
                    c.selected
                },
                missing_required: c.missing_required,
            },
            None => c,
        }
    } else {
        match pairs_get(values, id) {
            Some(value) => match arg.name {
                Some(name) => Collected {
                    vars: pairs_insert(c.vars, name, value),
                    selected: c.selected.insert(name),
                    missing_required: c.missing_required,
                },
                None => c,
            },
            None => match arg.default {
                Some(default) => match arg.name {
                    Some(name) => Collected {
                        vars: pairs_insert(c.vars, name, default),
                        selected: c.selected,
                        missing_required: c.missing_required,
                    },
                    None => c,
                },
                None => Collected {
                    vars: c.vars,
                    selected: c.selected,
                    missing_required: c.missing_required || arg.required == Some(true),
                },
            },
        }
    }
}

/// What is collected after the first `n` arguments.
pub open spec fn spec_collect_upto(
    args: Seq<ArgModel>,
    flags: Set<Seq<char>>,
    values: Seq<(Seq<char>, Seq<char>)>,
    n: int,
) -> Collected
    decreases n,
{
    if n <= 0 || n > args.len() {
        Collected { vars: Seq::empty(), selected: Set::empty(), missing_required: false }
    } else {
        spec_collect_arg(spec_collect_upto(args, flags, values, n - 1), args[n - 1], flags, values)
    }
}

/// The bindings of a command, the arguments that were supplied, and whether
/// a required argument is missing.
#[derive(Debug)]
pub struct CollectedVars {
    pub vars: StringMap,
    pub selected: NameSet,
    pub missing_required: bool,
}

impl CollectedVars {
    /// What was collected, as plain values.
    pub open spec fn model(self) -> Collected {
        Collected {
            vars: self.vars.pairs(),
            selected: self.selected@,
            missing_required: self.missing_required,
        }
    }
}

/// Collects the bindings of a command from what the command line gave:
/// `flags` holds the flags that are set and `values` the values given, each
/// by the name of its argument on the command line.
pub fn collect_vars(cmd: &CommandSpec, flags: &NameSet, values: &StringMap) -> (r: CollectedVars)
    ensures
        r.model() == spec_collect_upto(
            spec_effective_args(cmd@),
            flags@,
            values.pairs(),
            spec_effective_args(cmd@).len() as int,
        ),
{
    let args = effective_args(cmd);
    let ghost models = arg_models(args@);
    let mut vars = StringMap::new();
    let mut selected = NameSet::new();
    let mut missing_required = false;
    proof {
        assert(selected@ =~= Set::empty());
    }
    let mut i: usize = 0;
    while i < args.len()
        invariant
            i <= args@.len(),
            models == arg_models(args@),
            (Collected { vars: vars.pairs(), selected: selected@, missing_required })
                == spec_collect_upto(models, flags@, values.pairs(), i as int),
        decreases args@.len() - i,
    {
        let arg = &args[i];
        proof {
            assert(models[i as int] == arg@);
        }
        let id = arg_id(arg);
        if id.as_str().is_empty() {
        } else if is_flag(arg) {
            let is_set = flags.contains(id.as_str());
            match &arg.name {
                Some(name) => {
                    if is_set {
                        selected.insert(name.clone());
                    }
                    vars.insert(name.clone(), flag_text(&arg.value, is_set));
                },
                None => {},
            }
        } else {
            match values.get(id.as_str()) {
                Some(value) => match &arg.name {
                    Some(name) => {
                        vars.insert(name.clone(), value.clone());
                        selected.insert(name.clone());
                    },
                    None => {},
                },
                None => match &arg.default {
                    Some(default) => match &arg.name {
                        Some(name) => {
                            vars.insert(name.clone(), default.clone());
                        },
                        None => {},
                    },
                    None => {
                        let required = match arg.required {
                            Some(r) => r,
                            None => false,
                        };
                        if required {
                            missing_required = true;
                        }
                    },
                },
            }
        }
        i += 1;
    }
    CollectedVars { vars, selected, missing_required }
}

/// The line of the manual for one argument.
pub open spec fn spec_option_line(arg: ArgModel) -> Seq<char> {
    "  --"@ + spec_arg_id(arg) + " value  "@ + (match arg.help {
        Some(help) => help,
        None => Seq::empty(),
    }) + (if arg.required == Some(true) {
        " (required)"@
    } else {
        Seq::empty()
    }) + "\n"@
}

/// The lines of the manual for the first `n` arguments.
pub open spec fn spec_option_lines(args: Seq<ArgModel>, n: int) -> Seq<char>
    decreases n,
{
    if n <= 0 || n > args.len() {
        Seq::empty()
    } else {
        spec_option_lines(args, n - 1) + spec_option_line(args[n - 1])
    }
}

/// The manual of a command: its name and description, its usage, and a line
/// for each of its arguments.
pub open spec fn spec_manual(path: Seq<Seq<char>>, cmd: CommandModel) -> Seq<char> {
    let title = match cmd.about {
        Some(about) => about,
        None => Seq::empty(),
    };
    let words = spec_join(path, " "@);
    "hscli "@ + words + (if title.len() == 0 {
        " -"@
    } else {
        " - "@ + title
    }) + "\n\nUSAGE:\n  hscli "@ + words + " [command options]\n\nOPTIONS:\n"@ + spec_option_lines(
        cmd.args,
        cmd.args.len() as int,
    ) + "  --help, -h       show help\n"@
}

/// Writes the manual of the command `cmd`, which stands under `path`.
pub fn manual_help_text(path: &Vec<String>, cmd: &CommandSpec) -> (text: String)
    ensures
        text@ == spec_manual(views(path@), cmd@),
{
    let words = join(path, " ");
    let mut text = String::new();
    push_text(&mut text, "hscli ");
    push_text(&mut text, words.as_str());
    let has_title = match &cmd.about {
        Some(about) => !about.as_str().is_empty(),
        None => false,
    };
    if has_title {
        push_text(&mut text, " - ");
        match &cmd.about {
            Some(about) => {
                push_text(&mut text, about.as_str());
            },
            None => {},
        }
    } else {
        push_text(&mut text, " -");
    }
    push_text(&mut text, "\n\nUSAGE:\n  hscli ");
    push_text(&mut text, words.as_str());
    push_text(&mut text, " [command options]\n\nOPTIONS:\n");
    let ghost head = text@;
    let mut i: usize = 0;
    proof {
        assert(text@ =~= head + spec_option_lines(cmd@.args, 0));
    }
    while i < cmd.args.len()
        invariant
            i <= cmd.args@.len(),
            text@ == head + spec_option_lines(cmd@.args, i as int),
        decreases cmd.args@.len() - i,
    {
        let arg = &cmd.args[i];
        let ghost before = text@;
        proof {
            assert(cmd@.args[i as int] == arg@);
        }
        push_text(&mut text, "  --");
        let id = arg_id(arg);
        push_text(&mut text, id.as_str());
        push_text(&mut text, " value  ");
        match &arg.help {
            Some(help) => {
                push_text(&mut text, help.as_str());
            },
            None => {},
        }
        let required = match arg.required {
            Some(r) => r,
            None => false,
        };
        if required {
            push_text(&mut text, " (required)");
        }
        push_text(&mut text, "\n");
        i += 1;
        proof {
            assert(text@ =~= before + spec_option_line(arg@));
            assert(text@ =~= head + spec_option_lines(cmd@.args, i as int));
        }
    }
    push_text(&mut text, "  --help, -h       show help\n");
    proof {
        assert(text@ =~= spec_manual(views(path@), cmd@));
    }
    text
}

} // verus!
