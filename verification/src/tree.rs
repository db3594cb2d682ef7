//! The tree of commands that a mapping describes, and the table of the
//! commands at its leaves with their arguments resolved.

use vstd::prelude::*;
use crate::mapping::{
    arg_models, clone_args, clone_opt, clone_strings, common_models, derive_args_from_pattern,
    opt_view, spec_derived_args, spec_is_placeholder, ArgModel, ArgSpec, CommandGroup,
    CommandModel, CommandNode, CommandSpec, MappingRoot,
};
use crate::text::{chars_of, spec_words, text_eq, views, words};

verus! {

/// A node of the tree of commands: the subcommands under it by name, the
/// arguments of the command that ends here, and its description.
#[derive(Debug)]
pub struct TreeNode {
    pub children: Vec<(String, TreeNode)>,
    pub args: Vec<ArgSpec>,
    pub about: Option<String>,
}

/// What a node of the tree says.
pub struct TreeModel {
    pub children: Seq<(Seq<char>, TreeModel)>,
    pub args: Seq<ArgModel>,
    pub about: Option<Seq<char>>,
}

/// The tree without commands.
pub open spec fn spec_empty_tree() -> TreeModel {
    TreeModel { children: Seq::empty(), args: Seq::empty(), about: None }
}

impl TreeNode {
    /// What the node and the nodes under it say.
    pub open spec fn model(self) -> TreeModel
        decreases self,
    {
        TreeModel {
            children: Seq::new(
                self.children@.len(),
                |i: int|
                    if 0 <= i < self.children@.len() {
                        (self.children@[i].0@, self.children@[i].1.model())
                    } else {
                        (Seq::empty(), spec_empty_tree())
                    },
            ),
            args: arg_models(self.args@),
            about: opt_view(self.about),
        }
    }
}

impl Default for TreeNode {
    fn default() -> (node: Self)
        ensures
            node.model() == spec_empty_tree(),
            node.children@.len() == 0,
            node.args@.len() == 0,
            node.about is None,
    {
        let node = TreeNode { children: Vec::new(), args: Vec::new(), about: None };
        proof {
            assert(node.model().children =~= Seq::empty());
            assert(node.model().args =~= Seq::empty());
        }
        node
    }
}

/// The index of the first child at or after `from` named `name`, or the
/// number of children where there is none.
pub open spec fn spec_child_index(
    children: Seq<(Seq<char>, TreeModel)>,
    name: Seq<char>,
    from: int,
) -> int
    decreases children.len() - from,
{
    if from < 0 || from >= children.len() {
        children.len() as int
    } else if children[from].0 == name {
        from
    } else {
        spec_child_index(children, name, from + 1)
    }
}

proof fn lemma_child_index(children: Seq<(Seq<char>, TreeModel)>, name: Seq<char>, from: int)
    requires
        0 <= from <= children.len(),
    ensures
        from <= spec_child_index(children, name, from) <= children.len(),
        spec_child_index(children, name, from) < children.len() ==> children[spec_child_index(
            children,
            name,
            from,
        )].0 == name,
    decreases children.len() - from,
{
    if from < children.len() && children[from].0 != name {
        lemma_child_index(children, name, from + 1);
    }
}

/// What is written into a node: its arguments, where given, and its
/// description, where given.
pub struct Patch {
    pub args: Option<Seq<ArgModel>>,
    pub about: Option<Seq<char>>,
}

/// The node `t` with `p` written into it.
pub open spec fn spec_patched(t: TreeModel, p: Patch) -> TreeModel {
    TreeModel {
        children: t.children,
        args: match p.args {
            Some(args) => args,
            None => t.args,
        },
        about: match p.about {
            Some(about) => Some(about),
            None => t.about,
        },
    }
}

/// The tree `t` with `p` written into the node that `path[from..]` leads to;
/// the nodes on the way are made where they are missing, each as the last
/// child of its parent.
pub open spec fn spec_tree_set(t: TreeModel, path: Seq<Seq<char>>, from: int, p: Patch) -> TreeModel
    decreases path.len() - from,
{
    if from < 0 || from >= path.len() {
        spec_patched(t, p)
    } else {
        let k = spec_child_index(t.children, path[from], 0);
        if 0 <= k < t.children.len() {
            TreeModel {
                children: t.children.update(
                    k,
                    (path[from], spec_tree_set(t.children[k].1, path, from + 1, p)),
                ),
                args: t.args,
                about: t.about,
            }
        } else {
            TreeModel {
                children: t.children.push(
                    (path[from], spec_tree_set(spec_empty_tree(), path, from + 1, p)),
                ),
                args: t.args,
                about: t.about,
            }
        }
    }
}

/// What optional arguments say.
pub open spec fn opt_arg_models(o: Option<Vec<ArgSpec>>) -> Option<Seq<ArgModel>> {
    match o {
        Some(args) => Some(arg_models(args@)),
        None => None,
    }
}

fn child_index(children: &Vec<(String, TreeNode)>, name: &str, Ghost(node): Ghost<TreeNode>) -> (k:
    usize)
    requires
        node.children == *children,
    ensures
        k == spec_child_index(node.model().children, name@, 0),
        k <= children@.len(),
{
    let mut k: usize = 0;
    while k < children.len()
        invariant
            k <= children@.len(),
            node.children == *children,
            spec_child_index(node.model().children, name@, 0) == spec_child_index(
                node.model().children,
                name@,
                k as int,
            ),
        decreases children@.len() - k,
    {
        if text_eq(children[k].0.as_str(), name) {
            return k;
        }
        k += 1;
    }
    k
}

/// Writes arguments and a description into the node of `node` that
/// `path[from..]` leads to.
pub fn tree_set(
    node: TreeNode,
    path: &Vec<String>,
    from: usize,
    args: Option<Vec<ArgSpec>>,
    about: Option<String>,
) -> (r: TreeNode)
    ensures
        r.model() == spec_tree_set(
            node.model(),
            views(path@),
            from as int,
            Patch { args: opt_arg_models(args), about: opt_view(about) },
        ),
    decreases path@.len() - from,
{
    let ghost patch = Patch { args: opt_arg_models(args), about: opt_view(about) };
    let ghost before = node.model();
    if from >= path.len() {
        let TreeNode { children, args: old_args, about: old_about } = node;
        let r = TreeNode {
            children,
            args: match args {
                Some(a) => a,
                None => old_args,
            },
            about: match about {
                Some(a) => Some(a),
                None => old_about,
            },
        };
        proof {
            assert(r.model().children =~= before.children);
        }
        return r;
    }
    let k = child_index(&node.children, path[from].as_str(), Ghost(node));
    let TreeNode { mut children, args: old_args, about: old_about } = node;
    let ghost old_children = children@;
    proof {
        assert(views(path@)[from as int] == path@[from as int]@);
    }
    if k < children.len() {
        let mut slot = (String::new(), TreeNode::default());
        children.set_and_swap(k, &mut slot);
        let (name, child) = slot;
        let ghost child_before = child.model();
        let new_child = tree_set(child, path, from + 1, args, about);
        children.set(k, (name, new_child));
        let r = TreeNode { children, args: old_args, about: old_about };
        proof {
            lemma_child_index(before.children, path@[from as int]@, 0);
            assert(before.children[k as int].1 == child_before);
            assert(before.children[k as int].0 == path@[from as int]@);
            assert(r.model().children =~= before.children.update(
                k as int,
                (path@[from as int]@, new_child.model()),
            )) by {
                assert forall|i: int| 0 <= i < r.children@.len() implies r.model().children[i]
                    == before.children.update(
                    k as int,
                    (path@[from as int]@, new_child.model()),
                )[i] by {
                    if i != k {
                        assert(r.children@[i] == old_children[i]);
                    }
                }
            }
        }
        r
    } else {
        let new_child = tree_set(TreeNode::default(), path, from + 1, args, about);
        children.push((path[from].clone(), new_child));
        let r = TreeNode { children, args: old_args, about: old_about };
        proof {
            assert(r.model().children =~= before.children.push(
                (path@[from as int]@, new_child.model()),
            )) by {
                assert forall|i: int| 0 <= i < r.children@.len() implies r.model().children[i]
                    == before.children.push((path@[from as int]@, new_child.model()))[i] by {
                    if i < old_children.len() {
                        assert(r.children@[i] == old_children[i]);
                    }
                }
            }
        }
        r
    }
}

/// The index of the first shared argument at or after `from` under `key`,
/// or the number of shared arguments where there is none.
pub open spec fn spec_common_index(common: Seq<(Seq<char>, ArgModel)>, key: Seq<char>, from: int) -> int
    decreases common.len() - from,
{
    if from < 0 || from >= common.len() {
        common.len() as int
    } else if common[from].0 == key {
        from
    } else {
        spec_common_index(common, key, from + 1)
    }
}

/// The shared argument under `key`, if there is one.
pub open spec fn spec_common_arg(common: Seq<(Seq<char>, ArgModel)>, key: Seq<char>) -> Option<
    ArgModel,
> {
    let i = spec_common_index(common, key, 0);
    if 0 <= i < common.len() {
        Some(common[i].1)
    } else {
        None
    }
}

/// The shared argument under `key`, if there is one.
pub fn common_arg<'a>(common: &'a Vec<(String, ArgSpec)>, key: &str) -> (r: Option<&'a ArgSpec>)
    ensures
        (match r {
            Some(a) => Some(a@),
            None => None,
        }) == spec_common_arg(common_models(common@), key@),
{
    let mut i: usize = 0;
    while i < common.len()
        invariant
            i <= common@.len(),
            spec_common_index(common_models(common@), key@, 0) == spec_common_index(
                common_models(common@),
                key@,
                i as int,
            ),
        decreases common@.len() - i,
    {
        if text_eq(common[i].0.as_str(), key) {
            return Some(&common[i].1);
        }
        i += 1;
    }
    None
}

/// The first of two optional values that is present.
pub open spec fn spec_or<T>(first: Option<T>, second: Option<T>) -> Option<T> {
    match first {
        Some(v) => Some(v),
        None => second,
    }
}

/// The argument `over` on top of the shared argument `base`: each field is
/// that of `over` where it is present there, else that of `base`. The result
/// inherits from nothing, and it is an upload where either is.
pub open spec fn spec_merged(base: ArgModel, over: ArgModel) -> ArgModel {
    ArgModel {
        name: spec_or(over.name, base.name),
        inherit: None,
        help: spec_or(over.help, base.help),
        positional: spec_or(over.positional, base.positional),
        long: spec_or(over.long, base.long),
        short: spec_or(over.short, base.short),
        required: spec_or(over.required, base.required),
        default: spec_or(over.default, base.default),
        arg_type: spec_or(over.arg_type, base.arg_type),
        value: spec_or(over.value, base.value),
        file_upload: over.file_upload || base.file_upload,
        file_overrides_value_of: spec_or(
            over.file_overrides_value_of,
            base.file_overrides_value_of,
        ),
        endpoint: spec_or(over.endpoint, base.endpoint),
        method: spec_or(over.method, base.method),
        headers: spec_or(over.headers, base.headers),
        body: spec_or(over.body, base.body),
    }
}

fn or_text(first: &Option<String>, second: &Option<String>) -> (r: Option<String>)
    ensures
        opt_view(r) == spec_or(opt_view(*first), opt_view(*second)),
{
    match first {
        Some(_) => clone_opt(first),
        None => clone_opt(second),
    }
}

fn or_flag(first: Option<bool>, second: Option<bool>) -> (r: Option<bool>)
    ensures
        r == spec_or(first, second),
{
    match first {
        Some(v) => Some(v),
        None => second,
    }
}

/// Puts an argument on top of the shared argument it inherits from.
pub fn merge_arg_specs(base: &ArgSpec, override_spec: &ArgSpec) -> (r: ArgSpec)
    ensures
        r@ == spec_merged(base@, override_spec@),
{
    let value = match &override_spec.value {
        Some(v) => Some(v.clone()),
        None => match &base.value {
            Some(v) => Some(v.clone()),
            None => None,
        },
    };
    let headers = match &override_spec.headers {
        Some(h) => Some(h.clone()),
        None => match &base.headers {
            Some(h) => Some(h.clone()),
            None => None,
        },
    };
    ArgSpec {
        name: or_text(&override_spec.name, &base.name),
        inherit: None,
        help: or_text(&override_spec.help, &base.help),
        positional: or_flag(override_spec.positional, base.positional),
        long: or_text(&override_spec.long, &base.long),
        short: or_text(&override_spec.short, &base.short),
        required: or_flag(override_spec.required, base.required),
        default: or_text(&override_spec.default, &base.default),
        arg_type: or_text(&override_spec.arg_type, &base.arg_type),
        value,
        file_upload: override_spec.file_upload || base.file_upload,
        file_overrides_value_of: or_text(
            &override_spec.file_overrides_value_of,
            &base.file_overrides_value_of,
        ),
        endpoint: or_text(&override_spec.endpoint, &base.endpoint),
        method: or_text(&override_spec.method, &base.method),
        headers,
        body: or_text(&override_spec.body, &base.body),
    }
}

/// An argument with what it inherits: put on top of the shared argument it
/// names, looked up in the group first and then at the top; left as it is
/// where it names none or the one it names is not found.
pub open spec fn spec_inherited(
    arg: ArgModel,
    group_common: Seq<(Seq<char>, ArgModel)>,
    top_common: Seq<(Seq<char>, ArgModel)>,
) -> ArgModel {
    match arg.inherit {
        Some(key) => match spec_or(
            spec_common_arg(group_common, key),
            spec_common_arg(top_common, key),
        ) {
            Some(base) => spec_merged(base, arg),
            None => arg,
        },
        None => arg,
    }
}

/// The shared arguments that the first `n` of `names` find in the group.
pub open spec fn spec_used_common(
    names: Seq<Seq<char>>,
    group_common: Seq<(Seq<char>, ArgModel)>,
    n: int,
) -> Seq<ArgModel>
    decreases n,
{
    if n <= 0 || n > names.len() {
        Seq::empty()
    } else {
        let before = spec_used_common(names, group_common, n - 1);
        match spec_common_arg(group_common, names[n - 1]) {
            Some(arg) => before.push(arg),
            None => before,
        }
    }
}

/// The arguments of a command inside a group: its own, each with what it
/// inherits, or those that its pattern implies where it has none of its own;
/// then the shared arguments of the group that it asks for by name.
pub open spec fn spec_resolved_args(
    cmd: CommandModel,
    group_common: Seq<(Seq<char>, ArgModel)>,
    top_common: Seq<(Seq<char>, ArgModel)>,
) -> Seq<ArgModel> {
    let own = if cmd.args.len() > 0 {
        Seq::new(cmd.args.len(), |i: int| spec_inherited(cmd.args[i], group_common, top_common))
    } else {
        spec_derived_args(cmd.pattern)
    };
    own + spec_used_common(cmd.use_common_args, group_common, cmd.use_common_args.len() as int)
}

/// Resolves the arguments of a command inside a group.
pub fn resolve_args(
    cmd: &CommandSpec,
    group_common: &Vec<(String, ArgSpec)>,
    top_common: &Vec<(String, ArgSpec)>,
) -> (r: Vec<ArgSpec>)
    ensures
        arg_models(r@) == spec_resolved_args(
            cmd@,
            common_models(group_common@),
            common_models(top_common@),
        ),
{
    let ghost group = common_models(group_common@);
    let ghost top = common_models(top_common@);
    let mut resolved: Vec<ArgSpec> = Vec::new();
    if cmd.args.len() > 0 {
        let mut i: usize = 0;
        while i < cmd.args.len()
            invariant
                i <= cmd.args@.len(),
                group == common_models(group_common@),
                top == common_models(top_common@),
                resolved@.len() == i,
                forall|k: int|
                    0 <= k < i ==> resolved@[k]@ == spec_inherited(cmd.args@[k]@, group, top),
            decreases cmd.args@.len() - i,
        {
            let a = &cmd.args[i];
            let base = match &a.inherit {
                Some(key) => match common_arg(group_common, key.as_str()) {
                    Some(base) => Some(base),
                    None => common_arg(top_common, key.as_str()),
                },
                None => None,
            };
            let next = match base {
                Some(base) => merge_arg_specs(base, a),
                None => a.clone(),
            };
            resolved.push(next);
            i += 1;
        }
    } else {
        resolved = derive_args_from_pattern(cmd.pattern.as_str());
    }
    let ghost own = arg_models(resolved@);
    proof {
        if cmd.args@.len() > 0 {
            assert(own =~= Seq::new(
                cmd@.args.len(),
                |i: int| spec_inherited(cmd@.args[i], group, top),
            ));
        }
        assert(own + spec_used_common(cmd@.use_common_args, group, 0) =~= own);
    }
    let mut j: usize = 0;
    while j < cmd.use_common_args.len()
        invariant
            j <= cmd.use_common_args@.len(),
            group == common_models(group_common@),
            arg_models(resolved@) == own + spec_used_common(cmd@.use_common_args, group, j as int),
        decreases cmd.use_common_args@.len() - j,
    {
        let ghost before = arg_models(resolved@);
        proof {
            assert(cmd@.use_common_args[j as int] == cmd.use_common_args@[j as int]@);
        }
        match common_arg(group_common, cmd.use_common_args[j].as_str()) {
            Some(arg) => {
                resolved.push(arg.clone());
                proof {
                    assert(arg_models(resolved@) =~= before.push(arg@));
                }
            },
            None => {},
        }
        j += 1;
        proof {
            assert(arg_models(resolved@) =~= own + spec_used_common(
                cmd@.use_common_args,
                group,
                j as int,
            ));
        }
    }
    resolved
}

/// The words of `words` that are no placeholders, in order.
pub open spec fn spec_plain_words(words: Seq<Seq<char>>) -> Seq<Seq<char>>
    decreases words.len(),
{
    if words.len() == 0 {
        Seq::empty()
    } else {
        let head = spec_plain_words(words.drop_last());
        if spec_is_placeholder(words.last()) {
            head
        } else {
            head.push(words.last())
        }
    }
}

/// The path of a pattern in the tree: its words that are no placeholders.
pub fn pattern_path(pattern: &str) -> (path: Vec<String>)
    ensures
        views(path@) == spec_plain_words(spec_words(pattern@)),
{
    let v = chars_of(pattern);
    let toks = words(&v);
    let mut path: Vec<String> = Vec::new();
    let mut i: usize = 0;
    proof {
        assert(views(path@) =~= Seq::empty());
    }
    while i < toks.len()
        invariant
            i <= toks.len(),
            views(toks@) == spec_words(pattern@),
            views(path@) == spec_plain_words(views(toks@).take(i as int)),
        decreases toks.len() - i,
    {
        let t = chars_of(toks[i].as_str());
        let ghost before = views(path@);
        proof {
            let next = views(toks@).take(i + 1);
            assert(next.drop_last() == views(toks@).take(i as int));
            assert(next.last() == toks@[i as int]@);
        }
        if !(t.len() >= 3 && t[0] == '{' && t[t.len() - 1] == '}') {
            path.push(toks[i].clone());
            proof {
                assert(views(path@) =~= before.push(toks@[i as int]@));
            }
        }
        i += 1;
    }
    proof {
        assert(views(toks@).take(toks.len() as int) == views(toks@));
    }
    path
}

/// The name of a command inside a group: its own name, or else the last
/// word of its pattern that is no placeholder, or else nothing.
pub open spec fn spec_command_name(cmd: CommandModel) -> Seq<char> {
    match cmd.name {
        Some(name) => name,
        None => {
            let plain = spec_plain_words(spec_words(cmd.pattern));
            if plain.len() > 0 {
                plain.last()
            } else {
                Seq::empty()
            }
        },
    }
}

/// The name of a command inside a group.
pub fn command_name(cmd: &CommandSpec) -> (name: String)
    ensures
        name@ == spec_command_name(cmd@),
{
    match &cmd.name {
        Some(name) => name.clone(),
        None => {
            let mut plain = pattern_path(cmd.pattern.as_str());
            match plain.pop() {
                Some(last) => last,
                None => String::new(),
            }
        },
    }
}

/// A command at a leaf of the tree, with the path that leads to it.
#[derive(Debug)]
pub struct Leaf {
    pub path: Vec<String>,
    pub command: CommandSpec,
}

/// What a leaf says.
pub struct LeafModel {
    pub path: Seq<Seq<char>>,
    pub command: CommandModel,
}

impl View for Leaf {
    type V = LeafModel;

    open spec fn view(&self) -> LeafModel {
        LeafModel { path: views(self.path@), command: self.command@ }
    }
}

/// What the leaves `v` say.
pub open spec fn leaf_models(v: Seq<Leaf>) -> Seq<LeafModel> {
    Seq::new(v.len(), |i: int| v[i]@)
}

/// The index of the first leaf at or after `from` with the path `path`, or
/// the number of leaves where there is none.
pub open spec fn spec_leaf_index(leaves: Seq<LeafModel>, path: Seq<Seq<char>>, from: int) -> int
    decreases leaves.len() - from,
{
    if from < 0 || from >= leaves.len() {
        leaves.len() as int
    } else if leaves[from].path == path {
        from
    } else {
        spec_leaf_index(leaves, path, from + 1)
    }
}

/// The leaves with `command` under `path`, in place of what stood under
/// that path.
pub open spec fn spec_leaf_insert(
    leaves: Seq<LeafModel>,
    path: Seq<Seq<char>>,
    command: CommandModel,
) -> Seq<LeafModel> {
    let i = spec_leaf_index(leaves, path, 0);
    if 0 <= i < leaves.len() {
        leaves.update(i, LeafModel { path, command })
    } else {
        leaves.push(LeafModel { path, command })
    }
}

/// The command under `path`, if there is one.
pub open spec fn spec_leaf_get(leaves: Seq<LeafModel>, path: Seq<Seq<char>>) -> Option<
    CommandModel,
> {
    let i = spec_leaf_index(leaves, path, 0);
    if 0 <= i < leaves.len() {
        Some(leaves[i].command)
    } else {
        None
    }
}

/// Whether two paths are the same.
pub fn paths_equal(a: &Vec<String>, b: &Vec<String>) -> (r: bool)
    ensures
        r == (views(a@) == views(b@)),
{
    if a.len() != b.len() {
        return false;
    }
    let mut i: usize = 0;
    while i < a.len()
        invariant
            a.len() == b.len(),
            i <= a.len(),
            forall|k: int| 0 <= k < i ==> a@[k]@ == b@[k]@,
        decreases a.len() - i,
    {
        if !text_eq(a[i].as_str(), b[i].as_str()) {
            proof {
                assert(views(a@)[i as int] != views(b@)[i as int]);
            }
            return false;
        }
        i += 1;
    }
    proof {
        assert(views(a@) =~= views(b@));
    }
    true
}

fn leaf_position(leaves: &Vec<Leaf>, path: &Vec<String>) -> (i: usize)
    ensures
        i == spec_leaf_index(leaf_models(leaves@), views(path@), 0),
        i <= leaves@.len(),
{
    let mut i: usize = 0;
    while i < leaves.len()
        invariant
            i <= leaves@.len(),
            spec_leaf_index(leaf_models(leaves@), views(path@), 0) == spec_leaf_index(
                leaf_models(leaves@),
                views(path@),
                i as int,
            ),
        decreases leaves@.len() - i,
    {
        if paths_equal(&leaves[i].path, path) {
            return i;
        }
        i += 1;
    }
    i
}

fn leaf_insert(leaves: &mut Vec<Leaf>, path: Vec<String>, command: CommandSpec)
    ensures
        leaf_models(final(leaves)@) == spec_leaf_insert(
            leaf_models(old(leaves)@),
            views(path@),
            command@,
        ),
{
    let i = leaf_position(leaves, &path);
    let ghost before = leaf_models(leaves@);
    let ghost target = spec_leaf_insert(before, views(path@), command@);
    if i < leaves.len() {
        leaves.set(i, Leaf { path, command });
    } else {
        leaves.push(Leaf { path, command });
    }
    proof {
        assert(leaf_models(leaves@) =~= target);
    }
}

/// The tree of commands of a mapping, and the commands at its leaves.
#[derive(Debug)]
pub struct CommandTree {
    pub root: TreeNode,
    pub leaves: Vec<Leaf>,
}

/// What a tree of commands says.
pub struct ForestModel {
    pub root: TreeModel,
    pub leaves: Seq<LeafModel>,
}

impl CommandTree {
    /// What the tree and its leaves say.
    pub open spec fn model(self) -> ForestModel {
        ForestModel { root: self.root.model(), leaves: leaf_models(self.leaves@) }
    }

    /// The command under `path`, with its arguments resolved.
    pub fn get(&self, path: &Vec<String>) -> (r: Option<&CommandSpec>)
        ensures
            (match r {
                Some(c) => Some(c@),
                None => None,
            }) == spec_leaf_get(self.model().leaves, views(path@)),
    {
        let i = leaf_position(&self.leaves, path);
        if i < self.leaves.len() {
            Some(&self.leaves[i].command)
        } else {
            None
        }
    }
}

/// The tree with one more command of a flat mapping: the command stands
/// under the path of its pattern, with its own arguments or, where it has
/// none, those that its pattern implies; the leaf holds the command as it is
/// written.
pub open spec fn spec_with_flat(f: ForestModel, cmd: CommandModel) -> ForestModel {
    let path = spec_plain_words(spec_words(cmd.pattern));
    let args = if cmd.args.len() == 0 {
        spec_derived_args(cmd.pattern)
    } else {
        cmd.args
    };
    ForestModel {
        root: spec_tree_set(f.root, path, 0, Patch { args: Some(args), about: None }),
        leaves: spec_leaf_insert(f.leaves, path, cmd),
    }
}

/// The tree of the first `n` commands of a flat mapping.
pub open spec fn spec_flat_upto(commands: Seq<CommandSpec>, n: int) -> ForestModel
    decreases n,
{
    if n <= 0 || n > commands.len() {
        ForestModel { root: spec_empty_tree(), leaves: Seq::empty() }
    } else {
        spec_with_flat(spec_flat_upto(commands, n - 1), commands[n - 1]@)
    }
}

/// The command `cmd` with `args` as its arguments.
pub open spec fn spec_with_args(cmd: CommandModel, args: Seq<ArgModel>) -> CommandModel {
    CommandModel {
        name: cmd.name,
        about: cmd.about,
        pattern: cmd.pattern,
        method: cmd.method,
        endpoint: cmd.endpoint,
        body: cmd.body,
        headers: cmd.headers,
        table_view: cmd.table_view,
        scenario: cmd.scenario,
        multipart: cmd.multipart,
        custom_handler: cmd.custom_handler,
        args,
        use_common_args: cmd.use_common_args,
    }
}

/// The path of a command inside the group at `group_path`: the group's path
/// and the command's name, where it has one.
pub open spec fn spec_command_path(group_path: Seq<Seq<char>>, cmd: CommandModel) -> Seq<Seq<char>> {
    if spec_command_name(cmd).len() > 0 {
        group_path.push(spec_command_name(cmd))
    } else {
        group_path
    }
}

/// The tree with one more command of a group: the command stands under its
/// path with its resolved arguments and its description, and the leaf holds
/// the command with those arguments.
pub open spec fn spec_with_command(
    f: ForestModel,
    group_path: Seq<Seq<char>>,
    cmd: CommandModel,
    group_common: Seq<(Seq<char>, ArgModel)>,
    top_common: Seq<(Seq<char>, ArgModel)>,
) -> ForestModel {
    let path = spec_command_path(group_path, cmd);
    let args = spec_resolved_args(cmd, group_common, top_common);
    ForestModel {
        root: spec_tree_set(f.root, path, 0, Patch { args: Some(args), about: cmd.about }),
        leaves: spec_leaf_insert(f.leaves, path, spec_with_args(cmd, args)),
    }
}

/// The tree after the group `group`, which stands under `parent`, has been
/// entered and its first `n` nodes have been walked. Entering makes the
/// node of the group and writes the group's description into it.
pub open spec fn spec_group_upto(
    f: ForestModel,
    parent: Seq<Seq<char>>,
    group: CommandGroup,
    top_common: Seq<(Seq<char>, ArgModel)>,
    n: int,
) -> ForestModel
    decreases group, n,
{
    let path = parent.push(group.name@);
    if n <= 0 || n > group.subcommands@.len() {
        ForestModel {
            root: spec_tree_set(
                f.root,
                path,
                0,
                Patch { args: None, about: opt_view(group.about) },
            ),
            leaves: f.leaves,
        }
    } else {
        let before = spec_group_upto(f, parent, group, top_common, n - 1);
        match group.subcommands@[n - 1] {
            CommandNode::Group(g) => spec_group_upto(
                before,
                path,
                g,
                top_common,
                g.subcommands@.len() as int,
            ),
            CommandNode::Command(c) => spec_with_command(
                before,
                path,
                c@,
                common_models(group.common_args@),
                top_common,
            ),
        }
    }
}

/// The tree of the first `n` groups of a hierarchical mapping.
pub open spec fn spec_groups_upto(
    groups: Seq<CommandGroup>,
    top_common: Seq<(Seq<char>, ArgModel)>,
    n: int,
) -> ForestModel
    decreases n,
{
    if n <= 0 || n > groups.len() {
        ForestModel { root: spec_empty_tree(), leaves: Seq::empty() }
    } else {
        spec_group_upto(
            spec_groups_upto(groups, top_common, n - 1),
            Seq::empty(),
            groups[n - 1],
            top_common,
            groups[n - 1].subcommands@.len() as int,
        )
    }
}

/// The tree of commands that a mapping describes.
pub open spec fn spec_command_tree(root: MappingRoot) -> ForestModel {
    match root {
        MappingRoot::Flat(flat) => spec_flat_upto(flat.commands@, flat.commands@.len() as int),
        MappingRoot::Hier(hier) => spec_groups_upto(
            hier.commands@,
            common_models(hier.common_args@),
            hier.commands@.len() as int,
        ),
    }
}

fn add_flat(tree: CommandTree, cmd: &CommandSpec) -> (r: CommandTree)
    ensures
        r.model() == spec_with_flat(tree.model(), cmd@),
{
    let CommandTree { root, mut leaves } = tree;
    let path = pattern_path(cmd.pattern.as_str());
    let args = if cmd.args.len() == 0 {
        derive_args_from_pattern(cmd.pattern.as_str())
    } else {
        clone_args(&cmd.args)
    };
    let root = tree_set(root, &path, 0, Some(args), None);
    leaf_insert(&mut leaves, path, cmd.clone());
    CommandTree { root, leaves }
}

fn add_command(
    tree: CommandTree,
    group_path: &Vec<String>,
    cmd: &CommandSpec,
    group_common: &Vec<(String, ArgSpec)>,
    top_common: &Vec<(String, ArgSpec)>,
) -> (r: CommandTree)
    ensures
        r.model() == spec_with_command(
            tree.model(),
            views(group_path@),
            cmd@,
            common_models(group_common@),
            common_models(top_common@),
        ),
{
    let CommandTree { root, mut leaves } = tree;
    let mut path = clone_strings(group_path);
    let name = command_name(cmd);
    if name.as_str().is_empty() {
    } else {
        proof {
            assert(views(path@.push(name)) =~= views(group_path@).push(name@));
        }
        path.push(name);
    }
    let args = resolve_args(cmd, group_common, top_common);
    let root = tree_set(root, &path, 0, Some(clone_args(&args)), clone_opt(&cmd.about));
    let mut resolved = cmd.clone();
    resolved.args = args;
    leaf_insert(&mut leaves, path, resolved);
    CommandTree { root, leaves }
}

fn walk_group(
    tree: CommandTree,
    parent: &Vec<String>,
    group: &CommandGroup,
    top_common: &Vec<(String, ArgSpec)>,
) -> (r: CommandTree)
    ensures
        r.model() == spec_group_upto(
            tree.model(),
            views(parent@),
            *group,
            common_models(top_common@),
            group.subcommands@.len() as int,
        ),
    decreases group,
{
    let ghost start = tree.model();
    let ghost top = common_models(top_common@);
    let mut path = clone_strings(parent);
    path.push(group.name.clone());
    proof {
        assert(views(path@) =~= views(parent@).push(group.name@));
    }
    let CommandTree { root, leaves } = tree;
    let root = tree_set(root, &path, 0, None, clone_opt(&group.about));
    let mut tree = CommandTree { root, leaves };
    let mut i: usize = 0;
    while i < group.subcommands.len()
        invariant
            i <= group.subcommands@.len(),
            top == common_models(top_common@),
            views(path@) == views(parent@).push(group.name@),
            tree.model() == spec_group_upto(start, views(parent@), *group, top, i as int),
        decreases group.subcommands@.len() - i,
    {
        tree = match &group.subcommands[i] {
            CommandNode::Group(g) => walk_group(tree, &path, g, top_common),
            CommandNode::Command(c) => add_command(tree, &path, c, &group.common_args, top_common),
        };
        i += 1;
    }
    tree
}

/// Builds the tree of commands of a mapping and the table of its leaves. In
/// a flat mapping a command stands under the words of its pattern. In a
/// hierarchical mapping it stands under the names of its groups and its own
/// name, and its arguments are resolved against the shared arguments of its
/// group and of the mapping. A later command replaces an earlier one under
/// the same path.
pub fn build_command_tree(root: &MappingRoot) -> (tree: CommandTree)
    ensures
        tree.model() == spec_command_tree(*root),
{
    let mut tree = CommandTree { root: TreeNode::default(), leaves: Vec::new() };
    proof {
        assert(leaf_models(tree.leaves@) =~= Seq::empty());
    }
    match root {
        MappingRoot::Flat(flat) => {
            let mut i: usize = 0;
            while i < flat.commands.len()
                invariant
                    i <= flat.commands@.len(),
                    tree.model() == spec_flat_upto(flat.commands@, i as int),
                decreases flat.commands@.len() - i,
            {
                tree = add_flat(tree, &flat.commands[i]);
                i += 1;
            }
        },
        MappingRoot::Hier(hier) => {
            let top: Vec<String> = Vec::new();
            proof {
                assert(views(top@) =~= Seq::empty());
            }
            let mut i: usize = 0;
            while i < hier.commands.len()
                invariant
                    i <= hier.commands@.len(),
                    views(top@) == Seq::<Seq<char>>::empty(),
                    tree.model() == spec_groups_upto(
                        hier.commands@,
                        common_models(hier.common_args@),
                        i as int,
                    ),
                decreases hier.commands@.len() - i,
            {
                tree = walk_group(tree, &top, &hier.commands[i], &hier.common_args);
                i += 1;
            }
        },
    }
    tree
}

} // verus!
