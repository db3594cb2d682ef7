//! Showing a JSON document to a human reader: scalar fields aligned, lists
//! as tables.

use vstd::prelude::*;
use crate::table::{
    humanize_column_label_with_modifier, parse_column_spec, spec_column, spec_humanize,
    spec_unit_suffix, ColumnModel, ColumnSpec, SizeModifier,
};
use crate::text::{
    chars_of, find_from, push_decimal, push_text, spec_decimal, spec_find_from, spec_words,
    string_of, text_eq, views, words,
};

verus! {

/// A size in each of the three units, as texts.
#[derive(Debug, Clone)]
pub struct SizeTexts {
    pub gigabytes: String,
    pub megabytes: String,
    pub kilobytes: String,
}

/// What the texts of a size say.
pub struct SizeModel {
    pub gigabytes: Seq<char>,
    pub megabytes: Seq<char>,
    pub kilobytes: Seq<char>,
}

impl View for SizeTexts {
    type V = SizeModel;

    open spec fn view(&self) -> SizeModel {
        SizeModel {
            gigabytes: self.gigabytes@,
            megabytes: self.megabytes@,
            kilobytes: self.kilobytes@,
        }
    }
}

/// A JSON document, with the texts under which its values are shown.
#[derive(Debug)]
pub enum JsonNode {
    Null,
    Bool(bool),
    /// A number: its notation, and its texts as a size.
    Number { text: String, sizes: Option<SizeTexts> },
    /// A string: its text, and its texts as a size where it reads as a
    /// number.
    Text { text: String, sizes: Option<SizeTexts> },
    /// An array: its items, and its compact JSON text.
    Array { items: Vec<JsonNode>, text: String },
    /// An object: its fields in their order, and its compact JSON text.
    Object { fields: Vec<(String, JsonNode)>, text: String },
}

/// What a document says.
pub enum NodeModel {
    Null,
    Bool(bool),
    Number { text: Seq<char>, sizes: Option<SizeModel> },
    Text { text: Seq<char>, sizes: Option<SizeModel> },
    Array { items: Seq<NodeModel>, text: Seq<char> },
    Object { fields: Seq<(Seq<char>, NodeModel)>, text: Seq<char> },
}

/// What optional size texts say.
pub open spec fn opt_sizes(o: Option<SizeTexts>) -> Option<SizeModel> {
    match o {
        Some(s) => Some(s@),
        None => None,
    }
}

impl JsonNode {
    /// What the document says.
    pub open spec fn model(self) -> NodeModel
        decreases self,
    {
        match self {
            JsonNode::Null => NodeModel::Null,
            JsonNode::Bool(b) => NodeModel::Bool(b),
            JsonNode::Number { text, sizes } => NodeModel::Number {
                text: text@,
                sizes: opt_sizes(sizes),
            },
            JsonNode::Text { text, sizes } => NodeModel::Text {
                text: text@,
                sizes: opt_sizes(sizes),
            },
            JsonNode::Array { items, text } => NodeModel::Array {
                items: Seq::new(
                    items@.len(),
                    |i: int|
                        if 0 <= i < items@.len() {
                            items@[i].model()
                        } else {
                            NodeModel::Null
                        },
                ),
                text: text@,
            },
            JsonNode::Object { fields, text } => NodeModel::Object {
                fields: Seq::new(
                    fields@.len(),
                    |i: int|
                        if 0 <= i < fields@.len() {
                            (fields@[i].0@, fields@[i].1.model())
                        } else {
                            (Seq::empty(), NodeModel::Null)
                        },
                ),
                text: text@,
            },
        }
    }
}

/// What the documents `v` say.
pub open spec fn node_models(v: Seq<JsonNode>) -> Seq<NodeModel> {
    Seq::new(v.len(), |i: int| v[i].model())
}

/// The text of a value: `null`, `true` or `false`, the notation of a number,
/// the text of a string, and the compact JSON text of an array or object.
pub open spec fn spec_scalar_text(m: NodeModel) -> Seq<char> {
    match m {
        NodeModel::Null => "null"@,
        NodeModel::Bool(b) => if b {
            "true"@
        } else {
            "false"@
        },
        NodeModel::Number { text, .. } => text,
        NodeModel::Text { text, .. } => text,
        NodeModel::Array { text, .. } => text,
        NodeModel::Object { text, .. } => text,
    }
}

/// The text of a value.
pub fn scalar_to_string(v: &JsonNode) -> (s: String)
    ensures
        s@ == spec_scalar_text(v.model()),
{
    match v {
        JsonNode::Null => "null".to_owned(),
        JsonNode::Bool(b) => if *b {
            "true".to_owned()
        } else {
            "false".to_owned()
        },
        JsonNode::Number { text, .. } => text.clone(),
        JsonNode::Text { text, .. } => text.clone(),
        JsonNode::Array { text, .. } => text.clone(),
        JsonNode::Object { text, .. } => text.clone(),
    }
}

/// The text of a size in the unit `unit`.
pub open spec fn spec_size_text(sizes: SizeModel, unit: SizeModifier) -> Seq<char> {
    match unit {
        SizeModifier::Gigabytes => sizes.gigabytes,
        SizeModifier::Megabytes => sizes.megabytes,
        SizeModifier::Kilobytes => sizes.kilobytes,
    }
}

/// The text of a value in a column: with a unit, a number and a string that
/// reads as a number are shown as a size in that unit; everything else is
/// shown as it is.
pub open spec fn spec_cell_text(m: NodeModel, modifier: Option<SizeModifier>) -> Seq<char> {
    match modifier {
        None => spec_scalar_text(m),
        Some(unit) => match m {
            NodeModel::Number { text, sizes } => match sizes {
                Some(sizes) => spec_size_text(sizes, unit),
                None => text,
            },
            NodeModel::Text { text, sizes } => match sizes {
                Some(sizes) => spec_size_text(sizes, unit),
                None => text,
            },
            _ => spec_scalar_text(m),
        },
    }
}

fn size_text(sizes: &SizeTexts, unit: SizeModifier) -> (s: String)
    ensures
        s@ == spec_size_text(sizes@, unit),
{
    match unit {
        SizeModifier::Gigabytes => sizes.gigabytes.clone(),
        SizeModifier::Megabytes => sizes.megabytes.clone(),
        SizeModifier::Kilobytes => sizes.kilobytes.clone(),
    }
}

/// The text of a value in a column with the unit `modifier`.
pub fn scalar_to_string_with_modifier(v: &JsonNode, modifier: &Option<SizeModifier>) -> (s: String)
    ensures
        s@ == spec_cell_text(v.model(), *modifier),
{
    match modifier {
        None => scalar_to_string(v),
        Some(unit) => match v {
            JsonNode::Number { text, sizes } => match sizes {
                Some(sizes) => size_text(sizes, *unit),
                None => text.clone(),
            },
            JsonNode::Text { text, sizes } => match sizes {
                Some(sizes) => size_text(sizes, *unit),
                None => text.clone(),
            },
            _ => scalar_to_string(v),
        },
    }
}

/// The index of the first field at or after `from` named `key`, or the
/// number of fields where there is none.
pub open spec fn spec_field_index(fields: Seq<(Seq<char>, NodeModel)>, key: Seq<char>, from: int) -> int
    decreases fields.len() - from,
{
    if from < 0 || from >= fields.len() {
        fields.len() as int
    } else if fields[from].0 == key {
        from
    } else {
        spec_field_index(fields, key, from + 1)
    }
}

/// The value under `key` in `m`: that of the first field of that name where
/// `m` is an object that has one, else `null`.
pub open spec fn spec_member(m: NodeModel, key: Seq<char>) -> NodeModel {
    match m {
        NodeModel::Object { fields, .. } => {
            let i = spec_field_index(fields, key, 0);
            if 0 <= i < fields.len() {
                fields[i].1
            } else {
                NodeModel::Null
            }
        },
        _ => NodeModel::Null,
    }
}

/// The value that the dotted path `path[from..]` leads to from `m`: each
/// segment between dots names a member, and a member that is missing is
/// `null`.
pub open spec fn spec_value_at(m: NodeModel, path: Seq<char>, from: int) -> NodeModel
    decreases path.len() - from,
{
    if from < 0 || from > path.len() {
        NodeModel::Null
    } else {
        let end = spec_find_from(path, '.', from);
        if end >= path.len() {
            spec_member(m, path.skip(from))
        } else if end < from {
            NodeModel::Null
        } else {
            spec_value_at(spec_member(m, path.subrange(from, end)), path, end + 1)
        }
    }
}

/// The value under `key` in `v`, where `v` is an object that has one.
fn member<'a>(v: &'a JsonNode, key: &str) -> (r: Option<&'a JsonNode>)
    ensures
        (match r {
            Some(n) => n.model(),
            None => NodeModel::Null,
        }) == spec_member(v.model(), key@),
{
    match v {
        JsonNode::Object { fields, .. } => {
            let ghost models = v.model()->Object_fields;
            let mut i: usize = 0;
            while i < fields.len()
                invariant
                    i <= fields@.len(),
                    v.model() is Object,
                    models == v.model()->Object_fields,
                    models.len() == fields@.len(),
                    forall|k: int|
                        0 <= k < fields@.len() ==> models[k] == (
                            fields@[k].0@,
                            fields@[k].1.model(),
                        ),
                    spec_field_index(models, key@, 0) == spec_field_index(models, key@, i as int),
                decreases fields@.len() - i,
            {
                proof {
                    assert(models[i as int] == (fields@[i as int].0@, fields@[i as int].1.model()));
                }
                if text_eq(fields[i].0.as_str(), key) {
                    return Some(&fields[i].1);
                }
                i += 1;
            }
            None
        },
        _ => None,
    }
}

/// The value that the dotted path `path` leads to from `v`; `None` stands
/// for `null`.
pub fn get_value_by_path<'a>(v: &'a JsonNode, path: &str) -> (r: Option<&'a JsonNode>)
    ensures
        (match r {
            Some(n) => n.model(),
            None => NodeModel::Null,
        }) == spec_value_at(v.model(), path@, 0),
{
    let p = chars_of(path);
    let mut current: Option<&'a JsonNode> = Some(v);
    let mut from: usize = 0;
    loop
        invariant
            from <= p.len(),
            p@ == path@,
            spec_value_at(v.model(), path@, 0) == spec_value_at(
                match current {
                    Some(n) => n.model(),
                    None => NodeModel::Null,
                },
                path@,
                from as int,
            ),
        decreases p.len() - from,
    {
        let end = find_from(&p, '.', from);
        let segment = if end >= p.len() {
            string_of(&p, from, p.len())
        } else {
            string_of(&p, from, end)
        };
        proof {
            assert(p@.subrange(from as int, p.len() as int) == p@.skip(from as int));
        }
        current = match current {
            Some(node) => member(node, segment.as_str()),
            None => None,
        };
        if end >= p.len() {
            return current;
        }
        from = end + 1;
    }
}

/// What the fields `v` say.
pub open spec fn field_models(v: Seq<(String, JsonNode)>) -> Seq<(Seq<char>, NodeModel)> {
    Seq::new(v.len(), |i: int| (v[i].0@, v[i].1.model()))
}

proof fn lemma_object_model(node: JsonNode)
    requires
        node is Object,
    ensures
        node.model() == (NodeModel::Object {
            fields: field_models(node->Object_fields@),
            text: node->Object_text@,
        }),
{
    assert(node.model()->Object_fields =~= field_models(node->Object_fields@));
}

proof fn lemma_array_model(node: JsonNode)
    requires
        node is Array,
    ensures
        node.model() == (NodeModel::Array {
            items: node_models(node->Array_items@),
            text: node->Array_text@,
        }),
{
    assert(node.model()->Array_items =~= node_models(node->Array_items@));
}

/// The names `names` with `name`, which is added at the end unless it is
/// among them already.
pub open spec fn spec_with_name(names: Seq<Seq<char>>, name: Seq<char>) -> Seq<Seq<char>> {
    if names.contains(name) {
        names
    } else {
        names.push(name)
    }
}

/// The names with those of the first `n` fields of the object under `key`,
/// each written as `key.field`.
pub open spec fn spec_inner_names(
    names: Seq<Seq<char>>,
    key: Seq<char>,
    inner: Seq<(Seq<char>, NodeModel)>,
    n: int,
) -> Seq<Seq<char>>
    decreases n,
{
    if n <= 0 || n > inner.len() {
        names
    } else {
        spec_with_name(spec_inner_names(names, key, inner, n - 1), key + "."@ + inner[n - 1].0)
    }
}

/// The names with those of the first `n` fields of a row: a field that
/// holds an object gives the names of its fields, any other gives its own.
pub open spec fn spec_field_names(
    names: Seq<Seq<char>>,
    fields: Seq<(Seq<char>, NodeModel)>,
    n: int,
) -> Seq<Seq<char>>
    decreases n,
{
    if n <= 0 || n > fields.len() {
        names
    } else {
        let before = spec_field_names(names, fields, n - 1);
        match fields[n - 1].1 {
            NodeModel::Object { fields: inner, .. } => spec_inner_names(
                before,
                fields[n - 1].0,
                inner,
                inner.len() as int,
            ),
            _ => spec_with_name(before, fields[n - 1].0),
        }
    }
}

/// The names of the columns that the first `n` rows give, in the order in
/// which they are met; a row that is no object gives none.
pub open spec fn spec_row_names(items: Seq<NodeModel>, n: int) -> Seq<Seq<char>>
    decreases n,
{
    if n <= 0 || n > items.len() {
        Seq::empty()
    } else {
        let before = spec_row_names(items, n - 1);
        match items[n - 1] {
            NodeModel::Object { fields, .. } => spec_field_names(before, fields, fields.len() as int),
            _ => before,
        }
    }
}

/// The columns of a table: those of the hints, where there are hints, else
/// those that the rows give.
pub open spec fn spec_columns(items: Seq<NodeModel>, hints: Option<Seq<Seq<char>>>) -> Seq<
    ColumnModel,
> {
    let names = match hints {
        Some(hints) => hints,
        None => spec_row_names(items, items.len() as int),
    };
    Seq::new(names.len(), |i: int| spec_column(names[i]))
}

/// What the columns `v` say.
pub open spec fn column_models(v: Seq<ColumnSpec>) -> Seq<ColumnModel> {
    Seq::new(v.len(), |i: int| v[i]@)
}

fn add_name(names: &mut Vec<String>, name: String)
    ensures
        views(final(names)@) == spec_with_name(views(old(names)@), name@),
{
    let ghost before = views(names@);
    let mut i: usize = 0;
    while i < names.len()
        invariant
            i <= names@.len(),
            before == views(names@),
            forall|k: int| 0 <= k < i ==> before[k] != name@,
        decreases names@.len() - i,
    {
        if text_eq(names[i].as_str(), name.as_str()) {
            proof {
                assert(before[i as int] == name@);
            }
            return;
        }
        i += 1;
    }
    proof {
        if before.contains(name@) {
            let k = choose|k: int| 0 <= k < before.len() && before[k] == name@;
            assert(before[k] != name@);
        }
    }
    names.push(name);
    proof {
        assert(views(names@) =~= before.push(name@));
    }
}

fn add_inner_names(names: &mut Vec<String>, key: &str, inner: &Vec<(String, JsonNode)>)
    ensures
        views(final(names)@) == spec_inner_names(
            views(old(names)@),
            key@,
            field_models(inner@),
            inner@.len() as int,
        ),
{
    let mut i: usize = 0;
    while i < inner.len()
        invariant
            i <= inner@.len(),
            views(names@) == spec_inner_names(
                views(old(names)@),
                key@,
                field_models(inner@),
                i as int,
            ),
        decreases inner@.len() - i,
    {
        let mut name = String::new();
        push_text(&mut name, key);
        push_text(&mut name, ".");
        push_text(&mut name, inner[i].0.as_str());
        proof {
            assert(name@ =~= key@ + "."@ + field_models(inner@)[i as int].0);
        }
        add_name(names, name);
        i += 1;
    }
}

fn add_field_names(names: &mut Vec<String>, fields: &Vec<(String, JsonNode)>)
    ensures
        views(final(names)@) == spec_field_names(
            views(old(names)@),
            field_models(fields@),
            fields@.len() as int,
        ),
{
    let mut i: usize = 0;
    while i < fields.len()
        invariant
            i <= fields@.len(),
            views(names@) == spec_field_names(
                views(old(names)@),
                field_models(fields@),
                i as int,
            ),
        decreases fields@.len() - i,
    {
        proof {
            assert(field_models(fields@)[i as int] == (
                fields@[i as int].0@,
                fields@[i as int].1.model(),
            ));
        }
        match &fields[i].1 {
            JsonNode::Object { fields: inner, .. } => {
                proof {
                    lemma_object_model(fields@[i as int].1);
                }
                add_inner_names(names, fields[i].0.as_str(), inner);
            },
            _ => {
                add_name(names, fields[i].0.clone());
            },
        }
        i += 1;
    }
}

/// The columns of a table of the rows `items`, with the column hints
/// `table_view` where there are any.
pub fn table_columns(items: &Vec<JsonNode>, table_view: Option<&Vec<String>>) -> (columns: Vec<
    ColumnSpec,
>)
    ensures
        column_models(columns@) == spec_columns(
            node_models(items@),
            match table_view {
                Some(hints) => Some(views(hints@)),
                None => None,
            },
        ),
{
    let mut derived: Vec<String> = Vec::new();
    let names: &Vec<String> = match table_view {
        Some(hints) => hints,
        None => {
            let mut i: usize = 0;
            proof {
                assert(views(derived@) =~= Seq::empty());
            }
            while i < items.len()
                invariant
                    i <= items@.len(),
                    views(derived@) == spec_row_names(node_models(items@), i as int),
                decreases items@.len() - i,
            {
                match &items[i] {
                    JsonNode::Object { fields, .. } => {
                        proof {
                            lemma_object_model(items@[i as int]);
                        }
                        add_field_names(&mut derived, fields);
                    },
                    _ => {},
                }
                i += 1;
            }
            &derived
        },
    };
    let mut columns: Vec<ColumnSpec> = Vec::new();
    let mut k: usize = 0;
    while k < names.len()
        invariant
            k <= names@.len(),
            columns@.len() == k,
            forall|j: int| 0 <= j < k ==> columns@[j]@ == spec_column(names@[j]@),
        decreases names@.len() - k,
    {
        columns.push(parse_column_spec(names[k].as_str()));
        k += 1;
    }
    proof {
        assert(column_models(columns@) =~= Seq::new(
            names@.len(),
            |i: int| spec_column(views(names@)[i]),
        ));
    }
    columns
}

/// The text of `n` times the character `c`.
pub open spec fn spec_repeat(c: char, n: int) -> Seq<char> {
    Seq::new(
        if n > 0 {
            n as nat
        } else {
            0
        },
        |i: int| c,
    )
}

/// The text `s` filled up with spaces to `width` characters.
pub open spec fn spec_padded(s: Seq<char>, width: int) -> Seq<char> {
    s + spec_repeat(' ', width - s.len())
}

/// The length of a text in bytes.
pub open spec fn spec_byte_len(s: Seq<char>) -> usize {
    vstd::utf8::encode_utf8(s).len() as usize
}

fn push_repeated(out: &mut String, c: char, n: usize)
    ensures
        final(out)@ == old(out)@ + spec_repeat(c, n as int),
{
    let mut i: usize = 0;
    proof {
        assert(out@ =~= old(out)@ + spec_repeat(c, 0));
    }
    while i < n
        invariant
            i <= n,
            out@ == old(out)@ + spec_repeat(c, i as int),
        decreases n - i,
    {
        out.push(c);
        i += 1;
        proof {
            assert(out@ =~= old(out)@ + spec_repeat(c, i as int));
        }
    }
}

fn push_padded(out: &mut String, s: &str, width: usize)
    ensures
        final(out)@ == old(out)@ + spec_padded(s@, width as int),
{
    push_text(out, s);
    let count = chars_of(s).len();
    if count < width {
        push_repeated(out, ' ', width - count);
    } else {
        proof {
            assert(spec_repeat(' ', width - s@.len()) =~= Seq::empty());
        }
    }
    proof {
        assert(out@ =~= old(out)@ + spec_padded(s@, width as int));
    }
}

/// The words of the label of a column: those of its name made readable,
/// and its unit.
pub open spec fn spec_header_words(column: ColumnModel) -> Seq<Seq<char>> {
    spec_words(spec_humanize(column.path) + spec_unit_suffix(column.modifier))
}

/// The greatest length in bytes among the first `n` of `parts`, or 0.
pub open spec fn spec_widest(parts: Seq<Seq<char>>, n: int) -> usize
    decreases n,
{
    if n <= 0 || n > parts.len() {
        0
    } else {
        let before = spec_widest(parts, n - 1);
        if spec_byte_len(parts[n - 1]) > before {
            spec_byte_len(parts[n - 1])
        } else {
            before
        }
    }
}

/// The text of the row `item` in the column `column`.
pub open spec fn spec_cell(item: NodeModel, column: ColumnModel) -> Seq<char> {
    spec_cell_text(spec_value_at(item, column.path, 0), column.modifier)
}

/// The width of a column after the first `n` rows: the greatest length in
/// bytes among the words of its label and its cells in the rows that are
/// objects.
pub open spec fn spec_column_width(items: Seq<NodeModel>, column: ColumnModel, n: int) -> usize
    decreases n,
{
    if n <= 0 || n > items.len() {
        spec_widest(spec_header_words(column), spec_header_words(column).len() as int)
    } else {
        let before = spec_column_width(items, column, n - 1);
        if items[n - 1] is Object && spec_byte_len(spec_cell(items[n - 1], column)) > before {
            spec_byte_len(spec_cell(items[n - 1], column))
        } else {
            before
        }
    }
}

/// The widths of the columns.
pub open spec fn spec_widths(items: Seq<NodeModel>, columns: Seq<ColumnModel>) -> Seq<usize> {
    Seq::new(columns.len(), |c: int| spec_column_width(items, columns[c], items.len() as int))
}

/// The line that separates the parts of a table, up to the first `n`
/// columns: `+`, and for each column dashes over its width and a `+`.
pub open spec fn spec_separator(widths: Seq<usize>, n: int) -> Seq<char>
    decreases n,
{
    if n <= 0 || n > widths.len() {
        seq!['+']
    } else {
        spec_separator(widths, n - 1) + spec_repeat('-', (widths[n - 1] + 2) as int) + seq!['+']
    }
}

/// A line of a table up to the first `n` columns: each cell filled up to
/// the width of its column, with a space on either side, between bars.
pub open spec fn spec_table_line(cells: Seq<Seq<char>>, widths: Seq<usize>, n: int) -> Seq<char>
    decreases n,
{
    if n <= 0 || n > cells.len() || n > widths.len() {
        seq!['|']
    } else {
        spec_table_line(cells, widths, n - 1) + seq![' '] + spec_padded(
            cells[n - 1],
            widths[n - 1] as int,
        ) + seq![' ', '|']
    }
}

/// The cells of the line `line` of the header: for each column the word of
/// its label that stands on that line, or nothing.
pub open spec fn spec_header_cells(columns: Seq<ColumnModel>, line: int) -> Seq<Seq<char>> {
    Seq::new(
        columns.len(),
        |c: int|
            if 0 <= line < spec_header_words(columns[c]).len() {
                spec_header_words(columns[c])[line]
            } else {
                Seq::empty()
            },
    )
}

/// The number of lines of the header over the first `n` columns: that of
/// the label with the most words.
pub open spec fn spec_header_height(columns: Seq<ColumnModel>, n: int) -> nat
    decreases n,
{
    if n <= 0 || n > columns.len() {
        0
    } else {
        let before = spec_header_height(columns, n - 1);
        if spec_header_words(columns[n - 1]).len() > before {
            spec_header_words(columns[n - 1]).len()
        } else {
            before
        }
    }
}

/// The cells of a row.
pub open spec fn spec_row_cells(item: NodeModel, columns: Seq<ColumnModel>) -> Seq<Seq<char>> {
    Seq::new(columns.len(), |c: int| spec_cell(item, columns[c]))
}

/// The lines of the first `n` lines of the header.
pub open spec fn spec_header_lines(columns: Seq<ColumnModel>, widths: Seq<usize>, n: int) -> Seq<
    Seq<char>,
>
    decreases n,
{
    if n <= 0 {
        Seq::empty()
    } else {
        spec_header_lines(columns, widths, n - 1).push(
            spec_table_line(spec_header_cells(columns, n - 1), widths, columns.len() as int),
        )
    }
}

/// The lines of the first `n` rows; a row that is no object has no line.
pub open spec fn spec_row_lines(
    items: Seq<NodeModel>,
    columns: Seq<ColumnModel>,
    widths: Seq<usize>,
    n: int,
) -> Seq<Seq<char>>
    decreases n,
{
    if n <= 0 || n > items.len() {
        Seq::empty()
    } else {
        let before = spec_row_lines(items, columns, widths, n - 1);
        if items[n - 1] is Object {
            before.push(
                spec_table_line(spec_row_cells(items[n - 1], columns), widths, columns.len() as int),
            )
        } else {
            before
        }
    }
}

/// The lines of the first `n` rows of a list without columns: the number
/// of each row, filled up to six characters, and its text.
pub open spec fn spec_plain_lines(items: Seq<NodeModel>, n: int) -> Seq<Seq<char>>
    decreases n,
{
    if n <= 0 || n > items.len() {
        Seq::empty()
    } else {
        spec_plain_lines(items, n - 1).push(
            spec_padded(spec_decimal((n - 1) as nat), 6) + seq![' '] + spec_scalar_text(
                items[n - 1],
            ),
        )
    }
}

/// The lines of the table of a list. An empty list is shown as `(empty)`.
/// A list without columns is shown row by row. Any other is shown with a
/// separator, the header, a separator, the rows and a separator.
pub open spec fn spec_table(items: Seq<NodeModel>, hints: Option<Seq<Seq<char>>>) -> Seq<Seq<char>> {
    let columns = spec_columns(items, hints);
    let widths = spec_widths(items, columns);
    let separator = spec_separator(widths, widths.len() as int);
    if items.len() == 0 {
        seq!["(empty)"@]
    } else if columns.len() == 0 {
        spec_plain_lines(items, items.len() as int)
    } else {
        seq![separator] + spec_header_lines(
            columns,
            widths,
            spec_header_height(columns, columns.len() as int) as int,
        ) + seq![separator] + spec_row_lines(items, columns, widths, items.len() as int) + seq![
            separator,
        ]
    }
}

fn widest(parts: &Vec<String>) -> (w: usize)
    ensures
        w == spec_widest(views(parts@), parts@.len() as int),
{
    let mut w: usize = 0;
    let mut i: usize = 0;
    while i < parts.len()
        invariant
            i <= parts@.len(),
            w == spec_widest(views(parts@), i as int),
        decreases parts@.len() - i,
    {
        let len = parts[i].as_str().len();
        proof {
            assert(views(parts@)[i as int] == parts@[i as int]@);
        }
        if len > w {
            w = len;
        }
        i += 1;
    }
    w
}

fn cell_of(item: &JsonNode, column: &ColumnSpec) -> (s: String)
    ensures
        s@ == spec_cell(item.model(), column@),
{
    match get_value_by_path(item, column.path.as_str()) {
        Some(v) => scalar_to_string_with_modifier(v, &column.modifier),
        None => scalar_to_string_with_modifier(&JsonNode::Null, &column.modifier),
    }
}

fn header_words(column: &ColumnSpec) -> (w: Vec<String>)
    ensures
        views(w@) == spec_header_words(column@),
{
    let label = humanize_column_label_with_modifier(column.path.as_str(), &column.modifier);
    let chars = chars_of(label.as_str());
    words(&chars)
}

fn column_width(items: &Vec<JsonNode>, column: &ColumnSpec, header: &Vec<String>) -> (w: usize)
    requires
        views(header@) == spec_header_words(column@),
    ensures
        w == spec_column_width(node_models(items@), column@, items@.len() as int),
{
    let mut w = widest(header);
    let mut i: usize = 0;
    while i < items.len()
        invariant
            i <= items@.len(),
            w == spec_column_width(node_models(items@), column@, i as int),
        decreases items@.len() - i,
    {
        proof {
            assert(node_models(items@)[i as int] == items@[i as int].model());
        }
        match &items[i] {
            JsonNode::Object { .. } => {
                let cell = cell_of(&items[i], column);
                let len = cell.as_str().len();
                if len > w {
                    w = len;
                }
            },
            _ => {},
        }
        i += 1;
    }
    w
}

fn separator(widths: &Vec<usize>) -> (line: String)
    ensures
        line@ == spec_separator(widths@, widths@.len() as int),
{
    let mut line = String::new();
    line.push('+');
    let mut i: usize = 0;
    proof {
        assert(line@ =~= seq!['+']);
    }
    while i < widths.len()
        invariant
            i <= widths@.len(),
            line@ == spec_separator(widths@, i as int),
        decreases widths@.len() - i,
    {
        let ghost before = line@;
        let w = widths[i];
        push_repeated(&mut line, '-', w);
        line.push('-');
        line.push('-');
        line.push('+');
        i += 1;
        proof {
            assert(spec_repeat('-', w as int).push('-').push('-') =~= spec_repeat('-', w + 2));
            assert(line@ =~= before + spec_repeat('-', w + 2) + seq!['+']);
        }
    }
    line
}

fn table_line(cells: &Vec<String>, widths: &Vec<usize>) -> (line: String)
    requires
        cells@.len() == widths@.len(),
    ensures
        line@ == spec_table_line(views(cells@), widths@, cells@.len() as int),
{
    let mut line = String::new();
    line.push('|');
    let mut i: usize = 0;
    proof {
        assert(line@ =~= seq!['|']);
    }
    while i < cells.len()
        invariant
            i <= cells@.len(),
            cells@.len() == widths@.len(),
            line@ == spec_table_line(views(cells@), widths@, i as int),
        decreases cells@.len() - i,
    {
        let ghost before = line@;
        line.push(' ');
        push_padded(&mut line, cells[i].as_str(), widths[i]);
        line.push(' ');
        line.push('|');
        i += 1;
        proof {
            assert(views(cells@)[i - 1] == cells@[i - 1]@);
            assert(line@ =~= before + seq![' '] + spec_padded(
                cells@[i - 1]@,
                widths@[i - 1] as int,
            ) + seq![' ', '|']);
        }
    }
    line
}

/// The lines of the table of the list `items`, with the column hints
/// `table_view` where there are any.
pub fn table_lines(items: &Vec<JsonNode>, table_view: Option<&Vec<String>>) -> (lines: Vec<String>)
    ensures
        views(lines@) == spec_table(
            node_models(items@),
            match table_view {
                Some(hints) => Some(views(hints@)),
                None => None,
            },
        ),
{
    let ghost rows = node_models(items@);
    let ghost hints = match table_view {
        Some(hints) => Some(views(hints@)),
        None => None,
    };
    let mut lines: Vec<String> = Vec::new();
    if items.len() == 0 {
        lines.push("(empty)".to_owned());
        proof {
            assert(views(lines@) =~= seq!["(empty)"@]);
        }
        return lines;
    }
    let columns = table_columns(items, table_view);
    let ghost cols = column_models(columns@);
    if columns.len() == 0 {
        let mut i: usize = 0;
        proof {
            assert(views(lines@) =~= Seq::empty());
        }
        while i < items.len()
            invariant
                i <= items@.len(),
                rows == node_models(items@),
                views(lines@) == spec_plain_lines(rows, i as int),
            decreases items@.len() - i,
        {
            let ghost before = views(lines@);
            let mut number = String::new();
            push_decimal(&mut number, i as u64);
            let mut line = String::new();
            push_padded(&mut line, number.as_str(), 6);
            line.push(' ');
            let text = scalar_to_string(&items[i]);
            push_text(&mut line, text.as_str());
            proof {
                assert(rows[i as int] == items@[i as int].model());
                assert(number@ =~= spec_decimal(i as nat));
                assert(line@ =~= spec_padded(spec_decimal(i as nat), 6) + seq![' ']
                    + spec_scalar_text(rows[i as int]));
            }
            lines.push(line);
            i += 1;
            proof {
                assert(views(lines@) =~= before.push(lines@[lines@.len() - 1]@));
            }
        }
        return lines;
    }
    // The words of each label, the height of the header and the widths
    let mut headers: Vec<Vec<String>> = Vec::new();
    let mut widths: Vec<usize> = Vec::new();
    let mut height: usize = 0;
    let mut c: usize = 0;
    while c < columns.len()
        invariant
            c <= columns@.len(),
            cols == column_models(columns@),
            rows == node_models(items@),
            headers@.len() == c,
            widths@.len() == c,
            forall|k: int| 0 <= k < c ==> views(#[trigger] headers@[k]@) == spec_header_words(cols[k]),
            forall|k: int|
                0 <= k < c ==> (#[trigger] widths@[k]) == spec_column_width(
                    rows,
                    cols[k],
                    rows.len() as int,
                ),
            height == spec_header_height(cols, c as int),
        decreases columns@.len() - c,
    {
        proof {
            assert(cols[c as int] == columns@[c as int]@);
        }
        let header = header_words(&columns[c]);
        let width = column_width(items, &columns[c], &header);
        if header.len() > height {
            height = header.len();
        }
        headers.push(header);
        widths.push(width);
        c += 1;
    }
    proof {
        assert(widths@ =~= spec_widths(rows, cols));
    }
    let ghost ws = spec_widths(rows, cols);
    let sep = separator(&widths);
    lines.push(sep.clone());
    proof {
        assert(views(lines@) =~= seq![sep@] + spec_header_lines(cols, ws, 0));
    }
    let mut l: usize = 0;
    while l < height
        invariant
            l <= height,
            cols == column_models(columns@),
            ws == widths@,
            headers@.len() == columns@.len(),
            widths@.len() == columns@.len(),
            forall|k: int|
                0 <= k < columns@.len() ==> views(#[trigger] headers@[k]@) == spec_header_words(
                    cols[k],
                ),
            views(lines@) == seq![sep@] + spec_header_lines(cols, ws, l as int),
        decreases height - l,
    {
        let ghost before = views(lines@);
        let mut cells: Vec<String> = Vec::new();
        let mut k: usize = 0;
        while k < columns.len()
            invariant
                k <= columns@.len(),
                cols == column_models(columns@),
                headers@.len() == columns@.len(),
                forall|j: int|
                    0 <= j < columns@.len() ==> views(#[trigger] headers@[j]@)
                        == spec_header_words(cols[j]),
                cells@.len() == k,
                forall|j: int|
                    0 <= j < k ==> (#[trigger] cells@[j])@ == spec_header_cells(cols, l as int)[j],
            decreases columns@.len() - k,
        {
            proof {
                assert(views(headers@[k as int]@) == spec_header_words(cols[k as int]));
            }
            let cell = if l < headers[k].len() {
                proof {
                    assert(views(headers@[k as int]@)[l as int] == headers@[k as int]@[l as int]@);
                }
                headers[k][l].clone()
            } else {
                String::new()
            };
            cells.push(cell);
            k += 1;
        }
        proof {
            assert(views(cells@) =~= spec_header_cells(cols, l as int));
        }
        let line = table_line(&cells, &widths);
        lines.push(line);
        l += 1;
        proof {
            assert(views(lines@) =~= before.push(lines@[lines@.len() - 1]@));
        }
    }
    lines.push(sep.clone());
    let ghost head = seq![sep@] + spec_header_lines(cols, ws, height as int) + seq![sep@];
    proof {
        assert(views(lines@) =~= head + spec_row_lines(rows, cols, ws, 0));
    }
    let mut r: usize = 0;
    while r < items.len()
        invariant
            r <= items@.len(),
            cols == column_models(columns@),
            rows == node_models(items@),
            ws == widths@,
            widths@.len() == columns@.len(),
            views(lines@) == head + spec_row_lines(rows, cols, ws, r as int),
        decreases items@.len() - r,
    {
        let ghost before = views(lines@);
        proof {
            assert(rows[r as int] == items@[r as int].model());
        }
        match &items[r] {
            JsonNode::Object { .. } => {
                let mut cells: Vec<String> = Vec::new();
                let mut k: usize = 0;
                while k < columns.len()
                    invariant
                        k <= columns@.len(),
                        r < items@.len(),
                        cols == column_models(columns@),
                        cells@.len() == k,
                        forall|j: int|
                            0 <= j < k ==> (#[trigger] cells@[j])@ == spec_cell(
                                items@[r as int].model(),
                                cols[j],
                            ),
                    decreases columns@.len() - k,
                {
                    proof {
                        assert(cols[k as int] == columns@[k as int]@);
                    }
                    cells.push(cell_of(&items[r], &columns[k]));
                    k += 1;
                }
                proof {
                    assert(views(cells@) =~= spec_row_cells(rows[r as int], cols));
                }
                let line = table_line(&cells, &widths);
                lines.push(line);
                proof {
                    assert(views(lines@) =~= before.push(lines@[lines@.len() - 1]@));
                }
            },
            _ => {},
        }
        r += 1;
    }
    lines.push(sep);
    proof {
        assert(views(lines@) =~= head + spec_row_lines(rows, cols, ws, rows.len() as int) + seq![
            sep@,
        ]);
    }
    lines
}

/// Whether the text `a`, read from `from` on, comes no later than `b` in
/// the order of texts: character by character, a text before its
/// continuations.
pub open spec fn spec_text_le(a: Seq<char>, b: Seq<char>, from: int) -> bool
    decreases a.len() - from,
{
    if from < 0 || from >= a.len() {
        true
    } else if from >= b.len() {
        false
    } else if a[from] < b[from] {
        true
    } else if a[from] > b[from] {
        false
    } else {
        spec_text_le(a, b, from + 1)
    }
}

fn text_le(a: &Vec<char>, b: &Vec<char>) -> (r: bool)
    ensures
        r == spec_text_le(a@, b@, 0),
{
    let mut i: usize = 0;
    while i < a.len()
        invariant
            i <= a.len(),
            spec_text_le(a@, b@, 0) == spec_text_le(a@, b@, i as int),
        decreases a.len() - i,
    {
        if i >= b.len() {
            return false;
        }
        if a[i] < b[i] {
            return true;
        }
        if a[i] > b[i] {
            return false;
        }
        i += 1;
    }
    true
}

/// The place at or after `from` at which a field named `key` is put among
/// the fields in `order`: before the first whose name comes later than
/// `key`.
pub open spec fn spec_place(
    fields: Seq<(Seq<char>, NodeModel)>,
    order: Seq<usize>,
    key: Seq<char>,
    from: int,
) -> int
    decreases order.len() - from,
{
    if from < 0 || from >= order.len() {
        order.len() as int
    } else if !spec_text_le(fields[order[from] as int].0, key, 0) {
        from
    } else {
        spec_place(fields, order, key, from + 1)
    }
}

/// The fields among the first `n` that hold no array, by their indices, in
/// the order of their names; fields of one name keep their order.
pub open spec fn spec_scalar_order(fields: Seq<(Seq<char>, NodeModel)>, n: int) -> Seq<usize>
    decreases n,
{
    if n <= 0 || n > fields.len() {
        Seq::empty()
    } else {
        let before = spec_scalar_order(fields, n - 1);
        if fields[n - 1].1 is Array {
            before
        } else {
            before.insert(spec_place(fields, before, fields[n - 1].0, 0), (n - 1) as usize)
        }
    }
}

/// The greatest length in bytes among the names of the first `n` fields in
/// `order`, or 0.
pub open spec fn spec_name_width(fields: Seq<(Seq<char>, NodeModel)>, order: Seq<usize>, n: int) -> usize
    decreases n,
{
    if n <= 0 || n > order.len() {
        0
    } else {
        let before = spec_name_width(fields, order, n - 1);
        if spec_byte_len(fields[order[n - 1] as int].0) > before {
            spec_byte_len(fields[order[n - 1] as int].0)
        } else {
            before
        }
    }
}

/// The lines of the first `n` fields in `order`: the name filled up to
/// `width`, a colon and the text of the value.
pub open spec fn spec_scalar_lines(
    fields: Seq<(Seq<char>, NodeModel)>,
    order: Seq<usize>,
    width: usize,
    n: int,
) -> Seq<Seq<char>>
    decreases n,
{
    if n <= 0 || n > order.len() {
        Seq::empty()
    } else {
        let field = fields[order[n - 1] as int];
        spec_scalar_lines(fields, order, width, n - 1).push(
            spec_padded(field.0, width as int) + ": "@ + spec_scalar_text(field.1),
        )
    }
}

/// The lines of the arrays among the first `n` fields: for each an empty
/// line, its name with a colon, and its table.
pub open spec fn spec_array_sections(
    fields: Seq<(Seq<char>, NodeModel)>,
    hints: Option<Seq<Seq<char>>>,
    n: int,
) -> Seq<Seq<char>>
    decreases n,
{
    if n <= 0 || n > fields.len() {
        Seq::empty()
    } else {
        let before = spec_array_sections(fields, hints, n - 1);
        match fields[n - 1].1 {
            NodeModel::Array { items, .. } => before + seq![Seq::empty(), fields[n - 1].0 + ":"@]
                + spec_table(items, hints),
            _ => before,
        }
    }
}

/// The lines that show a document to a human reader. An object shows its
/// fields that hold no array in the order of their names, the names
/// aligned, and then each array as a table under its name. An array is
/// shown as a table. Any other value is shown as its text.
pub open spec fn spec_human(m: NodeModel, hints: Option<Seq<Seq<char>>>) -> Seq<Seq<char>> {
    match m {
        NodeModel::Object { fields, .. } => {
            let order = spec_scalar_order(fields, fields.len() as int);
            let width = spec_name_width(fields, order, order.len() as int);
            spec_scalar_lines(fields, order, width, order.len() as int) + spec_array_sections(
                fields,
                hints,
                fields.len() as int,
            )
        },
        NodeModel::Array { items, .. } => spec_table(items, hints),
        _ => seq![spec_scalar_text(m)],
    }
}

fn scalar_order(fields: &Vec<(String, JsonNode)>) -> (order: Vec<usize>)
    ensures
        order@ == spec_scalar_order(field_models(fields@), fields@.len() as int),
        forall|k: int| 0 <= k < order@.len() ==> (#[trigger] order@[k]) < fields@.len(),
{
    let ghost models = field_models(fields@);
    let mut order: Vec<usize> = Vec::new();
    let mut i: usize = 0;
    while i < fields.len()
        invariant
            i <= fields@.len(),
            models == field_models(fields@),
            order@ == spec_scalar_order(models, i as int),
            forall|k: int| 0 <= k < order@.len() ==> (#[trigger] order@[k]) < i,
        decreases fields@.len() - i,
    {
        proof {
            assert(models[i as int] == (fields@[i as int].0@, fields@[i as int].1.model()));
        }
        let is_array = match &fields[i].1 {
            JsonNode::Array { .. } => true,
            _ => false,
        };
        if !is_array {
            let key = chars_of(fields[i].0.as_str());
            let mut p: usize = 0;
            loop
                invariant
                    p <= order@.len(),
                    i < fields@.len(),
                    models == field_models(fields@),
                    key@ == models[i as int].0,
                    forall|k: int| 0 <= k < order@.len() ==> (#[trigger] order@[k]) < i,
                    spec_place(models, order@, key@, 0) == spec_place(models, order@, key@, p as int),
                ensures
                    p <= order@.len(),
                    p == spec_place(models, order@, key@, 0),
                decreases order@.len() - p,
            {
                if p >= order.len() {
                    break;
                }
                let other = chars_of(fields[order[p]].0.as_str());
                proof {
                    assert(models[order@[p as int] as int] == (
                        fields@[order@[p as int] as int].0@,
                        fields@[order@[p as int] as int].1.model(),
                    ));
                }
                if !text_le(&other, &key) {
                    break;
                }
                p += 1;
            }
            let ghost before = order@;
            order.insert(p, i);
            proof {
                assert forall|k: int| 0 <= k < order@.len() implies (#[trigger] order@[k]) < i + 1 by {
                    if k < p {
                        assert(order@[k] == before[k]);
                    } else if k > p {
                        assert(order@[k] == before[k - 1]);
                    }
                }
            }
        }
        i += 1;
    }
    order
}

/// The lines that show the document `v` to a human reader, with the column
/// hints `table_view` for its tables where there are any.
pub fn human_lines(v: &JsonNode, table_view: Option<&Vec<String>>) -> (lines: Vec<String>)
    ensures
        views(lines@) == spec_human(
            v.model(),
            match table_view {
                Some(hints) => Some(views(hints@)),
                None => None,
            },
        ),
{
    let ghost hints = match table_view {
        Some(hints) => Some(views(hints@)),
        None => None,
    };
    match v {
        JsonNode::Object { fields, .. } => {
            proof {
                lemma_object_model(*v);
            }
            let ghost models = field_models(fields@);
            let order = scalar_order(fields);
            // The width of the names
            let mut width: usize = 0;
            let mut k: usize = 0;
            while k < order.len()
                invariant
                    k <= order@.len(),
                    models == field_models(fields@),
                    forall|j: int| 0 <= j < order@.len() ==> (#[trigger] order@[j]) < fields@.len(),
                    width == spec_name_width(models, order@, k as int),
                decreases order@.len() - k,
            {
                let len = fields[order[k]].0.as_str().len();
                proof {
                    assert(models[order@[k as int] as int] == (
                        fields@[order@[k as int] as int].0@,
                        fields@[order@[k as int] as int].1.model(),
                    ));
                }
                if len > width {
                    width = len;
                }
                k += 1;
            }
            let mut lines: Vec<String> = Vec::new();
            let mut k: usize = 0;
            proof {
                assert(views(lines@) =~= Seq::empty());
            }
            while k < order.len()
                invariant
                    k <= order@.len(),
                    models == field_models(fields@),
                    forall|j: int| 0 <= j < order@.len() ==> (#[trigger] order@[j]) < fields@.len(),
                    views(lines@) == spec_scalar_lines(models, order@, width, k as int),
                decreases order@.len() - k,
            {
                let ghost before = views(lines@);
                let field = &fields[order[k]];
                proof {
                    assert(models[order@[k as int] as int] == (field.0@, field.1.model()));
                }
                let mut line = String::new();
                push_padded(&mut line, field.0.as_str(), width);
                push_text(&mut line, ": ");
                let text = scalar_to_string(&field.1);
                push_text(&mut line, text.as_str());
                proof {
                    assert(line@ =~= spec_padded(field.0@, width as int) + ": "@
                        + spec_scalar_text(field.1.model()));
                }
                lines.push(line);
                k += 1;
                proof {
                    assert(views(lines@) =~= before.push(lines@[lines@.len() - 1]@));
                }
            }
            let ghost head = views(lines@);
            let mut i: usize = 0;
            proof {
                assert(views(lines@) =~= head + spec_array_sections(models, hints, 0));
            }
            while i < fields.len()
                invariant
                    i <= fields@.len(),
                    models == field_models(fields@),
                    hints == (match table_view {
                        Some(hints) => Some(views(hints@)),
                        None => None,
                    }),
                    views(lines@) == head + spec_array_sections(models, hints, i as int),
                decreases fields@.len() - i,
            {
                let ghost before = views(lines@);
                proof {
                    assert(models[i as int] == (fields@[i as int].0@, fields@[i as int].1.model()));
                }
                match &fields[i].1 {
                    JsonNode::Array { items, .. } => {
                        proof {
                            lemma_array_model(fields@[i as int].1);
                        }
                        lines.push(String::new());
                        let mut title = fields[i].0.clone();
                        push_text(&mut title, ":");
                        let ghost title_text = title@;
                        lines.push(title);
                        let table = table_lines(items, table_view);
                        let ghost start = views(lines@);
                        proof {
                            assert(start =~= before + seq![Seq::empty(), title_text]);
                        }
                        let mut t: usize = 0;
                        proof {
                            assert(views(lines@) =~= start + views(table@).take(0));
                        }
                        while t < table.len()
                            invariant
                                t <= table@.len(),
                                views(lines@) == start + views(table@).take(t as int),
                            decreases table@.len() - t,
                        {
                            let ghost so_far = views(lines@);
                            lines.push(table[t].clone());
                            t += 1;
                            proof {
                                assert(views(lines@) =~= so_far.push(table@[t - 1]@));
                                assert(views(table@).take(t as int) =~= views(table@).take(
                                    t - 1,
                                ).push(table@[t - 1]@));
                                assert(views(lines@) =~= start + views(table@).take(t as int));
                            }
                        }
                        proof {
                            assert(views(table@).take(table@.len() as int) == views(table@));
                            assert(views(lines@) =~= before + seq![Seq::empty(), title_text]
                                + views(table@));
                        }
                    },
                    _ => {},
                }
                i += 1;
            }
            lines
        },
        JsonNode::Array { items, .. } => {
            proof {
                lemma_array_model(*v);
            }
            table_lines(items, table_view)
        },
        _ => {
            let mut lines: Vec<String> = Vec::new();
            lines.push(scalar_to_string(v));
            proof {
                assert(views(lines@) =~= seq![spec_scalar_text(v.model())]);
            }
            lines
        },
    }
}

} // verus!
