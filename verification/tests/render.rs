use rclib::{
    get_value_by_path, human_lines, scalar_to_string, scalar_to_string_with_modifier,
    table_columns, table_lines, JsonNode, SizeModifier, SizeTexts,
};

fn sizes_of(bytes: f64) -> SizeTexts {
    SizeTexts {
        gigabytes: format!("{:.2}", bytes / (1024.0 * 1024.0 * 1024.0)),
        megabytes: format!("{:.2}", bytes / (1024.0 * 1024.0)),
        kilobytes: format!("{:.2}", bytes / 1024.0),
    }
}

fn to_node(v: &serde_json::Value) -> JsonNode {
    match v {
        serde_json::Value::Null => JsonNode::Null,
        serde_json::Value::Bool(b) => JsonNode::Bool(*b),
        serde_json::Value::Number(n) => {
            JsonNode::Number { text: n.to_string(), sizes: n.as_f64().map(sizes_of) }
        }
        serde_json::Value::String(s) => {
            JsonNode::Text { text: s.clone(), sizes: s.parse::<f64>().ok().map(sizes_of) }
        }
        serde_json::Value::Array(items) => JsonNode::Array {
            items: items.iter().map(to_node).collect(),
            text: serde_json::to_string(v).unwrap_or_default(),
        },
        serde_json::Value::Object(map) => JsonNode::Object {
            fields: map.iter().map(|(k, v)| (k.clone(), to_node(v))).collect(),
            text: serde_json::to_string(v).unwrap_or_default(),
        },
    }
}

fn node(text: &str) -> JsonNode {
    to_node(&serde_json::from_str(text).unwrap())
}

fn items(text: &str) -> Vec<JsonNode> {
    match node(text) {
        JsonNode::Array { items, .. } => items,
        other => panic!("expected an array, got {:?}", other),
    }
}

fn text_at(doc: &JsonNode, path: &str) -> String {
    match get_value_by_path(doc, path) {
        Some(v) => scalar_to_string(v),
        None => scalar_to_string(&JsonNode::Null),
    }
}

#[test]
fn test_scalar_to_string_null() {
    assert_eq!(scalar_to_string(&node("null")), "null");
}

#[test]
fn test_scalar_to_string_bool() {
    assert_eq!(scalar_to_string(&node("true")), "true");
    assert_eq!(scalar_to_string(&node("false")), "false");
}

#[test]
fn test_scalar_to_string_number() {
    assert_eq!(scalar_to_string(&node("42")), "42");
    assert_eq!(scalar_to_string(&node("3.15")), "3.15");
}

#[test]
fn test_scalar_to_string_string() {
    assert_eq!(scalar_to_string(&node(r#""hello""#)), "hello");
}

#[test]
fn test_scalar_to_string_object() {
    let obj = node(r#"{"key": "value"}"#);
    let result = scalar_to_string(&obj);
    assert!(result.contains("key"));
    assert_eq!(result, r#"{"key":"value"}"#);
}

#[test]
fn test_get_value_by_path_simple() {
    let json = node(r#"{"name": "John"}"#);
    let result = get_value_by_path(&json, "name");
    assert!(matches!(result, Some(JsonNode::Text { text, .. }) if text == "John"));
}

#[test]
fn test_get_value_by_path_nested() {
    let json = node(r#"{"user": {"name": "John"}}"#);
    let result = get_value_by_path(&json, "user.name");
    assert!(matches!(result, Some(JsonNode::Text { text, .. }) if text == "John"));
}

#[test]
fn test_get_value_by_path_missing() {
    let json = node(r#"{"name": "John"}"#);
    let result = get_value_by_path(&json, "missing");
    assert!(matches!(result, None | Some(JsonNode::Null)));
    assert_eq!(text_at(&json, "missing"), "null");
}

#[test]
fn test_get_value_by_path_non_object() {
    let json = node(r#""string""#);
    let result = get_value_by_path(&json, "field");
    assert!(matches!(result, None | Some(JsonNode::Null)));
}

#[test]
fn test_get_value_by_path_deeply_nested() {
    let json = node(r#"{"level1": {"level2": {"level3": {"value": "deep"}}}}"#);
    assert_eq!(text_at(&json, "level1.level2.level3.value"), "deep");
    assert_eq!(text_at(&json, "level1.level2.level3.value.more"), "null");
    assert_eq!(text_at(&json, "level1..level3"), "null");
    assert_eq!(text_at(&json, ""), "null");
}

#[test]
fn test_get_value_by_path_array_value() {
    let json = node(r#"{"items": [1, 2, 3]}"#);
    let result = get_value_by_path(&json, "items");
    assert!(matches!(result, Some(JsonNode::Array { .. })));
    assert_eq!(text_at(&json, "items.0"), "null");
}

#[test]
fn a_member_may_have_an_empty_name() {
    let json = node(r#"{"": {"": 5}, "a": {"": 6}}"#);
    assert_eq!(text_at(&json, "."), "5");
    assert_eq!(text_at(&json, "a."), "6");
    assert_eq!(text_at(&json, ""), r#"{"":5}"#);
}

#[test]
fn test_scalar_to_string_with_modifier_gb() {
    let bytes = node("1073741824"); // 1 GB
    let result = scalar_to_string_with_modifier(&bytes, &Some(SizeModifier::Gigabytes));
    assert_eq!(result, "1.00");
}

#[test]
fn test_scalar_to_string_with_modifier_mb() {
    let bytes = node("1048576"); // 1 MB
    let result = scalar_to_string_with_modifier(&bytes, &Some(SizeModifier::Megabytes));
    assert_eq!(result, "1.00");
}

#[test]
fn test_scalar_to_string_with_modifier_kb() {
    let bytes = node("1024"); // 1 KB
    let result = scalar_to_string_with_modifier(&bytes, &Some(SizeModifier::Kilobytes));
    assert_eq!(result, "1.00");
}

#[test]
fn test_scalar_to_string_with_modifier_string_number() {
    let bytes = node(r#""1048576""#); // 1 MB as string
    let result = scalar_to_string_with_modifier(&bytes, &Some(SizeModifier::Megabytes));
    assert_eq!(result, "1.00");
}

#[test]
fn test_scalar_to_string_with_modifier_non_numeric_string() {
    let value = node(r#""not a number""#);
    let result = scalar_to_string_with_modifier(&value, &Some(SizeModifier::Megabytes));
    assert_eq!(result, "not a number");
}

#[test]
fn test_scalar_to_string_with_modifier_none() {
    let value = node("42");
    let result = scalar_to_string_with_modifier(&value, &None);
    assert_eq!(result, "42");
}

#[test]
fn test_scalar_to_string_with_modifier_null() {
    let value = node("null");
    let result = scalar_to_string_with_modifier(&value, &Some(SizeModifier::Gigabytes));
    assert_eq!(result, "null");
    let list = node("[1]");
    assert_eq!(scalar_to_string_with_modifier(&list, &Some(SizeModifier::Gigabytes)), "[1]");
}

#[test]
fn test_print_human_readable_object() {
    let json = node(r#"{"name": "John", "age": 30, "active": true}"#);
    assert_eq!(human_lines(&json, None), vec!["active: true", "age   : 30", "name  : John"]);
}

#[test]
fn test_print_human_readable_array() {
    let json = node(r#"[{"id": 1, "name": "Alice"}, {"id": 2, "name": "Bob"}]"#);
    assert_eq!(
        human_lines(&json, None),
        vec![
            "+----+-------+",
            "| Id | Name  |",
            "+----+-------+",
            "| 1  | Alice |",
            "| 2  | Bob   |",
            "+----+-------+",
        ]
    );
}

#[test]
fn test_print_human_readable_scalar() {
    assert_eq!(human_lines(&node(r#""simple string""#), None), vec!["simple string"]);
    assert_eq!(human_lines(&node("42"), None), vec!["42"]);
    assert_eq!(human_lines(&node("true"), None), vec!["true"]);
}

#[test]
fn test_print_human_readable_object_with_nested_array() {
    let json = node(
        r#"{"total": 2, "users": [{"id": 1, "name": "Alice"}, {"id": 2, "name": "Bob"}]}"#,
    );
    assert_eq!(
        human_lines(&json, None),
        vec![
            "total: 2",
            "",
            "users:",
            "+----+-------+",
            "| Id | Name  |",
            "+----+-------+",
            "| 1  | Alice |",
            "| 2  | Bob   |",
            "+----+-------+",
        ]
    );
}

#[test]
fn test_print_human_readable_with_table_view() {
    let json = node(
        r#"[{"id": 1, "name": "Alice", "email": "alice@example.com"},
            {"id": 2, "name": "Bob", "email": "bob@example.com"}]"#,
    );
    let table_view = vec!["id".to_string(), "name".to_string()];
    assert_eq!(
        human_lines(&json, Some(&table_view)),
        vec![
            "+----+-------+",
            "| Id | Name  |",
            "+----+-------+",
            "| 1  | Alice |",
            "| 2  | Bob   |",
            "+----+-------+",
        ]
    );
}

#[test]
fn test_print_array_table_empty() {
    let arr: Vec<JsonNode> = vec![];
    assert_eq!(table_lines(&arr, None), vec!["(empty)"]);
    assert_eq!(table_lines(&arr, Some(&vec!["id".to_string()])), vec!["(empty)"]);
}

#[test]
fn test_print_array_table_simple() {
    let arr = items(r#"[{"id": 1, "name": "Alice"}, {"id": 2, "name": "Bob"}]"#);
    assert_eq!(table_lines(&arr, None).len(), 6);
}

#[test]
fn test_print_array_table_with_nested_objects() {
    let arr = items(r#"[{"id": 1, "user": {"name": "Alice"}}, {"id": 2, "user": {"name": "Bob", "age": 3}}]"#);
    let names: Vec<String> = table_columns(&arr, None).into_iter().map(|c| c.path).collect();
    assert_eq!(names, vec!["id", "user.name", "user.age"]);
    assert_eq!(
        table_lines(&arr, None),
        vec![
            "+----+-------+------+",
            "| Id | Name  | Age  |",
            "+----+-------+------+",
            "| 1  | Alice | null |",
            "| 2  | Bob   | 3    |",
            "+----+-------+------+",
        ]
    );
}

#[test]
fn test_print_array_table_with_column_spec() {
    let arr = items(
        r#"[{"id": 1, "name": "Alice", "size": 1073741824},
            {"id": 2, "name": "Bob", "size": 2147483648}]"#,
    );
    let cols = vec!["id".to_string(), "name".to_string(), "size:gb".to_string()];
    assert_eq!(
        table_lines(&arr, Some(&cols)),
        vec![
            "+----+-------+------+",
            "| Id | Name  | Size |",
            "|    |       | GB   |",
            "+----+-------+------+",
            "| 1  | Alice | 1.00 |",
            "| 2  | Bob   | 2.00 |",
            "+----+-------+------+",
        ]
    );
}

#[test]
fn test_print_array_table_scalars() {
    let arr = items(r#"["item1", "item2", "item3"]"#);
    assert_eq!(table_lines(&arr, None), vec!["0      item1", "1      item2", "2      item3"]);
}

#[test]
fn test_print_array_table_mixed_types() {
    let arr = items(
        r#"[{"id": 1, "value": "string"}, {"id": 2, "value": 42},
            {"id": 3, "value": true}, {"id": 4, "value": null}, "stray", {"id": 5}]"#,
    );
    assert_eq!(
        table_lines(&arr, None),
        vec![
            "+----+--------+",
            "| Id | Value  |",
            "+----+--------+",
            "| 1  | string |",
            "| 2  | 42     |",
            "| 3  | true   |",
            "| 4  | null   |",
            "| 5  | null   |",
            "+----+--------+",
        ]
    );
}

#[test]
fn test_print_array_table_with_all_modifiers() {
    let arr = items(r#"[{"gb": 1073741824, "mb": 1048576, "kb": 1024}]"#);
    let cols = vec!["gb:gb".to_string(), "mb:mb".to_string(), "kb:kb".to_string()];
    assert_eq!(
        table_lines(&arr, Some(&cols)),
        vec![
            "+------+------+------+",
            "| Gb   | Mb   | Kb   |",
            "| GB   | MB   | KB   |",
            "+------+------+------+",
            "| 1.00 | 1.00 | 1.00 |",
            "+------+------+------+",
        ]
    );
}

#[test]
fn a_table_without_a_column_for_any_row() {
    let arr = items(r#"[{}, 7, {}]"#);
    assert_eq!(table_lines(&arr, None), vec!["0      {}", "1      7", "2      {}"]);
    let hints: Vec<String> = vec![];
    assert_eq!(table_lines(&arr, Some(&hints)).len(), 3);
}

#[test]
fn widths_go_by_bytes_and_filling_by_characters() {
    let arr = items(r#"[{"name": "Zoë"}, {"name": "Al"}]"#);
    assert_eq!(
        table_lines(&arr, None),
        vec!["+------+", "| Name |", "+------+", "| Zoë  |", "| Al   |", "+------+"]
    );
    let arr = items(r#"[{"n": "ÄÖÜ"}, {"n": "abcd"}]"#);
    assert_eq!(
        table_lines(&arr, None),
        vec!["+--------+", "| N      |", "+--------+", "| ÄÖÜ    |", "| abcd   |", "+--------+"]
    );
}

#[test]
fn fields_are_shown_in_the_order_of_their_names() {
    let json = node(r#"{"b": 1, "a": [1], "B": 2, "ab": 3, "": 4, "a": 5, "é": 6, "z": []}"#);
    assert_eq!(
        human_lines(&json, None),
        vec![
            "  : 4",
            "B : 2",
            "a : 5",
            "ab: 3",
            "b : 1",
            "é : 6",
            "",
            "z:",
            "(empty)",
        ]
    );
}

#[test]
fn a_label_without_words_has_no_header_line() {
    let arr = items(r#"[{"_": 1}]"#);
    assert_eq!(table_lines(&arr, None), vec!["+---+", "| _ |", "+---+", "| 1 |", "+---+"]);
    let arr = items(r#"[{"": 12}]"#);
    assert_eq!(table_lines(&arr, None), vec!["+----+", "+----+", "| 12 |", "+----+"]);
}
