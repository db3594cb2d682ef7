use rclib::{extract_jsonpath_value, extract_response_variables, StringMap};

#[test]
fn test_extract_jsonpath_value_string() {
    let json = serde_json::from_str::<serde_json::Value>(r#"{"name": "John"}"#).unwrap();
    let result = extract_jsonpath_value(&json, "$.name");
    assert_eq!(result, Some("John".to_string()));
}

#[test]
fn test_extract_jsonpath_value_number() {
    let json = serde_json::from_str::<serde_json::Value>(r#"{"age": 30}"#).unwrap();
    let result = extract_jsonpath_value(&json, "$.age");
    assert_eq!(result, Some("30".to_string()));
}

#[test]
fn test_extract_jsonpath_value_bool() {
    let json = serde_json::from_str::<serde_json::Value>(r#"{"active": true}"#).unwrap();
    let result = extract_jsonpath_value(&json, "$.active");
    assert_eq!(result, Some("true".to_string()));
}

#[test]
fn test_extract_jsonpath_value_nested() {
    let json = serde_json::from_str::<serde_json::Value>(r#"{"user": {"id": 123}}"#).unwrap();
    let result = extract_jsonpath_value(&json, "$.user.id");
    assert_eq!(result, Some("123".to_string()));
}

#[test]
fn test_extract_jsonpath_value_missing() {
    let json = serde_json::from_str::<serde_json::Value>(r#"{"name": "John"}"#).unwrap();
    let result = extract_jsonpath_value(&json, "$.missing");
    assert!(result.is_none());
}

#[test]
fn test_extract_jsonpath_value_object() {
    let json = serde_json::from_str::<serde_json::Value>(r#"{"user": {"name": "John"}}"#).unwrap();
    let result = extract_jsonpath_value(&json, "$.user");
    assert!(result.is_some());
    assert!(result.unwrap().contains("John"));
}

#[test]
fn test_extract_response_variables_empty() {
    let extractions = StringMap::new();
    let mut vars = StringMap::new();
    let result = extract_response_variables("{}", &extractions, &mut vars);
    assert!(result.is_ok());
}

#[test]
fn test_extract_response_variables_success() {
    let mut extractions = StringMap::new();
    extractions.insert("user_id".to_string(), "$.id".to_string());
    let mut vars = StringMap::new();
    let result = extract_response_variables(r#"{"id": "123"}"#, &extractions, &mut vars);
    assert!(result.is_ok());
    assert_eq!(vars.get("user_id"), Some(&"123".to_string()));
}

#[test]
fn test_extract_response_variables_invalid_json() {
    let mut extractions = StringMap::new();
    extractions.insert("user_id".to_string(), "$.id".to_string());
    let mut vars = StringMap::new();
    let result = extract_response_variables("not json", &extractions, &mut vars);
    assert!(result.is_err());
}

#[test]
fn test_extract_response_variables_missing_path() {
    let mut extractions = StringMap::new();
    extractions.insert("user_id".to_string(), "$.missing".to_string());
    let mut vars = StringMap::new();
    let result = extract_response_variables(r#"{"id": "123"}"#, &extractions, &mut vars);
    assert!(result.is_err());
}

