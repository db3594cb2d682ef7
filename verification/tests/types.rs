use rclib::mapping::Scenario;
use rclib::{OutputFormat, RawRequestSpec, RequestSpec, ScenarioSpec, StringMap};

#[test]
fn test_output_format_equality() {
    assert_eq!(OutputFormat::Json, OutputFormat::Json);
    assert_eq!(OutputFormat::Human, OutputFormat::Human);
    assert_eq!(OutputFormat::Quiet, OutputFormat::Quiet);
    assert_ne!(OutputFormat::Json, OutputFormat::Human);
}

#[test]
fn test_raw_request_spec_defaults() {
    let spec = RawRequestSpec {
        base_url: None,
        method: "GET".to_string(),
        endpoint: "/test".to_string(),
        headers: vec![],
        body: None,
        multipart: false,
        file_fields: StringMap::new(),
        table_view: None,
    };
    assert!(spec.base_url.is_none());
    assert!(spec.headers.is_empty());
    assert!(!spec.multipart);
}

#[test]
fn test_request_spec_simple_clone() {
    let spec = RequestSpec::Simple(RawRequestSpec {
        base_url: Some("https://api.example.com".to_string()),
        method: "GET".to_string(),
        endpoint: "/users".to_string(),
        headers: vec!["Content-Type: application/json".to_string()],
        body: None,
        multipart: false,
        file_fields: StringMap::new(),
        table_view: None,
    });
    let cloned = spec.clone();
    if let RequestSpec::Simple(raw) = cloned {
        assert_eq!(raw.method, "GET");
    }
}

#[test]
fn test_request_spec_scenario_clone() {
    let scenario = Scenario {
        scenario_type: "sequential".to_string(),
        steps: vec![],
    };
    let spec = RequestSpec::Scenario(ScenarioSpec {
        base_url: Some("https://api.example.com".to_string()),
        scenario,
        vars: StringMap::new(),
    });
    let cloned = spec.clone();
    assert!(matches!(cloned, RequestSpec::Scenario(_)));
}

#[test]
fn test_request_spec_custom_handler_clone() {
    let mut vars = StringMap::new();
    vars.insert("key".to_string(), "value".to_string());
    let spec = RequestSpec::CustomHandler {
        handler_name: "test_handler".to_string(),
        vars,
    };
    let cloned = spec.clone();
    if let RequestSpec::CustomHandler { handler_name, vars } = cloned {
        assert_eq!(handler_name, "test_handler");
        assert_eq!(vars.get("key"), Some(&"value".to_string()));
    }
}

#[test]
fn test_scenario_spec_debug() {
    let scenario = Scenario {
        scenario_type: "job_with_polling".to_string(),
        steps: vec![],
    };
    let spec = ScenarioSpec {
        base_url: Some("https://api.example.com".to_string()),
        scenario,
        vars: StringMap::new(),
    };
    let debug_str = format!("{:?}", spec);
    assert!(debug_str.contains("ScenarioSpec"));
}

#[test]
fn test_output_format_debug() {
    let format = OutputFormat::Json;
    let debug_str = format!("{:?}", format);
    assert!(debug_str.contains("Json"));
}

#[test]
fn test_output_format_clone() {
    let format = OutputFormat::Human;
    let copied = format;
    assert_eq!(copied, OutputFormat::Human);
}

#[test]
fn test_output_format_copy() {
    let format = OutputFormat::Quiet;
    let copied: OutputFormat = format;
    assert_eq!(copied, OutputFormat::Quiet);
}

#[test]
fn test_raw_request_spec_clone() {
    let spec = RawRequestSpec {
        base_url: Some("https://api.example.com".to_string()),
        method: "POST".to_string(),
        endpoint: "/users".to_string(),
        headers: vec!["Content-Type: application/json".to_string()],
        body: Some(r#"{"name": "test"}"#.to_string()),
        multipart: false,
        file_fields: StringMap::new(),
        table_view: Some(vec!["id".to_string(), "name".to_string()]),
    };
    let cloned = spec.clone();
    assert_eq!(cloned.method, "POST");
    assert_eq!(cloned.body, Some(r#"{"name": "test"}"#.to_string()));
    assert!(cloned.table_view.is_some());
}

#[test]
fn test_raw_request_spec_debug() {
    let spec = RawRequestSpec {
        base_url: None,
        method: "GET".to_string(),
        endpoint: "/test".to_string(),
        headers: vec![],
        body: None,
        multipart: false,
        file_fields: StringMap::new(),
        table_view: None,
    };
    let debug_str = format!("{:?}", spec);
    assert!(debug_str.contains("RawRequestSpec"));
    assert!(debug_str.contains("GET"));
}

