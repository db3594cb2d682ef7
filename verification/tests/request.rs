use rclib::{build_url, parse_headers, parse_method, HttpMethod};

#[test]
fn test_build_url_absolute_endpoint() {
    let result = build_url(&None, "https://api.example.com/users");
    assert!(result.is_ok());
    assert_eq!(result.unwrap(), "https://api.example.com/users");
}

#[test]
fn test_build_url_http_absolute() {
    let result = build_url(&None, "http://localhost:8080/api");
    assert!(result.is_ok());
    assert_eq!(result.unwrap(), "http://localhost:8080/api");
}

#[test]
fn test_build_url_relative_with_base() {
    let result = build_url(&Some("https://api.example.com".to_string()), "/users");
    assert!(result.is_ok());
    assert_eq!(result.unwrap(), "https://api.example.com/users");
}

#[test]
fn test_build_url_relative_no_base() {
    let result = build_url(&None, "/users");
    assert!(result.is_err());
}

#[test]
fn test_build_url_base_with_trailing_slash() {
    let result = build_url(&Some("https://api.example.com/".to_string()), "/users");
    assert!(result.is_ok());
    assert_eq!(result.unwrap(), "https://api.example.com/users");
}

#[test]
fn test_build_url_no_slashes() {
    let result = build_url(&Some("https://api.example.com".to_string()), "users");
    assert!(result.is_ok());
    assert_eq!(result.unwrap(), "https://api.example.com/users");
}

#[test]
fn test_parse_method_get() {
    assert_eq!(parse_method("GET").unwrap(), HttpMethod::Get);
    assert_eq!(parse_method("get").unwrap(), HttpMethod::Get);
}

#[test]
fn test_parse_method_post() {
    assert_eq!(parse_method("POST").unwrap(), HttpMethod::Post);
}

#[test]
fn test_parse_method_put() {
    assert_eq!(parse_method("PUT").unwrap(), HttpMethod::Put);
}

#[test]
fn test_parse_method_patch() {
    assert_eq!(parse_method("PATCH").unwrap(), HttpMethod::Patch);
}

#[test]
fn test_parse_method_delete() {
    assert_eq!(parse_method("DELETE").unwrap(), HttpMethod::Delete);
}

#[test]
fn test_parse_method_head() {
    assert_eq!(parse_method("HEAD").unwrap(), HttpMethod::Head);
}

#[test]
fn test_parse_method_options() {
    assert_eq!(parse_method("OPTIONS").unwrap(), HttpMethod::Options);
}

#[test]
fn test_parse_method_invalid() {
    let result = parse_method("INVALID");
    assert!(result.is_err());
}

#[test]
fn test_parse_headers_valid() {
    let headers = vec!["Content-Type: application/json".to_string()];
    let result = parse_headers(&headers).unwrap();
    assert_eq!(result.len(), 1);
    assert_eq!(result.get("content-type").unwrap(), "application/json");
}

#[test]
fn test_parse_headers_multiple() {
    let headers = vec![
        "Content-Type: application/json".to_string(),
        "Authorization: Bearer token123".to_string(),
    ];
    let result = parse_headers(&headers).unwrap();
    assert_eq!(result.len(), 2);
}

#[test]
fn test_parse_headers_empty() {
    let headers: Vec<String> = vec![];
    let result = parse_headers(&headers).unwrap();
    assert!(result.is_empty());
}

#[test]
fn test_parse_headers_invalid_format() {
    let headers = vec!["InvalidHeader".to_string()];
    let result = parse_headers(&headers);
    assert!(result.is_err());
}

#[test]
fn test_parse_headers_value_with_colon() {
    let headers = vec!["X-Custom: value:with:colons".to_string()];
    let result = parse_headers(&headers).unwrap();
    assert_eq!(result.get("x-custom").unwrap(), "value:with:colons");
}

