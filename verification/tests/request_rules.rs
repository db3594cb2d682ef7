use rclib::{
    has_no_headers, method_named, parse_headers, parse_method, prepare_request, ErrorKind,
    ExecError, HttpMethod, RawRequestSpec, RequestBody, StringMap,
};

fn raw(method: &str, endpoint: &str, headers: &[&str]) -> RawRequestSpec {
    RawRequestSpec {
        base_url: Some("https://api.example.com/".to_string()),
        method: method.to_string(),
        endpoint: endpoint.to_string(),
        headers: headers.iter().map(|h| h.to_string()).collect(),
        body: None,
        multipart: false,
        file_fields: StringMap::new(),
        table_view: None,
    }
}

#[test]
fn a_request_is_made_ready() {
    let mut spec = raw("post", "/items", &["Accept: text/plain", "X-Id:  7 "]);
    spec.body = Some("payload".to_string());
    let p = prepare_request(&spec).unwrap();
    assert_eq!(p.method, HttpMethod::Post);
    assert_eq!(p.url, "https://api.example.com/items");
    assert_eq!(p.headers.len(), 2);
    assert_eq!(p.headers.get("accept").unwrap(), "text/plain");
    assert_eq!(p.headers.get("x-id").unwrap(), "7");
    assert!(!has_no_headers(&p.headers));
    assert!(matches!(p.body, RequestBody::Raw(ref b) if b == "payload"));
}

#[test]
fn a_request_without_headers_and_body() {
    let p = prepare_request(&raw("GET", "/items", &[])).unwrap();
    assert!(has_no_headers(&p.headers));
    assert!(matches!(p.body, RequestBody::Empty));
    assert_eq!(p.url, "https://api.example.com/items");
}

#[test]
fn a_multipart_request_leaves_the_content_type_to_the_transport() {
    let mut spec = raw("POST", "/upload", &["Content-Type: multipart/form-data", "X-A: 1"]);
    spec.multipart = true;
    spec.body = Some("ignored".to_string());
    spec.file_fields.insert("file".to_string(), "/tmp/a.bin".to_string());
    let p = prepare_request(&spec).unwrap();
    assert!(p.headers.get("content-type").is_none());
    assert_eq!(p.headers.get("x-a").unwrap(), "1");
    match p.body {
        RequestBody::Multipart(fields) => {
            assert_eq!(fields.len(), 1);
            assert_eq!(fields.get("file"), Some(&"/tmp/a.bin".to_string()));
        }
        other => panic!("unexpected body {:?}", other),
    }
}

#[test]
fn a_multipart_request_without_files_sends_its_body() {
    let mut spec = raw("POST", "/upload", &["CONTENT-TYPE: text/plain"]);
    spec.multipart = true;
    spec.body = Some("text".to_string());
    let p = prepare_request(&spec).unwrap();
    assert!(has_no_headers(&p.headers));
    assert!(matches!(p.body, RequestBody::Raw(ref b) if b == "text"));
}

#[test]
fn the_content_type_stays_when_not_multipart() {
    let p = prepare_request(&raw("POST", "/x", &["Content-Type: text/plain"])).unwrap();
    assert_eq!(p.headers.get("content-type").unwrap(), "text/plain");
}

#[test]
fn the_url_fails_before_the_method_and_the_method_before_the_headers() {
    let mut spec = raw("BREW", "/pot", &["broken"]);
    spec.base_url = None;
    assert_eq!(prepare_request(&spec).unwrap_err(), ExecError::MissingBaseUrl);
    let spec = raw("BREW", "/pot", &["broken"]);
    assert_eq!(
        prepare_request(&spec).unwrap_err(),
        ExecError::UnsupportedMethod("BREW".to_string())
    );
    let spec = raw("GET", "/pot", &["broken"]);
    assert_eq!(
        prepare_request(&spec).unwrap_err(),
        ExecError::InvalidHeaderFormat("broken".to_string())
    );
}

#[test]
fn a_later_header_replaces_an_earlier_one_of_the_same_name() {
    let lines = vec!["X-A: 1".to_string(), "x-b: 2".to_string(), "x-a: 3".to_string()];
    let map = parse_headers(&lines).unwrap();
    assert_eq!(map.len(), 2);
    assert_eq!(map.get("X-A").unwrap(), "3");
    assert_eq!(map.get("x-b").unwrap(), "2");
}

#[test]
fn the_first_malformed_header_gives_the_failure() {
    let lines = vec!["Good: 1".to_string(), "Bad Name: 2".to_string(), "nocolon".to_string()];
    let e = parse_headers(&lines).unwrap_err();
    assert_eq!(e, ExecError::InvalidHeaderName("Bad Name".to_string()));
    assert_eq!(e.message(), "Invalid header name: Bad Name");
    assert_eq!(e.kind(), ErrorKind::Configuration);

    let lines = vec!["nocolon".to_string(), "Bad Name: 2".to_string()];
    let e = parse_headers(&lines).unwrap_err();
    assert_eq!(e, ExecError::InvalidHeaderFormat("nocolon".to_string()));
    assert_eq!(e.message(), "Invalid header format, expected 'Key: Value', got: nocolon");

    let lines = vec!["X-Text: line\u{7f}".to_string()];
    let e = parse_headers(&lines).unwrap_err();
    assert_eq!(e, ExecError::InvalidHeaderValue("x-text".to_string()));
    assert_eq!(e.message(), "Invalid header value for x-text");

    let lines = vec![": value".to_string()];
    assert_eq!(parse_headers(&lines).unwrap_err(), ExecError::InvalidHeaderName("".to_string()));
}

#[test]
fn header_values_may_hold_tabs_and_text_beyond_ascii() {
    let lines = vec!["X-A: a\tb".to_string(), "X-B: grüße".to_string(), "X-C:".to_string()];
    let map = parse_headers(&lines).unwrap();
    assert_eq!(map.get("x-a").unwrap(), "a\tb");
    assert_eq!(map.get("x-b").unwrap().as_bytes(), "grüße".as_bytes());
    assert_eq!(map.get("x-c").unwrap(), "");
    let lines = vec!["X-A: a\u{1}b".to_string()];
    assert!(matches!(parse_headers(&lines), Err(ExecError::InvalidHeaderValue(_))));
    let lines = vec!["X-A: a\nb".to_string()];
    assert!(matches!(parse_headers(&lines), Err(ExecError::InvalidHeaderValue(_))));
}

#[test]
fn methods_are_read_without_regard_to_case() {
    assert_eq!(parse_method("oPtIoNs").unwrap(), HttpMethod::Options);
    assert_eq!(parse_method("delete").unwrap(), HttpMethod::Delete);
    let e = parse_method("trace").unwrap_err();
    assert_eq!(e, ExecError::UnsupportedMethod("TRACE".to_string()));
    assert_eq!(e.message(), "Unsupported HTTP method: TRACE");
    assert_eq!(parse_method("").unwrap_err(), ExecError::UnsupportedMethod("".to_string()));
    assert!(parse_method(" GET").is_err());
}

#[test]
fn method_names_are_matched_letter_for_letter() {
    assert_eq!(method_named("GET"), Some(HttpMethod::Get));
    assert_eq!(method_named("get"), None);
    assert_eq!(method_named("GETS"), None);
    for m in [
        HttpMethod::Get,
        HttpMethod::Post,
        HttpMethod::Put,
        HttpMethod::Patch,
        HttpMethod::Delete,
        HttpMethod::Head,
        HttpMethod::Options,
    ] {
        assert_eq!(method_named(m.name()), Some(m));
    }
}

#[test]
fn the_missing_base_url_has_its_message() {
    let e = rclib::build_url(&None, "users").unwrap_err();
    assert_eq!(e, ExecError::MissingBaseUrl);
    assert_eq!(e.message(), "Endpoint is relative but no --base-url provided");
    assert_eq!(e.kind(), ErrorKind::Configuration);
}

#[test]
fn base_and_endpoint_meet_at_one_slash() {
    let base = Some("https://api.example.com/".to_string());
    assert_eq!(rclib::build_url(&base, "users").unwrap(), "https://api.example.com/users");
    assert_eq!(rclib::build_url(&base, "/users").unwrap(), "https://api.example.com/users");
    let base = Some("https://api.example.com".to_string());
    assert_eq!(rclib::build_url(&base, "users").unwrap(), "https://api.example.com/users");
    assert_eq!(rclib::build_url(&base, "/users").unwrap(), "https://api.example.com/users");
}

#[test]
fn every_trailing_slash_of_the_base_is_dropped() {
    let base = Some("https://h///".to_string());
    assert_eq!(rclib::build_url(&base, "x").unwrap(), "https://h/x");
    assert_eq!(rclib::build_url(&base, "/x").unwrap(), "https://h/x");
    assert_eq!(rclib::build_url(&base, "").unwrap(), "https://h/");
    assert_eq!(rclib::build_url(&base, "//x").unwrap(), "https://h//x");
    let base = Some("https://h".to_string());
    assert_eq!(rclib::build_url(&base, "").unwrap(), "https://h/");
    assert_eq!(rclib::build_url(&base, "HTTP://other").unwrap(), "https://h/HTTP://other");
    assert_eq!(rclib::build_url(&Some("".to_string()), "/x").unwrap(), "/x");
    assert_eq!(rclib::build_url(&Some("".to_string()), "x").unwrap(), "/x");
    assert_eq!(rclib::build_url(&Some("/".to_string()), "x").unwrap(), "/x");
}

#[test]
fn a_map_that_is_full_refuses_further_headers() {
    let many: Vec<String> = (0..1000).map(|i| format!("x-h{}: {}", i, i)).collect();
    let map = parse_headers(&many).unwrap();
    assert_eq!(map.len(), 1000);
    assert_eq!(map.get("x-h999").unwrap(), "999");

    let too_many: Vec<String> = (0..40_000).map(|i| format!("x-h{}: {}", i, i)).collect();
    let e = parse_headers(&too_many).unwrap_err();
    assert_eq!(e, ExecError::TooManyHeaders);
    assert_eq!(e.message(), "Too many headers");

    // the same name over and over takes one place only
    let same: Vec<String> = (0..40_000).map(|i| format!("x-h: {}", i)).collect();
    let map = parse_headers(&same).unwrap();
    assert_eq!(map.len(), 1);
    assert_eq!(map.get("x-h").unwrap(), "39999");
}

#[test]
fn header_names_hold_token_characters_and_are_filed_in_lower_case() {
    let allowed = "!#$%&'*+-.^_`|~";
    for code in 0..=0x7fu32 {
        let c = char::from_u32(code).unwrap();
        if c == ':' {
            continue;
        }
        let ok = c.is_ascii_alphanumeric() || allowed.contains(c);
        let lines = vec![format!("a{}B: v", c)];
        match parse_headers(&lines) {
            Ok(map) => {
                assert!(ok, "U+{:04X} was taken", code);
                let filed: Vec<String> = map.keys().map(|k| k.as_str().to_string()).collect();
                assert_eq!(filed, vec![format!("a{}b", c.to_ascii_lowercase())]);
            }
            Err(e) => {
                assert!(!ok, "U+{:04X} was refused", code);
                assert_eq!(e, ExecError::InvalidHeaderName(format!("a{}B", c)));
            }
        }
    }
    for c in ['é', '\u{80}', '\u{ff}', '\u{212a}', '€'] {
        let lines = vec![format!("a{}b: v", c)];
        assert!(matches!(parse_headers(&lines), Err(ExecError::InvalidHeaderName(_))), "{:?}", c);
    }
}

#[test]
fn header_names_have_a_longest_length() {
    let longest = vec![format!("{}: v", "a".repeat(65535))];
    assert_eq!(parse_headers(&longest).unwrap().len(), 1);
    let too_long = vec![format!("{}: v", "a".repeat(65536))];
    assert!(matches!(parse_headers(&too_long), Err(ExecError::InvalidHeaderName(_))));
    let long_and_mixed = vec![format!("{}Z: v", "A".repeat(100))];
    let map = parse_headers(&long_and_mixed).unwrap();
    assert!(map.contains_key(format!("{}z", "a".repeat(100)).as_str()));
    let long_and_bad = vec![format!("{}(: v", "a".repeat(100))];
    assert!(matches!(parse_headers(&long_and_bad), Err(ExecError::InvalidHeaderName(_))));
}

#[test]
fn a_map_has_room_for_thousands_of_headers() {
    let many: Vec<String> = (0..3277).map(|i| format!("x-h{}: {}", i, i)).collect();
    assert_eq!(parse_headers(&many).unwrap().len(), 3277);
    let more: Vec<String> = (0..20_000).map(|i| format!("x-h{}: {}", i, i)).collect();
    assert_eq!(parse_headers(&more).unwrap().len(), 20_000);
}
