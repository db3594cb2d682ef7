use rclib::mapping::{ArgSpec, CommandSpec};
use rclib::{
    apply_file_overrides, build_request_from_command, build_request_with_uuid, file_override_of,
    NameSet, RequestSpec, StringMap,
};

fn map(pairs: &[(&str, &str)]) -> StringMap {
    let mut m = StringMap::new();
    for (k, v) in pairs {
        m.insert(k.to_string(), v.to_string());
    }
    m
}

fn selected(names: &[&str]) -> NameSet {
    let mut s = NameSet::new();
    for n in names {
        s.insert(n.to_string());
    }
    s
}

fn command(args: Vec<ArgSpec>) -> CommandSpec {
    CommandSpec {
        name: None,
        about: None,
        pattern: "items list".to_string(),
        method: Some("GET".to_string()),
        endpoint: Some("/items/{id}?trace={uuid}".to_string()),
        body: Some("{body}".to_string()),
        headers: map(&[("X-Trace", "{uuid}"), ("Accept", "text/{kind}")]),
        table_view: Some(vec!["id".to_string(), "size:mb".to_string()]),
        scenario: None,
        multipart: false,
        custom_handler: None,
        args,
        use_common_args: vec![],
    }
}

fn simple(spec: RequestSpec) -> rclib::RawRequestSpec {
    match spec {
        RequestSpec::Simple(raw) => raw,
        other => panic!("expected a simple request, got {:?}", other),
    }
}

#[test]
fn every_build_binds_a_fresh_uuid() {
    let cmd = command(vec![]);
    let vars = map(&[("id", "5")]);
    let a = simple(build_request_from_command(None, &cmd, &vars, &selected(&[]), &map(&[])));
    let b = simple(build_request_from_command(None, &cmd, &vars, &selected(&[]), &map(&[])));
    let uuid_a = a.endpoint.strip_prefix("/items/5?trace=").unwrap().to_string();
    let uuid_b = b.endpoint.strip_prefix("/items/5?trace=").unwrap().to_string();
    assert_eq!(uuid_a.chars().count(), 36);
    assert_eq!(uuid_a.matches('-').count(), 4);
    assert_ne!(uuid_a, uuid_b);
    assert_eq!(a.headers[0], format!("X-Trace: {}", uuid_a));
}

#[test]
fn the_caller_cannot_bind_the_uuid() {
    let cmd = command(vec![]);
    let vars = map(&[("uuid", "mine"), ("id", "5")]);
    let raw = simple(build_request_with_uuid(
        None,
        &cmd,
        &vars,
        &selected(&[]),
        &map(&[]),
        "fresh".to_string(),
    ));
    assert_eq!(raw.endpoint, "/items/5?trace=fresh");
}

#[test]
fn a_request_is_assembled_from_the_command() {
    let cmd = command(vec![]);
    let vars = map(&[("id", "5"), ("kind", "plain"), ("body", "B")]);
    let raw = simple(build_request_with_uuid(
        Some("https://h".to_string()),
        &cmd,
        &vars,
        &selected(&[]),
        &map(&[]),
        "u".to_string(),
    ));
    assert_eq!(raw.base_url, Some("https://h".to_string()));
    assert_eq!(raw.method, "GET");
    assert_eq!(raw.endpoint, "/items/5?trace=u");
    assert_eq!(raw.body, Some("B".to_string()));
    assert_eq!(raw.headers, vec!["X-Trace: u".to_string(), "Accept: text/plain".to_string()]);
    assert!(!raw.multipart);
    assert!(raw.file_fields.is_empty());
    assert_eq!(raw.table_view, Some(vec!["id".to_string(), "size:mb".to_string()]));
}

#[test]
fn supplied_arguments_override_in_the_order_of_their_declaration() {
    let first = ArgSpec {
        name: Some("first".to_string()),
        endpoint: Some("/first/{id}".to_string()),
        method: Some("PUT".to_string()),
        body: Some("first {id}".to_string()),
        headers: Some(map(&[("Accept", "first"), ("X-First", "{id}")])),
        ..Default::default()
    };
    let second = ArgSpec {
        name: Some("second".to_string()),
        endpoint: Some("/second".to_string()),
        headers: Some(map(&[("Accept", "second")])),
        ..Default::default()
    };
    let unused = ArgSpec {
        name: Some("unused".to_string()),
        endpoint: Some("/unused".to_string()),
        method: Some("DELETE".to_string()),
        ..Default::default()
    };
    let nameless = ArgSpec { endpoint: Some("/nameless".to_string()), ..Default::default() };
    let cmd = command(vec![first, unused, second, nameless]);
    let vars = map(&[("id", "5"), ("kind", "k")]);
    let both = selected(&["second", "first"]);
    let raw = simple(build_request_with_uuid(None, &cmd, &vars, &both, &map(&[]), "u".to_string()));
    assert_eq!(raw.endpoint, "/second");
    assert_eq!(raw.method, "PUT");
    assert_eq!(raw.body, Some("first 5".to_string()));
    assert_eq!(
        raw.headers,
        vec!["X-Trace: u".to_string(), "Accept: second".to_string(), "X-First: 5".to_string()]
    );

    let only_first = selected(&["first"]);
    let raw =
        simple(build_request_with_uuid(None, &cmd, &vars, &only_first, &map(&[]), "u".to_string()));
    assert_eq!(raw.endpoint, "/first/5");
    assert_eq!(
        raw.headers,
        vec!["X-Trace: u".to_string(), "Accept: first".to_string(), "X-First: 5".to_string()]
    );
}

#[test]
fn uploads_are_listed_for_a_multipart_command_only() {
    let upload = ArgSpec { name: Some("file".to_string()), file_upload: true, ..Default::default() };
    let unbound = ArgSpec { name: Some("other".to_string()), file_upload: true, ..Default::default() };
    let plain = ArgSpec { name: Some("id".to_string()), ..Default::default() };
    let mut cmd = command(vec![upload, unbound, plain]);
    let vars = map(&[("file", "/tmp/a.png"), ("id", "1")]);
    let raw = simple(build_request_with_uuid(None, &cmd, &vars, &selected(&[]), &map(&[]), "u".to_string()));
    assert!(raw.file_fields.is_empty());
    cmd.multipart = true;
    let raw = simple(build_request_with_uuid(None, &cmd, &vars, &selected(&[]), &map(&[]), "u".to_string()));
    assert!(raw.multipart);
    assert_eq!(raw.file_fields.len(), 1);
    assert_eq!(raw.file_fields.get("file"), Some(&"/tmp/a.png".to_string()));
}

#[test]
fn file_overrides_follow_one_another() {
    let args = vec![
        ArgSpec {
            name: Some("list".to_string()),
            arg_type: Some("file".to_string()),
            file_overrides_value_of: Some("next".to_string()),
            ..Default::default()
        },
        ArgSpec {
            name: Some("next".to_string()),
            arg_type: Some("file".to_string()),
            file_overrides_value_of: Some("body".to_string()),
            ..Default::default()
        },
        ArgSpec {
            name: Some("gone".to_string()),
            arg_type: Some("file".to_string()),
            file_overrides_value_of: Some("body".to_string()),
            ..Default::default()
        },
        ArgSpec {
            name: Some("text".to_string()),
            arg_type: Some("string".to_string()),
            file_overrides_value_of: Some("body".to_string()),
            ..Default::default()
        },
        ArgSpec {
            name: Some("aimless".to_string()),
            arg_type: Some("file".to_string()),
            ..Default::default()
        },
    ];
    let files = map(&[("/a", "/b"), ("/b", "content of b"), ("/t", "never read")]);
    let mut vars = map(&[("list", "/a"), ("gone", "/missing"), ("text", "/t"), ("aimless", "/a")]);
    assert!(file_override_of(&args[1], &vars).is_none());
    let due = file_override_of(&args[0], &vars).unwrap();
    assert_eq!((due.target.as_str(), due.path.as_str()), ("next", "/a"));
    assert!(file_override_of(&args[3], &vars).is_none());
    assert!(file_override_of(&args[4], &vars).is_none());
    apply_file_overrides(&args, &mut vars, &files);
    assert_eq!(vars.get("next"), Some(&"/b".to_string()));
    assert_eq!(vars.get("body"), Some(&"content of b".to_string()));
    assert_eq!(vars.len(), 6);
}
