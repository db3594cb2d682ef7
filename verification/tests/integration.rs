use rclib::cli::{collect_vars, lookup_handler, validate_handlers, HandlerRegistry};
use rclib::mapping::{
    ArgSpec, CommandGroup, CommandNode, CommandSpec, ConditionalValue, HierSpec, MappingRoot,
    Scenario, ScenarioStep,
};
use rclib::{build_command_tree, build_request_from_command, NameSet, RequestSpec, StringMap};

fn command(name: &str, method: &str, endpoint: &str, args: Vec<ArgSpec>) -> CommandSpec {
    CommandSpec {
        name: Some(name.to_string()),
        about: None,
        pattern: String::new(),
        method: Some(method.to_string()),
        endpoint: Some(endpoint.to_string()),
        body: None,
        headers: StringMap::new(),
        table_view: None,
        scenario: None,
        multipart: false,
        custom_handler: None,
        args,
        use_common_args: vec![],
    }
}

fn group(name: &str, about: Option<&str>, nodes: Vec<CommandNode>) -> CommandGroup {
    CommandGroup {
        name: name.to_string(),
        about: about.map(|a| a.to_string()),
        common_args: vec![],
        subcommands: nodes,
    }
}

fn root_of(groups: Vec<CommandGroup>) -> MappingRoot {
    MappingRoot::Hier(HierSpec { common_args: vec![], commands: groups })
}

fn path(words: &[&str]) -> Vec<String> {
    words.iter().map(|w| w.to_string()).collect()
}

fn values(pairs: &[(&str, &str)]) -> StringMap {
    let mut m = StringMap::new();
    for (k, v) in pairs {
        m.insert(k.to_string(), v.to_string());
    }
    m
}

fn flags(names: &[&str]) -> NameSet {
    let mut s = NameSet::new();
    for n in names {
        s.insert(n.to_string());
    }
    s
}

fn positional(name: &str) -> ArgSpec {
    ArgSpec {
        name: Some(name.to_string()),
        positional: Some(true),
        required: Some(true),
        ..Default::default()
    }
}

fn option(name: &str, default: Option<&str>) -> ArgSpec {
    ArgSpec {
        name: Some(name.to_string()),
        long: Some(name.to_string()),
        default: default.map(|d| d.to_string()),
        ..Default::default()
    }
}

#[test]
fn test_full_cli_workflow_hierarchical() {
    // 1. The mapping
    let mut list = command(
        "list",
        "GET",
        "/users",
        vec![ArgSpec { help: Some("Maximum number of users".to_string()), ..option("limit", Some("10")) }],
    );
    list.about = Some("List all users".to_string());
    let mut get = command(
        "get",
        "GET",
        "/users/{id}",
        vec![ArgSpec { help: Some("User ID".to_string()), ..positional("id") }],
    );
    get.about = Some("Get a specific user".to_string());
    let root = root_of(vec![group(
        "users",
        Some("User management commands"),
        vec![CommandNode::Command(list), CommandNode::Command(get)],
    )]);
    assert!(matches!(root, MappingRoot::Hier(_)));

    // 2. The tree of commands
    let tree = build_command_tree(&root);

    // 3. Its structure
    assert!(tree.get(&path(&["users", "list"])).is_some());
    assert!(tree.get(&path(&["users", "get"])).is_some());
    assert_eq!(tree.root.children[0].1.about, Some("User management commands".to_string()));

    // 4./5. The command and its variables, for `users list --limit 25`
    let cmd = tree.get(&path(&["users", "list"])).unwrap();
    let got = collect_vars(cmd, &flags(&[]), &values(&[("limit", "25")]));
    assert!(!got.missing_required);
    assert_eq!(got.vars.get("limit"), Some(&"25".to_string()));
    assert!(got.selected.contains("limit"));

    // 6. The request
    let spec = build_request_from_command(
        Some("https://api.example.com".to_string()),
        cmd,
        &got.vars,
        &got.selected,
        &StringMap::new(),
    );
    if let RequestSpec::Simple(raw) = spec {
        assert_eq!(raw.method, "GET");
        assert_eq!(raw.endpoint, "/users");
    } else {
        panic!("Expected Simple request spec");
    }
}

#[test]
fn test_full_cli_workflow_with_path_params() {
    let root = root_of(vec![group(
        "users",
        None,
        vec![CommandNode::Command(command("get", "GET", "/users/{id}", vec![positional("id")]))],
    )]);
    let tree = build_command_tree(&root);
    let cmd = tree.get(&path(&["users", "get"])).unwrap();
    let got = collect_vars(cmd, &flags(&[]), &values(&[("id", "123")]));

    let spec = build_request_from_command(
        Some("https://api.example.com".to_string()),
        cmd,
        &got.vars,
        &got.selected,
        &StringMap::new(),
    );
    if let RequestSpec::Simple(raw) = spec {
        assert_eq!(raw.endpoint, "/users/123");
    } else {
        panic!("Expected Simple request spec");
    }
}

#[test]
fn test_custom_handler_workflow() {
    let mut export = command(
        "users",
        "",
        "",
        vec![option("format", Some("json")), option("output", Some("users.json"))],
    );
    export.method = None;
    export.endpoint = None;
    export.custom_handler = Some("export_users".to_string());
    let root = root_of(vec![group("export", None, vec![CommandNode::Command(export)])]);

    // Validate handlers
    let mut reg: HandlerRegistry<fn(&StringMap) -> bool> = HandlerRegistry::new();
    reg.register("export_users", |vars| vars.contains_key("format") && vars.contains_key("output"));
    assert!(validate_handlers(&root, &reg).is_ok());

    let tree = build_command_tree(&root);
    let cmd = tree.get(&path(&["export", "users"])).unwrap();
    // `export users --format csv`, the other option at its default
    let got = collect_vars(cmd, &flags(&[]), &values(&[("format", "csv"), ("output", "users.json")]));

    let spec = build_request_from_command(None, cmd, &got.vars, &got.selected, &StringMap::new());
    if let RequestSpec::CustomHandler { handler_name, vars: handler_vars } = spec {
        assert_eq!(handler_name, "export_users");
        assert_eq!(handler_vars.get("format"), Some(&"csv".to_string()));
        assert_eq!(handler_vars.get("output"), Some(&"users.json".to_string()));
        let handler = lookup_handler(&reg, &handler_name).unwrap();
        assert!(handler(&handler_vars));
    } else {
        panic!("Expected CustomHandler request spec");
    }
}

#[test]
fn test_template_substitution_in_request() {
    let mut call = command(
        "call",
        "POST",
        "/orgs/{org}/projects/{project}",
        vec![
            positional("org"),
            positional("project"),
            ArgSpec { required: Some(true), ..option("name", None) },
            option("desc", Some("")),
            ArgSpec { required: Some(true), ..option("token", None) },
        ],
    );
    call.body = Some(r#"{"name": "{name}", "description": "{desc}"}"#.to_string());
    call.headers = values(&[("Authorization", "Bearer {token}"), ("X-Org-Id", "{org}")]);
    let root = root_of(vec![group("api", None, vec![CommandNode::Command(call)])]);
    let tree = build_command_tree(&root);
    let cmd = tree.get(&path(&["api", "call"])).unwrap();
    let got = collect_vars(
        cmd,
        &flags(&[]),
        &values(&[
            ("org", "acme"),
            ("project", "myproject"),
            ("name", "Test Project"),
            ("desc", "A test project"),
            ("token", "secret123"),
        ]),
    );

    let spec = build_request_from_command(
        Some("https://api.example.com".to_string()),
        cmd,
        &got.vars,
        &got.selected,
        &StringMap::new(),
    );
    if let RequestSpec::Simple(raw) = spec {
        assert_eq!(raw.endpoint, "/orgs/acme/projects/myproject");
        assert_eq!(
            raw.body,
            Some(r#"{"name": "Test Project", "description": "A test project"}"#.to_string())
        );
        assert!(raw.headers.iter().any(|h| h.contains("Bearer secret123")));
        assert!(raw.headers.iter().any(|h| h.contains("X-Org-Id: acme")));
    } else {
        panic!("Expected Simple request spec");
    }
}

#[test]
fn test_deeply_nested_command_groups() {
    let instances = group(
        "instances",
        Some("Instance management"),
        vec![
            CommandNode::Command(command("list", "GET", "/cloud/compute/instances", vec![])),
            CommandNode::Command(command(
                "get",
                "GET",
                "/cloud/compute/instances/{id}",
                vec![positional("id")],
            )),
        ],
    );
    let compute = group("compute", Some("Compute resources"), vec![CommandNode::Group(instances)]);
    let root = root_of(vec![group("cloud", Some("Cloud commands"), vec![CommandNode::Group(compute)])]);
    let tree = build_command_tree(&root);

    // Verify deeply nested paths exist
    assert!(tree.get(&path(&["cloud", "compute", "instances", "list"])).is_some());

    let cmd = tree.get(&path(&["cloud", "compute", "instances", "get"])).unwrap();
    let got = collect_vars(cmd, &flags(&[]), &values(&[("id", "vm-123")]));
    assert_eq!(got.vars.get("id"), Some(&"vm-123".to_string()));
}

#[test]
fn test_boolean_flag_handling() {
    let verbose = ArgSpec {
        name: Some("verbose".to_string()),
        long: Some("verbose".to_string()),
        short: Some("v".to_string()),
        arg_type: Some("bool".to_string()),
        value: Some(ConditionalValue::Mapping {
            if_set: Some("true".to_string()),
            if_not_set: Some("false".to_string()),
        }),
        ..Default::default()
    };
    let root = root_of(vec![group(
        "users",
        None,
        vec![CommandNode::Command(command("list", "GET", "/users?verbose={verbose}", vec![verbose]))],
    )]);
    let tree = build_command_tree(&root);
    let cmd = tree.get(&path(&["users", "list"])).unwrap();

    // Without flag
    let got = collect_vars(cmd, &flags(&[]), &values(&[]));
    assert_eq!(got.vars.get("verbose"), Some(&"false".to_string()));

    // With flag
    let got = collect_vars(cmd, &flags(&["verbose"]), &values(&[]));
    assert_eq!(got.vars.get("verbose"), Some(&"true".to_string()));
}

#[test]
fn test_common_args_defined_in_group() {
    let mut list = command("list", "GET", "/users", vec![]);
    list.use_common_args = vec!["output_format".to_string()];
    let mut users = group("users", None, vec![CommandNode::Command(list)]);
    users.common_args = vec![(
        "output_format".to_string(),
        ArgSpec {
            name: Some("output_format".to_string()),
            long: Some("output".to_string()),
            short: Some("o".to_string()),
            default: Some("json".to_string()),
            help: Some("Output format".to_string()),
            ..Default::default()
        },
    )];
    let tree = build_command_tree(&root_of(vec![users]));
    let cmd = tree.get(&path(&["users", "list"])).unwrap();
    // `users list --output yaml`
    let got = collect_vars(cmd, &flags(&[]), &values(&[("output", "yaml")]));
    assert_eq!(got.vars.get("output_format"), Some(&"yaml".to_string()));
}

#[test]
fn test_scenario_command_parsing() {
    let scenario = Scenario {
        scenario_type: "sequential".to_string(),
        steps: vec![
            ScenarioStep {
                name: "create_deployment".to_string(),
                method: "POST".to_string(),
                endpoint: "/deployments".to_string(),
                body: Some(r#"{"app": "{app_name}"}"#.to_string()),
                headers: StringMap::new(),
                extract_response: values(&[("deployment_id", "$.id")]),
                polling: None,
            },
            ScenarioStep {
                name: "check_status".to_string(),
                method: "GET".to_string(),
                endpoint: "/deployments/{deployment_id}".to_string(),
                body: None,
                headers: StringMap::new(),
                extract_response: StringMap::new(),
                polling: None,
            },
        ],
    };
    let mut app = command(
        "app",
        "",
        "",
        vec![ArgSpec {
            name: Some("app_name".to_string()),
            long: Some("app".to_string()),
            required: Some(true),
            ..Default::default()
        }],
    );
    app.about = Some("Deploy an application".to_string());
    app.method = None;
    app.endpoint = None;
    app.scenario = Some(scenario);
    let root = root_of(vec![group("deploy", None, vec![CommandNode::Command(app)])]);
    let tree = build_command_tree(&root);
    let cmd = tree.get(&path(&["deploy", "app"])).unwrap();
    // `deploy app --app myapp`
    let got = collect_vars(cmd, &flags(&[]), &values(&[("app", "myapp")]));

    let spec = build_request_from_command(
        Some("https://api.example.com".to_string()),
        cmd,
        &got.vars,
        &got.selected,
        &StringMap::new(),
    );
    if let RequestSpec::Scenario(scenario_spec) = spec {
        assert_eq!(scenario_spec.scenario.steps.len(), 2);
        assert_eq!(scenario_spec.scenario.steps[0].name, "create_deployment");
        assert!(scenario_spec.vars.contains_key("app_name"));
        assert_eq!(scenario_spec.vars.get("app_name"), Some(&"myapp".to_string()));
    } else {
        panic!("Expected Scenario request spec");
    }
}
