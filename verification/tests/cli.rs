use rclib::cli::{
    leak_str, lookup_handler, pre_scan_value, validate_handlers, HandlerRegistry, TreeNode,
};
use rclib::mapping::{
    CommandGroup, CommandNode, CommandSpec, FlatSpec, HierSpec, MappingRoot,
};
use rclib::{Error, ErrorKind, ExecError, StringMap};

type Handler = fn(&StringMap, &str, bool) -> Result<(), Error>;

fn handler_command(name: Option<&str>, pattern: &str, handler: &str) -> CommandSpec {
    CommandSpec {
        name: name.map(|n| n.to_string()),
        about: None,
        pattern: pattern.to_string(),
        method: None,
        endpoint: None,
        body: None,
        headers: StringMap::new(),
        table_view: None,
        scenario: None,
        multipart: false,
        custom_handler: Some(handler.to_string()),
        args: vec![],
        use_common_args: vec![],
    }
}

fn export_group(command: &str, handler: &str) -> MappingRoot {
    MappingRoot::Hier(HierSpec {
        common_args: vec![],
        commands: vec![CommandGroup {
            name: "export".to_string(),
            about: None,
            common_args: vec![],
            subcommands: vec![CommandNode::Command(handler_command(
                Some(command),
                "",
                handler,
            ))],
        }],
    })
}

#[test]
fn test_pre_scan_value_space_separated() {
    let args = vec![
        "cli".to_string(),
        "--base-url".to_string(),
        "https://api.example.com".to_string(),
        "users".to_string(),
    ];
    let result = pre_scan_value(&args, "--base-url");
    assert_eq!(result, Some("https://api.example.com".to_string()));
}

#[test]
fn test_pre_scan_value_equals_separated() {
    let args = vec![
        "cli".to_string(),
        "--base-url=https://api.example.com".to_string(),
        "users".to_string(),
    ];
    let result = pre_scan_value(&args, "--base-url");
    assert_eq!(result, Some("https://api.example.com".to_string()));
}

#[test]
fn test_pre_scan_value_not_found() {
    let args = vec!["cli".to_string(), "users".to_string()];
    let result = pre_scan_value(&args, "--base-url");
    assert_eq!(result, None);
}

#[test]
fn test_pre_scan_value_at_end_no_value() {
    let args = vec!["cli".to_string(), "--base-url".to_string()];
    let result = pre_scan_value(&args, "--base-url");
    assert_eq!(result, None); // No value after the key
}

#[test]
fn test_pre_scan_value_empty_args() {
    let args: Vec<String> = vec![];
    let result = pre_scan_value(&args, "--base-url");
    assert_eq!(result, None);
}

#[test]
fn test_handler_registry_new() {
    let reg: HandlerRegistry<Handler> = HandlerRegistry::new();
    assert!(reg.get("nonexistent").is_none());
}

#[test]
fn test_handler_registry_register_and_get() {
    let mut reg: HandlerRegistry<Handler> = HandlerRegistry::new();
    reg.register("test_handler", |_vars, _base_url, _json| Ok(()));
    assert!(reg.get("test_handler").is_some());
    assert!(reg.get("other_handler").is_none());
}

#[test]
fn test_leak_str() {
    let leaked = leak_str("test string");
    assert_eq!(leaked, "test string");
}

#[test]
fn test_leak_str_from_string() {
    let s = String::from("dynamic string");
    let leaked = leak_str(s);
    assert_eq!(leaked, "dynamic string");
}

#[test]
fn test_tree_node_default() {
    let node = TreeNode::default();
    assert!(node.children.is_empty());
    assert!(node.args.is_empty());
    assert!(node.about.is_none());
}


#[test]
fn test_validate_handlers_all_registered() {
    let root = export_group("users", "export_users");
    let mut reg: HandlerRegistry<Handler> = HandlerRegistry::new();
    reg.register("export_users", |_, _, _| Ok(()));

    let result = validate_handlers(&root, &reg);
    assert!(result.is_ok());
}

#[test]
fn test_validate_handlers_missing() {
    let root = export_group("users", "export_users");
    let reg: HandlerRegistry<Handler> = HandlerRegistry::new(); // No handlers registered

    let result = validate_handlers(&root, &reg);
    assert!(result.is_err());
    let err_msg = result.unwrap_err().message();
    assert!(err_msg.contains("export_users"));
}

#[test]
fn test_validate_handlers_flat_spec() {
    let flat = FlatSpec {
        commands: vec![handler_command(None, "export users", "export_users")],
    };
    let root = MappingRoot::Flat(flat);

    let mut reg: HandlerRegistry<Handler> = HandlerRegistry::new();
    reg.register("export_users", |_, _, _| Ok(()));

    let result = validate_handlers(&root, &reg);
    assert!(result.is_ok());
}

#[test]
fn test_validate_handlers_flat_spec_missing() {
    let flat = FlatSpec {
        commands: vec![handler_command(None, "export users", "missing_handler")],
    };
    let root = MappingRoot::Flat(flat);
    let reg: HandlerRegistry<Handler> = HandlerRegistry::new();

    let result = validate_handlers(&root, &reg);
    assert!(result.is_err());
    assert!(result.unwrap_err().message().contains("missing_handler"));
}

#[test]
fn test_missing_required_handler() {
    let root = export_group("data", "nonexistent_handler");
    let reg: HandlerRegistry<Handler> = HandlerRegistry::new();

    let result = validate_handlers(&root, &reg);
    assert!(result.is_err());
    assert!(result.unwrap_err().message().contains("nonexistent_handler"));
}

#[test]
fn validate_handlers_lists_every_missing_handler_in_order() {
    let root = MappingRoot::Hier(HierSpec {
        common_args: vec![],
        commands: vec![CommandGroup {
            name: "top".to_string(),
            about: None,
            common_args: vec![],
            subcommands: vec![
                CommandNode::Command(handler_command(Some("a"), "", "first")),
                CommandNode::Group(CommandGroup {
                    name: "inner".to_string(),
                    about: None,
                    common_args: vec![],
                    subcommands: vec![
                        CommandNode::Command(handler_command(Some("b"), "", "known")),
                        CommandNode::Command(handler_command(Some("c"), "", "second")),
                    ],
                }),
                CommandNode::Command(handler_command(Some("d"), "", "third")),
            ],
        }],
    });
    let mut reg: HandlerRegistry<Handler> = HandlerRegistry::new();
    reg.register("known", |_, _, _| Ok(()));
    let err = validate_handlers(&root, &reg).unwrap_err();
    assert_eq!(err.message(), "Missing custom handlers: first, second, third");
}

#[test]
fn handler_registry_replaces_a_handler_of_the_same_name() {
    let mut reg: HandlerRegistry<u32> = HandlerRegistry::new();
    reg.register("h", 1);
    reg.register("g", 2);
    reg.register("h", 3);
    assert_eq!(reg.get("h"), Some(&3));
    assert_eq!(reg.get("g"), Some(&2));
    assert!(reg.contains("h"));
    assert!(!reg.contains("x"));
}

#[test]
fn pre_scan_value_takes_the_first_of_both_forms() {
    let args = vec![
        "cli".to_string(),
        "--key=first".to_string(),
        "--key".to_string(),
        "second".to_string(),
    ];
    assert_eq!(pre_scan_value(&args, "--key"), Some("first".to_string()));
    let args = vec!["--key".to_string(), "--key=x".to_string()];
    assert_eq!(pre_scan_value(&args, "--key"), Some("--key=x".to_string()));
    let args = vec!["--keyring=5".to_string(), "--key=".to_string()];
    assert_eq!(pre_scan_value(&args, "--key"), Some("".to_string()));
}

#[test]
fn a_leaked_text_is_the_text() {
    let leaked: &'static str = leak_str(format!("{}-{}", "a", 1));
    assert_eq!(leaked, "a-1");
    assert_eq!(leak_str(String::new()), "");
}

#[test]
fn a_handler_that_is_not_registered_is_a_configuration_error() {
    let mut reg: HandlerRegistry<u32> = HandlerRegistry::new();
    reg.register("known", 7);
    assert_eq!(lookup_handler(&reg, "known"), Ok(&7));
    let e = lookup_handler(&reg, "unknown").unwrap_err();
    assert_eq!(e, ExecError::HandlerNotRegistered("unknown".to_string()));
    assert_eq!(e.kind(), ErrorKind::Configuration);
    assert_eq!(e.message(), "No handler registered for unknown");
}
