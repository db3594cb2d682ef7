use rclib::mapping::{derive_args_from_pattern, is_placeholder};

#[test]
fn test_is_placeholder_valid() {
    assert!(is_placeholder("{id}"));
    assert!(is_placeholder("{user_name}"));
    assert!(is_placeholder("{abc}"));
}

#[test]
fn test_is_placeholder_invalid() {
    assert!(!is_placeholder("{}"));
    assert!(!is_placeholder("{"));
    assert!(!is_placeholder("}"));
    assert!(!is_placeholder("id"));
    assert!(!is_placeholder("{a"));
    assert!(!is_placeholder("a}"));
    assert!(!is_placeholder(""));
}

#[test]
fn test_derive_args_single_placeholder() {
    let args = derive_args_from_pattern("users get {id}");
    assert_eq!(args.len(), 1);
    assert_eq!(args[0].name, Some("id".to_string()));
    assert_eq!(args[0].positional, Some(true));
    assert_eq!(args[0].required, Some(true));
}

#[test]
fn test_derive_args_multiple_placeholders() {
    let args = derive_args_from_pattern("users {org} get {id}");
    assert_eq!(args.len(), 2);
    assert_eq!(args[0].name, Some("org".to_string()));
    assert_eq!(args[1].name, Some("id".to_string()));
}

#[test]
fn test_derive_args_no_placeholders() {
    let args = derive_args_from_pattern("users list");
    assert!(args.is_empty());
}

#[test]
fn test_derive_args_empty_pattern() {
    let args = derive_args_from_pattern("");
    assert!(args.is_empty());
}


#[test]
fn test_mapping_root_debug() {
    let cmd = rclib::mapping::CommandSpec {
        name: Some("cmd".to_string()),
        about: None,
        pattern: String::new(),
        method: Some("GET".to_string()),
        endpoint: Some("/test".to_string()),
        body: None,
        headers: rclib::StringMap::new(),
        table_view: None,
        scenario: None,
        multipart: false,
        custom_handler: None,
        args: vec![],
        use_common_args: vec![],
    };
    let root = rclib::mapping::MappingRoot::Hier(rclib::mapping::HierSpec {
        common_args: vec![],
        commands: vec![rclib::mapping::CommandGroup {
            name: "test".to_string(),
            about: None,
            common_args: vec![],
            subcommands: vec![rclib::mapping::CommandNode::Command(cmd)],
        }],
    });
    let debug_str = format!("{:?}", root);
    assert!(debug_str.contains("Hier"));
}

#[test]
fn test_mapping_root_flat_debug() {
    let flat = rclib::mapping::FlatSpec {
        commands: vec![rclib::mapping::CommandSpec {
            name: None,
            about: None,
            pattern: "test cmd".to_string(),
            method: Some("GET".to_string()),
            endpoint: Some("/test".to_string()),
            body: None,
            headers: rclib::StringMap::new(),
            table_view: None,
            scenario: None,
            multipart: false,
            custom_handler: None,
            args: vec![],
            use_common_args: vec![],
        }],
    };
    let root = rclib::mapping::MappingRoot::Flat(flat);
    let debug_str = format!("{:?}", root);
    assert!(debug_str.contains("Flat"));
}
