use plugin_builder::PluginMetadata;
use plugin_builder::PluginSystems;
use plugin_builder::TypeInfo;

fn systems_none() -> PluginSystems {
    PluginSystems {
        startup: Vec::new(),
        update: Vec::new(),
        fixed_update: Vec::new(),
        on_enter_count: 0,
        on_exit_count: 0,
    }
}

#[test]
fn test_type_info_equality() {
    let info1 = TypeInfo::new("String".to_string(), 1);
    let info2 = TypeInfo::new("String".to_string(), 1);
    let info3 = TypeInfo::new("i32".to_string(), 2);

    assert_eq!(info1, info2);
    assert_ne!(info1, info3);
}

#[test]
fn test_plugin_metadata_queries() {
    let string_id: u64 = 1;
    let i32_id: u64 = 2;
    let f32_id: u64 = 3;

    let metadata = PluginMetadata {
        name: "TestPlugin".to_string(),
        version: Some("1.0.0".to_string()),
        description: Some("A test plugin".to_string()),
        resources: vec![
            TypeInfo::new("String".to_string(), string_id),
            TypeInfo::new("i32".to_string(), i32_id),
        ],
        messages: Vec::new(),
        states: Vec::new(),
        sub_states: Vec::new(),
        reflected_types: Vec::new(),
        sub_plugins: Vec::new(),
        dependencies: vec!["OtherPlugin".to_string()],
        systems: systems_none(),
    };

    assert!(metadata.has_resource(string_id));
    assert!(metadata.has_resource(i32_id));
    assert!(!metadata.has_resource(f32_id));

    assert!(metadata.depends_on("OtherPlugin"));
    assert!(!metadata.depends_on("NonExistent"));

    assert_eq!(metadata.total_systems(), 0);
}

#[test]
fn test_empty_metadata() {
    let metadata = PluginMetadata::empty("EmptyPlugin".to_string());

    assert_eq!(metadata.name, "EmptyPlugin");
    assert!(metadata.version.is_none());
    assert!(metadata.resources.is_empty());
    assert_eq!(metadata.total_systems(), 0);
}

#[test]
fn test_total_systems_counts_all_schedules() {
    let metadata = PluginMetadata {
        name: "Busy".to_string(),
        version: None,
        description: None,
        resources: Vec::new(),
        messages: Vec::new(),
        states: Vec::new(),
        sub_states: Vec::new(),
        reflected_types: Vec::new(),
        sub_plugins: Vec::new(),
        dependencies: Vec::new(),
        systems: PluginSystems {
            startup: vec!["boot".to_string()],
            update: vec!["tick".to_string(), "draw".to_string()],
            fixed_update: vec!["step".to_string()],
            on_enter_count: 2,
            on_exit_count: 1,
        },
    };
    assert_eq!(metadata.total_systems(), 7);
}
