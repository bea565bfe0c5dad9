use plugin_builder::PluginMetadata;
use plugin_builder::PluginRegistry;
use plugin_builder::PluginSystems;
use plugin_builder::TypeInfo;

const MOCK_ID: u64 = 100;
const STRING_ID: u64 = 1;
const I32_ID: u64 = 2;

fn mock_metadata() -> PluginMetadata {
    PluginMetadata {
        name: "MockPlugin".to_string(),
        version: Some("1.0.0".to_string()),
        description: None,
        resources: vec![TypeInfo::new("String".to_string(), STRING_ID)],
        messages: Vec::new(),
        states: Vec::new(),
        sub_states: Vec::new(),
        reflected_types: Vec::new(),
        sub_plugins: Vec::new(),
        dependencies: Vec::new(),
        systems: PluginSystems {
            startup: Vec::new(),
            update: Vec::new(),
            fixed_update: Vec::new(),
            on_enter_count: 0,
            on_exit_count: 0,
        },
    }
}

#[test]
fn test_registry_register_and_get() {
    let mut registry = PluginRegistry::new();
    assert!(registry.is_empty());

    registry.register(MOCK_ID, mock_metadata());

    assert!(!registry.is_empty());
    assert_eq!(registry.len(), 1);
    assert!(registry.is_registered(MOCK_ID));

    let metadata = registry.get(MOCK_ID).unwrap();
    assert_eq!(metadata.name, "MockPlugin");
    assert_eq!(metadata.version, Some("1.0.0".to_string()));
}

#[test]
fn test_registry_list_all() {
    let mut registry = PluginRegistry::new();
    registry.register(MOCK_ID, mock_metadata());

    let plugins = registry.list_all();
    assert_eq!(plugins.len(), 1);
    assert_eq!(plugins[0].name, "MockPlugin");
}

#[test]
fn test_registry_plugins_with_resource() {
    let mut registry = PluginRegistry::new();
    registry.register(MOCK_ID, mock_metadata());

    let plugins = registry.plugins_with_resource(STRING_ID);
    assert_eq!(plugins, vec!["MockPlugin".to_string()]);

    let empty = registry.plugins_with_resource(I32_ID);
    assert!(empty.is_empty());
}

#[test]
fn test_registry_find_by_name() {
    let mut registry = PluginRegistry::new();
    registry.register(MOCK_ID, mock_metadata());

    let found = registry.find_by_name("MockPlugin");
    assert!(found.is_some());
    assert_eq!(found.unwrap().name, "MockPlugin");

    let not_found = registry.find_by_name("NonExistent");
    assert!(not_found.is_none());
}

#[test]
fn test_registry_duplicate_registration() {
    let mut registry = PluginRegistry::new();
    registry.register(MOCK_ID, mock_metadata());
    registry.register(MOCK_ID, mock_metadata());

    assert_eq!(registry.len(), 1);
}

#[test]
fn test_registry_duplicate_keeps_order_and_names() {
    let mut registry = PluginRegistry::new();
    registry.register(MOCK_ID, mock_metadata());
    let mut other = mock_metadata();
    other.name = "Another".to_string();
    registry.register(7, other);
    registry.register(MOCK_ID, mock_metadata());

    assert_eq!(registry.len(), 2);
    assert_eq!(
        registry.plugin_names(),
        vec!["MockPlugin".to_string(), "Another".to_string()]
    );
}

#[test]
fn test_registry_totals() {
    let mut registry = PluginRegistry::new();
    registry.register(MOCK_ID, mock_metadata());
    let mut other = mock_metadata();
    other.name = "Another".to_string();
    other.resources.push(TypeInfo::new("i32".to_string(), I32_ID));
    other.systems.startup.push("boot".to_string());
    other.systems.on_exit_count = 2;
    registry.register(7, other);

    assert_eq!(registry.total_resources(), 3);
    assert_eq!(registry.total_systems(), 3);
}
