use plugin_builder::builder::Builder;
use plugin_builder::deps::dependency_names;
use plugin_builder::deps::verify_dependencies;
use plugin_builder::MissingPluginError;
use plugin_builder::TypeInfo;

#[test]
fn test_missing_plugin_error_display() {
    let err = MissingPluginError {
        required_by: "GamePlugin".to_string(),
        missing: "PhysicsPlugin".to_string(),
    };
    let msg = err.message();
    assert!(msg.contains("GamePlugin"));
    assert!(msg.contains("PhysicsPlugin"));
    assert!(msg.contains("add_plugins()"));
}

#[test]
fn test_empty_plugin_set() {
    let app = Builder::new();
    let no_deps: Vec<TypeInfo> = Vec::new();
    assert!(verify_dependencies(&app, "TestPlugin", &no_deps).is_ok());
    assert!(dependency_names(&no_deps).is_empty());
}

#[test]
fn test_verify_reports_first_missing_only() {
    let mut app = Builder::new();
    app.mark_installed(3);
    let deps = vec![
        TypeInfo::new("Alpha".to_string(), 1),
        TypeInfo::new("Beta".to_string(), 2),
        TypeInfo::new("Gamma".to_string(), 3),
    ];
    let err = verify_dependencies(&app, "Omega", &deps).unwrap_err();
    assert_eq!(err.required_by, "Omega");
    assert_eq!(err.missing, "Alpha");
}

#[test]
fn test_verify_passes_when_all_installed() {
    let mut app = Builder::new();
    app.mark_installed(1);
    app.mark_installed(2);
    let deps = vec![
        TypeInfo::new("Alpha".to_string(), 1),
        TypeInfo::new("Beta".to_string(), 2),
    ];
    assert!(verify_dependencies(&app, "Omega", &deps).is_ok());
    assert_eq!(
        dependency_names(&deps),
        vec!["Alpha".to_string(), "Beta".to_string()]
    );
}

#[test]
fn test_error_message_names_remediation() {
    let err = MissingPluginError {
        required_by: "Game".to_string(),
        missing: "Physics".to_string(),
    };
    assert_eq!(
        err.message(),
        "Plugin 'Game' requires 'Physics' to be added first. \
         Add 'Physics' before 'Game' in your app.add_plugins() call."
    );
}
