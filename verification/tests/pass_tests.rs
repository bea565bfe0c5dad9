use plugin_builder::builder::Builder;
use plugin_builder::builder::BuilderCall;
use plugin_builder::builder::Schedule;
use plugin_builder::config::ConfigError;
use plugin_builder::config::Expr;
use plugin_builder::config::FlagSetting;
use plugin_builder::config::MetaBlock;
use plugin_builder::config::RawEntry;
use plugin_builder::config::RawValue;
use plugin_builder::config::StateArm;
use plugin_builder::testgen::ConformanceTest;
use plugin_builder::PluginDef;
use plugin_builder::TypeInfo;

fn types_entry(key: &str, types: Vec<TypeInfo>) -> RawEntry {
    RawEntry { key: key.to_string(), value: RawValue::Types(types) }
}

fn exprs_entry(key: &str, exprs: Vec<Expr>) -> RawEntry {
    RawEntry { key: key.to_string(), value: RawValue::Exprs(exprs) }
}

fn ty(name: &str, id: u64) -> TypeInfo {
    TypeInfo::new(name.to_string(), id)
}

fn ex(name: &str, id: u64) -> Expr {
    Expr::new(name.to_string(), id)
}

#[test]
fn test_empty_plugin() {
    let raw: Vec<RawEntry> = Vec::new();
    let plugin = PluginDef::define("EmptyPlugin".to_string(), 1, &raw).unwrap();

    assert!(plugin.build_calls().is_empty());

    let mut builder = Builder::new();
    assert!(plugin.install(&mut builder).is_ok());
    assert!(builder.log.is_empty());
    plugin.finish(&mut builder);
    assert!(builder.finish_log.is_empty());

    let metadata = plugin.metadata();
    assert!(metadata.resources.is_empty());
    assert!(metadata.messages.is_empty());
    assert!(metadata.states.is_empty());
    assert!(metadata.sub_states.is_empty());
    assert!(metadata.reflected_types.is_empty());
    assert!(metadata.sub_plugins.is_empty());
    assert!(metadata.dependencies.is_empty());
    assert_eq!(metadata.total_systems(), 0);
    assert!(plugin.conformance_tests().is_empty());
}

#[test]
fn test_concrete_build_and_metadata() {
    let raw = vec![
        types_entry("init_resource", vec![ty("R", 1)]),
        types_entry("add_message", vec![ty("M", 2)]),
        RawEntry {
            key: "add_systems_on_enter".to_string(),
            value: RawValue::StateMap(vec![StateArm {
                state: ex("S::A", 3),
                systems: vec![ex("f", 4), ex("g", 5)],
            }]),
        },
    ];
    let plugin = PluginDef::define("P".to_string(), 10, &raw).unwrap();

    let mut builder = Builder::new();
    assert!(plugin.install(&mut builder).is_ok());

    assert_eq!(builder.log.len(), 3);
    match &builder.log[0] {
        BuilderCall::InitResource(t) => assert_eq!(t.type_id(), 1),
        other => panic!("expected a resource call, got {:?}", other),
    }
    match &builder.log[1] {
        BuilderCall::AddMessage(t) => assert_eq!(t.type_id(), 2),
        other => panic!("expected a message call, got {:?}", other),
    }
    match &builder.log[2] {
        BuilderCall::AddSystems(Schedule::OnEnter(state), systems) => {
            assert_eq!(state.name, "S::A");
            assert_eq!(systems.len(), 2);
            assert_eq!(systems[0].name, "f");
            assert_eq!(systems[1].name, "g");
        }
        other => panic!("expected one batched on-enter call, got {:?}", other),
    }

    let metadata = plugin.metadata();
    assert_eq!(metadata.resources.len(), 1);
    assert_eq!(metadata.resources[0].name, "R");
    assert_eq!(metadata.messages.len(), 1);
    assert_eq!(metadata.messages[0].name, "M");
    assert_eq!(metadata.systems.on_enter_count, 2);
}

#[test]
fn test_resource_order_preserved() {
    let raw = vec![
        types_entry("init_resource", vec![ty("A", 1), ty("B", 2), ty("C", 3)]),
        types_entry("add_message", vec![ty("M", 9)]),
        types_entry("init_resource", vec![ty("D", 4)]),
    ];
    let plugin = PluginDef::define("P".to_string(), 10, &raw).unwrap();
    let metadata = plugin.metadata();
    let names: Vec<&str> = metadata.resources.iter().map(|t| t.name.as_str()).collect();
    assert_eq!(names, vec!["A", "B", "C", "D"]);
}

#[test]
fn test_first_missing_dependency_reported() {
    let raw = vec![types_entry("depends_on", vec![ty("X", 50), ty("Y", 51)])];
    let plugin = PluginDef::define("P".to_string(), 10, &raw).unwrap();
    let mut builder = Builder::new();
    let err = plugin.install(&mut builder).unwrap_err();
    assert_eq!(err.required_by, "P");
    assert_eq!(err.missing, "X");
    assert!(err.message().contains("requires"));
}

#[test]
fn test_failed_install_registers_nothing() {
    let raw = vec![
        types_entry("depends_on", vec![ty("X", 50)]),
        types_entry("init_resource", vec![ty("R", 1)]),
    ];
    let plugin = PluginDef::define("P".to_string(), 10, &raw).unwrap();
    let mut builder = Builder::new();
    assert!(plugin.install(&mut builder).is_err());
    assert!(!builder.contains_resource(1));
    assert!(builder.log.is_empty());
    assert!(builder.installed.is_empty());
}

#[test]
fn test_satisfied_dependency_installs() {
    let dep_raw: Vec<RawEntry> = Vec::new();
    let dep = PluginDef::define("X".to_string(), 50, &dep_raw).unwrap();
    let raw = vec![
        types_entry("depends_on", vec![ty("X", 50)]),
        types_entry("init_resource", vec![ty("R", 1)]),
    ];
    let plugin = PluginDef::define("P".to_string(), 10, &raw).unwrap();

    let mut builder = Builder::new();
    assert!(dep.install(&mut builder).is_ok());
    assert!(builder.is_plugin_added(50));
    assert!(plugin.install(&mut builder).is_ok());
    assert!(builder.contains_resource(1));
    assert!(builder.is_plugin_added(10));
}

#[test]
fn test_sub_plugin_counts_as_installed() {
    let raw = vec![exprs_entry("add_plugins", vec![ex("SubPlugin", 20)])];
    let first = PluginDef::define("Host".to_string(), 10, &raw).unwrap();
    let dep_raw = vec![types_entry("depends_on", vec![ty("SubPlugin", 20)])];
    let second = PluginDef::define("Later".to_string(), 11, &dep_raw).unwrap();

    let mut builder = Builder::new();
    assert!(first.install(&mut builder).is_ok());
    assert!(builder.is_plugin_added(20));
    assert!(second.install(&mut builder).is_ok());
}

#[test]
fn test_insert_resource_registers_by_value() {
    let raw = vec![
        exprs_entry("insert_resource", vec![ex("Config::new()", 8)]),
        RawEntry {
            key: "generate_tests".to_string(),
            value: RawValue::FlagMap(vec![FlagSetting {
                name: "test_resources".to_string(),
                value: true,
            }]),
        },
    ];
    let plugin = PluginDef::define("P".to_string(), 10, &raw).unwrap();
    let mut builder = Builder::new();
    assert!(plugin.install(&mut builder).is_ok());
    assert!(builder.contains_resource(8));

    let metadata = plugin.metadata();
    assert_eq!(metadata.resources.len(), 1);
    assert_eq!(metadata.resources[0].name, "Config::new()");
    assert!(metadata.has_resource(8));

    let checks = plugin.conformance_tests();
    assert_eq!(checks.len(), 1);
    assert!(checks[0].run(&plugin));
}

#[test]
fn test_inserted_and_declared_resources_in_order() {
    let raw = vec![
        exprs_entry("insert_resource", vec![ex("Score::default()", 7)]),
        types_entry("init_resource", vec![ty("Settings", 8)]),
    ];
    let plugin = PluginDef::define("P".to_string(), 10, &raw).unwrap();
    let metadata = plugin.metadata();
    let names: Vec<&str> = metadata.resources.iter().map(|t| t.name.as_str()).collect();
    assert_eq!(names, vec!["Score::default()", "Settings"]);
}

#[test]
fn test_unknown_key_rejected() {
    let raw = vec![types_entry("bogus_option", vec![ty("R", 1)])];
    let err = PluginDef::define("P".to_string(), 10, &raw).unwrap_err();
    match &err {
        ConfigError::UnknownKey(k) => assert_eq!(k, "bogus_option"),
        other => panic!("expected an unknown-key error, got {:?}", other),
    }
    let msg = err.message();
    assert!(msg.contains("bogus_option"));
    assert!(msg.contains("Supported options"));
    assert!(msg.contains("init_resource"));
    assert!(msg.contains("generate_tests"));
}

#[test]
fn test_wrong_shape_rejected() {
    let raw = vec![exprs_entry("init_resource", vec![ex("R::default()", 1)])];
    let err = PluginDef::define("P".to_string(), 10, &raw).unwrap_err();
    match err {
        ConfigError::UnknownKey(k) => assert_eq!(k, "init_resource"),
        other => panic!("expected an unknown-key error, got {:?}", other),
    }
}

#[test]
fn test_late_depends_on_rejected() {
    let raw = vec![
        types_entry("init_resource", vec![ty("R", 1)]),
        types_entry("depends_on", vec![ty("X", 50)]),
    ];
    let err = PluginDef::define("P".to_string(), 10, &raw).unwrap_err();
    assert!(matches!(err, ConfigError::MisplacedDependsOn));
    assert!(err.message().contains("first"));
}

#[test]
fn test_meta_last_field_wins() {
    let raw = vec![
        RawEntry {
            key: "meta".to_string(),
            value: RawValue::MetaMap(MetaBlock {
                version: Some("1.0.0".to_string()),
                description: Some("first words".to_string()),
            }),
        },
        RawEntry {
            key: "meta".to_string(),
            value: RawValue::MetaMap(MetaBlock {
                version: Some("2.0.0".to_string()),
                description: None,
            }),
        },
    ];
    let plugin = PluginDef::define("P".to_string(), 10, &raw).unwrap();
    let metadata = plugin.metadata();
    assert_eq!(metadata.version, Some("2.0.0".to_string()));
    assert_eq!(metadata.description, Some("first words".to_string()));
}

#[test]
fn test_finish_runs_after_build() {
    let raw = vec![
        RawEntry { key: "custom_build".to_string(), value: RawValue::Callable(1) },
        RawEntry { key: "custom_finish".to_string(), value: RawValue::Callable(2) },
    ];
    let plugin = PluginDef::define("P".to_string(), 10, &raw).unwrap();
    let mut builder = Builder::new();
    assert!(plugin.install(&mut builder).is_ok());
    assert_eq!(builder.log.len(), 1);
    assert!(matches!(builder.log[0], BuilderCall::RunBuildHook(1)));
    assert!(builder.finish_log.is_empty());
    plugin.finish(&mut builder);
    assert_eq!(builder.finish_log, vec![2]);
}

#[test]
fn test_generated_checks_gated_by_flags() {
    let raw = vec![
        types_entry("init_resource", vec![ty("R", 1)]),
        types_entry("add_message", vec![ty("M", 2)]),
        RawEntry {
            key: "generate_tests".to_string(),
            value: RawValue::FlagMap(vec![
                FlagSetting { name: "test_resources".to_string(), value: true },
                FlagSetting { name: "test_messages".to_string(), value: false },
            ]),
        },
    ];
    let plugin = PluginDef::define("Q".to_string(), 10, &raw).unwrap();
    let checks = plugin.conformance_tests();
    assert_eq!(checks.len(), 1);
    match &checks[0] {
        ConformanceTest::Resources(ts) => {
            assert_eq!(ts.len(), 1);
            assert_eq!(ts[0].name, "R");
        }
        other => panic!("expected one resource check, got {:?}", other),
    }
}

#[test]
fn test_no_opt_in_no_checks() {
    let raw = vec![types_entry("init_resource", vec![ty("R", 1)])];
    let plugin = PluginDef::define("P".to_string(), 10, &raw).unwrap();
    assert!(plugin.conformance_tests().is_empty());
}

#[test]
fn test_empty_category_emits_no_check() {
    let raw = vec![RawEntry {
        key: "generate_tests".to_string(),
        value: RawValue::FlagMap(vec![FlagSetting {
            name: "test_states".to_string(),
            value: true,
        }]),
    }];
    let plugin = PluginDef::define("P".to_string(), 10, &raw).unwrap();
    assert!(plugin.conformance_tests().is_empty());
}

#[test]
fn test_dependency_check_emitted() {
    let raw = vec![
        types_entry("depends_on", vec![ty("X", 50)]),
        RawEntry {
            key: "generate_tests".to_string(),
            value: RawValue::FlagMap(vec![FlagSetting {
                name: "test_dependencies".to_string(),
                value: true,
            }]),
        },
    ];
    let plugin = PluginDef::define("P".to_string(), 10, &raw).unwrap();
    let checks = plugin.conformance_tests();
    assert_eq!(checks.len(), 1);
    match &checks[0] {
        ConformanceTest::Dependencies(ts) => {
            assert_eq!(ts.len(), 1);
            assert_eq!(ts[0].name, "X");
        }
        other => panic!("expected a dependency check, got {:?}", other),
    }
}

#[test]
fn test_later_flag_setting_wins() {
    let raw = vec![
        types_entry("init_resource", vec![ty("R", 1)]),
        RawEntry {
            key: "generate_tests".to_string(),
            value: RawValue::FlagMap(vec![
                FlagSetting { name: "test_resources".to_string(), value: true },
                FlagSetting { name: "test_resources".to_string(), value: false },
            ]),
        },
    ];
    let plugin = PluginDef::define("P".to_string(), 10, &raw).unwrap();
    assert!(plugin.conformance_tests().is_empty());
}

#[test]
fn test_unknown_flag_rejected() {
    let raw = vec![RawEntry {
        key: "generate_tests".to_string(),
        value: RawValue::FlagMap(vec![FlagSetting {
            name: "test_bogus".to_string(),
            value: true,
        }]),
    }];
    let err = PluginDef::define("P".to_string(), 10, &raw).unwrap_err();
    match err {
        ConfigError::UnknownKey(k) => assert_eq!(k, "test_bogus"),
        other => panic!("expected an unknown-key error, got {:?}", other),
    }
}

#[test]
fn test_system_batches_per_schedule() {
    let raw = vec![
        exprs_entry("add_systems_startup", vec![ex("boot", 1), ex("load", 2)]),
        exprs_entry("add_systems_update", vec![ex("tick", 3)]),
        exprs_entry("add_systems_fixed_update", vec![ex("step", 4)]),
    ];
    let plugin = PluginDef::define("P".to_string(), 10, &raw).unwrap();
    let calls = plugin.build_calls();
    assert_eq!(calls.len(), 3);
    match &calls[0] {
        BuilderCall::AddSystems(Schedule::Startup, systems) => assert_eq!(systems.len(), 2),
        other => panic!("expected one batched startup call, got {:?}", other),
    }
    let metadata = plugin.metadata();
    assert_eq!(metadata.systems.startup, vec!["boot".to_string(), "load".to_string()]);
    assert_eq!(metadata.systems.update, vec!["tick".to_string()]);
    assert_eq!(metadata.systems.fixed_update, vec!["step".to_string()]);
    assert_eq!(metadata.total_systems(), 4);
}

#[test]
fn test_full_configuration_round() {
    let raw = vec![
        types_entry("depends_on", vec![ty("Base", 90)]),
        RawEntry {
            key: "meta".to_string(),
            value: RawValue::MetaMap(MetaBlock {
                version: Some("0.3.1".to_string()),
                description: Some("full plugin".to_string()),
            }),
        },
        types_entry("init_resource", vec![ty("Settings", 1)]),
        exprs_entry("insert_resource", vec![ex("Score::default()", 2)]),
        types_entry("add_message", vec![ty("Ping", 3)]),
        exprs_entry("add_plugins", vec![ex("AudioPlugin", 4)]),
        types_entry("init_state", vec![ty("Mode", 5)]),
        types_entry("add_sub_state", vec![ty("PauseKind", 6)]),
        types_entry("register_type", vec![ty("Settings", 1)]),
        exprs_entry("add_systems_startup", vec![ex("boot", 7)]),
        exprs_entry("add_systems_update", vec![ex("tick", 8)]),
        RawEntry {
            key: "add_systems_on_exit".to_string(),
            value: RawValue::StateMap(vec![StateArm {
                state: ex("Mode::Play", 5),
                systems: vec![ex("cleanup", 9)],
            }]),
        },
        RawEntry { key: "custom_build".to_string(), value: RawValue::Callable(11) },
        RawEntry { key: "custom_finish".to_string(), value: RawValue::Callable(12) },
    ];
    let plugin = PluginDef::define("Full".to_string(), 99, &raw).unwrap();

    let mut builder = Builder::new();
    builder.mark_installed(90);
    assert!(plugin.install(&mut builder).is_ok());
    plugin.finish(&mut builder);

    assert!(builder.contains_resource(1));
    assert!(builder.contains_resource(2));
    assert!(builder.contains_message(3));
    assert!(builder.is_plugin_added(4));
    assert!(builder.contains_state(5));
    assert_eq!(builder.finish_log, vec![12]);

    let metadata = plugin.metadata();
    assert_eq!(metadata.version, Some("0.3.1".to_string()));
    assert_eq!(metadata.resources.len(), 2);
    assert_eq!(metadata.resources[0].name, "Settings");
    assert_eq!(metadata.resources[1].name, "Score::default()");
    assert!(metadata.has_resource(2));
    assert_eq!(metadata.dependencies, vec!["Base".to_string()]);
    assert_eq!(metadata.sub_plugins, vec!["AudioPlugin".to_string()]);
    assert_eq!(metadata.states.len(), 1);
    assert_eq!(metadata.sub_states.len(), 1);
    assert_eq!(metadata.reflected_types.len(), 1);
    assert_eq!(metadata.systems.on_enter_count, 0);
    assert_eq!(metadata.systems.on_exit_count, 1);
    assert_eq!(metadata.total_systems(), 3);
}

#[test]
fn test_run_generated_checks() {
    let raw = vec![
        types_entry("init_resource", vec![ty("R", 1)]),
        RawEntry {
            key: "generate_tests".to_string(),
            value: RawValue::FlagMap(vec![FlagSetting {
                name: "test_resources".to_string(),
                value: true,
            }]),
        },
    ];
    let plugin = PluginDef::define("P".to_string(), 10, &raw).unwrap();
    let checks = plugin.conformance_tests();
    assert_eq!(checks.len(), 1);
    assert!(checks[0].run(&plugin));

    let foreign = ConformanceTest::Resources(vec![ty("Other", 77)]);
    assert!(!foreign.run(&plugin));
}

#[test]
fn test_run_dependency_check() {
    let raw = vec![
        types_entry("depends_on", vec![ty("X", 50)]),
        RawEntry {
            key: "generate_tests".to_string(),
            value: RawValue::FlagMap(vec![FlagSetting {
                name: "test_dependencies".to_string(),
                value: true,
            }]),
        },
    ];
    let plugin = PluginDef::define("P".to_string(), 10, &raw).unwrap();
    let checks = plugin.conformance_tests();
    assert_eq!(checks.len(), 1);
    assert!(checks[0].run(&plugin));

    let no_deps: Vec<RawEntry> = Vec::new();
    let standalone = PluginDef::define("Solo".to_string(), 11, &no_deps).unwrap();
    let check = ConformanceTest::Dependencies(vec![ty("X", 50)]);
    assert!(!check.run(&standalone));
}
