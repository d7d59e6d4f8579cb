use druid_garden_os::error::ErrorKind;
use druid_garden_os::models::plugins::{AddPlugin, Plugin, PluginType};
use druid_garden_os::plugins::runtime::{StatusQuery, StopAction};
use druid_garden_os::plugins::{
    is_builtin_name, update_between, PastStorePlugin, PluginManager, PluginStatus, PluginStore,
    StorePlugin,
};
use druid_garden_os::error::Error;
use druid_garden_os::version::Version;

fn add_plugin(name: &str, plugin_type: PluginType, version: &str) -> AddPlugin {
    AddPlugin {
        label: format!("Label of {}", name),
        name: name.to_string(),
        enabled: 1,
        plugin_type,
        repo: "https://example.org/repo".to_string(),
        tag: "stable".to_string(),
        version: version.to_string(),
        source: "tool.bin".to_string(),
        run_command: None,
    }
}

fn row(name: &str, plugin_type: PluginType, version: &str) -> Plugin {
    Plugin::from_add(add_plugin(name, plugin_type, version), 10)
}

fn store_plugin(name: &str, version: &str) -> StorePlugin {
    StorePlugin {
        name: name.to_string(),
        p_type: "file".to_string(),
        repo: "https://example.org/repo".to_string(),
        tag: "stable".to_string(),
        source: "tool.bin".to_string(),
        added: "2024-01-01".to_string(),
        version: version.to_string(),
        updated: "2024-02-01".to_string(),
        past_versions: vec![PastStorePlugin {
            p_type: "file".to_string(),
            repo: "https://example.org/repo".to_string(),
            tag: "old".to_string(),
            source: "tool.bin".to_string(),
            version: "0.0.1".to_string(),
            added: "2023-01-01".to_string(),
            replaced: "2024-01-01".to_string(),
        }],
    }
}

fn known(manager: &PluginManager, name: &str) -> bool {
    manager.status(&row(name, PluginType::File, "1.0.0")).is_ok()
}

#[test]
fn plugin_type_is_read_from_text() {
    assert_eq!(PluginType::from("docker".to_string()), PluginType::Docker);
    assert_eq!(PluginType::from("DOCKER".to_string()), PluginType::Docker);
    assert_eq!(PluginType::from("builtin".to_string()), PluginType::BuiltIn);
    assert_eq!(PluginType::from("BuiltIn".to_string()), PluginType::BuiltIn);
    assert_eq!(PluginType::from("RustProject".to_string()), PluginType::RustProject);
    assert_eq!(PluginType::from("File".to_string()), PluginType::File);
    assert_eq!(PluginType::from("".to_string()), PluginType::Invalid);
    assert_eq!(PluginType::from("container".to_string()), PluginType::Invalid);
    assert_eq!(PluginType::from("fıle".to_string()), PluginType::Invalid);
}

#[test]
fn from_add_makes_a_row_without_id() {
    let mut add = add_plugin("tool", PluginType::File, "1.2.3");
    add.run_command = Some("run-tool".to_string());
    add.enabled = 0;
    let plugin = Plugin::from_add(add, 1234);
    assert_eq!(plugin.id, None);
    assert_eq!(plugin.name, "tool");
    assert_eq!(plugin.label, "Label of tool");
    assert_eq!(plugin.enabled, 0);
    assert_eq!(plugin.plugin_type, PluginType::File);
    assert_eq!(plugin.repo, "https://example.org/repo");
    assert_eq!(plugin.tag, "stable");
    assert_eq!(plugin.source, "tool.bin");
    assert_eq!(plugin.run_command, Some("run-tool".to_string()));
    assert_eq!(plugin.version, "1.2.3");
    assert_eq!(plugin.added, 1234);
    assert_eq!(plugin.updated, 1234);
    let copy = plugin.duplicate();
    assert_eq!(copy.name, plugin.name);
    assert_eq!(copy.run_command, plugin.run_command);
    assert_eq!(copy.added, plugin.added);
}

#[test]
fn the_four_builtins_are_known_by_name() {
    assert!(is_builtin_name("file_manager"));
    assert!(is_builtin_name("disk_manager"));
    assert!(is_builtin_name("system_monitor"));
    assert!(is_builtin_name("farmer_manager"));
    assert!(!is_builtin_name("File_Manager"));
    assert!(!is_builtin_name("tool"));
    assert!(!is_builtin_name(""));
}

#[test]
fn a_new_registry_holds_the_builtins_and_the_rows() {
    let manager = PluginManager::new(
        vec![row("tool", PluginType::File, "1.0.0"), row("box", PluginType::Docker, "2.0.0")],
        "./plugins".to_string(),
        99,
    );
    for name in ["file_manager", "disk_manager", "system_monitor", "farmer_manager"] {
        let status = manager.status(&row(name, PluginType::BuiltIn, "0.0.0"));
        assert!(matches!(
            status,
            Ok(StatusQuery::Known(PluginStatus {
                running: true,
                should_be_running: true,
                started: Some(99)
            }))
        ));
    }
    assert!(known(&manager, "tool"));
    assert!(known(&manager, "box"));
    assert!(!known(&manager, "other"));
    assert!(manager.available_plugins().is_empty());
}

#[test]
fn a_persisted_row_cannot_take_the_place_of_a_builtin() {
    let mut manager = PluginManager::new(
        vec![row("file_manager", PluginType::File, "1.0.0")],
        "./plugins".to_string(),
        5,
    );
    let impostor = row("file_manager", PluginType::File, "1.0.0");
    assert!(matches!(manager.start(&impostor, 6), Err(e) if e.kind == ErrorKind::AlreadyExists));
    assert!(matches!(manager.uninstall(&impostor), Err(e) if e.kind == ErrorKind::PermissionDenied));
}

#[test]
fn add_registers_a_new_name_once() {
    let mut manager = PluginManager::new(vec![], "./plugins".to_string(), 0);
    assert!(!known(&manager, "tool"));
    let added = manager.add(add_plugin("tool", PluginType::File, "1.0.0"), 42);
    match added {
        Ok(plugin) => {
            assert_eq!(plugin.name, "tool");
            assert_eq!(plugin.id, None);
            assert_eq!(plugin.added, 42);
            assert_eq!(plugin.updated, 42);
            assert_eq!(plugin.version, "1.0.0");
        }
        Err(e) => panic!("add failed: {}", e.to_string()),
    }
    assert!(known(&manager, "tool"));
    let again = manager.add(add_plugin("tool", PluginType::File, "2.0.0"), 43);
    match again {
        Ok(_) => panic!("a second add of one name must fail"),
        Err(e) => {
            assert_eq!(e.kind(), ErrorKind::AlreadyExists);
            assert_eq!(e.to_string(), "Plugin tool already exists");
        }
    }
}

#[test]
fn add_refuses_the_name_of_a_builtin() {
    let mut manager = PluginManager::new(vec![], "./plugins".to_string(), 0);
    let out = manager.add(add_plugin("system_monitor", PluginType::File, "1.0.0"), 1);
    assert!(matches!(out, Err(e) if e.kind == ErrorKind::AlreadyExists));
}

#[test]
fn update_plugin_needs_a_known_name() {
    let manager = PluginManager::new(
        vec![row("tool", PluginType::File, "1.0.0")],
        "./plugins".to_string(),
        0,
    );
    match manager.update_plugin(add_plugin("tool", PluginType::File, "1.1.0"), 77) {
        Ok(plugin) => {
            assert_eq!(plugin.name, "tool");
            assert_eq!(plugin.version, "1.1.0");
            assert_eq!(plugin.updated, 77);
        }
        Err(e) => panic!("update failed: {}", e.to_string()),
    }
    match manager.update_plugin(add_plugin("ghost", PluginType::File, "1.1.0"), 77) {
        Ok(_) => panic!("an unknown name must be refused"),
        Err(e) => {
            assert_eq!(e.kind(), ErrorKind::NotFound);
            assert_eq!(e.to_string(), "Plugin ghost does not exists");
        }
    }
}

#[test]
fn uninstall_takes_row_and_runtime_entry_out() {
    let tool = row("tool", PluginType::File, "1.0.0");
    let mut manager = PluginManager::new(vec![tool.duplicate()], "./plugins".to_string(), 0);
    assert!(manager.start(&tool, 1).is_ok());
    assert!(matches!(manager.uninstall(&tool), Ok(true)));
    assert!(!known(&manager, "tool"));
    assert!(matches!(manager.stop(&tool), Ok(StopAction::NotRunning)));
    assert!(matches!(manager.uninstall(&tool), Ok(false)));
}

#[test]
fn uninstall_refuses_builtins() {
    let mut manager = PluginManager::new(vec![], "./plugins".to_string(), 0);
    for name in ["file_manager", "disk_manager", "system_monitor", "farmer_manager"] {
        let out = manager.uninstall(&row(name, PluginType::BuiltIn, "0.1.0"));
        match out {
            Ok(_) => panic!("a built-in cannot be uninstalled"),
            Err(e) => assert_eq!(e.kind(), ErrorKind::PermissionDenied),
        }
        assert!(known(&manager, name));
    }
}

#[test]
fn a_fetched_catalog_takes_the_place_of_the_old_one() {
    let mut manager = PluginManager::new(vec![], "./plugins".to_string(), 0);
    let first = PluginStore { plugins: vec![store_plugin("tool", "1.0.0")] };
    assert!(matches!(manager.update_plugin_store(Ok(first)), Ok(true)));
    assert_eq!(manager.available_plugins().len(), 1);
    let second = PluginStore {
        plugins: vec![
            store_plugin("box", "1.0.0"),
            store_plugin("kit", "3.0.0"),
            store_plugin("box", "2.0.0"),
        ],
    };
    assert!(matches!(manager.update_plugin_store(Ok(second)), Ok(true)));
    let catalog = manager.available_plugins();
    assert_eq!(catalog.len(), 2);
    let names: Vec<&str> = catalog.iter().map(|p| p.name.as_str()).collect();
    assert!(names.contains(&"box"));
    assert!(names.contains(&"kit"));
    let kept = catalog.iter().find(|p| p.name == "box").unwrap();
    assert_eq!(kept.version, "2.0.0");
    assert_eq!(kept.past_versions.len(), 1);
    assert_eq!(kept.past_versions[0].version, "0.0.1");
}

#[test]
fn a_failed_fetch_leaves_the_catalog_untouched() {
    let mut manager = PluginManager::new(vec![], "./plugins".to_string(), 0);
    let first = PluginStore { plugins: vec![store_plugin("tool", "1.0.0")] };
    assert!(manager.update_plugin_store(Ok(first)).is_ok());
    let failure = Error::other("Failed fetching plugin store: timeout".to_string());
    match manager.update_plugin_store(Err(failure)) {
        Ok(_) => panic!("a failed fetch must be handed back"),
        Err(e) => {
            assert_eq!(e.kind(), ErrorKind::Other);
            assert_eq!(e.to_string(), "Failed fetching plugin store: timeout");
        }
    }
    let catalog = manager.available_plugins();
    assert_eq!(catalog.len(), 1);
    assert_eq!(catalog[0].name, "tool");
    assert_eq!(catalog[0].version, "1.0.0");
}

#[test]
fn plugin_updates_lists_newer_catalog_versions() {
    let mut manager = PluginManager::new(
        vec![
            row("old", PluginType::File, "1.2.0"),
            row("current", PluginType::File, "1.3.0"),
            row("ahead", PluginType::File, "2.0.0"),
            row("absent", PluginType::File, "1.0.0"),
        ],
        "./plugins".to_string(),
        0,
    );
    let store = PluginStore {
        plugins: vec![
            store_plugin("old", "1.3.0"),
            store_plugin("current", "1.3.0"),
            store_plugin("ahead", "1.9.9"),
            store_plugin("unrelated", "9.9.9"),
        ],
    };
    assert!(manager.update_plugin_store(Ok(store)).is_ok());
    let updates = match manager.plugin_updates() {
        Ok(updates) => updates,
        Err(e) => panic!("plugin_updates failed: {}", e.to_string()),
    };
    assert_eq!(updates.len(), 1);
    assert_eq!(updates[0].name, "old");
    assert_eq!(updates[0].current_version, "1.2.0");
    assert_eq!(updates[0].new_version, "1.3.0");
}

#[test]
fn plugin_updates_passes_over_malformed_versions() {
    let mut manager = PluginManager::new(
        vec![
            row("good", PluginType::File, "1.0.0"),
            row("bad_here", PluginType::File, "one point oh"),
            row("bad_there", PluginType::File, "1.0.0"),
            row("also_good", PluginType::Docker, "0.1.0-beta"),
        ],
        "./plugins".to_string(),
        0,
    );
    let store = PluginStore {
        plugins: vec![
            store_plugin("good", "1.0.1"),
            store_plugin("bad_here", "2.0.0"),
            store_plugin("bad_there", "2.x"),
            store_plugin("also_good", "0.1.0"),
        ],
    };
    assert!(manager.update_plugin_store(Ok(store)).is_ok());
    let updates = match manager.plugin_updates() {
        Ok(updates) => updates,
        Err(e) => panic!("plugin_updates failed: {}", e.to_string()),
    };
    let found: Vec<(&str, &str, &str)> = updates
        .iter()
        .map(|u| (u.name.as_str(), u.current_version.as_str(), u.new_version.as_str()))
        .collect();
    assert_eq!(found.len(), 2);
    assert!(found.contains(&("good", "1.0.0", "1.0.1")));
    assert!(found.contains(&("also_good", "0.1.0-beta", "0.1.0")));
}

#[test]
fn update_between_needs_a_higher_catalog_version() {
    let out = update_between("tool", Version::parse("1.2.0"), Version::parse("1.3.0"));
    match out {
        Some(update) => {
            assert_eq!(update.name, "tool");
            assert_eq!(update.current_version, "1.2.0");
            assert_eq!(update.new_version, "1.3.0");
        }
        None => panic!("1.3.0 is an update for 1.2.0"),
    }
    assert!(update_between("tool", Version::parse("1.3.0"), Version::parse("1.3.0")).is_none());
    assert!(update_between("tool", Version::parse("1.3.1"), Version::parse("1.3.0")).is_none());
    assert!(update_between("tool", None, Version::parse("1.3.0")).is_none());
    assert!(update_between("tool", Version::parse("1.3.0"), None).is_none());
    assert!(update_between("tool", None, None).is_none());
}
