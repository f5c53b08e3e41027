use plugin_manager::BasicPlugin;
use plugin_manager::Plugin;
use plugin_manager::PluginError;
use plugin_manager::PluginManager;

fn plugin(name: &str) -> Box<dyn Plugin> {
    Box::new(BasicPlugin::new(name.to_string()))
}

#[test]
fn new_registry_is_empty() {
    let manager: PluginManager<Box<dyn Plugin>> = PluginManager::new();
    assert_eq!(manager.plugins.len(), 0);
    assert!(manager.get_plugin("plugin_a").is_none());
}

#[test]
fn register_and_get_plugin() {
    let mut manager: PluginManager<Box<dyn Plugin>> = PluginManager::new();
    manager.register_plugin(plugin("plugin_a"), None);
    let info = manager.get_plugin("plugin_a").expect("plugin_a should be registered");
    assert_eq!(info.plugin.name(), "plugin_a");
    assert_eq!(info.group, None);
    assert!(manager.get_plugin("plugin_b").is_none());
}

#[test]
fn register_keys_by_self_reported_identity() {
    let mut manager: PluginManager<Box<dyn Plugin>> = PluginManager::new();
    manager.register_plugin(plugin("self_reported"), Some("tools".to_string()));
    let info = manager.get_plugin("self_reported").expect("keyed by identity");
    assert_eq!(info.group, Some("tools".to_string()));
}

#[test]
fn try_register_duplicate_identity_is_refused() {
    let mut manager: PluginManager<Box<dyn Plugin>> = PluginManager::new();
    assert!(manager.try_register_plugin(plugin("plugin_a"), None).is_ok());
    // The same identity under another group is still a duplicate.
    let outcome = manager.try_register_plugin(plugin("plugin_a"), Some("other".to_string()));
    match outcome {
        Err(PluginError::DuplicateIdentity(name)) => assert_eq!(name, "plugin_a"),
        _ => panic!("a duplicate identity must be refused"),
    }
    assert_eq!(manager.plugins.len(), 1);
}

#[test]
fn register_plugins_vec_tags_every_plugin() {
    let mut manager: PluginManager<Box<dyn Plugin>> = PluginManager::new();
    let batch = vec![plugin("one"), plugin("two")];
    assert!(manager.register_plugins_vec(batch, Some("bundle".to_string())).is_ok());
    assert_eq!(manager.plugins.len(), 2);
    assert_eq!(manager.get_plugin("one").unwrap().group, Some("bundle".to_string()));
    assert_eq!(manager.get_plugin("two").unwrap().group, Some("bundle".to_string()));
}

#[test]
fn register_plugins_vec_refuses_duplicate_within_batch() {
    let mut manager: PluginManager<Box<dyn Plugin>> = PluginManager::new();
    let batch = vec![plugin("same"), plugin("same")];
    let outcome = manager.register_plugins_vec(batch, None);
    assert!(matches!(outcome, Err(PluginError::DuplicateIdentity(_))));
}

#[test]
fn deregister_plugin_test() {
    let mut manager: PluginManager<Box<dyn Plugin>> = PluginManager::new();
    manager.register_plugin(plugin("plugin_a"), None);
    manager.register_plugin(plugin("plugin_b"), None);
    manager.register_plugin(plugin("inventory_a"), Some("inventory".to_string()));
    assert_eq!(manager.plugins.len(), 3);

    // Deregister individual plugin
    let plugin_name = manager.deregister_plugin("plugin_a");
    if let Some(plugin) = plugin_name {
        assert_eq!(plugin, "plugin_a");
        assert_eq!(manager.plugins.len(), 2);
    }

    // Deregister grouped plugin
    let plugin_name = manager.deregister_plugin("inventory_a");
    if let Some(plugin) = plugin_name {
        assert_eq!(plugin, "inventory_a");
        assert_eq!(manager.plugins.len(), 1);
    }

    // Deregister non-existent plugin
    let plugin_name = manager.deregister_plugin("non_existent_plugin");
    assert_eq!(plugin_name, None);
}

#[test]
fn deregister_then_get_misses() {
    let mut manager: PluginManager<Box<dyn Plugin>> = PluginManager::new();
    manager.register_plugin(plugin("plugin_a"), None);
    assert_eq!(manager.deregister_plugin("plugin_a"), Some("plugin_a".to_string()));
    assert!(manager.get_plugin("plugin_a").is_none());
    // Idempotent: a second deregistration misses without error.
    assert_eq!(manager.deregister_plugin("plugin_a"), None);
}

#[test]
fn deregister_all_plugins_test() {
    let mut manager: PluginManager<Box<dyn Plugin>> = PluginManager::new();
    manager.register_plugin(plugin("plugin_a"), None);
    manager.register_plugin(plugin("plugin_b"), None);
    manager.register_plugin(plugin("inventory_a"), Some("inventory".to_string()));
    assert_eq!(manager.plugins.len(), 3);

    // Deregister all plugins
    let num_plugins_deregistered = manager.deregister_all_plugins();
    assert_eq!(num_plugins_deregistered.len(), 3);
    assert_eq!(manager.plugins.len(), 0);

    // The returned identifiers are exactly the registered ones, no repeats.
    let mut names = num_plugins_deregistered.clone();
    names.sort();
    names.dedup();
    assert_eq!(names.len(), 3);
}

#[test]
fn get_all_plugin_names_lists_every_identity() {
    let mut manager: PluginManager<Box<dyn Plugin>> = PluginManager::new();
    manager.register_plugin(plugin("plugin_a"), None);
    manager.register_plugin(plugin("plugin_b"), None);
    let names = manager.get_all_plugin_names();
    assert_eq!(names.len(), 2);
    assert!(names.iter().any(|n| n.as_str() == "plugin_a"));
    assert!(names.iter().any(|n| n.as_str() == "plugin_b"));
}

#[test]
fn get_all_plugin_names_and_groups_test() {
    let mut manager: PluginManager<Box<dyn Plugin>> = PluginManager::new();
    manager.register_plugin(plugin("plugin_a"), None);
    manager.register_plugin(plugin("plugin_b"), None);
    manager.register_plugin(plugin("inventory_a"), Some("inventory".to_string()));
    let all_plugins = manager.get_all_plugin_names_and_groups();
    assert_eq!(all_plugins.len(), 3);
    all_plugins
        .iter()
        .for_each(|(name, group)| match name.as_str() {
            "plugin_a" => assert_eq!(group.as_deref(), None),
            "plugin_b" => assert_eq!(group.as_deref(), None),
            "inventory_a" => assert_eq!(group.as_deref(), Some("inventory")),
            _ => panic!("Unexpected plugin name"),
        });
}

#[test]
fn get_plugins_by_group_filters_exactly() {
    let mut manager: PluginManager<Box<dyn Plugin>> = PluginManager::new();
    manager.register_plugin(plugin("plugin_a"), None);
    manager.register_plugin(plugin("inventory_a"), Some("inventory".to_string()));
    manager.register_plugin(plugin("task_a"), Some("tasks".to_string()));

    let inventory_plugins = manager.get_plugins_by_group("inventory");
    assert_eq!(inventory_plugins.len(), 1);
    assert_eq!(inventory_plugins[0].plugin.name(), "inventory_a");

    // An ungrouped plugin never matches a named group.
    assert_eq!(manager.get_plugins_by_group("plugin_a").len(), 0);
    assert_eq!(manager.get_plugins_by_group("unknown").len(), 0);
}

#[test]
fn execute_plugin_runs_the_named_plugin() {
    let mut manager: PluginManager<Box<dyn Plugin>> = PluginManager::new();
    manager.register_plugin(plugin("plugin_a"), None);
    assert!(manager.execute_plugin("plugin_a", &()).is_ok());
}

#[test]
fn execute_plugin_misses_on_unknown_identity() {
    let manager: PluginManager<Box<dyn Plugin>> = PluginManager::new();
    let outcome = manager.execute_plugin("plugin_a", &());
    match outcome {
        Err(PluginError::NotFound(name)) => assert_eq!(name, "plugin_a"),
        _ => panic!("a lookup miss must report NotFound"),
    }
}

#[test]
fn execute_plugin_surfaces_the_plugin_failure() {
    let mut manager: PluginManager<Box<dyn Plugin>> = PluginManager::new();
    manager.register_plugin(
        Box::new(BasicPlugin::failing("broken".to_string(), "out of order".to_string())),
        None,
    );
    let outcome = manager.execute_plugin("broken", &());
    match outcome {
        Err(PluginError::Execution(message)) => assert_eq!(message, "out of order"),
        _ => panic!("the plugin's own failure must surface as Execution"),
    }
}

#[test]
fn with_any_narrows_to_the_concrete_type() {
    let mut manager: PluginManager<Box<dyn Plugin>> = PluginManager::new();
    manager.register_plugin(plugin("plugin_a"), None);
    let concrete: &BasicPlugin = manager.with_any("plugin_a").expect("narrowing should succeed");
    assert_eq!(concrete.identity, "plugin_a");
}

#[test]
fn with_any_reports_a_type_mismatch() {
    let mut manager: PluginManager<Box<dyn Plugin>> = PluginManager::new();
    manager.register_plugin(plugin("plugin_a"), None);
    let outcome: Result<&u8, PluginError> = manager.with_any("plugin_a");
    match outcome {
        Err(PluginError::TypeMismatch(name)) => assert_eq!(name, "plugin_a"),
        _ => panic!("the wrong concrete type must report TypeMismatch"),
    }
}

#[test]
fn with_any_misses_on_unknown_identity() {
    let manager: PluginManager<Box<dyn Plugin>> = PluginManager::new();
    let outcome: Result<&BasicPlugin, PluginError> = manager.with_any("plugin_a");
    assert!(matches!(outcome, Err(PluginError::NotFound(_))));
}
