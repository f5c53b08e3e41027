use plugin_manager::Activation;
use plugin_manager::BasicPlugin;
use plugin_manager::LoaderAction;
use plugin_manager::LoaderEvent;
use plugin_manager::Metadata;
use plugin_manager::Plugin;
use plugin_manager::PluginEntry;
use plugin_manager::PluginError;
use plugin_manager::PluginManager;

type Handle = Box<dyn Plugin>;

fn plugin(name: &str) -> Handle {
    Box::new(BasicPlugin::new(name.to_string()))
}

/// Drives an activation to its end, serving module loads from `sources`:
/// a path is "on disk" exactly when `sources` has an entry for it, and
/// loading it yields that entry's plugins.
fn drive(
    mut activation: Activation<Handle>,
    mut sources: Vec<(String, Vec<Handle>)>,
) -> Result<PluginManager<Handle>, PluginError> {
    while let Some(action) = activation.next_action() {
        match action {
            LoaderAction::CheckFile(path) => {
                let exists = sources.iter().any(|(p, _)| *p == path);
                activation.advance(LoaderEvent::FileExists(exists));
            }
            LoaderAction::LoadModule(path) => {
                let at = sources
                    .iter()
                    .position(|(p, _)| *p == path)
                    .expect("a load is only asked for after the file check passed");
                let (_, plugins) = sources.remove(at);
                activation.advance(LoaderEvent::ModuleLoaded(plugins));
            }
        }
    }
    activation.finish()
}

fn mixed_manifest() -> Metadata {
    Metadata {
        plugins: Some(vec![
            (
                "plugin_a".to_string(),
                PluginEntry::Individual("/path/a.so".to_string()),
            ),
            (
                "inventory".to_string(),
                PluginEntry::Group(vec![(
                    "inventory_a".to_string(),
                    "/path/inv.so".to_string(),
                )]),
            ),
        ]),
    }
}

fn mixed_sources() -> Vec<(String, Vec<Handle>)> {
    vec![
        ("/path/a.so".to_string(), vec![plugin("plugin_a")]),
        ("/path/inv.so".to_string(), vec![plugin("inventory_a")]),
    ]
}

#[test]
fn activate_plugins_missing_manifest() {
    let manager: PluginManager<Handle> = PluginManager::new();
    let outcome = manager.activate_plugins(Metadata { plugins: None });
    assert!(matches!(outcome, Err(PluginError::ManifestMissing)));
}

#[test]
fn activation_scenario_individual_and_group() {
    // Manifest { "plugin_a": "/path/a.so", "inventory": { "inventory_a": "/path/inv.so" } }
    // where each module exports the plugin of its name: the registry ends
    // with two plugins, plugin_a ungrouped and inventory_a in "inventory".
    let manager: PluginManager<Handle> = PluginManager::new();
    let activation = manager.activate_plugins(mixed_manifest()).unwrap();
    let registry = drive(activation, mixed_sources()).unwrap();

    assert_eq!(registry.plugins.len(), 2);
    assert_eq!(registry.get_plugin("plugin_a").unwrap().group, None);
    assert_eq!(
        registry.get_plugin("inventory_a").unwrap().group,
        Some("inventory".to_string())
    );
}

#[test]
fn activate_plugins_test() {
    let manifest = Metadata {
        plugins: Some(vec![
            (
                "plugin_mods".to_string(),
                PluginEntry::Individual("/path/mods.so".to_string()),
            ),
            (
                "inventory".to_string(),
                PluginEntry::Group(vec![(
                    "inventory_a".to_string(),
                    "/path/inv.so".to_string(),
                )]),
            ),
        ]),
    };
    let sources = vec![
        (
            "/path/mods.so".to_string(),
            vec![plugin("plugin_a"), plugin("plugin_b")],
        ),
        ("/path/inv.so".to_string(), vec![plugin("inventory_a")]),
    ];
    let manager: PluginManager<Handle> = PluginManager::new();
    let registry = drive(manager.activate_plugins(manifest).unwrap(), sources).unwrap();
    assert!(registry.get_plugin("plugin_a").is_some());
    assert_eq!(registry.plugins.len(), 3);
}

#[test]
fn activate_plugins_with_groups_test() {
    let manager: PluginManager<Handle> = PluginManager::new();
    let registry = drive(manager.activate_plugins(mixed_manifest()).unwrap(), mixed_sources())
        .unwrap();

    // Check individual plugin
    let plugin_a = registry.get_plugin("plugin_a").unwrap();
    assert_eq!(plugin_a.group, None);

    // Check grouped plugin
    let inventory_plugin = registry.get_plugin("inventory_a").unwrap();
    assert_eq!(inventory_plugin.group, Some("inventory".to_string()));

    // Get all plugins in the "inventory" group
    let inventory_plugins = registry.get_plugins_by_group("inventory");
    assert_eq!(inventory_plugins.len(), 1);
    assert_eq!(inventory_plugins[0].plugin.name(), "inventory_a");
}

#[test]
fn missing_file_fails_before_any_load() {
    let manifest = Metadata {
        plugins: Some(vec![(
            "ghost".to_string(),
            PluginEntry::Individual("/path/ghost.so".to_string()),
        )]),
    };
    let manager: PluginManager<Handle> = PluginManager::new();
    let mut activation = manager.activate_plugins(manifest).unwrap();

    // The machine first asks for the file check, never for a load.
    match activation.next_action() {
        Some(LoaderAction::CheckFile(path)) => assert_eq!(path, "/path/ghost.so"),
        _ => panic!("activation must check the file first"),
    }
    activation.advance(LoaderEvent::FileExists(false));

    // After the miss the activation has ended: no load is ever asked for.
    assert!(activation.next_action().is_none());
    match activation.finish() {
        Err(PluginError::FileNotFound(path)) => assert_eq!(path, "/path/ghost.so"),
        _ => panic!("a missing file must abort with FileNotFound"),
    }
}

#[test]
fn loader_fault_aborts_with_load_error() {
    let manifest = Metadata {
        plugins: Some(vec![(
            "bad".to_string(),
            PluginEntry::Individual("/path/bad.so".to_string()),
        )]),
    };
    let manager: PluginManager<Handle> = PluginManager::new();
    let mut activation = manager.activate_plugins(manifest).unwrap();
    activation.advance(LoaderEvent::FileExists(true));
    assert!(matches!(
        activation.next_action(),
        Some(LoaderAction::LoadModule(_))
    ));
    activation.advance(LoaderEvent::LoadFailed("unreadable module".to_string()));
    match activation.finish() {
        Err(PluginError::LoadError(message)) => assert_eq!(message, "unreadable module"),
        _ => panic!("a loader fault must abort with LoadError"),
    }
}

#[test]
fn missing_symbol_aborts_with_symbol_not_found() {
    let manifest = Metadata {
        plugins: Some(vec![(
            "bare".to_string(),
            PluginEntry::Individual("/path/bare.so".to_string()),
        )]),
    };
    let manager: PluginManager<Handle> = PluginManager::new();
    let mut activation = manager.activate_plugins(manifest).unwrap();
    activation.advance(LoaderEvent::FileExists(true));
    activation.advance(LoaderEvent::SymbolMissing("create_plugins".to_string()));
    assert!(matches!(
        activation.finish(),
        Err(PluginError::SymbolNotFound(_))
    ));
}

#[test]
fn duplicate_identity_across_modules_is_fatal() {
    // Two modules produce a plugin of the same identity: activation aborts.
    let manifest = Metadata {
        plugins: Some(vec![
            (
                "first".to_string(),
                PluginEntry::Individual("/path/first.so".to_string()),
            ),
            (
                "second".to_string(),
                PluginEntry::Individual("/path/second.so".to_string()),
            ),
        ]),
    };
    let sources = vec![
        ("/path/first.so".to_string(), vec![plugin("twin")]),
        ("/path/second.so".to_string(), vec![plugin("twin")]),
    ];
    let manager: PluginManager<Handle> = PluginManager::new();
    let outcome = drive(manager.activate_plugins(manifest).unwrap(), sources);
    assert!(matches!(outcome, Err(PluginError::DuplicateIdentity(_))));
}

#[test]
fn activating_twice_on_fresh_registries_yields_same_identifiers() {
    let first = drive(
        PluginManager::<Handle>::new()
            .activate_plugins(mixed_manifest())
            .unwrap(),
        mixed_sources(),
    )
    .unwrap();
    let second = drive(
        PluginManager::<Handle>::new()
            .activate_plugins(mixed_manifest())
            .unwrap(),
        mixed_sources(),
    )
    .unwrap();
    let names_of = |m: &PluginManager<Handle>| -> Vec<String> {
        m.get_all_plugin_names().into_iter().cloned().collect()
    };
    assert_eq!(names_of(&first), names_of(&second));
}

#[test]
fn activating_twice_into_same_registry_is_fatal() {
    let registry = drive(
        PluginManager::<Handle>::new()
            .activate_plugins(mixed_manifest())
            .unwrap(),
        mixed_sources(),
    )
    .unwrap();
    // The same manifest again, into the registry that already holds its
    // plugins: the duplicate identities abort the activation.
    let outcome = drive(
        registry.activate_plugins(mixed_manifest()).unwrap(),
        mixed_sources(),
    );
    assert!(matches!(outcome, Err(PluginError::DuplicateIdentity(_))));
}

#[test]
fn with_path_missing_file() {
    let manager: PluginManager<Handle> = PluginManager::new();
    let outcome = manager.with_path("/no/such/module.so", None);
    match outcome {
        Err(PluginError::FileNotFound(path)) => assert_eq!(path, "/no/such/module.so"),
        _ => panic!("a missing path must be refused with FileNotFound"),
    }
}

#[test]
fn with_path_queues_an_entry_for_activation() {
    // All `with_path` asks of the path is that something exists there; the
    // filesystem root always does, and the fake loader serves the plugin.
    let manager: PluginManager<Handle> = PluginManager::new();
    let manager = manager
        .with_path("/", Some("local"))
        .expect("an existing path is accepted");
    let manifest = Metadata { plugins: Some(vec![]) };
    let sources = vec![("/".to_string(), vec![plugin("queued")])];
    let registry = drive(manager.activate_plugins(manifest).unwrap(), sources).unwrap();
    assert_eq!(registry.plugins.len(), 1);
    assert_eq!(
        registry.get_plugin("queued").unwrap().group,
        Some("local".to_string())
    );
}

#[test]
fn unexpected_event_changes_nothing() {
    let manager: PluginManager<Handle> = PluginManager::new();
    let mut activation = manager.activate_plugins(mixed_manifest()).unwrap();
    // The machine awaits a file check; a load report is not an answer.
    activation.advance(LoaderEvent::LoadFailed("noise".to_string()));
    match activation.next_action() {
        Some(LoaderAction::CheckFile(path)) => assert_eq!(path, "/path/a.so"),
        _ => panic!("an unexpected event must leave the machine where it was"),
    }
}

#[test]
fn individual_only_manifest_leaves_every_plugin_ungrouped() {
    let manifest = Metadata {
        plugins: Some(vec![
            (
                "plugin_a".to_string(),
                PluginEntry::Individual("/path/a.so".to_string()),
            ),
            (
                "plugin_b".to_string(),
                PluginEntry::Individual("/path/b.so".to_string()),
            ),
        ]),
    };
    let sources = vec![
        ("/path/a.so".to_string(), vec![plugin("plugin_a")]),
        ("/path/b.so".to_string(), vec![plugin("plugin_b")]),
    ];
    let manager: PluginManager<Handle> = PluginManager::new();
    let registry = drive(manager.activate_plugins(manifest).unwrap(), sources).unwrap();
    let all_plugins = registry.get_all_plugin_names_and_groups();
    assert_eq!(all_plugins.len(), 2);
    for (_, group) in all_plugins {
        assert_eq!(group, None);
    }
}

#[test]
fn loading_the_same_path_twice_yields_fresh_instances() {
    // Two manifest entries may point at one module; each load produces an
    // independent set of instances, with no caching by path.
    let manifest = Metadata {
        plugins: Some(vec![
            (
                "first".to_string(),
                PluginEntry::Individual("/path/shared.so".to_string()),
            ),
            (
                "second".to_string(),
                PluginEntry::Individual("/path/shared.so".to_string()),
            ),
        ]),
    };
    let sources = vec![
        ("/path/shared.so".to_string(), vec![plugin("one")]),
        ("/path/shared.so".to_string(), vec![plugin("two")]),
    ];
    let manager: PluginManager<Handle> = PluginManager::new();
    let registry = drive(manager.activate_plugins(manifest).unwrap(), sources).unwrap();
    assert_eq!(registry.plugins.len(), 2);
    assert!(registry.get_plugin("one").is_some());
    assert!(registry.get_plugin("two").is_some());
}
