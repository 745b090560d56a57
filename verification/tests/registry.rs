use pot::registry::ShortcutRegistry;

fn registry_with(bindings: &[(&str, &str)]) -> ShortcutRegistry {
    let mut registry = ShortcutRegistry::new();
    for (hotkey, action) in bindings {
        registry.insert(hotkey.to_string(), action.to_string());
    }
    registry
}

#[test]
fn empty_registry_finds_nothing() {
    let registry = ShortcutRegistry::new();
    assert_eq!(registry.get_action("ctrl+a"), None);
    assert_eq!(registry.hotkey_of("hotkey_input_translate"), None);
}

#[test]
fn finds_by_normal_form() {
    let registry = registry_with(&[("Ctrl+A", "hotkey_input_translate")]);
    assert_eq!(registry.get_action("control+keya").as_deref(), Some("hotkey_input_translate"));
    assert_eq!(registry.get_action(" CTRL + a ").as_deref(), Some("hotkey_input_translate"));
    assert_eq!(registry.get_action("ctrl+b"), None);
    assert_eq!(registry.get_action("a+ctrl"), None);
}

#[test]
fn later_insert_replaces_binding() {
    let mut registry = registry_with(&[("Ctrl+A", "first")]);
    registry.insert("control+a".to_string(), "second".to_string());
    assert_eq!(registry.get_action("ctrl+a").as_deref(), Some("second"));
    assert_eq!(registry.hotkey_of("first"), None);
}

#[test]
fn other_bindings_survive_insert() {
    let mut registry = registry_with(&[("Ctrl+A", "first")]);
    registry.insert("Alt+B".to_string(), "second".to_string());
    assert_eq!(registry.get_action("ctrl+a").as_deref(), Some("first"));
    assert_eq!(registry.get_action("alt+b").as_deref(), Some("second"));
}

#[test]
fn remove_drops_only_its_binding() {
    let mut registry = registry_with(&[("Ctrl+A", "first"), ("Alt+B", "second")]);
    registry.remove("CTRL+a");
    assert_eq!(registry.get_action("ctrl+a"), None);
    assert_eq!(registry.get_action("alt+b").as_deref(), Some("second"));
    registry.remove("shift+x");
    assert_eq!(registry.get_action("alt+b").as_deref(), Some("second"));
}

#[test]
fn hotkey_of_gives_stored_form() {
    let registry = registry_with(&[("Ctrl+A", "first"), ("Alt+F4", "second")]);
    assert_eq!(registry.hotkey_of("first").as_deref(), Some("control+keya"));
    assert_eq!(registry.hotkey_of("second").as_deref(), Some("alt+f4"));
    assert_eq!(registry.hotkey_of("third"), None);
}
