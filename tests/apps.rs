use link_core::apps::AppRegistry;
use link_core::storage::{MemoryStorage, SharedStorage};

fn messenger() -> &'static str {
    "messenger"
}

fn notes() -> &'static str {
    "notes"
}

#[test]
fn registry_registers_and_removes_apps() {
    let mut r: AppRegistry<fn() -> &'static str> = AppRegistry::new();
    assert!(r.get_app("messenger").is_none());
    r.register_app("messenger", messenger);
    r.register_app("notes", notes);
    assert_eq!(r.get_app("messenger").map(|f| f()), Some("messenger"));
    r.register_app("messenger", notes);
    assert_eq!(r.get_app("messenger").map(|f| f()), Some("notes"));
    r.remove_app("messenger");
    assert!(r.get_app("messenger").is_none());
    assert_eq!(r.get_app("notes").map(|f| f()), Some("notes"));
}

#[test]
fn active_app_is_remembered_in_storage() {
    let mut storage = SharedStorage::new(MemoryStorage::new());
    let mut r: AppRegistry<fn() -> &'static str> = AppRegistry::new();
    r.register_app("messenger", messenger);
    assert!(r.get_active_app().is_none());
    r.set_active_app("messenger", &mut storage);
    assert_eq!(storage.get("active_app"), Some("messenger".to_string()));
    assert_eq!(r.get_active_app().map(|f| f()), Some("messenger"));

    let mut restored: AppRegistry<fn() -> &'static str> = AppRegistry::new();
    restored.register_app("messenger", messenger);
    restored.load_active_app(&storage);
    assert_eq!(restored.get_active_app().map(|f| f()), Some("messenger"));

    r.clear_active_app(&mut storage);
    assert!(r.get_active_app().is_none());
    assert_eq!(storage.get("active_app"), None);
    let mut fresh: AppRegistry<fn() -> &'static str> = AppRegistry::new();
    fresh.load_active_app(&storage);
    assert!(fresh.get_active_app().is_none());
}

#[test]
fn active_app_that_is_not_registered_is_not_shown() {
    let mut storage = SharedStorage::new(MemoryStorage::new());
    let mut r: AppRegistry<fn() -> &'static str> = AppRegistry::new();
    r.set_active_app("mail", &mut storage);
    assert!(r.get_active_app().is_none());
}
