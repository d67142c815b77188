use link_core::auth::Auth;
use link_core::storage::{get_auth_manager, AuthManager, MemoryStorage, SharedStorage, Storage};

fn manager() -> AuthManager<MemoryStorage> {
    get_auth_manager(SharedStorage::new(MemoryStorage::new()))
}

#[test]
fn update_then_get_returns_same_pair() {
    let mut m = manager();
    assert!(!m.is_authenticated());
    m.update_auth(Auth::new("acc-1", "ref-1"));
    let a = m.get_auth().unwrap();
    assert_eq!(a.access_token, "acc-1");
    assert_eq!(a.refresh_token, "ref-1");
    assert!(m.is_authenticated());
}

#[test]
fn update_overwrites_previous_pair() {
    let mut m = manager();
    m.update_auth(Auth::new("a", "r"));
    m.update_auth(Auth::new("b", "s"));
    let a = m.get_auth().unwrap();
    assert_eq!(a.access_token, "b");
    assert_eq!(a.refresh_token, "s");
}

#[test]
fn delete_twice_leaves_no_credentials() {
    let mut m = manager();
    m.update_auth(Auth::new("a", "r"));
    m.delete_auth();
    assert!(m.get_auth().is_none());
    m.delete_auth();
    assert!(m.get_auth().is_none());
    assert!(!m.is_authenticated());
}

#[test]
fn delete_on_empty_store_is_harmless() {
    let mut m = manager();
    m.delete_auth();
    assert!(m.get_auth().is_none());
}

#[test]
fn partial_pair_is_absent() {
    let mut store = MemoryStorage::new();
    store.set("access_token", "only-access");
    store.set("user_id", "u");
    let m = AuthManager::new(SharedStorage::new(store));
    assert!(m.get_auth().is_none());
    assert!(!m.is_authenticated());

    let mut store = MemoryStorage::new();
    store.set("refresh_token", "only-refresh");
    let m = AuthManager::new(SharedStorage::new(store));
    assert!(m.get_auth().is_none());
}

#[test]
fn tokens_live_under_their_keys() {
    let mut m = manager();
    m.update_auth(Auth::new("x", "y"));
    assert_eq!(m.storage().get("access_token"), Some("x".to_string()));
    assert_eq!(m.storage().get("refresh_token"), Some("y".to_string()));
}

#[test]
fn shared_storage_set_get_remove() {
    let mut s = SharedStorage::new(MemoryStorage::new());
    assert_eq!(s.get("k"), None);
    s.set("k", "v");
    assert_eq!(s.get("k"), Some("v".to_string()));
    s.set("k", "w");
    assert_eq!(s.get("k"), Some("w".to_string()));
    s.remove("k");
    assert_eq!(s.get("k"), None);
}

#[test]
fn memory_storage_keeps_latest_value_per_key() {
    let mut s = MemoryStorage::new();
    s.set("a", "1");
    s.set("b", "2");
    s.set("a", "3");
    assert_eq!(s.get("a"), Some("3".to_string()));
    assert_eq!(s.get("b"), Some("2".to_string()));
    s.remove("a");
    assert_eq!(s.get("a"), None);
    assert_eq!(s.get("b"), Some("2".to_string()));
    s.remove("missing");
    assert_eq!(s.get("b"), Some("2".to_string()));
}
