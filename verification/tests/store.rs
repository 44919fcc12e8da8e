use gssapi_negotiate::store::ContextStore;

#[test]
fn empty_store_has_no_entries() {
    let store: ContextStore<u64> = ContextStore::new();
    assert_eq!(store.len(), 0);
    assert_eq!(store.lookup("10.0.0.1"), None);
    assert!(!store.contains("10.0.0.1"));
}

#[test]
fn insert_then_lookup() {
    let mut store: ContextStore<String> = ContextStore::new();
    store.insert("10.0.0.1".to_string(), "ctx-a".to_string());
    assert_eq!(store.len(), 1);
    assert!(store.contains("10.0.0.1"));
    assert_eq!(store.lookup("10.0.0.1"), Some(&"ctx-a".to_string()));
    assert_eq!(store.lookup("10.0.0.2"), None);
}

#[test]
fn insert_same_identifier_replaces() {
    // At most one context per identifier at any instant.
    let mut store: ContextStore<u64> = ContextStore::new();
    store.insert("10.0.0.1".to_string(), 1);
    store.insert("10.0.0.1".to_string(), 2);
    assert_eq!(store.len(), 1);
    assert_eq!(store.lookup("10.0.0.1"), Some(&2));
}

#[test]
fn remove_is_idempotent() {
    let mut store: ContextStore<u64> = ContextStore::new();
    store.insert("10.0.0.1".to_string(), 1);
    store.remove("10.0.0.1");
    assert_eq!(store.lookup("10.0.0.1"), None);
    // Removing an absent identifier is a no-op.
    store.remove("10.0.0.1");
    store.remove("10.0.0.9");
    assert_eq!(store.len(), 0);
}

#[test]
fn entries_are_independent() {
    let mut store: ContextStore<u64> = ContextStore::new();
    store.insert("10.0.0.1".to_string(), 1);
    store.insert("10.0.0.2".to_string(), 2);
    store.remove("10.0.0.1");
    assert_eq!(store.lookup("10.0.0.1"), None);
    assert_eq!(store.lookup("10.0.0.2"), Some(&2));
}
