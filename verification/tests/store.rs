use chat_gateway::store::{get_item, SecretStore, StoreError};

fn populated() -> SecretStore {
    let mut store = SecretStore::new();
    let written = store.populate(vec![
        ("api_key".to_string(), "sk-test".to_string()),
        ("base_url".to_string(), "https://upstream.example/v1".to_string()),
    ]);
    assert!(written);
    store
}

#[test]
fn lookup_on_an_empty_store_is_uninitialized() {
    let store = SecretStore::new();
    assert!(!store.is_populated());
    assert!(matches!(get_item(&store, "base_url"), Err(StoreError::Uninitialized)));
}

#[test]
fn lookup_finds_both_keys() {
    let store = populated();
    assert!(store.is_populated());
    assert_eq!(get_item(&store, "base_url").unwrap(), "https://upstream.example/v1");
    assert_eq!(get_item(&store, "api_key").unwrap(), "sk-test");
}

#[test]
fn lookup_of_a_missing_key_names_it() {
    let store = populated();
    match get_item(&store, "model") {
        Err(StoreError::KeyNotFound(key)) => assert_eq!(key, "model"),
        other => panic!("unexpected {:?}", other),
    }
}

#[test]
fn a_later_pair_replaces_an_earlier_one() {
    let mut store = SecretStore::new();
    store.populate(vec![
        ("api_key".to_string(), "first".to_string()),
        ("api_key".to_string(), "second".to_string()),
    ]);
    assert_eq!(get_item(&store, "api_key").unwrap(), "second");
}

#[test]
fn a_populated_store_is_not_written_again() {
    let mut store = populated();
    let written = store.populate(vec![("api_key".to_string(), "other".to_string())]);
    assert!(!written);
    assert_eq!(get_item(&store, "api_key").unwrap(), "sk-test");
    assert_eq!(get_item(&store, "base_url").unwrap(), "https://upstream.example/v1");
}
