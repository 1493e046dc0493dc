use nodara::store::KeyedStore;

#[test]
fn a_new_store_is_empty() {
    let store: KeyedStore<u32> = KeyedStore::new();
    assert!(!store.contains_key(1));
    assert!(store.get(1).is_none());
}

#[test]
fn insert_stores_and_replaces() {
    let mut store: KeyedStore<&str> = KeyedStore::new();
    store.insert(1, "one");
    store.insert(2, "two");
    assert_eq!(store.get(1), Some(&"one"));
    assert_eq!(store.get(2), Some(&"two"));
    store.insert(1, "uno");
    assert_eq!(store.get(1), Some(&"uno"));
    assert_eq!(store.get(2), Some(&"two"));
}

#[test]
fn remove_deletes_only_the_named_key() {
    let mut store: KeyedStore<u32> = KeyedStore::new();
    store.insert(1, 10);
    store.insert(2, 20);
    store.remove(1);
    assert!(store.get(1).is_none());
    assert_eq!(store.get(2), Some(&20));
    // Removing an absent key leaves the store as it is.
    store.remove(7);
    assert_eq!(store.get(2), Some(&20));
}
