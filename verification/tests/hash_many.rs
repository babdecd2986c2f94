use thespis_remote::hash_many::HashMany;

#[test]
fn insert_then_get() {
    let mut h: HashMany<&str> = HashMany::new();
    assert_eq!(h.insert(1, "a"), None);
    assert_eq!(h.get(&1), Some(&"a"));
    assert_eq!(h.insert(1, "b"), Some("a"));
    assert_eq!(h.get(&1), Some(&"b"));
    assert!(h.contains_key(&1));
    assert!(!h.contains_key(&2));
    assert_eq!(h.get(&2), None);
}

#[test]
fn aliases_share_the_value() {
    let mut h: HashMany<&str> = HashMany::new();
    h.insert(1, "a");
    assert_eq!(h.alias(&1, 2), Some(&"a"));
    assert_eq!(h.get(&2), Some(&"a"));
    // A write through one key is seen through the other.
    assert_eq!(h.insert(2, "b"), Some("a"));
    assert_eq!(h.get(&1), Some(&"b"));
    // Aliasing an absent key changes nothing.
    assert_eq!(h.alias(&9, 3), None);
    assert!(!h.contains_key(&3));
}

#[test]
fn value_dropped_with_last_key() {
    let mut h: HashMany<&str> = HashMany::new();
    h.insert(1, "a");
    h.alias(&1, 2);
    // Still shared: nothing is returned, the other key keeps the value.
    assert_eq!(h.remove(&1), None);
    assert_eq!(h.get(&2), Some(&"a"));
    assert_eq!(h.get(&1), None);
    // The last key takes the value with it.
    assert_eq!(h.remove(&2), Some("a"));
    assert_eq!(h.get(&2), None);
    // Removing an absent key gives nothing.
    assert_eq!(h.remove(&2), None);
}

#[test]
fn insert_many_points_all_keys_to_one_value() {
    let mut h: HashMany<&str> = HashMany::default();
    h.insert(1, "old");
    h.insert(5, "other");
    h.insert_many(vec![1, 2, 3], "new");
    assert_eq!(h.get(&1), Some(&"new"));
    assert_eq!(h.get(&2), Some(&"new"));
    assert_eq!(h.get(&3), Some(&"new"));
    assert_eq!(h.get(&5), Some(&"other"));
    // They share one slot.
    h.insert(3, "changed");
    assert_eq!(h.get(&1), Some(&"changed"));
    // With no keys nothing changes.
    h.insert_many(vec![], "unused");
    assert_eq!(h.get(&5), Some(&"other"));
    h.clear();
    assert_eq!(h.get(&1), None);
    assert_eq!(h.get(&5), None);
}
