//! Scenarios for the keyed object store: round trips, key independence,
//! overwrite and delete.

use stor_core::store::{GetOutcome, ObjectStore};
use stor_core::volume::{VolumeSpecKey, VolumeStateKey};

#[test]
fn put_then_get_returns_the_bytes_unchanged() {
    let mut store = ObjectStore::new();
    let key = VolumeSpecKey::new(&"v1".to_string());
    let data = vec![1u8, 2, 3, 4];
    store.put(&key, data.clone());
    assert_eq!(store.get(&key), GetOutcome::Found(data));
}

#[test]
fn state_key_of_same_uuid_is_independent() {
    let mut store = ObjectStore::new();
    let spec_key = VolumeSpecKey::new(&"v1".to_string());
    let state_key = VolumeStateKey::new(&"v1".to_string());
    store.put(&spec_key, vec![7u8, 7]);
    // nothing is stored under the state kind yet, even with the same uuid
    assert_eq!(store.get(&state_key), GetOutcome::NotFound);
    store.put(&state_key, vec![9u8]);
    assert_eq!(store.get(&spec_key), GetOutcome::Found(vec![7u8, 7]));
    assert_eq!(store.get(&state_key), GetOutcome::Found(vec![9u8]));
}

#[test]
fn put_overwrites_previous_record() {
    let mut store = ObjectStore::new();
    let key = VolumeSpecKey::new(&"v1".to_string());
    store.put(&key, vec![1u8]);
    store.put(&key, vec![2u8]);
    assert_eq!(store.get(&key), GetOutcome::Found(vec![2u8]));
}

#[test]
fn delete_removes_only_the_named_record() {
    let mut store = ObjectStore::new();
    let k1 = VolumeSpecKey::new(&"v1".to_string());
    let k2 = VolumeSpecKey::new(&"v2".to_string());
    store.put(&k1, vec![1u8]);
    store.put(&k2, vec![2u8]);
    store.delete(&k1);
    assert_eq!(store.get(&k1), GetOutcome::NotFound);
    assert_eq!(store.get(&k2), GetOutcome::Found(vec![2u8]));
}

#[test]
fn delete_of_absent_key_changes_nothing() {
    let mut store = ObjectStore::new();
    let k1 = VolumeSpecKey::new(&"v1".to_string());
    store.put(&k1, vec![1u8]);
    store.delete(&VolumeSpecKey::new(&"v9".to_string()));
    assert_eq!(store.get(&k1), GetOutcome::Found(vec![1u8]));
}
