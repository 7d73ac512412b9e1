use pollkey::store::{SlotStore, StateError, CEREMONY_TTL_SECS};

#[test]
fn insert_then_get_within_ttl() {
    let mut s: SlotStore<u32> = SlotStore::new();
    s.insert(7, 42, 1000);
    assert_eq!(s.get(7, 1000), Ok(&42));
    assert_eq!(s.get(7, 1299), Ok(&42));
}

#[test]
fn get_missing_key_is_not_found() {
    let s: SlotStore<u32> = SlotStore::new();
    assert_eq!(s.get(1, 0), Err(StateError::NotFound));
}

#[test]
fn slot_expires_after_ttl() {
    let mut s: SlotStore<u32> = SlotStore::new();
    s.insert(7, 42, 1000);
    assert_eq!(s.get(7, 1300), Err(StateError::NotFound));
    assert_eq!(s.get(7, 1301), Err(StateError::NotFound));
    assert_eq!(s.take(7, 1301), Err(StateError::NotFound));
    assert_eq!(s.get(7, 1000), Err(StateError::NotFound));
}

#[test]
fn slot_from_the_future_is_not_usable() {
    let mut s: SlotStore<u32> = SlotStore::new();
    s.insert(7, 42, 1000);
    assert_eq!(s.get(7, 999), Err(StateError::NotFound));
}

#[test]
fn insert_overwrites_same_key() {
    let mut s: SlotStore<u32> = SlotStore::new();
    s.insert(7, 1, 10);
    s.insert(7, 2, 20);
    assert_eq!(s.get(7, 20), Ok(&2));
    assert_eq!(s.take(7, 20), Ok(2));
    assert_eq!(s.get(7, 20), Err(StateError::NotFound));
}

#[test]
fn take_is_single_use() {
    let mut s: SlotStore<String> = SlotStore::new();
    s.insert(9, "alice".to_string(), 0);
    assert_eq!(s.take(9, 5), Ok("alice".to_string()));
    assert_eq!(s.take(9, 5), Err(StateError::NotFound));
}

#[test]
fn keys_are_independent() {
    let mut s: SlotStore<u32> = SlotStore::new();
    s.insert(1, 10, 0);
    s.insert(2, 20, 0);
    assert_eq!(s.remove(1), Ok(()));
    assert_eq!(s.get(1, 0), Err(StateError::NotFound));
    assert_eq!(s.get(2, 0), Ok(&20));
}

#[test]
fn remove_is_idempotent() {
    let mut s: SlotStore<u32> = SlotStore::new();
    s.insert(1, 10, 0);
    assert_eq!(s.remove(1), Ok(()));
    assert_eq!(s.remove(1), Ok(()));
    assert_eq!(s.get(1, 0), Err(StateError::NotFound));
}

#[test]
fn cleanup_drops_only_expired() {
    let mut s: SlotStore<u32> = SlotStore::new();
    s.insert(1, 10, 0);
    s.insert(2, 20, 200);
    s.insert(3, 30, 400);
    s.cleanup_expired(450);
    assert_eq!(s.get(1, 0), Err(StateError::NotFound));
    assert_eq!(s.get(2, 450), Ok(&20));
    assert_eq!(s.get(3, 450), Ok(&30));
    s.cleanup_expired(450);
    assert_eq!(s.get(2, 450), Ok(&20));
}

#[test]
fn ttl_is_five_minutes() {
    assert_eq!(CEREMONY_TTL_SECS, 300);
}
