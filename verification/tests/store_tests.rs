use delamain::store::ToggleStore;

fn fresh_store() -> ToggleStore {
    let kv = persy::OpenOptions::new()
        .memory()
        .expect("in-memory store opens");
    let store = ToggleStore::new(kv);
    store.ensure_segment().expect("segment creation succeeds");
    store
}

#[test]
fn ensure_segment_is_idempotent() {
    let store = fresh_store();
    store.ensure_segment().expect("second call is a no-op");
    store.ensure_segment().expect("third call is a no-op");
    assert_eq!(store.is_enabled(42).unwrap().0, false);
}

#[test]
fn fresh_store_has_nothing_enabled() {
    let store = fresh_store();
    assert_eq!(store.is_enabled(0).unwrap().0, false);
    assert_eq!(store.is_enabled(u64::MAX).unwrap().0, false);
}

#[test]
fn toggle_oscillates() {
    let store = fresh_store();
    let channel = 0x0102030405060708;
    assert_eq!(store.toggle(channel).unwrap().0, true);
    assert_eq!(store.is_enabled(channel).unwrap().0, true);
    assert_eq!(store.toggle(channel).unwrap().0, false);
    assert_eq!(store.is_enabled(channel).unwrap().0, false);
    assert_eq!(store.toggle(channel).unwrap().0, true);
    assert_eq!(store.is_enabled(channel).unwrap().0, true);
}

#[test]
fn membership_follows_parity_of_toggle_count() {
    let store = fresh_store();
    let channel = 99;
    for round in 1..=6u32 {
        store.toggle(channel).unwrap();
        assert_eq!(store.is_enabled(channel).unwrap().0, round % 2 == 1);
    }
}

#[test]
fn channels_toggle_independently() {
    let store = fresh_store();
    assert_eq!(store.toggle(7).unwrap().0, true);
    assert_eq!(store.toggle(8).unwrap().0, true);
    assert_eq!(store.toggle(7).unwrap().0, false);
    assert_eq!(store.is_enabled(7).unwrap().0, false);
    assert_eq!(store.is_enabled(8).unwrap().0, true);
}

#[test]
fn missing_segment_surfaces_a_storage_error() {
    let kv = persy::OpenOptions::new()
        .memory()
        .expect("in-memory store opens");
    let store = ToggleStore::new(kv);
    // ensure_segment was never called: the scan has no segment to read.
    let err = match store.is_enabled(1) {
        Err(e) => e,
        Ok(_) => panic!("reading a store without its segment must fail"),
    };
    assert!(!err.message.is_empty());
    let err = match store.toggle(1) {
        Err(e) => e,
        Ok(_) => panic!("toggling a store without its segment must fail"),
    };
    assert!(!err.message.is_empty());
}
