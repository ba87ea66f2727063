use server::store::Store;

#[test]
fn test_store_push() {
    let mut store: Store<u8> = Store::new();

    let a = store.insert(10);
    let b = store.insert(10);
    let c = store.insert(10);

    assert_eq!(a, 0);
    assert_eq!(b, 1);
    assert_eq!(c, 2);

    store.entry(b).remove();

    let b = store.insert(10);

    assert_eq!(b, 1);
}

#[test]
fn store_starts_empty() {
    let store: Store<u32> = Store::new();
    assert_eq!(store.len(), 0);
    assert!(store.is_empty());
    assert_eq!(store.get(0), None);
}

#[test]
fn store_get_reads_inserted_values() {
    let mut store: Store<u32> = Store::new();
    let a = store.insert(7);
    let b = store.insert(8);
    assert_eq!(store.get(a), Some(&7));
    assert_eq!(store.get(b), Some(&8));
    assert_eq!(store.get(2), None);
    assert_eq!(store.len(), 2);
    assert!(!store.is_empty());
}

#[test]
fn store_get_mut_changes_the_value() {
    let mut store: Store<u32> = Store::new();
    let a = store.insert(1);
    if let Some(v) = store.get_mut(a) {
        *v = 5;
    }
    assert_eq!(store.get(a), Some(&5));
    assert!(store.get_mut(3).is_none());
}

#[test]
fn store_remove_frees_the_slot() {
    let mut store: Store<u32> = Store::new();
    let a = store.insert(1);
    let b = store.insert(2);
    assert_eq!(store.entry(a).remove(), Some(1));
    assert_eq!(store.get(a), None);
    assert_eq!(store.get(b), Some(&2));
    assert_eq!(store.len(), 1);
}

#[test]
fn store_reuses_the_last_freed_slot_first() {
    let mut store: Store<u32> = Store::new();
    let a = store.insert(1);
    let b = store.insert(2);
    let c = store.insert(3);
    store.entry(a).remove();
    store.entry(c).remove();
    assert_eq!(store.insert(30), c);
    assert_eq!(store.insert(10), a);
    assert_eq!(store.insert(40), 3);
    assert_eq!(store.get(b), Some(&2));
    assert_eq!(store.len(), 4);
}

#[test]
fn store_entry_replace_get_and_index() {
    let mut store: Store<u32> = Store::new();
    let a = store.insert(1);
    let mut e = store.entry(a);
    assert_eq!(e.index(), a);
    assert_eq!(*e.get(), 1);
    assert_eq!(e.replace(4), Some(1));
    *e.get_mut() += 1;
    assert_eq!(*e.get(), 5);
    assert_eq!(store.get(a), Some(&5));
    // Replacing a value counts it once more, as the store has always done.
    assert_eq!(store.len(), 2);
}

#[test]
fn store_vacant_entry_names_the_next_slot() {
    let mut store: Store<u32> = Store::new();
    store.insert(1);
    let v = store.vacant_entry();
    assert_eq!(v.index(), 1);
    let e = v.insert(9);
    assert_eq!(e.index(), 1);
    assert_eq!(store.get(1), Some(&9));
}

#[test]
fn store_reserve_adds_free_slots_in_order() {
    let mut store: Store<u32> = Store::new();
    store.reserve(3);
    assert_eq!(store.len(), 0);
    assert_eq!(store.insert(1), 0);
    assert_eq!(store.insert(2), 1);
    assert_eq!(store.insert(3), 2);
    assert_eq!(store.insert(4), 3);
    store.reserve(2);
    assert_eq!(store.len(), 4);
}

#[test]
fn store_reserve_does_not_change_later_insertions() {
    let mut plain: Store<u32> = Store::new();
    let mut reserved: Store<u32> = Store::new();
    for s in [&mut plain, &mut reserved] {
        s.insert(1);
        s.insert(2);
        s.entry(0).remove();
    }
    reserved.reserve(6);
    assert!(reserved.can_insert());
    for v in 0..5 {
        assert_eq!(plain.insert(v), reserved.insert(v));
    }
    for i in 0..8 {
        assert_eq!(plain.get(i), reserved.get(i));
    }
    assert_eq!(plain.len(), reserved.len());
}

#[test]
fn store_vacant_insert_keeps_its_index() {
    let mut store: Store<u32> = Store::new();
    store.insert(1);
    let v = store.vacant_entry();
    let k = v.index();
    assert_eq!(v.insert(2).index(), k);
}

#[test]
fn store_removing_a_free_slot_keeps_the_count() {
    let mut store: Store<u32> = Store::new();
    let a = store.insert(1);
    store.insert(2);
    store.entry(a).remove();
    assert_eq!(store.len(), 1);
    assert_eq!(store.entry(5).remove(), None);
    assert_eq!(store.len(), 1);
    assert!(!store.is_empty());
}

#[test]
fn store_and_messages_clone() {
    let mut store: Store<u32> = Store::new();
    store.insert(3);
    let copy = store.clone();
    assert_eq!(copy.get(0), Some(&3));
    let h = server::msg::MessageHeader { id: Some("x".to_string()) };
    assert_eq!(h.clone().id, Some("x".to_string()));
    let v = server::value::Value::Array(vec![server::value::Value::Nil]);
    assert!(matches!(v.clone(), server::value::Value::Array(ref items) if items.len() == 1));
}
