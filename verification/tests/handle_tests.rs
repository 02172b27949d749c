use vireon_php::handle::{arc_to_handle, handle_to_ref, reclaim_handle, HandleTable};

#[test]
fn first_handle_is_one_and_resolves() {
    let mut table: HandleTable<String> = HandleTable::new();
    let h = arc_to_handle(&mut table, "client".to_string());
    assert_eq!(h, 1);
    assert_eq!(handle_to_ref(&table, h), Some(&"client".to_string()));
    assert_eq!(table.len(), 1);
}

#[test]
fn handles_are_distinct_and_nonzero() {
    let mut table: HandleTable<u32> = HandleTable::new();
    let a = arc_to_handle(&mut table, 10);
    let b = arc_to_handle(&mut table, 20);
    assert!(a != 0 && b != 0);
    assert_ne!(a, b);
    assert_eq!(handle_to_ref(&table, a), Some(&10));
    assert_eq!(handle_to_ref(&table, b), Some(&20));
}

#[test]
fn zero_names_nothing() {
    let mut table: HandleTable<u32> = HandleTable::new();
    arc_to_handle(&mut table, 7);
    assert_eq!(handle_to_ref(&table, 0), None);
    assert_eq!(reclaim_handle(&mut table, 0), None);
    assert_eq!(table.len(), 1);
}

#[test]
fn reclaimed_handle_names_nothing() {
    let mut table: HandleTable<u32> = HandleTable::new();
    let a = arc_to_handle(&mut table, 1);
    let b = arc_to_handle(&mut table, 2);
    assert_eq!(reclaim_handle(&mut table, a), Some(1));
    assert_eq!(handle_to_ref(&table, a), None);
    assert_eq!(handle_to_ref(&table, b), Some(&2));
    assert_eq!(reclaim_handle(&mut table, a), None);
    assert_eq!(table.len(), 1);
}

#[test]
fn handles_are_never_reused() {
    let mut table: HandleTable<u32> = HandleTable::new();
    let a = arc_to_handle(&mut table, 1);
    reclaim_handle(&mut table, a);
    let b = arc_to_handle(&mut table, 2);
    assert_ne!(a, b);
    assert_eq!(b, 2);
    assert_eq!(handle_to_ref(&table, a), None);
}

#[test]
fn unknown_handle_names_nothing() {
    let table: HandleTable<u32> = HandleTable::new();
    assert_eq!(handle_to_ref(&table, 42), None);
    assert_eq!(handle_to_ref(&table, -1), None);
}

#[test]
fn reclaiming_zero_hands_back_nothing() {
    let mut table: HandleTable<u32> = HandleTable::new();
    let h = arc_to_handle(&mut table, 9);
    assert_eq!(reclaim_handle(&mut table, 0), None);
    assert_eq!(handle_to_ref(&table, h), Some(&9));
}
