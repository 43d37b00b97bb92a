use pyorion::pending::PendingTable;

#[test]
fn resolve_hands_out_the_resolver_registered_under_the_id() {
    let mut table: PendingTable<u32> = PendingTable::new();
    assert_eq!(table.register("a".to_string(), 1), None);
    assert_eq!(table.register("b".to_string(), 2), None);
    assert_eq!(table.register("c".to_string(), 3), None);
    assert_eq!(table.resolve("b"), Some(2));
    assert!(table.is_pending("a"));
    assert!(!table.is_pending("b"));
    assert!(table.is_pending("c"));
    assert_eq!(table.resolve("a"), Some(1));
    assert_eq!(table.resolve("c"), Some(3));
}

#[test]
fn resolving_twice_hands_out_nothing_the_second_time() {
    let mut table: PendingTable<u32> = PendingTable::new();
    table.register("7".to_string(), 70);
    table.register("8".to_string(), 80);
    assert_eq!(table.resolve("7"), Some(70));
    assert_eq!(table.resolve("7"), None);
    assert!(table.is_pending("8"));
    assert_eq!(table.resolve("8"), Some(80));
}

#[test]
fn resolving_an_unknown_id_changes_nothing() {
    let mut table: PendingTable<u32> = PendingTable::new();
    assert_eq!(table.resolve("nobody"), None);
    table.register("1".to_string(), 10);
    assert_eq!(table.resolve("2"), None);
    assert_eq!(table.resolve(""), None);
    assert!(table.is_pending("1"));
    assert_eq!(table.resolve("1"), Some(10));
}

#[test]
fn registering_an_id_again_displaces_the_earlier_resolver() {
    let mut table: PendingTable<u32> = PendingTable::new();
    assert_eq!(table.register("x".to_string(), 1), None);
    assert_eq!(table.register("x".to_string(), 2), Some(1));
    assert_eq!(table.resolve("x"), Some(2));
    assert_eq!(table.resolve("x"), None);
}

#[test]
fn every_request_of_a_batch_is_resolved_exactly_once() {
    let mut table: PendingTable<usize> = PendingTable::new();
    let ids: Vec<String> = (0..40).map(|n| format!("req-{}", n)).collect();
    for (n, id) in ids.iter().enumerate() {
        assert_eq!(table.register(id.clone(), n), None);
    }
    let mut order: Vec<usize> = (0..40).collect();
    order.reverse();
    order.swap(3, 17);
    order.swap(0, 39);
    for n in order {
        assert_eq!(table.resolve(&ids[n]), Some(n));
        assert_eq!(table.resolve(&ids[n]), None);
    }
    for id in ids.iter() {
        assert!(!table.is_pending(id));
    }
}

#[test]
fn ids_are_told_apart_by_their_whole_text() {
    let mut table: PendingTable<u8> = PendingTable::new();
    table.register("1".to_string(), 1);
    table.register("11".to_string(), 2);
    table.register("é".to_string(), 3);
    table.register("e".to_string(), 4);
    assert_eq!(table.resolve("11"), Some(2));
    assert_eq!(table.resolve("e"), Some(4));
    assert_eq!(table.resolve("é"), Some(3));
    assert_eq!(table.resolve("1"), Some(1));
}
