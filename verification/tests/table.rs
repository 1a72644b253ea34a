use airo_dx::key::RecordKey;
use airo_dx::table::{KeyTable, Table};

#[test]
fn a_key_has_one_value() {
    let mut table: KeyTable<u32> = KeyTable::new();
    let key = RecordKey::new(vec![1, 2]);
    assert_eq!(table.insert(key.clone(), 5), None);
    assert_eq!(table.insert(RecordKey::new(vec![1, 2]), 6), Some(5));
    assert_eq!(table.len(), 1);
    assert_eq!(table.get(&key), Some(&6));
    assert!(table.contains_key(&key));
    assert!(!table.contains_key(&RecordKey::new(vec![1])));
    assert_eq!(table.remove(&key), Some(6));
    assert_eq!(table.remove(&key), None);
    assert_eq!(table.len(), 0);
}

#[test]
fn entries_keep_their_order() {
    let mut table: Table<(u64, u64), u8> = Table::new();
    table.insert((1, 1), 10);
    table.insert((2, 1), 20);
    table.insert((1, 2), 30);
    assert_eq!(table.key_at(0), &(1, 1));
    assert_eq!(table.key_at(2), &(1, 2));
    assert_eq!(table.remove_at(1), ((2, 1), 20));
    assert_eq!(table.key_at(1), &(1, 2));
}

#[test]
fn a_prefix_is_drained_whole() {
    let mut table: Table<(u64, u64), u8> = Table::new();
    table.insert((1, 1), 10);
    table.insert((2, 1), 20);
    table.insert((1, 2), 30);
    table.insert((3, 1), 40);
    assert!(table.contains_prefix(1));
    assert!(!table.contains_prefix(4));
    assert_eq!(table.drain_prefix(1), vec![(1, 10), (2, 30)]);
    assert!(!table.contains_prefix(1));
    assert_eq!(table.drain_prefix(1), vec![]);
    assert_eq!(table.len(), 2);
    assert_eq!(table.get(&(2, 1)), Some(&20));
    assert_eq!(table.get(&(3, 1)), Some(&40));
}
