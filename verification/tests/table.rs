use matrix_bot::table::Table;

#[test]
fn empty_table_holds_nothing() {
    let table: Table<u32> = Table::new();
    assert_eq!(table.get(&"a".to_string()), None);
}

#[test]
fn insert_then_get() {
    let mut table: Table<u32> = Table::new();
    table.insert("a".to_string(), 1);
    table.insert("b".to_string(), 2);
    assert_eq!(table.get(&"a".to_string()), Some(&1));
    assert_eq!(table.get(&"b".to_string()), Some(&2));
    assert_eq!(table.get(&"c".to_string()), None);
    assert_eq!(table.get(&"".to_string()), None);
}

#[test]
fn insert_again_replaces() {
    let mut table: Table<u32> = Table::new();
    table.insert("a".to_string(), 1);
    table.insert("b".to_string(), 2);
    table.insert("a".to_string(), 3);
    assert_eq!(table.get(&"a".to_string()), Some(&3));
    assert_eq!(table.get(&"b".to_string()), Some(&2));
}

#[test]
fn insertion_order_does_not_matter() {
    let mut ab: Table<u32> = Table::new();
    ab.insert("a".to_string(), 1);
    ab.insert("b".to_string(), 2);
    let mut ba: Table<u32> = Table::new();
    ba.insert("b".to_string(), 2);
    ba.insert("a".to_string(), 1);
    for key in ["a", "b", "c"] {
        assert_eq!(ab.get(&key.to_string()), ba.get(&key.to_string()));
    }
}
