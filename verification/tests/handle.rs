use kernel::handle::HandleTable;

#[test]
fn handles_count_up_from_zero() {
    let mut table = HandleTable::new();
    assert_eq!(table.issued(), 0);
    assert_eq!(table.insert('a'), 0);
    assert_eq!(table.insert('b'), 1);
    assert_eq!(table.insert('c'), 2);
    assert_eq!(table.issued(), 3);
}

#[test]
fn get_leaves_the_value_in_place() {
    let mut table = HandleTable::new();
    let handle = table.insert(String::from("kept"));
    assert_eq!(table.get(handle), Some(&String::from("kept")));
    assert_eq!(table.get(handle), Some(&String::from("kept")));
    assert_eq!(table.get(handle + 1), None);
}

#[test]
fn take_yields_the_value_once() {
    let mut table = HandleTable::new();
    let first = table.insert(10u8);
    let second = table.insert(20u8);
    assert_eq!(table.take(first), Some(10));
    assert_eq!(table.take(first), None);
    assert_eq!(table.get(first), None);
    assert_eq!(table.take(second), Some(20));
    assert_eq!(table.take(second), None);
}

#[test]
fn take_of_a_handle_never_issued_yields_nothing() {
    let mut table: HandleTable<u8> = HandleTable::new();
    assert_eq!(table.take(0), None);
    table.insert(1);
    assert_eq!(table.take(7), None);
    assert_eq!(table.get(0), Some(&1));
}

#[test]
fn a_taken_handle_is_not_issued_again() {
    let mut table = HandleTable::new();
    let first = table.insert(1u8);
    assert_eq!(table.take(first), Some(1));
    let second = table.insert(2u8);
    assert_ne!(first, second);
    assert_eq!(table.take(first), None);
    assert_eq!(table.issued(), 2);
}
