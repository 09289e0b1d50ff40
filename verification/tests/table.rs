use indigopay::address::{contains_address, Address};
use indigopay::table::Table;

#[test]
fn table_holds_the_last_value_of_each_key() {
    let mut table: Table<Vec<u8>, u32> = Table::new();
    assert!(table.get(&vec![1]).is_none());
    table.set(vec![1], 10);
    table.set(vec![1, 2], 20);
    table.set(vec![1], 30);
    assert_eq!(table.get(&vec![1]), Some(&30));
    assert_eq!(table.get(&vec![1, 2]), Some(&20));
    table.remove(&vec![1]);
    assert!(!table.has(&vec![1]));
    assert!(table.has(&vec![1, 2]));
    table.remove(&vec![7]);
    assert!(table.has(&vec![1, 2]));
}

#[test]
fn pairs_are_told_apart_by_both_parts() {
    let a = Address::Account([1u8; 32]);
    let b = Address::Account([2u8; 32]);
    let mut table: Table<(Address, Address), i128> = Table::new();
    table.set((a, b), 1);
    table.set((b, a), 2);
    assert_eq!(table.get(&(a, b)), Some(&1));
    assert_eq!(table.get(&(b, a)), Some(&2));
    assert_eq!(table.get(&(a, a)), None);
}

#[test]
fn accounts_and_contracts_differ() {
    let account = Address::Account([1u8; 32]);
    let contract = Address::Contract([1u8; 32]);
    assert_ne!(account, contract);
    assert!(contains_address(&vec![account], account));
    assert!(!contains_address(&vec![account], contract));
}
