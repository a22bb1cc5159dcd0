use gig_shield::keys::{KeyPair, ScopedName};
use gig_shield::table::{Key, Table};
use gig_shield::Pubkey;

fn key(n: u8) -> Pubkey {
    Pubkey::new([n; 32])
}

#[test]
fn a_new_table_holds_nothing() {
    let table: Table<Pubkey, u64> = Table::new();
    assert!(!table.contains_key(&key(1)));
    assert_eq!(table.get(&key(1)), None);
}

#[test]
fn insert_stores_and_replaces() {
    let mut table: Table<Pubkey, u64> = Table::new();
    table.insert(key(1), 10);
    table.insert(key(2), 20);
    assert_eq!(table.get(&key(1)), Some(&10));
    assert_eq!(table.get(&key(2)), Some(&20));
    table.insert(key(1), 11);
    assert_eq!(table.get(&key(1)), Some(&11));
    assert_eq!(table.get(&key(2)), Some(&20));
    assert!(table.contains_key(&key(2)));
    assert!(!table.contains_key(&key(3)));
}

#[test]
fn scoped_names_compare_scope_and_name() {
    let name = |scope: u8, name: &str| ScopedName { scope: key(scope), name: name.to_string() };
    assert!(name(1, "a").same(&name(1, "a")));
    assert!(!name(1, "a").same(&name(2, "a")));
    assert!(!name(1, "a").same(&name(1, "b")));
    let mut table: Table<ScopedName, u8> = Table::new();
    table.insert(name(1, "a"), 1);
    table.insert(name(1, "b"), 2);
    table.insert(name(2, "a"), 3);
    assert_eq!(table.get(&name(1, "a")), Some(&1));
    assert_eq!(table.get(&name(1, "b")), Some(&2));
    assert_eq!(table.get(&name(2, "a")), Some(&3));
    assert_eq!(table.get(&name(2, "b")), None);
}

#[test]
fn key_pairs_are_ordered() {
    let pair = |first: u8, second: u8| KeyPair { first: key(first), second: key(second) };
    assert!(pair(1, 2).same(&pair(1, 2)));
    assert!(!pair(1, 2).same(&pair(2, 1)));
    let mut table: Table<KeyPair, bool> = Table::new();
    table.insert(pair(1, 2), true);
    assert_eq!(table.get(&pair(1, 2)), Some(&true));
    assert_eq!(table.get(&pair(2, 1)), None);
}
