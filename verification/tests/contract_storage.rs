use host_bridge::storage::ContractStorage;

#[test]
fn key_never_written_is_not_found() {
    let store = ContractStorage::new(b"c1/".to_vec());
    assert_eq!(store.get(b"missing"), None);
    assert_eq!(store.get(b""), None);
}

#[test]
fn written_value_is_read() {
    let mut store = ContractStorage::new(b"c1/".to_vec());
    store.set(b"k", b"v");
    assert_eq!(store.get(b"k"), Some(b"v".to_vec()));
    store.set(b"k", b"w");
    assert_eq!(store.get(b"k"), Some(b"w".to_vec()));
    store.set(b"", b"");
    assert_eq!(store.get(b""), Some(Vec::new()));
}

#[test]
fn removing_a_missing_key_changes_nothing() {
    let mut store = ContractStorage::new(b"c1/".to_vec());
    store.set(b"k", b"v");
    store.remove(b"other");
    assert_eq!(store.get(b"k"), Some(b"v".to_vec()));
    assert_eq!(store.into_entries(), vec![(b"c1/k".to_vec(), b"v".to_vec())]);
}

#[test]
fn removed_key_is_gone() {
    let mut store = ContractStorage::new(b"c1/".to_vec());
    store.set(b"a", b"1");
    store.set(b"b", b"2");
    store.set(b"c", b"3");
    store.remove(b"b");
    assert_eq!(store.get(b"a"), Some(b"1".to_vec()));
    assert_eq!(store.get(b"b"), None);
    assert_eq!(store.get(b"c"), Some(b"3".to_vec()));
    store.remove(b"b");
    assert_eq!(store.get(b"b"), None);
}

#[test]
fn keys_are_filed_under_the_prefix() {
    let mut store = ContractStorage::new(b"c1/".to_vec());
    store.set(b"k", b"v");
    assert_eq!(store.into_entries(), vec![(b"c1/k".to_vec(), b"v".to_vec())]);
}

#[test]
fn contracts_do_not_see_each_other() {
    let mut first = ContractStorage::new(b"c1/".to_vec());
    first.set(b"k", b"mine");
    let mut second = ContractStorage::from_entries(b"c2/".to_vec(), first.into_entries());
    assert_eq!(second.get(b"k"), None);
    second.set(b"k", b"yours");
    second.remove(b"nothing");
    let back = ContractStorage::from_entries(b"c1/".to_vec(), second.into_entries());
    assert_eq!(back.get(b"k"), Some(b"mine".to_vec()));
}

#[test]
fn later_entry_wins_on_load() {
    let store = ContractStorage::from_entries(
        b"p".to_vec(),
        vec![
            (b"pk".to_vec(), b"old".to_vec()),
            (b"pj".to_vec(), b"other".to_vec()),
            (b"pk".to_vec(), b"new".to_vec()),
        ],
    );
    assert_eq!(store.get(b"k"), Some(b"new".to_vec()));
    assert_eq!(store.get(b"j"), Some(b"other".to_vec()));
    assert_eq!(store.into_entries().len(), 2);
}
