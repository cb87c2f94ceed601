use std::collections::HashSet;
use visitor_badge::store::{CounterStore, StorageError};

#[test]
fn created_ids_never_repeat() {
    let mut store = CounterStore::new();
    let mut seen = HashSet::new();
    for _ in 0..10_000 {
        let id = store.create_counter().ok().expect("creation succeeds");
        assert!(seen.insert(id));
    }
}

#[test]
fn first_increment_returns_one() {
    let mut store = CounterStore::new();
    let id = store.create_counter().ok().unwrap();
    assert_eq!(store.count(id), Some(0));
    assert!(matches!(store.increment_and_get(id), Ok(Some(1))));
}

#[test]
fn sequential_increments_count_up() {
    let mut store = CounterStore::new();
    let id = store.create_counter().ok().unwrap();
    for expected in 1..=50i64 {
        match store.increment_and_get(id) {
            Ok(Some(n)) => assert_eq!(n, expected),
            _ => panic!("increment failed"),
        }
    }
    assert_eq!(store.count(id), Some(50));
}

#[test]
fn interleaved_increments_return_each_value_once() {
    let mut store = CounterStore::new();
    let a = store.create_counter().ok().unwrap();
    let b = store.create_counter().ok().unwrap();
    let mut seen_a = Vec::new();
    let mut seen_b = Vec::new();
    for round in 0..100 {
        let target = if round % 3 == 0 { b } else { a };
        match store.increment_and_get(target) {
            Ok(Some(n)) if target == a => seen_a.push(n),
            Ok(Some(n)) => seen_b.push(n),
            _ => panic!("increment failed"),
        }
    }
    let mut sorted = seen_a.clone();
    sorted.sort();
    sorted.dedup();
    assert_eq!(sorted.len(), seen_a.len());
    assert_eq!(sorted, (1..=seen_a.len() as i64).collect::<Vec<_>>());
    assert_eq!(seen_b, (1..=34i64).collect::<Vec<_>>());
    assert_eq!(store.count(a), Some(66));
    assert_eq!(store.count(b), Some(34));
}

#[test]
fn unknown_id_is_not_found() {
    let mut store = CounterStore::new();
    let id = store.create_counter().ok().unwrap();
    let other = id ^ 1;
    assert!(matches!(store.increment_and_get(other), Ok(None)));
    assert!(matches!(CounterStore::new().increment_and_get(42), Ok(None)));
    assert_eq!(store.count(other), None);
}

#[test]
fn duplicate_id_is_refused() {
    let mut store = CounterStore::new();
    assert!(matches!(store.insert_counter(7), Ok(7)));
    assert!(matches!(store.increment_and_get(7), Ok(Some(1))));
    assert!(matches!(store.insert_counter(7), Err(StorageError::DuplicateId)));
    assert_eq!(store.count(7), Some(1));
}

#[test]
fn storage_error_messages() {
    assert_eq!(StorageError::CountOutOfRange.message(), "bigint out of range");
    assert_eq!(
        StorageError::DuplicateId.message(),
        "duplicate key value violates unique constraint"
    );
    assert_eq!(
        StorageError::Backend("connection refused".to_string()).message(),
        "connection refused"
    );
}

#[test]
fn creation_on_empty_store_succeeds() {
    let mut store = CounterStore::new();
    let id = store.create_counter().ok().expect("an empty store has no id to collide with");
    assert_eq!(store.count(id), Some(0));
}
