//! The storage backend seen from outside: the basic interface, snapshots,
//! and the store's laws replayed on concrete values.

use kvstore::{Kvpair, Memtable, Storage, Value};

fn test_basic_interface(mut store: impl Storage) {
    // The first set materializes the table, inserts the key and reports no
    // prior value.
    let v = store.set("t1", "hello".to_string(), Value::Str("world".to_string()));
    assert!(v.unwrap().is_none());

    // The second set updates the key and reports the old value.
    let v1 = store.set("t1", "hello".to_string(), Value::Str("world2".to_string()));
    assert_eq!(v1, Ok(Some(Value::Str("world".to_string()))));

    // get sees the latest value of the key.
    let v2 = store.get("t1", "hello");
    assert_eq!(v2, Ok(Some(Value::Str("world2".to_string()))));

    // get of an absent key reports absence.
    let v3 = store.get("t1", "world");
    assert_eq!(v3, Ok(None));

    // contains reports whether the key holds a value.
    let v4 = store.contains("t1", "hello");
    assert_eq!(v4, Ok(true));

    // contains of an absent key reports false.
    let v5 = store.contains("t1", "world");
    assert_eq!(v5, Ok(false));

    // del removes the key and reports the old value.
    let v6 = store.del("t1", "hello");
    assert_eq!(v6, Ok(Some(Value::Str("world2".to_string()))));

    // del of an absent key reports absence.
    let v7 = store.del("t1", "world");
    assert_eq!(v7, Ok(None));

    // del on a table never touched reports absence too, not an error.
    let v8 = store.del("t2", "world");
    assert_eq!(v8, Ok(None));
}

fn test_get_all(mut store: impl Storage) {
    store.set("t1", "hello".to_string(), Value::Str("world".to_string())).unwrap();
    store.set("t1", "hello2".to_string(), Value::Str("world2".to_string())).unwrap();
    store.set("t1", "hello3".to_string(), Value::Str("world3".to_string())).unwrap();

    let mut v = store.get_all("t1").unwrap();
    v.sort_by(|a, b| a.partial_cmp(b).unwrap());
    assert_eq!(
        v,
        vec![
            Kvpair { key: "hello".to_string(), value: Some(Value::Str("world".to_string())) },
            Kvpair { key: "hello2".to_string(), value: Some(Value::Str("world2".to_string())) },
            Kvpair { key: "hello3".to_string(), value: Some(Value::Str("world3".to_string())) },
        ]
    );
}

#[test]
fn memtable_basic_interface_should_work() {
    let store = Memtable::new();
    test_basic_interface(store);
}

#[test]
fn memtable_get_all_should_work() {
    let store = Memtable::new();
    test_get_all(store);
}

#[test]
fn memtable_get_iter_snapshot_should_walk_every_row() {
    let mut store = Memtable::new();
    store.set("test", "key1".to_string(), Value::Str("value1".to_string())).unwrap();
    store.set("test", "key2".to_string(), Value::Str("value2".to_string())).unwrap();

    let mut iter = store.get_iter("test").unwrap();
    let mut seen = Vec::new();
    while let Some(pair) = iter.next() {
        seen.push(pair);
    }
    assert!(iter.next().is_none());
    seen.sort_by(|a, b| a.partial_cmp(b).unwrap());
    assert_eq!(
        seen,
        vec![
            Kvpair::new("key1", Value::Str("value1".to_string())),
            Kvpair::new("key2", Value::Str("value2".to_string())),
        ]
    );

    // The cursor is a snapshot: a later write does not reach it.
    let mut snapshot = store.get_iter("test").unwrap();
    store.set("test", "key3".to_string(), Value::Str("value3".to_string())).unwrap();
    let mut count: usize = 0;
    while snapshot.next().is_some() {
        count += 1;
    }
    assert_eq!(count, 2);
}

#[test]
fn writes_into_fresh_table_are_all_kept() {
    // Many writers each set a distinct key of a never-seen table; afterwards
    // the table holds exactly one row per writer.
    let mut store = Memtable::new();
    let n: i64 = 8;
    for w in 0..n {
        store.set("fresh", format!("writer-{}", w), Value::Int(w)).unwrap();
    }
    let pairs = store.get_all("fresh").unwrap();
    assert_eq!(pairs.len() as i64, n);
    for w in 0..n {
        let got = store.get("fresh", &format!("writer-{}", w)).unwrap();
        assert_eq!(got, Some(Value::Int(w)));
    }
}

#[test]
fn set_returns_previous_value() {
    let mut store = Memtable::new();
    assert_eq!(store.set("t", "k".to_string(), Value::Int(1)), Ok(None));
    assert_eq!(store.set("t", "k".to_string(), Value::Int(2)), Ok(Some(Value::Int(1))));
    assert_eq!(store.get("t", "k"), Ok(Some(Value::Int(2))));
}

#[test]
fn miss_on_untouched_table_is_ok_none() {
    let store = Memtable::new();
    assert_eq!(store.get("never", "seen"), Ok(None));
    assert_eq!(store.contains("never", "seen"), Ok(false));
}

#[test]
fn last_writer_wins_on_same_key() {
    let mut store = Memtable::new();
    for v in 0..10i64 {
        store.set("t", "k".to_string(), Value::Int(v)).unwrap();
    }
    assert_eq!(store.get("t", "k"), Ok(Some(Value::Int(9))));
}

#[test]
fn cross_table_writes_are_isolated() {
    let mut store = Memtable::new();
    store.set("a", "k".to_string(), Value::Bool(true)).unwrap();
    assert_eq!(store.get("b", "k"), Ok(None));
    assert_eq!(store.contains("b", "k"), Ok(false));
    assert_eq!(store.get("a", "k"), Ok(Some(Value::Bool(true))));
}

#[test]
fn float_values_travel_as_their_bits() {
    let mut store = Memtable::new();
    let x: f64 = -12.4;
    store.set("t", "f".to_string(), Value::FloatBits(x.to_bits())).unwrap();
    match store.get("t", "f").unwrap() {
        Some(Value::FloatBits(bits)) => assert_eq!(f64::from_bits(bits), -12.4),
        other => panic!("unexpected value {:?}", other),
    }
}

#[test]
fn bytes_and_bool_values_round_trip() {
    let mut store = Memtable::new();
    store.set("t", "b".to_string(), Value::Bytes(vec![1, 2, 3])).unwrap();
    store.set("t", "flag".to_string(), Value::Bool(false)).unwrap();
    assert_eq!(store.get("t", "b"), Ok(Some(Value::Bytes(vec![1, 2, 3]))));
    assert_eq!(store.del("t", "flag"), Ok(Some(Value::Bool(false))));
    assert_eq!(store.contains("t", "flag"), Ok(false));
}
