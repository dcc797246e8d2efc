use idb::bridge::wait_request;
use idb::error::{DomErrorName, Error};
use idb::request::Outcome;
use idb::store::{CursorDirection, IndexParams, KeyPath, ObjectStore, Query};
use idb::transaction::{Transaction, TransactionMode};
use idb::value::{NativeValue, ScalarValue, ValueKind};

fn scalar(req_outcome: &Outcome) -> ScalarValue {
    match req_outcome {
        Outcome::Success(NativeValue::Scalar(s)) => s.clone(),
        other => panic!("expected a scalar success, got {:?}", other),
    }
}

fn array(req_outcome: &Outcome) -> Vec<ScalarValue> {
    match req_outcome {
        Outcome::Success(NativeValue::Array(items)) => items.clone(),
        other => panic!("expected an array success, got {:?}", other),
    }
}

#[test]
fn put_then_get_round_trips_through_bridge() {
    let mut store = ObjectStore::new("test".to_string(), None, false);
    let put_req = store.put(ScalarValue::Text("payload".to_string()), Some(9)).unwrap();
    assert_eq!(scalar(&put_req.outcome), ScalarValue::Int(9));
    let get_req = store.get(Query::Key(9)).unwrap();
    let out = wait_request(Some(get_req.settle()), ValueKind::Text);
    assert_eq!(out, Ok(NativeValue::Scalar(ScalarValue::Text("payload".to_string()))));
}

#[test]
fn add_then_duplicate_key_scenario() {
    // A transaction on store "test": the first add settles successfully
    // with the converted record; a second add under the same key settles
    // with an error notification that the bridge resolves to the engine's
    // constraint violation.
    let tx = Transaction::new(vec!["test".to_string()], TransactionMode::ReadWrite);
    let mut store = ObjectStore::new("test".to_string(), None, false);
    let first = store.add(ScalarValue::Record { id: 1 }, Some(1)).unwrap();
    assert_eq!(scalar(&first.outcome), ScalarValue::Int(1));
    let fetched = store.get(Query::Key(1)).unwrap();
    let converted = wait_request(Some(fetched.settle()), ValueKind::Record);
    assert_eq!(converted, Ok(NativeValue::Scalar(ScalarValue::Record { id: 1 })));

    let second = store.add(ScalarValue::Record { id: 2 }, Some(1)).unwrap();
    let out = wait_request(Some(second.settle()), ValueKind::Record);
    assert_eq!(out, Err(Error::DomException(DomErrorName::ConstraintError)));
    drop(tx);
}

#[test]
fn put_replaces_existing_record() {
    let mut store = ObjectStore::new("s".to_string(), None, false);
    store.put(ScalarValue::Int(1), Some(4)).unwrap();
    store.put(ScalarValue::Int(2), Some(4)).unwrap();
    let got = store.get(Query::Key(4)).unwrap();
    assert_eq!(scalar(&got.outcome), ScalarValue::Int(2));
    let count = store.count(None).unwrap();
    assert_eq!(scalar(&count.outcome), ScalarValue::Int(1));
}

#[test]
fn generator_supplies_keys_in_order() {
    let mut store = ObjectStore::new("s".to_string(), None, true);
    let a = store.put(ScalarValue::Null, None).unwrap();
    let b = store.add(ScalarValue::Null, None).unwrap();
    assert_eq!(scalar(&a.outcome), ScalarValue::Int(1));
    assert_eq!(scalar(&b.outcome), ScalarValue::Int(2));
    // An explicit key moves the generator past itself.
    store.put(ScalarValue::Null, Some(10)).unwrap();
    let c = store.put(ScalarValue::Null, None).unwrap();
    assert_eq!(scalar(&c.outcome), ScalarValue::Int(11));
}

#[test]
fn missing_key_without_generator_is_rejected() {
    let mut store = ObjectStore::new("s".to_string(), None, false);
    assert_eq!(
        store.put(ScalarValue::Null, None),
        Err(Error::UpdateFailed(DomErrorName::DataError))
    );
    assert_eq!(
        store.add(ScalarValue::Null, None),
        Err(Error::AddFailed(DomErrorName::DataError))
    );
}

#[test]
fn get_misses_with_undefined() {
    let store = ObjectStore::new("s".to_string(), None, false);
    let got = store.get(Query::Key(7)).unwrap();
    assert_eq!(scalar(&got.outcome), ScalarValue::Undefined);
    let key = store.get_key(Query::Range(1, 5)).unwrap();
    assert_eq!(scalar(&key.outcome), ScalarValue::Undefined);
}

#[test]
fn get_key_finds_first_in_range() {
    let mut store = ObjectStore::new("s".to_string(), None, false);
    store.put(ScalarValue::Int(10), Some(2)).unwrap();
    store.put(ScalarValue::Int(20), Some(5)).unwrap();
    let key = store.get_key(Query::Range(2, 9)).unwrap();
    assert_eq!(scalar(&key.outcome), ScalarValue::Int(2));
}

#[test]
fn get_all_filters_and_limits() {
    let mut store = ObjectStore::new("s".to_string(), None, false);
    for k in 1..=5u64 {
        store.put(ScalarValue::Int(k * 100), Some(k)).unwrap();
    }
    let all = store.get_all(None, None).unwrap();
    assert_eq!(
        array(&all.outcome),
        vec![
            ScalarValue::Int(100),
            ScalarValue::Int(200),
            ScalarValue::Int(300),
            ScalarValue::Int(400),
            ScalarValue::Int(500),
        ]
    );
    let ranged = store.get_all(Some(Query::Range(2, 4)), Some(2)).unwrap();
    assert_eq!(array(&ranged.outcome), vec![ScalarValue::Int(200), ScalarValue::Int(300)]);
}

#[test]
fn get_all_keys_reports_keys() {
    let mut store = ObjectStore::new("s".to_string(), None, false);
    store.put(ScalarValue::Null, Some(3)).unwrap();
    store.put(ScalarValue::Null, Some(8)).unwrap();
    let keys = store.get_all_keys(None, None).unwrap();
    assert_eq!(array(&keys.outcome), vec![ScalarValue::Int(3), ScalarValue::Int(8)]);
    let limited = store.get_all_keys(None, Some(1)).unwrap();
    assert_eq!(array(&limited.outcome), vec![ScalarValue::Int(3)]);
}

#[test]
fn count_matches_query() {
    let mut store = ObjectStore::new("s".to_string(), None, false);
    for k in [1u64, 4, 6, 9] {
        store.put(ScalarValue::Null, Some(k)).unwrap();
    }
    let total = store.count(None).unwrap();
    assert_eq!(scalar(&total.outcome), ScalarValue::Int(4));
    let some = store.count(Some(Query::Range(4, 8))).unwrap();
    assert_eq!(scalar(&some.outcome), ScalarValue::Int(2));
}

#[test]
fn delete_removes_matching_records() {
    let mut store = ObjectStore::new("s".to_string(), None, false);
    for k in 1..=4u64 {
        store.put(ScalarValue::Int(k), Some(k)).unwrap();
    }
    let req = store.delete(Query::Range(2, 3)).unwrap();
    assert_eq!(scalar(&req.outcome), ScalarValue::Undefined);
    let keys = store.get_all_keys(None, None).unwrap();
    assert_eq!(array(&keys.outcome), vec![ScalarValue::Int(1), ScalarValue::Int(4)]);
}

#[test]
fn clear_removes_everything() {
    let mut store = ObjectStore::new("s".to_string(), None, false);
    store.put(ScalarValue::Int(1), Some(1)).unwrap();
    store.clear().unwrap();
    let total = store.count(None).unwrap();
    assert_eq!(scalar(&total.outcome), ScalarValue::Int(0));
}

#[test]
fn cursors_walk_both_directions() {
    let mut store = ObjectStore::new("s".to_string(), None, false);
    for k in 1..=3u64 {
        store.put(ScalarValue::Int(k * 10), Some(k)).unwrap();
    }
    let forward = store.open_cursor(None, None).unwrap();
    assert_eq!(
        array(&forward.outcome),
        vec![ScalarValue::Int(10), ScalarValue::Int(20), ScalarValue::Int(30)]
    );
    let backward = store.open_cursor(None, Some(CursorDirection::Prev)).unwrap();
    assert_eq!(
        array(&backward.outcome),
        vec![ScalarValue::Int(30), ScalarValue::Int(20), ScalarValue::Int(10)]
    );
    let keys_back = store
        .open_key_cursor(Some(Query::Range(1, 2)), Some(CursorDirection::PrevUnique))
        .unwrap();
    assert_eq!(array(&keys_back.outcome), vec![ScalarValue::Int(2), ScalarValue::Int(1)]);
}

#[test]
fn index_lifecycle() {
    let mut store = ObjectStore::new("s".to_string(), None, false);
    assert_eq!(store.index("by_name"), Err(Error::IndexNotFound));

    let created = store
        .create_index(
            "by_name",
            KeyPath::Single("name".to_string()),
            Some(IndexParams { unique: true, multi_entry: false }),
        )
        .unwrap();
    assert_eq!(created.name, "by_name".to_string());
    assert!(created.unique);

    assert_eq!(
        store
            .create_index("by_name", KeyPath::Single("other".to_string()), None)
            .unwrap_err(),
        Error::IndexCreateFailed(DomErrorName::ConstraintError)
    );

    let found = store.index("by_name").unwrap();
    assert_eq!(found.name, "by_name".to_string());
    assert_eq!(found.key_path, KeyPath::Single("name".to_string()));

    assert_eq!(store.index_names(), vec!["by_name".to_string()]);

    assert_eq!(
        store.delete_index("absent"),
        Err(Error::IndexDeleteFailed(DomErrorName::NotFoundError))
    );
    assert_eq!(store.delete_index("by_name"), Ok(()));
    assert_eq!(store.index_names(), Vec::<String>::new());
}

#[test]
fn store_metadata() {
    let mut store = ObjectStore::new(
        "people".to_string(),
        Some(KeyPath::Compound(vec!["last".to_string(), "first".to_string()])),
        true,
    );
    assert_eq!(store.name(), "people".to_string());
    assert!(store.auto_increment());
    assert_eq!(
        store.key_path(),
        Ok(Some(KeyPath::Compound(vec!["last".to_string(), "first".to_string()])))
    );
    store.set_name("persons");
    assert_eq!(store.name(), "persons".to_string());
}
