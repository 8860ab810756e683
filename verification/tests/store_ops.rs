use record_store::{CustomError, Identity, RecordAccount, StoreConfig};

fn id(byte: u8) -> Identity {
    Identity::new([byte; 32])
}

#[test]
fn initialize_starts_empty() {
    let store = RecordAccount::initialize(StoreConfig::standard());
    assert_eq!(store.count, 0);
    assert_eq!(store.records.len(), 0);
}

#[test]
fn scenario_two_authors() {
    let mut store = RecordAccount::initialize(StoreConfig::standard());
    assert_eq!(store.count, 0);

    let a = id(1);
    let b = id(2);

    let first = store.create_record(a, String::from("hello"), 100);
    assert_eq!(first, Ok(0));
    assert_eq!(store.count, 1);

    let second = store.create_record(b, String::from("world"), 101);
    assert_eq!(second, Ok(1));
    assert_eq!(store.count, 2);

    let updated = store.update_record(a, 0, String::from("hi"), 102);
    assert_eq!(updated, Ok(()));
    assert_eq!(store.records[0].data, "hi");
    assert_eq!(store.records[0].author, a);

    let refused = store.update_record(b, 0, String::from("nope"), 103);
    assert_eq!(refused, Err(CustomError::UnauthorizedAccess));
    assert_eq!(store.records[0].data, "hi");
    assert_eq!(store.records[0].author, a);
    assert_eq!(store.records[0].timestamp, 102);

    let out_of_range = store.update_record(a, 5, String::from("x"), 104);
    assert_eq!(out_of_range, Err(CustomError::InvalidRecordIndex));
}

#[test]
fn append_is_monotonic() {
    let mut store = RecordAccount::initialize(StoreConfig::standard());
    let a = id(7);
    for expected in 0..5u64 {
        let before = store.count;
        let result = store.create_record(a, format!("entry {}", expected), expected as i64);
        assert_eq!(result, Ok(expected));
        assert_eq!(store.count, before + 1);
        assert_eq!(store.records.len() as u64, store.count);
        assert_eq!(store.records[expected as usize].data, format!("entry {}", expected));
    }
}

#[test]
fn append_records_author_and_timestamp() {
    let mut store = RecordAccount::initialize(StoreConfig::standard());
    let a = id(9);
    let result = store.create_record(a, String::from("note"), -42);
    assert_eq!(result, Ok(0));
    assert_eq!(store.records[0].author, a);
    assert_eq!(store.records[0].timestamp, -42);
    assert_eq!(store.records[0].data, "note");
}

#[test]
fn update_replaces_data_and_timestamp_only() {
    let mut store = RecordAccount::initialize(StoreConfig::standard());
    let a = id(3);
    store.create_record(a, String::from("before"), 10).unwrap();
    let result = store.update_record(a, 0, String::from("after"), 20);
    assert_eq!(result, Ok(()));
    assert_eq!(store.records[0].data, "after");
    assert_eq!(store.records[0].timestamp, 20);
    assert_eq!(store.records[0].author, a);
    assert_eq!(store.count, 1);
}

#[test]
fn author_never_changes() {
    let mut store = RecordAccount::initialize(StoreConfig::standard());
    let a = id(4);
    let b = id(5);
    store.create_record(a, String::from("mine"), 1).unwrap();
    store.create_record(b, String::from("yours"), 2).unwrap();
    store.update_record(a, 0, String::from("mine again"), 3).unwrap();
    store.update_record(b, 1, String::from("yours again"), 4).unwrap();
    let _ = store.update_record(b, 0, String::from("stolen"), 5);
    assert_eq!(store.records[0].author, a);
    assert_eq!(store.records[1].author, b);
}

#[test]
fn unauthorized_update_changes_nothing() {
    let mut store = RecordAccount::initialize(StoreConfig::standard());
    let a = id(1);
    let b = id(2);
    store.create_record(a, String::from("original"), 50).unwrap();
    let refused = store.update_record(b, 0, String::from("intruder"), 60);
    assert_eq!(refused, Err(CustomError::UnauthorizedAccess));
    assert_eq!(store.records[0].data, "original");
    assert_eq!(store.records[0].timestamp, 50);
    assert_eq!(store.records[0].author, a);
    assert_eq!(store.count, 1);
}

#[test]
fn out_of_range_is_never_reported_as_unauthorized() {
    let mut store = RecordAccount::initialize(StoreConfig::standard());
    let a = id(1);
    let stranger = id(200);
    store.create_record(a, String::from("only"), 1).unwrap();
    // In range for no caller, so the bounds error must win for both.
    assert_eq!(
        store.update_record(a, 1, String::from("x"), 2),
        Err(CustomError::InvalidRecordIndex)
    );
    assert_eq!(
        store.update_record(stranger, 99, String::from("x"), 3),
        Err(CustomError::InvalidRecordIndex)
    );
    assert_eq!(store.records[0].data, "only");
}

#[test]
fn get_returns_the_stored_record() {
    let mut store = RecordAccount::initialize(StoreConfig::standard());
    let a = id(6);
    store.create_record(a, String::from("kept"), 77).unwrap();
    let record = store.get(0).expect("index 0 is in range");
    assert_eq!(record.data, "kept");
    assert_eq!(record.timestamp, 77);
    assert_eq!(record.author, a);
    assert!(store.get(1).is_none());
    assert!(store.get(u64::MAX).is_none());
}

#[test]
fn identity_equality_is_by_bytes() {
    assert_eq!(id(1), id(1));
    assert_ne!(id(1), id(2));
    let mut bytes = [0u8; 32];
    bytes[31] = 1;
    assert_ne!(Identity::new(bytes), Identity::new([0u8; 32]));
    assert_eq!(Identity::new(bytes).to_bytes(), bytes);
}

#[test]
fn error_messages_name_the_failure() {
    assert_eq!(CustomError::InvalidRecordIndex.message(), "Invalid record index");
    assert_eq!(CustomError::UnauthorizedAccess.message(), "Unauthorized access");
    assert_eq!(CustomError::CapacityExceeded.message(), "Capacity exceeded");
    assert_eq!(CustomError::PayloadTooLarge.message(), "Payload too large");
}
