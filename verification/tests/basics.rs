use chronostore::Chronology;
use chronostore::Direction;
use chronostore::DisorderedInsert;
use chronostore::Entry;
use chronostore::NullSummary;
use chronostore::VectorChronology;

#[test]
fn lib_basics() {
    let mut v = Chronology::<f32, NullSummary<f32>>::new();
    v.insert_values(&[
        Entry::new(5, 2.0),
        Entry::new(10, 3.0),
        Entry::new(15, 4.0),
        Entry::new(20, 5.0),
    ])
    .unwrap();
    assert_eq!(v.find_nearest_value(2, Direction::Forward), Some(Entry::new(5, 2.0)));
    assert_eq!(v.find_nearest_value(12, Direction::Forward), Some(Entry::new(15, 4.0)));
    assert_eq!(v.find_nearest_value(22, Direction::Forward), None);
}

#[test]
fn vector_backed_basics() {
    let mut v = VectorChronology::<f32>::new();
    v.insert_values(&[
        Entry::new(5, 2.0),
        Entry::new(10, 3.0),
        Entry::new(15, 4.0),
        Entry::new(20, 5.0),
    ])
    .unwrap();
    assert_eq!(v.find_nearest_value(2, Direction::Forward), Some(Entry::new(5, 2.0)));
}

#[test]
fn forward_correctness() {
    let mut v = Chronology::<f32, NullSummary<f32>>::new();
    v.insert_values(&[
        Entry::new(5, 2.0),
        Entry::new(10, 3.0),
        Entry::new(15, 4.0),
        Entry::new(20, 5.0),
    ])
    .unwrap();
    assert_eq!(v.find_nearest_value(2, Direction::Forward), Some(Entry::new(5, 2.0)));
    assert_eq!(v.find_nearest_value(12, Direction::Forward), Some(Entry::new(15, 4.0)));
    assert_eq!(v.find_nearest_value(22, Direction::Forward), None);
}

#[test]
fn backward_correctness() {
    let mut v = Chronology::<f32, NullSummary<f32>>::new();
    v.insert_values(&[
        Entry::new(5, 2.0),
        Entry::new(10, 3.0),
        Entry::new(15, 4.0),
        Entry::new(20, 5.0),
    ])
    .unwrap();
    assert_eq!(v.find_nearest_value(12, Direction::Backward), Some(Entry::new(10, 3.0)));
    assert_eq!(v.find_nearest_value(4, Direction::Backward), None);
    assert_eq!(v.find_nearest_value(20, Direction::Backward), Some(Entry::new(20, 5.0)));
}

#[test]
fn empty_store_queries() {
    let v = Chronology::<f32, NullSummary<f32>>::new();
    for t in [0u64, 1, 12, u64::MAX] {
        assert_eq!(v.find_nearest_value(t, Direction::Forward), None);
        assert_eq!(v.find_nearest_value(t, Direction::Backward), None);
    }
    let w = VectorChronology::<f32>::new();
    for t in [0u64, 1, 12, u64::MAX] {
        assert_eq!(w.find_nearest_value(t, Direction::Forward), None);
        assert_eq!(w.find_nearest_value(t, Direction::Backward), None);
    }
}

#[test]
fn disordered_batch_rejected() {
    let mut v = Chronology::<i64, NullSummary<i64>>::new();
    assert_eq!(v.insert_values(&[Entry::new(10, 1), Entry::new(5, 2)]), Err(DisorderedInsert));
    assert_eq!(v.find_nearest_value(0, Direction::Forward), None);

    v.insert_values(&[Entry::new(10, 1)]).unwrap();
    assert_eq!(v.insert_values(&[Entry::new(5, 2)]), Err(DisorderedInsert));
    assert_eq!(v.find_nearest_value(0, Direction::Forward), Some(Entry::new(10, 1)));
    assert_eq!(v.find_nearest_value(20, Direction::Backward), Some(Entry::new(10, 1)));
}

#[test]
fn duplicate_timestamps_resolved_by_insertion_order() {
    let mut v = Chronology::<i64, NullSummary<i64>>::new();
    v.insert_values(&[
        Entry::new(10, 1),
        Entry::new(10, 2),
        Entry::new(10, 3),
        Entry::new(20, 4),
    ])
    .unwrap();
    // Forward: the earliest-inserted entry at the matching timestamp.
    assert_eq!(v.find_nearest_value(5, Direction::Forward), Some(Entry::new(10, 1)));
    // Backward: the latest-inserted entry at the matching timestamp.
    assert_eq!(v.find_nearest_value(10, Direction::Backward), Some(Entry::new(10, 3)));
    assert_eq!(v.find_nearest_value(15, Direction::Backward), Some(Entry::new(10, 3)));
    assert_eq!(v.find_nearest_value(10, Direction::Forward), Some(Entry::new(20, 4)));
}

#[test]
fn empty_batch_is_noop() {
    let mut v = Chronology::<f32, NullSummary<f32>>::new();
    v.insert_values(&[]).unwrap();
    assert_eq!(v.find_nearest_value(0, Direction::Forward), None);
    v.insert_values(&[Entry::new(7, 1.5)]).unwrap();
    v.insert_values(&[]).unwrap();
    assert_eq!(v.find_nearest_value(7, Direction::Backward), Some(Entry::new(7, 1.5)));
}

#[test]
fn entries_accumulate_across_batches() {
    let mut v = Chronology::<u64, NullSummary<u64>>::new();
    v.insert_values(&[Entry::new(1, 10), Entry::new(2, 20)]).unwrap();
    v.insert_values(&[Entry::new(3, 30)]).unwrap();
    v.insert_values(&[Entry::new(3, 31), Entry::new(5, 50)]).unwrap();
    // All five inserted pairs are retrievable, none dropped or reordered.
    assert_eq!(v.find_nearest_value(1, Direction::Backward), Some(Entry::new(1, 10)));
    assert_eq!(v.find_nearest_value(2, Direction::Backward), Some(Entry::new(2, 20)));
    assert_eq!(v.find_nearest_value(2, Direction::Forward), Some(Entry::new(3, 30)));
    assert_eq!(v.find_nearest_value(3, Direction::Backward), Some(Entry::new(3, 31)));
    assert_eq!(v.find_nearest_value(5, Direction::Backward), Some(Entry::new(5, 50)));
    assert_eq!(v.find_nearest_value(5, Direction::Forward), None);
}

#[test]
fn queries_idempotent() {
    let mut v = Chronology::<f32, NullSummary<f32>>::new();
    v.insert_values(&[Entry::new(5, 2.0), Entry::new(10, 3.0)]).unwrap();
    for _ in 0..3 {
        assert_eq!(v.find_nearest_value(7, Direction::Forward), Some(Entry::new(10, 3.0)));
        assert_eq!(v.find_nearest_value(7, Direction::Backward), Some(Entry::new(5, 2.0)));
    }
}

#[test]
fn entry_new_fields() {
    let e = Entry::new(42, -7i64);
    assert_eq!(e.timestamp, 42);
    assert_eq!(e.value, -7);
}
