use chronostore::Chronology;
use chronostore::Direction;
use chronostore::Entry;
use chronostore::NullSummary;
use chronostore::SimpleSummary;
use chronostore::Summary;

#[test]
fn min_max_accumulation_batch() {
    let mut s = SimpleSummary::<f32>::default();
    s.batch_update(&[
        Entry::new(0, 3.0),
        Entry::new(1, -1.0),
        Entry::new(2, 7.0),
        Entry::new(3, 2.0),
    ]);
    assert_eq!(s.min, -1.0);
    assert_eq!(s.max, 7.0);
}

#[test]
fn min_max_accumulation_incremental() {
    let mut s = SimpleSummary::<f32>::default();
    s.update(&Entry::new(0, 3.0));
    s.update(&Entry::new(1, -1.0));
    s.update(&Entry::new(2, 7.0));
    s.update(&Entry::new(3, 2.0));
    assert_eq!(s.min, -1.0);
    assert_eq!(s.max, 7.0);
}

#[test]
fn first_entry_seeds_bounds() {
    // The first entry seeds both bounds, so a data set whose true minimum
    // lies above the value type's default is still tracked correctly.
    let mut s = SimpleSummary::<f32>::default();
    s.update(&Entry::new(0, 3.0));
    assert_eq!(s.min, 3.0);
    assert_eq!(s.max, 3.0);

    let mut pos = SimpleSummary::<i64>::default();
    pos.batch_update(&[Entry::new(0, 5), Entry::new(1, 9)]);
    assert_eq!(pos.min, 5);
    assert_eq!(pos.max, 9);
}

#[test]
fn integer_min_max() {
    let mut s = SimpleSummary::<i64>::default();
    s.batch_update(&[
        Entry::new(0, 3),
        Entry::new(1, -1),
        Entry::new(2, 7),
        Entry::new(3, 2),
    ]);
    assert_eq!(s.min, -1);
    assert_eq!(s.max, 7);
}

#[test]
fn null_summary_batch_is_noop() {
    let mut s = NullSummary::<f32>::default();
    s.batch_update(&[Entry::new(0, 1.0), Entry::new(1, 2.0)]);
    s.update(&Entry::new(2, 3.0));
}

#[test]
fn summary_choice_never_alters_queries() {
    let data = [
        Entry::new(5, 2.0f32),
        Entry::new(10, 3.0),
        Entry::new(15, 4.0),
        Entry::new(20, 5.0),
    ];
    let mut with_null = Chronology::<f32, NullSummary<f32>>::new();
    let mut with_min_max = Chronology::<f32, SimpleSummary<f32>>::new();
    with_null.insert_values(&data).unwrap();
    with_min_max.insert_values(&data).unwrap();
    for t in 0u64..25 {
        assert_eq!(
            with_null.find_nearest_value(t, Direction::Forward),
            with_min_max.find_nearest_value(t, Direction::Forward),
        );
        assert_eq!(
            with_null.find_nearest_value(t, Direction::Backward),
            with_min_max.find_nearest_value(t, Direction::Backward),
        );
    }
}
