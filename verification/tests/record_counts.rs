use cs2kz::record_counts::Counts;

#[test]
fn empty_push() {
    let mut counts = Counts::<()>::new();

    counts.push(());

    assert_eq!(counts.entries()[0], ((), 1));
}

#[test]
fn few_pushes() {
    let mut counts = Counts::<i32>::new();

    counts.push(0);
    counts.push(1);
    counts.push(2);

    assert_eq!(*counts.entries(), vec![(0, 1), (1, 1), (2, 1)]);
}

#[test]
fn few_pushes_and_increment() {
    let mut counts = Counts::<i32>::new();

    counts.push(0);
    counts.push(1);
    counts.push(1);
    counts.push(2);

    assert_eq!(*counts.entries(), vec![(1, 2), (0, 1), (2, 1)]);
}

#[test]
fn more_pushes_and_increment() {
    let mut counts = Counts::<i32>::new();

    counts.push(0);
    counts.push(1);
    counts.push(1);
    counts.push(1);
    counts.push(2);
    counts.push(1);
    counts.push(1);
    counts.push(2);
    counts.push(2);

    assert_eq!(*counts.entries(), vec![(1, 5), (2, 3), (0, 1)]);
}

#[test]
fn few_pushes_and_pops() {
    let mut counts = Counts::<i32>::new();

    counts.push(0);
    counts.push(1);
    counts.push(1);
    counts.push(2);

    assert_eq!(counts.pop(), Some((1, 2)));
    assert_eq!(*counts.entries(), vec![(0, 1), (2, 1)]);
}

#[test]
fn pop_on_empty_gives_none() {
    let mut counts = Counts::<u64>::new();
    assert_eq!(counts.pop(), None);
    assert!(counts.entries().is_empty());
}

#[test]
fn remove_returns_the_count_and_drops_the_entry() {
    let mut counts = Counts::<u64>::new();
    counts.push(7);
    counts.push(8);
    counts.push(8);
    assert_eq!(counts.remove(8), Some(2));
    assert_eq!(*counts.entries(), vec![(7, 1)]);
    assert_eq!(counts.remove(9), None);
    assert_eq!(*counts.entries(), vec![(7, 1)]);
}

#[test]
fn counts_stay_sorted_after_many_pushes() {
    let mut counts = Counts::<u64>::new();
    for v in [3, 1, 2, 3, 3, 2, 1, 1, 1] {
        counts.push(v);
    }
    let entries: Vec<(u64, u64)> = counts.entries().iter().copied().collect();
    assert_eq!(entries, vec![(1, 4), (3, 3), (2, 2)]);
    for w in entries.windows(2) {
        assert!(w[0].1 >= w[1].1);
    }
}

#[test]
fn count_reads_a_values_count() {
    let mut counts = Counts::<u64>::new();
    counts.push(4);
    counts.push(4);
    assert_eq!(counts.count(&4), 2);
    assert_eq!(counts.count(&5), 0);
}

use cs2kz::record_counts::{record_count_changed, RecordCountsTracker};

#[test]
fn tracker_hands_over_only_with_a_permit() {
    let mut tracker = RecordCountsTracker::new();
    assert!(tracker.wants_permit());
    assert_eq!(tracker.filter_seen(10), None);
    assert_eq!(tracker.filter_seen(11), None);
    assert_eq!(tracker.filter_seen(11), None);
    assert_eq!(tracker.count(11), 2);
    tracker.permit_ready();
    assert!(!tracker.wants_permit());
    assert_eq!(tracker.filter_seen(10), Some((11, 2)));
    assert!(tracker.wants_permit());
    assert_eq!(tracker.count(11), 0);
    assert_eq!(tracker.count(10), 2);
}

#[test]
fn tracker_forgets_filters_of_changed_maps() {
    let mut tracker = RecordCountsTracker::new();
    tracker.filter_seen(1);
    tracker.filter_seen(2);
    tracker.filter_seen(3);
    tracker.map_changed(1, 3);
    assert_eq!(tracker.count(1), 0);
    assert_eq!(tracker.count(2), 1);
    assert_eq!(tracker.count(3), 0);
    tracker.permit_ready();
    assert_eq!(tracker.filter_seen(4), Some((2, 1)));
}

#[test]
fn changed_record_counts() {
    assert!(record_count_changed(None, 3));
    assert!(record_count_changed(Some(4), 3));
    assert!(!record_count_changed(Some(3), 3));
}

#[test]
fn push_of_a_counted_value_only_reorders() {
    let mut counts = Counts::<u64>::new();
    for v in [1, 2, 3, 3] {
        counts.push(v);
    }
    let mut before: Vec<(u64, u64)> = counts.entries().iter().copied().collect();
    counts.push(2);
    let mut after: Vec<(u64, u64)> = counts.entries().iter().copied().collect();
    for e in before.iter_mut() {
        if e.0 == 2 {
            e.1 += 1;
        }
    }
    before.sort();
    after.sort();
    assert_eq!(before, after);
}
