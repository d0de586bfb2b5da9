use telemetry_core::BoundedSeries;

fn collect(series: &BoundedSeries<u32>) -> Vec<u32> {
    let mut out = Vec::new();
    let mut i = 0;
    while i < series.len() {
        out.push(*series.get(i));
        i += 1;
    }
    out
}

#[test]
fn push_below_capacity_keeps_everything_in_order() {
    let mut series: BoundedSeries<u32> = BoundedSeries::new(5);
    assert_eq!(series.len(), 0);
    assert_eq!(series.capacity(), 5);
    for value in [10, 20, 30] {
        series.push(value);
    }
    assert_eq!(series.len(), 3);
    assert_eq!(collect(&series), vec![10, 20, 30]);
}

#[test]
fn push_past_capacity_evicts_oldest_first() {
    let capacity = 4;
    let mut series: BoundedSeries<u32> = BoundedSeries::new(capacity);
    for value in 1..=9u32 {
        series.push(value);
        let pushed = value as usize;
        let expected_len = if pushed < capacity { pushed } else { capacity };
        assert_eq!(series.len(), expected_len);
    }
    assert_eq!(collect(&series), vec![6, 7, 8, 9]);
}

#[test]
fn push_batch_trims_to_most_recent() {
    let mut series: BoundedSeries<u32> = BoundedSeries::new(3);
    series.push(1);
    series.push_batch(vec![2, 3, 4, 5]);
    assert_eq!(series.len(), 3);
    assert_eq!(collect(&series), vec![3, 4, 5]);
}

#[test]
fn push_batch_below_capacity_appends() {
    let mut series: BoundedSeries<u32> = BoundedSeries::new(10);
    series.push(7);
    series.push_batch(vec![8, 9]);
    assert_eq!(collect(&series), vec![7, 8, 9]);
}

#[test]
fn clear_empties_but_keeps_capacity() {
    let mut series: BoundedSeries<u32> = BoundedSeries::new(2);
    series.push(1);
    series.push(2);
    series.push(3);
    series.clear();
    assert_eq!(series.len(), 0);
    assert_eq!(series.capacity(), 2);
    series.push(4);
    assert_eq!(collect(&series), vec![4]);
}

#[test]
fn capacity_one_keeps_only_the_newest() {
    let mut series: BoundedSeries<u32> = BoundedSeries::new(1);
    for value in [5, 6, 7] {
        series.push(value);
        assert_eq!(series.len(), 1);
        assert_eq!(*series.get(0), value);
    }
}
