use cycle_utils::aggregator::MetricsTable;

#[test]
fn aggregation_running_sums() {
    let mut table = MetricsTable::new();
    table.increment_metric("x".to_string(), 5);
    table.increment_metric("x".to_string(), 7);
    table.increment_metric("y".to_string(), 1);

    assert_eq!(table.get("x"), Some((12, 2)));
    assert_eq!(table.get("y"), Some((1, 1)));
    assert_eq!(table.get("z"), None);
    assert_eq!(table.len(), 2);
}

#[test]
fn aggregation_sum_saturates() {
    let mut table = MetricsTable::new();
    table.increment_metric("x".to_string(), u64::MAX);
    table.increment_metric("x".to_string(), 5);

    assert_eq!(table.get("x"), Some((u64::MAX, 2)));
}

#[test]
fn aggregation_starts_empty() {
    let table = MetricsTable::new();
    assert_eq!(table.len(), 0);
    assert_eq!(table.get("anything"), None);
}
