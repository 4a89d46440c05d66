use metrics_service::events::{group_series, EventBuffer, Sample, Series};

fn sample(key: &str, value: u64) -> Sample {
    Sample { key: key.to_string(), value }
}

fn series(key: &str, values: Vec<u64>) -> Series {
    Series { key: key.to_string(), values }
}

#[test]
fn new_buffer_is_empty() {
    let mut buffer = EventBuffer::new();
    assert_eq!(buffer.len(), 0);
    assert_eq!(buffer.flush_series(), vec![]);
}

#[test]
fn drain_hands_out_events_in_order_of_arrival() {
    let mut buffer = EventBuffer::new();
    buffer.record("block_imports", 30);
    buffer.record("sync", 5);
    buffer.record("block_imports", 10);
    assert_eq!(buffer.len(), 3);
    assert_eq!(
        buffer.flush_series(),
        vec![sample("block_imports", 30), sample("sync", 5), sample("block_imports", 10)]
    );
}

#[test]
fn buffer_is_empty_after_a_drain() {
    let mut buffer = EventBuffer::new();
    for i in 0..100u64 {
        buffer.record("k", i);
    }
    assert_eq!(buffer.len(), 100);
    assert_eq!(buffer.flush_series().len(), 100);
    assert_eq!(buffer.len(), 0);
    assert_eq!(buffer.flush_series(), vec![]);
    assert_eq!(buffer.len(), 0);
}

#[test]
fn no_event_is_drained_twice() {
    let mut buffer = EventBuffer::new();
    buffer.record("k", 1);
    assert_eq!(buffer.flush_series(), vec![sample("k", 1)]);
    buffer.record("k", 2);
    assert_eq!(buffer.flush_series(), vec![sample("k", 2)]);
    assert_eq!(buffer.flush_series(), vec![]);
}

#[test]
fn grouping_of_nothing_is_nothing() {
    assert_eq!(group_series(&vec![]), vec![]);
}

#[test]
fn grouping_keeps_arrival_order_within_a_key() {
    let drained = vec![
        sample("b", 3),
        sample("a", 9),
        sample("b", 1),
        sample("c", 4),
        sample("a", 2),
        sample("b", 2),
    ];
    assert_eq!(
        group_series(&drained),
        vec![series("b", vec![3, 1, 2]), series("a", vec![9, 2]), series("c", vec![4])]
    );
}

#[test]
fn grouping_tells_keys_apart_exactly() {
    let drained = vec![sample("block", 1), sample("block_", 2), sample("", 3), sample("Block", 4), sample("", 5)];
    assert_eq!(
        group_series(&drained),
        vec![
            series("block", vec![1]),
            series("block_", vec![2]),
            series("", vec![3, 5]),
            series("Block", vec![4]),
        ]
    );
}

#[test]
fn grouping_loses_no_event() {
    let keys = ["x", "y", "z", "block_imports"];
    let drained: Vec<Sample> = (0..57u64).map(|i| sample(keys[(i * 7 % 4) as usize], i)).collect();
    let groups = group_series(&drained);
    let total: usize = groups.iter().map(|g| g.values.len()).sum();
    assert_eq!(total, drained.len());
    for group in groups.iter() {
        let expected: Vec<u64> =
            drained.iter().filter(|s| s.key == group.key).map(|s| s.value).collect();
        assert_eq!(group.values, expected);
    }
}
