use clomonitor_core::views::{ViewEntry, ViewsBatch};

const PROJECT1: u128 = 0x0000_0000_0001_0000_0000_0000_0000_0000;
const PROJECT2: u128 = 0x0000_0000_0002_0000_0000_0000_0000_0000;

#[test]
fn views_batch_counts_views_per_project_and_day() {
    let mut batch = ViewsBatch::new();
    assert!(batch.is_empty());
    batch.record_view(PROJECT1, 2460000);
    batch.record_view(PROJECT1, 2460000);
    batch.record_view(PROJECT2, 2460000);
    assert!(!batch.is_empty());
    assert_eq!(batch.total(PROJECT1, 2460000), 2);
    assert_eq!(batch.total(PROJECT2, 2460000), 1);
    assert_eq!(batch.total(PROJECT2, 2460001), 0);
}

#[test]
fn views_batch_take_sorts_and_empties() {
    let mut batch = ViewsBatch::new();
    batch.record_view(PROJECT2, 2460000);
    batch.record_view(PROJECT1, 2460001);
    batch.record_view(PROJECT1, 2460000);
    batch.record_view(PROJECT1, 2460001);
    let taken = batch.take();
    assert_eq!(
        taken,
        vec![
            ViewEntry { project: PROJECT1, day: 2460000, total: 1 },
            ViewEntry { project: PROJECT1, day: 2460001, total: 2 },
            ViewEntry { project: PROJECT2, day: 2460000, total: 1 },
        ]
    );
    assert!(batch.is_empty());
    assert!(batch.take().is_empty());
}
