use std::cmp::Ordering;

use metric_merge::data::MetricData;
use metric_merge::kind::MetricKind;
use metric_merge::time::IntervalMs;
use metric_merge::time::MetricTime;
use metric_merge::value::MetricValue;

fn mt(ts: Option<i64>, interval: Option<u32>) -> MetricTime {
    MetricTime { timestamp: ts, interval_ms: interval.and_then(IntervalMs::new) }
}

fn counter(ts: Option<i64>, interval: Option<u32>, kind: MetricKind, value: u64) -> MetricData {
    MetricData::from_parts(mt(ts, interval), kind, MetricValue::Counter { value })
}

#[test]
fn update_compatible_counters_combines() {
    let mut a = counter(None, None, MetricKind::Incremental, 3);
    let b = counter(None, None, MetricKind::Incremental, 4);
    assert!(a.update(&b));
    assert_eq!(*a.value(), MetricValue::Counter { value: 7 });
}

#[test]
fn update_compatible_gauges_combines() {
    let t = mt(None, None);
    let mut a = MetricData::from_parts(t, MetricKind::Absolute, MetricValue::Gauge { value: -5 });
    let b = MetricData::from_parts(t, MetricKind::Absolute, MetricValue::Gauge { value: 12 });
    assert!(a.update(&b));
    assert_eq!(*a.value(), MetricValue::Gauge { value: 7 });
}

#[test]
fn update_distributions_concatenates_samples() {
    let t = mt(None, None);
    let mut a = MetricData::from_parts(
        t,
        MetricKind::Incremental,
        MetricValue::Distribution { samples: vec![1, 2] },
    );
    let b = MetricData::from_parts(
        t,
        MetricKind::Incremental,
        MetricValue::Distribution { samples: vec![3] },
    );
    assert!(a.update(&b));
    assert_eq!(*a.value(), MetricValue::Distribution { samples: vec![1, 2, 3] });
}

#[test]
fn update_incompatible_variants_leaves_self_unchanged() {
    let mut a = counter(Some(10), Some(5), MetricKind::Incremental, 3);
    let before = a.clone();
    let b = MetricData::from_parts(
        mt(Some(99), Some(7)),
        MetricKind::Incremental,
        MetricValue::Gauge { value: 4 },
    );
    assert!(!a.update(&b));
    assert_eq!(a, before);
}

#[test]
fn add_absolute_always_fails_and_leaves_self_unchanged() {
    let mut a = counter(Some(10), Some(5), MetricKind::Absolute, 3);
    let before = a.clone();
    let b = counter(Some(20), Some(5), MetricKind::Absolute, 4);
    assert!(!a.add(&b));
    assert_eq!(a, before);
}

#[test]
fn add_incremental_succeeds() {
    let mut a = counter(None, None, MetricKind::Absolute, 3);
    let b = counter(None, None, MetricKind::Incremental, 4);
    assert!(a.add(&b));
    assert_eq!(*a.value(), MetricValue::Counter { value: 7 });
    assert_eq!(a.into_parts().1, MetricKind::Absolute);
}

#[test]
fn window_union_overlapping_windows() {
    let mut a = counter(Some(100), Some(50), MetricKind::Incremental, 1);
    let b = counter(Some(120), Some(50), MetricKind::Incremental, 1);
    assert!(a.update(&b));
    let (time, _, _) = a.into_parts();
    assert_eq!(time, mt(Some(100), Some(70)));
}

#[test]
fn window_union_disjoint_windows_cover_the_gap() {
    let mut a = counter(Some(0), Some(10), MetricKind::Incremental, 1);
    let b = counter(Some(100), Some(10), MetricKind::Incremental, 1);
    assert!(a.update(&b));
    let (time, _, _) = a.into_parts();
    assert_eq!(time, mt(Some(0), Some(110)));
}

#[test]
fn window_union_is_symmetric_in_window_order() {
    let mut a = counter(Some(120), Some(50), MetricKind::Incremental, 1);
    let b = counter(Some(100), Some(50), MetricKind::Incremental, 1);
    assert!(a.update(&b));
    let (time, _, _) = a.into_parts();
    assert_eq!(time, mt(Some(100), Some(70)));
}

#[test]
fn missing_interval_keeps_later_timestamp_and_drops_interval() {
    let mut a = counter(Some(100), None, MetricKind::Incremental, 1);
    let b = counter(Some(120), Some(50), MetricKind::Incremental, 1);
    assert!(a.update(&b));
    let (time, _, _) = a.into_parts();
    assert_eq!(time, mt(Some(120), None));
}

#[test]
fn missing_timestamp_keeps_the_only_present_one() {
    let mut a = counter(None, None, MetricKind::Incremental, 1);
    let b = counter(Some(120), Some(50), MetricKind::Incremental, 1);
    assert!(a.update(&b));
    let (time, _, _) = a.into_parts();
    assert_eq!(time, mt(Some(120), None));

    let mut c = counter(Some(7), Some(3), MetricKind::Incremental, 1);
    let d = counter(None, None, MetricKind::Incremental, 1);
    assert!(c.update(&d));
    let (time, _, _) = c.into_parts();
    assert_eq!(time, mt(Some(7), None));
}

#[test]
fn both_timestamps_missing_merge_to_nothing() {
    let mut a = counter(None, Some(5), MetricKind::Incremental, 1);
    let b = counter(None, Some(5), MetricKind::Incremental, 1);
    assert!(a.update(&b));
    let (time, _, _) = a.into_parts();
    assert_eq!(time, mt(None, None));
}

#[test]
fn union_length_beyond_interval_range_degrades_to_none() {
    let mut a = counter(Some(0), Some(1), MetricKind::Incremental, 1);
    let b = counter(Some(5_000_000_000), Some(1), MetricKind::Incremental, 1);
    assert!(a.update(&b));
    let (time, _, _) = a.into_parts();
    assert_eq!(time, mt(Some(0), None));
}

#[test]
fn zero_then_update_yields_the_update_value() {
    let mut a = counter(Some(5), Some(2), MetricKind::Incremental, 41);
    a.zero();
    assert_eq!(*a.value(), MetricValue::Counter { value: 0 });
    let x = counter(Some(5), Some(2), MetricKind::Incremental, 19);
    assert!(a.update(&x));
    assert_eq!(*a.value(), MetricValue::Counter { value: 19 });
}

#[test]
fn zero_preserves_variant_shape() {
    let t = mt(None, None);
    let mut d = MetricData::from_parts(
        t,
        MetricKind::Incremental,
        MetricValue::Distribution { samples: vec![4, 5] },
    );
    d.zero();
    assert_eq!(*d.value(), MetricValue::Distribution { samples: vec![] });
}

#[test]
fn relabel_round_trip_touches_kind_alone() {
    let d = counter(Some(9), Some(4), MetricKind::Absolute, 17);
    let before = d.clone();
    let once = d.into_absolute().into_incremental();
    assert_eq!(once.time, before.time);
    assert_eq!(*once.value(), MetricValue::Counter { value: 17 });
    assert_eq!(once.kind, MetricKind::Incremental);
    let twice = once.clone().into_absolute().into_incremental();
    assert_eq!(twice, once);
}

#[test]
fn subtract_counters_and_gauges() {
    let mut a = counter(Some(3), Some(2), MetricKind::Absolute, 10);
    let b = counter(Some(8), Some(9), MetricKind::Absolute, 4);
    assert!(a.subtract(&b));
    assert_eq!(*a.value(), MetricValue::Counter { value: 6 });
    // time and kind are untouched by subtract
    assert_eq!(a.time, mt(Some(3), Some(2)));
    assert_eq!(a.kind, MetricKind::Absolute);

    let t = mt(None, None);
    let mut g = MetricData::from_parts(t, MetricKind::Absolute, MetricValue::Gauge { value: 3 });
    let h = MetricData::from_parts(t, MetricKind::Absolute, MetricValue::Gauge { value: 10 });
    assert!(g.subtract(&h));
    assert_eq!(*g.value(), MetricValue::Gauge { value: -7 });
}

#[test]
fn subtract_counter_saturates_at_zero() {
    let mut a = counter(None, None, MetricKind::Absolute, 4);
    let b = counter(None, None, MetricKind::Absolute, 10);
    assert!(a.subtract(&b));
    assert_eq!(*a.value(), MetricValue::Counter { value: 0 });
}

#[test]
fn subtract_distribution_removes_a_prefix() {
    let t = mt(None, None);
    let mut a = MetricData::from_parts(
        t,
        MetricKind::Absolute,
        MetricValue::Distribution { samples: vec![1, 2, 3, 4] },
    );
    let b = MetricData::from_parts(
        t,
        MetricKind::Absolute,
        MetricValue::Distribution { samples: vec![1, 2] },
    );
    assert!(a.subtract(&b));
    assert_eq!(*a.value(), MetricValue::Distribution { samples: vec![3, 4] });
}

#[test]
fn subtract_distribution_non_prefix_fails_unchanged() {
    let t = mt(None, None);
    let mut a = MetricData::from_parts(
        t,
        MetricKind::Absolute,
        MetricValue::Distribution { samples: vec![1, 2, 3] },
    );
    let before = a.clone();
    let b = MetricData::from_parts(
        t,
        MetricKind::Absolute,
        MetricValue::Distribution { samples: vec![2, 1] },
    );
    assert!(!a.subtract(&b));
    assert_eq!(a, before);
}

#[test]
fn subtract_mismatched_variants_fails_unchanged() {
    let mut a = counter(None, None, MetricKind::Absolute, 5);
    let before = a.clone();
    let t = mt(None, None);
    let b = MetricData::from_parts(t, MetricKind::Absolute, MetricValue::Gauge { value: 1 });
    assert!(!a.subtract(&b));
    assert_eq!(a, before);
}

#[test]
fn counter_addition_saturates_at_the_top() {
    let mut a = counter(None, None, MetricKind::Incremental, u64::MAX - 1);
    let b = counter(None, None, MetricKind::Incremental, 7);
    assert!(a.update(&b));
    assert_eq!(*a.value(), MetricValue::Counter { value: u64::MAX });
}

#[test]
fn gauge_addition_saturates_at_both_ends() {
    let t = mt(None, None);
    let mut lo = MetricData::from_parts(
        t,
        MetricKind::Incremental,
        MetricValue::Gauge { value: i64::MIN + 1 },
    );
    let dn = MetricData::from_parts(t, MetricKind::Incremental, MetricValue::Gauge { value: -9 });
    assert!(lo.update(&dn));
    assert_eq!(*lo.value(), MetricValue::Gauge { value: i64::MIN });

    let mut hi = MetricData::from_parts(
        t,
        MetricKind::Incremental,
        MetricValue::Gauge { value: i64::MAX - 2 },
    );
    let up = MetricData::from_parts(t, MetricKind::Incremental, MetricValue::Gauge { value: 5 });
    assert!(hi.update(&up));
    assert_eq!(*hi.value(), MetricValue::Gauge { value: i64::MAX });
}

#[test]
fn allocated_bytes_counts_heap_payload_only() {
    let a = counter(Some(1), Some(1), MetricKind::Absolute, 123);
    assert_eq!(a.allocated_bytes(), 0);
    let t = mt(None, None);
    let g = MetricData::from_parts(t, MetricKind::Absolute, MetricValue::Gauge { value: 1 });
    assert_eq!(g.allocated_bytes(), 0);
    let d = MetricData::from_parts(
        t,
        MetricKind::Absolute,
        MetricValue::Distribution { samples: vec![1, 2, 3] },
    );
    assert_eq!(d.allocated_bytes(), 24);
}

#[test]
fn interval_rejects_zero_and_keeps_positive_values() {
    assert!(IntervalMs::new(0).is_none());
    let i = IntervalMs::new(5).unwrap();
    assert_eq!(i.get(), 5);
}

#[test]
fn ordering_is_on_timestamp_alone() {
    let a = counter(Some(10), None, MetricKind::Absolute, 1);
    let b = counter(Some(10), Some(9), MetricKind::Incremental, 99);
    assert_eq!(a.partial_cmp(&b), Some(Ordering::Equal));
    let c = counter(Some(11), None, MetricKind::Absolute, 1);
    assert_eq!(a.partial_cmp(&c), Some(Ordering::Less));
    assert_eq!(c.partial_cmp(&a), Some(Ordering::Greater));
}

#[test]
fn missing_timestamps_are_incomparable() {
    let none = counter(None, None, MetricKind::Absolute, 1);
    let some = counter(Some(10), None, MetricKind::Absolute, 1);
    assert_eq!(none.partial_cmp(&some), None);
    assert_eq!(some.partial_cmp(&none), None);
    assert_eq!(none.partial_cmp(&none.clone()), None);
}

#[test]
fn accessors_and_parts_round_trip() {
    let time = mt(Some(42), Some(7));
    let d = MetricData::from_parts(time, MetricKind::Incremental, MetricValue::Counter {
        value: 2,
    });
    assert_eq!(d.timestamp(), Some(42));
    assert_eq!(*d.value(), MetricValue::Counter { value: 2 });
    let mut d2 = d.clone();
    *d2.value_mut() = MetricValue::Counter { value: 9 };
    assert_eq!(*d2.value(), MetricValue::Counter { value: 9 });
    let (t, k, v) = d.into_parts();
    assert_eq!(t, time);
    assert_eq!(k, MetricKind::Incremental);
    assert_eq!(v, MetricValue::Counter { value: 2 });
}
