use vstd::prelude::*;

use crate::data::MetricData;
use crate::data::timestamp_order;
use crate::kind::MetricKind;
use crate::time::TimeView;
use crate::time::merged;
use crate::time::window_union_len;
use crate::value::ValueView;
use crate::value::combined;
use crate::value::compatible;
use crate::value::zeroed;

verus! {

/// Window-union correctness: with both windows fully specified, the
/// merged envelope starts at the earlier start and, whenever the union's
/// length is representable, ends exactly at the later end — never a naive
/// sum of the two lengths and never a naive maximum of them. A length
/// outside the representable range degrades to "no interval".
pub proof fn lemma_window_union(a: TimeView, b: TimeView)
    requires
        a.timestamp is Some,
        a.interval_ms is Some,
        b.timestamp is Some,
        b.interval_ms is Some,
    ensures
        (match (a.timestamp, a.interval_ms, b.timestamp, b.interval_ms) {
            (Some(t1), Some(i1), Some(t2), Some(i2)) => {
                let w = window_union_len(t1, i1, t2, i2);
                let m = merged(a, b);
                &&& m.timestamp == Some(if t1 <= t2 { t1 } else { t2 })
                &&& (1 <= w && w <= u32::MAX as int ==> (m.interval_ms matches Some(len)
                    && (if t1 <= t2 { t1 as int } else { t2 as int }) + len as int == (
                    if t1 as int + i1 as int >= t2 as int + i2 as int {
                        t1 as int + i1 as int
                    } else {
                        t2 as int + i2 as int
                    })))
                &&& (w > u32::MAX as int ==> m.interval_ms is None)
            },
            _ => true,
        }),
{
}

/// Missing-interval degradation: when either input lacks an interval, the
/// merged envelope has no interval and keeps the later (or the only)
/// timestamp.
pub proof fn lemma_missing_interval_degrades(a: TimeView, b: TimeView)
    requires
        a.interval_ms is None || b.interval_ms is None,
    ensures
        merged(a, b).interval_ms is None,
        (match (a.timestamp, b.timestamp) {
            (Some(t1), Some(t2)) => merged(a, b).timestamp == Some(
                if t1 >= t2 {
                    t1
                } else {
                    t2
                },
            ),
            (Some(t1), None) => merged(a, b).timestamp == Some(t1),
            (None, Some(t2)) => merged(a, b).timestamp == Some(t2),
            (None, None) => merged(a, b).timestamp is None,
        }),
{
}

/// Zeroing then updating is the identity on the payload: a variant's
/// identity element combined with any payload of the matching variant
/// gives that payload back.
pub proof fn lemma_zero_then_update_is_identity(a: ValueView, x: ValueView)
    requires
        compatible(a, x),
    ensures
        combined(zeroed(a), x) == x,
{
    match (a, x) {
        (ValueView::Distribution { .. }, ValueView::Distribution { samples }) => {
            assert(Seq::<i64>::empty() + samples =~= samples);
        },
        _ => {},
    }
}

/// Relabelling round trip: converting to absolute and then to
/// incremental fixes the kind at incremental, leaves time and value
/// untouched, and doing the pair twice is the same as doing it once.
pub proof fn lemma_relabel_round_trip(d: MetricData)
    ensures
        d.relabelled(MetricKind::Absolute).relabelled(MetricKind::Incremental).kind
            == MetricKind::Incremental,
        d.relabelled(MetricKind::Absolute).relabelled(MetricKind::Incremental).time == d.time,
        d.relabelled(MetricKind::Absolute).relabelled(MetricKind::Incremental).value == d.value,
        d.relabelled(MetricKind::Absolute).relabelled(MetricKind::Incremental).relabelled(
            MetricKind::Absolute,
        ).relabelled(MetricKind::Incremental) == d.relabelled(MetricKind::Absolute).relabelled(
            MetricKind::Incremental,
        ),
{
}

/// The timestamp ordering is strict: irreflexive in `Less`, antisymmetric
/// between `Less` and `Greater`, and transitive in `Less`.
pub proof fn lemma_timestamp_order_strict(a: Option<i64>, b: Option<i64>, c: Option<i64>)
    ensures
        timestamp_order(a, a) != Some(core::cmp::Ordering::Less),
        timestamp_order(a, b) == Some(core::cmp::Ordering::Less) ==> timestamp_order(b, a)
            == Some(core::cmp::Ordering::Greater),
        timestamp_order(a, b) == Some(core::cmp::Ordering::Less) && timestamp_order(b, c)
            == Some(core::cmp::Ordering::Less) ==> timestamp_order(a, c) == Some(
            core::cmp::Ordering::Less,
        ),
{
}

/// The timestamp ordering is partial: present equal timestamps compare
/// equal, while a missing timestamp is incomparable to everything,
/// present or missing alike.
pub proof fn lemma_timestamp_order_partiality(a: Option<i64>, b: Option<i64>)
    ensures
        a is Some && a == b ==> timestamp_order(a, b) == Some(core::cmp::Ordering::Equal),
        a is None || b is None ==> timestamp_order(a, b) is None,
{
}

} // verus!
