use vstd::prelude::*;

verus! {

/// A strictly positive aggregation-window length in milliseconds.
///
/// A zero-length window is meaningless: any computation whose result would
/// be zero (or fall outside the representable range) must degrade to "no
/// interval" instead of producing a zero-valued instance of this type.
#[derive(Clone, Copy, Debug, PartialEq, Eq, Structural)]
pub struct IntervalMs {
    ms: u32,
}

impl IntervalMs {
    /// Every reachable value of this type holds a nonzero millisecond count.
    #[verifier::type_invariant]
    pub closed spec fn positive(self) -> bool {
        self.ms >= 1
    }

    /// The millisecond count held by this interval.
    pub closed spec fn spec_ms(self) -> u32 {
        self.ms
    }

    /// Builds an interval from a raw millisecond count; zero becomes `None`.
    pub fn new(ms: u32) -> (r: Option<IntervalMs>)
        ensures
            ms == 0 ==> r is None,
            ms >= 1 ==> (r matches Some(i) && i.spec_ms() == ms),
    {
        if ms == 0 {
            None
        } else {
            Some(IntervalMs { ms })
        }
    }

    /// The millisecond count, always at least one.
    pub fn get(self) -> (r: u32)
        ensures
            r == self.spec_ms(),
            r >= 1,
    {
        proof {
            use_type_invariant(self);
        }
        self.ms
    }
}

/// The temporal envelope of one observation: the wall-clock instant it was
/// recorded (milliseconds since the Unix epoch), if reliable, and the
/// length of the aggregation window that produced it, if known.
#[derive(Clone, Copy, Debug)]
pub struct MetricTime {
    pub timestamp: Option<i64>,
    pub interval_ms: Option<IntervalMs>,
}

/// The mathematical content of a `MetricTime`: the interval read as a
/// plain millisecond count.
pub ghost struct TimeView {
    pub timestamp: Option<i64>,
    pub interval_ms: Option<u32>,
}

impl View for MetricTime {
    type V = TimeView;

    open spec fn view(&self) -> TimeView {
        TimeView {
            timestamp: self.timestamp,
            interval_ms: match self.interval_ms {
                Some(i) => Some(i.spec_ms()),
                None => None,
            },
        }
    }
}

/// Length in milliseconds of the smallest window enclosing both input
/// windows: from the earlier start to the later end. Never a naive sum of
/// the two lengths (which double-counts overlap) and never a naive maximum
/// (which under-counts disjoint windows).
pub open spec fn window_union_len(t1: i64, i1: u32, t2: i64, i2: u32) -> int {
    let e1 = t1 as int + i1 as int;
    let e2 = t2 as int + i2 as int;
    (if e1 >= e2 {
        e1
    } else {
        e2
    }) - (if t1 <= t2 {
        t1 as int
    } else {
        t2 as int
    })
}

/// The merged envelope of two observations. With both windows fully
/// specified the result covers their union, clamped to "no interval" when
/// the union's length leaves the representable range; with any part
/// missing, temporal precision is already lost, so the merge keeps the
/// later (or only) timestamp and drops the interval.
pub open spec fn merged(a: TimeView, b: TimeView) -> TimeView {
    match (a.timestamp, a.interval_ms, b.timestamp, b.interval_ms) {
        (Some(t1), Some(i1), Some(t2), Some(i2)) => {
            let w = window_union_len(t1, i1, t2, i2);
            TimeView {
                timestamp: Some(if t1 <= t2 { t1 } else { t2 }),
                interval_ms: if 1 <= w && w <= u32::MAX as int {
                    Some(w as u32)
                } else {
                    None
                },
            }
        },
        (Some(t), _, None, _) => TimeView { timestamp: Some(t), interval_ms: None },
        (None, _, Some(t), _) => TimeView { timestamp: Some(t), interval_ms: None },
        (Some(t1), _, Some(t2), _) => TimeView {
            timestamp: Some(if t1 >= t2 { t1 } else { t2 }),
            interval_ms: None,
        },
        (None, _, None, _) => TimeView { timestamp: None, interval_ms: None },
    }
}

impl MetricTime {
    /// Replaces `self` with the merged envelope of `self` and `other`.
    ///
    /// The union length is computed in 128-bit arithmetic, so multi-day
    /// gaps between windows never wrap around; a length outside the
    /// interval type's range degrades to "no interval".
    pub fn combine(&mut self, other: &MetricTime)
        ensures
            final(self)@ == merged(old(self)@, other@),
    {
        let (new_ts, new_interval): (Option<i64>, Option<IntervalMs>) = match (
            self.timestamp,
            self.interval_ms,
            other.timestamp,
            other.interval_ms,
        ) {
            (Some(t1), Some(i1), Some(t2), Some(i2)) => {
                let start: i64 = if t1 <= t2 { t1 } else { t2 };
                let e1: i128 = t1 as i128 + i1.get() as i128;
                let e2: i128 = t2 as i128 + i2.get() as i128;
                let end: i128 = if e1 >= e2 { e1 } else { e2 };
                let w: i128 = end - start as i128;
                if 1 <= w && w <= u32::MAX as i128 {
                    (Some(start), IntervalMs::new(w as u32))
                } else {
                    (Some(start), None)
                }
            },
            (Some(t), _, None, _) => (Some(t), None),
            (None, _, Some(t), _) => (Some(t), None),
            (Some(t1), _, Some(t2), _) => (Some(if t1 >= t2 { t1 } else { t2 }), None),
            (None, _, None, _) => (None, None),
        };
        self.timestamp = new_ts;
        self.interval_ms = new_interval;
    }
}

impl PartialEq for MetricTime {
    fn eq(&self, other: &Self) -> (r: bool) {
        let ts_eq: bool = match (self.timestamp, other.timestamp) {
            (Some(a), Some(b)) => a == b,
            (None, None) => true,
            (Some(_), None) => false,
            (None, Some(_)) => false,
        };
        let iv_eq: bool = match (self.interval_ms, other.interval_ms) {
            (Some(a), Some(b)) => a.get() == b.get(),
            (None, None) => true,
            (Some(_), None) => false,
            (None, Some(_)) => false,
        };
        ts_eq && iv_eq
    }
}

impl vstd::std_specs::cmp::PartialEqSpecImpl for MetricTime {
    open spec fn obeys_eq_spec() -> bool {
        true
    }

    open spec fn eq_spec(&self, other: &Self) -> bool {
        self@ == other@
    }
}

} // verus!
