use vstd::prelude::*;

verus! {

/// The numeric payload of one observation: a closed tagged union,
/// combined only through the capability operations below. Operations pair
/// identical variants and report failure on any mismatch, with no
/// silent coercion.
#[derive(Clone, Debug)]
pub enum MetricValue {
    /// A non-negative running total.
    Counter { value: u64 },
    /// A signed point-in-time reading.
    Gauge { value: i64 },
    /// The collected samples of a distribution, in arrival order.
    Distribution { samples: Vec<i64> },
}

/// The mathematical content of a payload.
#[verifier::ext_equal]
pub ghost enum ValueView {
    Counter { value: u64 },
    Gauge { value: i64 },
    Distribution { samples: Seq<i64> },
}

impl View for MetricValue {
    type V = ValueView;

    open spec fn view(&self) -> ValueView {
        match self {
            MetricValue::Counter { value } => ValueView::Counter { value: *value },
            MetricValue::Gauge { value } => ValueView::Gauge { value: *value },
            MetricValue::Distribution { samples } => ValueView::Distribution {
                samples: samples@,
            },
        }
    }
}

/// Sum of two totals, clamped at the top of the counter range.
pub open spec fn sat_add_u64(a: u64, b: u64) -> u64 {
    if a + b > u64::MAX {
        u64::MAX
    } else {
        (a + b) as u64
    }
}

/// Sum of two readings, clamped at both ends of the gauge range.
pub open spec fn sat_add_i64(a: i64, b: i64) -> i64 {
    if a + b > i64::MAX {
        i64::MAX
    } else if a + b < i64::MIN {
        i64::MIN
    } else {
        (a + b) as i64
    }
}

/// Difference of two totals, clamped at zero.
pub open spec fn sat_sub_u64(a: u64, b: u64) -> u64 {
    if a >= b {
        (a - b) as u64
    } else {
        0
    }
}

/// Difference of two readings, clamped at both ends of the gauge range.
pub open spec fn sat_sub_i64(a: i64, b: i64) -> i64 {
    if a - b > i64::MAX {
        i64::MAX
    } else if a - b < i64::MIN {
        i64::MIN
    } else {
        (a - b) as i64
    }
}

/// Two payloads combine only when they are the same variant.
pub open spec fn compatible(a: ValueView, b: ValueView) -> bool {
    match (a, b) {
        (ValueView::Counter { .. }, ValueView::Counter { .. }) => true,
        (ValueView::Gauge { .. }, ValueView::Gauge { .. }) => true,
        (ValueView::Distribution { .. }, ValueView::Distribution { .. }) => true,
        (ValueView::Counter { .. }, ValueView::Gauge { .. }) => false,
        (ValueView::Counter { .. }, ValueView::Distribution { .. }) => false,
        (ValueView::Gauge { .. }, ValueView::Counter { .. }) => false,
        (ValueView::Gauge { .. }, ValueView::Distribution { .. }) => false,
        (ValueView::Distribution { .. }, ValueView::Counter { .. }) => false,
        (ValueView::Distribution { .. }, ValueView::Gauge { .. }) => false,
    }
}

/// The defined combination of two same-variant payloads: counters and
/// gauges sum (saturating at the numeric bounds), distributions
/// concatenate their samples.
pub open spec fn combined(a: ValueView, b: ValueView) -> ValueView
    recommends
        compatible(a, b),
{
    match (a, b) {
        (ValueView::Counter { value: x }, ValueView::Counter { value: y }) => ValueView::Counter {
            value: sat_add_u64(x, y),
        },
        (ValueView::Gauge { value: x }, ValueView::Gauge { value: y }) => ValueView::Gauge {
            value: sat_add_i64(x, y),
        },
        (ValueView::Distribution { samples: s }, ValueView::Distribution { samples: t }) => (
        ValueView::Distribution { samples: s + t }),
        _ => a,
    }
}

/// Whether `b` can be subtracted from `a`: always for same-variant
/// counters and gauges; for distributions only when `b`'s samples are a
/// prefix of `a`'s — the shape left when `a` extends `b` with newer
/// samples. Any other pairing is an incompatible shape.
pub open spec fn subtractable(a: ValueView, b: ValueView) -> bool {
    match (a, b) {
        (ValueView::Counter { .. }, ValueView::Counter { .. }) => true,
        (ValueView::Gauge { .. }, ValueView::Gauge { .. }) => true,
        (ValueView::Distribution { samples: s }, ValueView::Distribution { samples: t }) => t
            .is_prefix_of(s),
        _ => false,
    }
}

/// The result of subtracting `b` from `a`: counters and gauges take the
/// clamped difference, a distribution keeps the samples that follow the
/// removed prefix.
pub open spec fn subtracted(a: ValueView, b: ValueView) -> ValueView
    recommends
        subtractable(a, b),
{
    match (a, b) {
        (ValueView::Counter { value: x }, ValueView::Counter { value: y }) => ValueView::Counter {
            value: sat_sub_u64(x, y),
        },
        (ValueView::Gauge { value: x }, ValueView::Gauge { value: y }) => ValueView::Gauge {
            value: sat_sub_i64(x, y),
        },
        (ValueView::Distribution { samples: s }, ValueView::Distribution { samples: t }) => (
        ValueView::Distribution { samples: s.skip(t.len() as int) }),
        _ => a,
    }
}

/// The identity payload of each variant: zero totals, no samples.
pub open spec fn zeroed(a: ValueView) -> ValueView {
    match a {
        ValueView::Counter { .. } => ValueView::Counter { value: 0 },
        ValueView::Gauge { .. } => ValueView::Gauge { value: 0 },
        ValueView::Distribution { .. } => ValueView::Distribution { samples: Seq::empty() },
    }
}

/// Heap footprint of a payload: only a distribution owns heap memory,
/// eight bytes per collected sample; totals live on the stack.
pub open spec fn payload_heap_bytes(a: ValueView) -> int {
    match a {
        ValueView::Counter { .. } => 0,
        ValueView::Gauge { .. } => 0,
        ValueView::Distribution { samples } => if 8 * samples.len() <= usize::MAX {
            8 * samples.len() as int
        } else {
            usize::MAX as int
        },
    }
}

fn u64_add_saturating(a: u64, b: u64) -> (r: u64)
    ensures
        r == sat_add_u64(a, b),
{
    if a <= u64::MAX - b {
        a + b
    } else {
        u64::MAX
    }
}

fn i64_add_saturating(a: i64, b: i64) -> (r: i64)
    ensures
        r == sat_add_i64(a, b),
{
    if b >= 0 {
        if a <= i64::MAX - b {
            a + b
        } else {
            i64::MAX
        }
    } else {
        if a >= i64::MIN - b {
            a + b
        } else {
            i64::MIN
        }
    }
}

fn u64_sub_saturating(a: u64, b: u64) -> (r: u64)
    ensures
        r == sat_sub_u64(a, b),
{
    if a >= b {
        a - b
    } else {
        0
    }
}

fn i64_sub_saturating(a: i64, b: i64) -> (r: i64)
    ensures
        r == sat_sub_i64(a, b),
{
    if b >= 0 {
        if a >= i64::MIN + b {
            a - b
        } else {
            i64::MIN
        }
    } else {
        if a <= i64::MAX + b {
            a - b
        } else {
            i64::MAX
        }
    }
}

fn extend_samples(a: &mut Vec<i64>, b: &Vec<i64>)
    ensures
        final(a)@ == old(a)@ + b@,
{
    let ghost a0: Seq<i64> = a@;
    proof {
        assert(a@ =~= a0 + b@.take(0));
    }
    let mut j: usize = 0;
    while j < b.len()
        invariant
            j <= b.len(),
            a@ == a0 + b@.take(j as int),
        decreases b.len() - j,
    {
        let x: i64 = b[j];
        a.push(x);
        j += 1;
        proof {
            assert(a@ =~= a0 + b@.take(j as int));
        }
    }
    proof {
        assert(a@ =~= a0 + b@);
    }
}

fn remove_prefix(a: &mut Vec<i64>, b: &Vec<i64>) -> (r: bool)
    ensures
        r == b@.is_prefix_of(old(a)@),
        r ==> final(a)@ == old(a)@.skip(b@.len() as int),
        !r ==> *final(a) == *old(a),
{
    if b.len() > a.len() {
        return false;
    }
    let mut j: usize = 0;
    while j < b.len()
        invariant
            j <= b.len() <= a.len(),
            forall|k: int| 0 <= k < j ==> a@[k] == b@[k],
        decreases b.len() - j,
    {
        if a[j] != b[j] {
            proof {
                if b@.is_prefix_of(a@) {
                    assert(b@[j as int] == a@.subrange(0, b@.len() as int)[j as int]);
                }
            }
            return false;
        }
        j += 1;
    }
    proof {
        assert(b@ =~= a@.subrange(0, b@.len() as int));
    }
    let ghost a0: Seq<i64> = a@;
    let mut out: Vec<i64> = Vec::new();
    proof {
        assert(out@ =~= a0.subrange(b@.len() as int, b@.len() as int));
    }
    let mut k: usize = b.len();
    while k < a.len()
        invariant
            b.len() <= k <= a.len(),
            a@ == a0,
            out@ == a0.subrange(b@.len() as int, k as int),
        decreases a.len() - k,
    {
        let x: i64 = a[k];
        out.push(x);
        k += 1;
        proof {
            assert(out@ =~= a0.subrange(b@.len() as int, k as int));
        }
    }
    *a = out;
    proof {
        assert(a@ =~= a0.skip(b@.len() as int));
    }
    true
}

fn samples_eq(a: &Vec<i64>, b: &Vec<i64>) -> (r: bool)
    ensures
        r == (a@ == b@),
{
    if a.len() != b.len() {
        return false;
    }
    let mut j: usize = 0;
    while j < a.len()
        invariant
            j <= a.len(),
            a@.len() == b@.len(),
            forall|k: int| 0 <= k < j ==> a@[k] == b@[k],
        decreases a.len() - j,
    {
        if a[j] != b[j] {
            return false;
        }
        j += 1;
    }
    proof {
        assert(a@ =~= b@);
    }
    true
}

impl MetricValue {
    /// Combines `other` into `self` in place. Returns `false`, with
    /// `self` untouched, when the payloads are of different variants.
    pub fn add(&mut self, other: &MetricValue) -> (r: bool)
        ensures
            r == compatible(old(self)@, other@),
            r ==> final(self)@ == combined(old(self)@, other@),
            !r ==> *final(self) == *old(self),
    {
        match (&mut *self, other) {
            (MetricValue::Counter { value: a }, MetricValue::Counter { value: b }) => {
                *a = u64_add_saturating(*a, *b);
                true
            },
            (MetricValue::Gauge { value: a }, MetricValue::Gauge { value: b }) => {
                *a = i64_add_saturating(*a, *b);
                true
            },
            (MetricValue::Distribution { samples: a }, MetricValue::Distribution { samples: b }) => {
                extend_samples(a, b);
                true
            },
            (MetricValue::Counter { .. }, MetricValue::Gauge { .. }) => false,
            (MetricValue::Counter { .. }, MetricValue::Distribution { .. }) => false,
            (MetricValue::Gauge { .. }, MetricValue::Counter { .. }) => false,
            (MetricValue::Gauge { .. }, MetricValue::Distribution { .. }) => false,
            (MetricValue::Distribution { .. }, MetricValue::Counter { .. }) => false,
            (MetricValue::Distribution { .. }, MetricValue::Gauge { .. }) => false,
        }
    }

    /// Subtracts `other` from `self` in place. Returns `false`, with
    /// `self` untouched, when the variants differ or the shapes are
    /// incompatible.
    pub fn subtract(&mut self, other: &MetricValue) -> (r: bool)
        ensures
            r == subtractable(old(self)@, other@),
            r ==> final(self)@ == subtracted(old(self)@, other@),
            !r ==> *final(self) == *old(self),
    {
        match (&mut *self, other) {
            (MetricValue::Counter { value: a }, MetricValue::Counter { value: b }) => {
                *a = u64_sub_saturating(*a, *b);
                true
            },
            (MetricValue::Gauge { value: a }, MetricValue::Gauge { value: b }) => {
                *a = i64_sub_saturating(*a, *b);
                true
            },
            (MetricValue::Distribution { samples: a }, MetricValue::Distribution { samples: b }) => {
                remove_prefix(a, b)
            },
            (MetricValue::Counter { .. }, MetricValue::Gauge { .. }) => false,
            (MetricValue::Counter { .. }, MetricValue::Distribution { .. }) => false,
            (MetricValue::Gauge { .. }, MetricValue::Counter { .. }) => false,
            (MetricValue::Gauge { .. }, MetricValue::Distribution { .. }) => false,
            (MetricValue::Distribution { .. }, MetricValue::Counter { .. }) => false,
            (MetricValue::Distribution { .. }, MetricValue::Gauge { .. }) => false,
        }
    }

    /// Resets the payload to its variant's identity value in place,
    /// preserving the variant.
    pub fn zero(&mut self)
        ensures
            final(self)@ == zeroed(old(self)@),
    {
        match &mut *self {
            MetricValue::Counter { value } => {
                *value = 0;
            },
            MetricValue::Gauge { value } => {
                *value = 0;
            },
            MetricValue::Distribution { samples } => {
                *samples = Vec::new();
            },
        }
    }

    /// Heap footprint of the payload, excluding stack-resident fields.
    pub fn allocated_bytes(&self) -> (r: usize)
        ensures
            r as int == payload_heap_bytes(self@),
    {
        match self {
            MetricValue::Counter { .. } => 0,
            MetricValue::Gauge { .. } => 0,
            MetricValue::Distribution { samples } => {
                let wide: u128 = (samples.len() as u128) * 8;
                if wide <= usize::MAX as u128 {
                    wide as usize
                } else {
                    usize::MAX
                }
            },
        }
    }
}

impl PartialEq for MetricValue {
    fn eq(&self, other: &Self) -> (r: bool) {
        match (self, other) {
            (MetricValue::Counter { value: a }, MetricValue::Counter { value: b }) => *a == *b,
            (MetricValue::Gauge { value: a }, MetricValue::Gauge { value: b }) => *a == *b,
            (MetricValue::Distribution { samples: a }, MetricValue::Distribution { samples: b }) => {
                samples_eq(a, b)
            },
            (MetricValue::Counter { .. }, MetricValue::Gauge { .. }) => false,
            (MetricValue::Counter { .. }, MetricValue::Distribution { .. }) => false,
            (MetricValue::Gauge { .. }, MetricValue::Counter { .. }) => false,
            (MetricValue::Gauge { .. }, MetricValue::Distribution { .. }) => false,
            (MetricValue::Distribution { .. }, MetricValue::Counter { .. }) => false,
            (MetricValue::Distribution { .. }, MetricValue::Gauge { .. }) => false,
        }
    }
}

impl vstd::std_specs::cmp::PartialEqSpecImpl for MetricValue {
    open spec fn obeys_eq_spec() -> bool {
        true
    }

    open spec fn eq_spec(&self, other: &Self) -> bool {
        self@ == other@
    }
}

} // verus!
