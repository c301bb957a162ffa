use vstd::prelude::*;

use crate::kind::MetricKind;
use crate::time::MetricTime;
use crate::time::TimeView;
use crate::time::merged;
use crate::value::MetricValue;
use crate::value::ValueView;
use crate::value::combined;
use crate::value::compatible;
use crate::value::payload_heap_bytes;
use crate::value::subtractable;
use crate::value::subtracted;
use crate::value::zeroed;

verus! {

/// One observation of a metric, and the mutable accumulator for a metric
/// identity's current state. The identity itself (name, tags) is tracked
/// by the caller, not here.
#[derive(Clone, Debug)]
pub struct MetricData {
    pub time: MetricTime,
    pub kind: MetricKind,
    pub value: MetricValue,
}

/// The mathematical content of a `MetricData`.
#[verifier::ext_equal]
pub ghost struct DataView {
    pub time: TimeView,
    pub kind: MetricKind,
    pub value: ValueView,
}

impl View for MetricData {
    type V = DataView;

    open spec fn view(&self) -> DataView {
        DataView { time: self.time@, kind: self.kind, value: self.value@ }
    }
}

/// Ordering on timestamp alone: present timestamps order by value; a
/// missing timestamp is incomparable to everything, other missing
/// timestamps included.
pub open spec fn timestamp_order(a: Option<i64>, b: Option<i64>) -> Option<core::cmp::Ordering> {
    match (a, b) {
        (Some(x), Some(y)) => if x < y {
            Some(core::cmp::Ordering::Less)
        } else if x == y {
            Some(core::cmp::Ordering::Equal)
        } else {
            Some(core::cmp::Ordering::Greater)
        },
        (Some(_), None) => None,
        (None, Some(_)) => None,
        (None, None) => None,
    }
}

impl MetricData {
    /// The same observation with only the kind rewritten.
    pub open spec fn relabelled(self, new_kind: MetricKind) -> MetricData {
        MetricData { time: self.time, kind: new_kind, value: self.value }
    }

    /// Builds an accumulator directly from its raw components.
    pub fn from_parts(time: MetricTime, kind: MetricKind, value: MetricValue) -> (r: Self)
        ensures
            r.time == time,
            r.kind == kind,
            r.value == value,
    {
        MetricData { time, kind, value }
    }

    /// Decomposes an accumulator into its individual parts.
    pub fn into_parts(self) -> (r: (MetricTime, MetricKind, MetricValue))
        ensures
            r.0 == self.time,
            r.1 == self.kind,
            r.2 == self.value,
    {
        (self.time, self.kind, self.value)
    }

    /// The timestamp of this observation, if reliable.
    pub fn timestamp(&self) -> (r: Option<i64>)
        ensures
            r == self.time.timestamp,
    {
        self.time.timestamp
    }

    /// Read access to the payload.
    pub fn value(&self) -> (r: &MetricValue)
        ensures
            *r == self.value,
    {
        &self.value
    }

    /// Write access to the payload.
    pub fn value_mut(&mut self) -> (r: &mut MetricValue)
        ensures
            *r == old(self).value,
            final(self).time == old(self).time,
            final(self).kind == old(self).kind,
            final(self).value == *final(r),
    {
        &mut self.value
    }

    /// The observation relabelled absolute; time and value untouched.
    #[must_use]
    pub fn into_absolute(self) -> (r: Self)
        ensures
            r == self.relabelled(MetricKind::Absolute),
    {
        MetricData { time: self.time, kind: MetricKind::Absolute, value: self.value }
    }

    /// The observation relabelled incremental; time and value untouched.
    #[must_use]
    pub fn into_incremental(self) -> (r: Self)
        ensures
            r == self.relabelled(MetricKind::Incremental),
    {
        MetricData { time: self.time, kind: MetricKind::Incremental, value: self.value }
    }

    /// Merges `other` into this accumulator: combines the payloads and,
    /// on success, reconciles the temporal envelopes into the union
    /// window; the kind of `self` stays authoritative. Returns whether
    /// the merge occurred; on failure `self` is unchanged.
    #[must_use]
    pub fn update(&mut self, other: &Self) -> (r: bool)
        ensures
            r == compatible(old(self)@.value, other@.value),
            r ==> final(self)@.value == combined(old(self)@.value, other@.value),
            r ==> final(self)@.time == merged(old(self)@.time, other@.time),
            final(self).kind == old(self).kind,
            !r ==> *final(self) == *old(self),
    {
        if self.value.add(&other.value) {
            self.time.combine(&other.time);
            true
        } else {
            false
        }
    }

    /// Accumulates an incoming delta: `other` must be incremental,
    /// otherwise the call fails without mutation; on success this behaves
    /// exactly as `update`.
    #[must_use]
    pub fn add(&mut self, other: &Self) -> (r: bool)
        ensures
            r == (other@.kind == MetricKind::Incremental && compatible(
                old(self)@.value,
                other@.value,
            )),
            r ==> final(self)@.value == combined(old(self)@.value, other@.value),
            r ==> final(self)@.time == merged(old(self)@.time, other@.time),
            final(self).kind == old(self).kind,
            !r ==> *final(self) == *old(self),
    {
        match other.kind {
            MetricKind::Incremental => self.update(other),
            MetricKind::Absolute => false,
        }
    }

    /// Subtracts `other`'s payload from this one; time and kind are
    /// never touched. Used to turn two absolute snapshots into a delta.
    #[must_use]
    pub fn subtract(&mut self, other: &Self) -> (r: bool)
        ensures
            r == subtractable(old(self)@.value, other@.value),
            r ==> final(self)@.value == subtracted(old(self)@.value, other@.value),
            final(self).time == old(self).time,
            final(self).kind == old(self).kind,
            !r ==> *final(self) == *old(self),
    {
        self.value.subtract(&other.value)
    }

    /// Resets the payload to its variant's identity; time and kind are
    /// untouched.
    pub fn zero(&mut self)
        ensures
            final(self)@.value == zeroed(old(self)@.value),
            final(self).time == old(self).time,
            final(self).kind == old(self).kind,
    {
        self.value.zero();
    }

    /// Heap footprint of the held payload, for memory-budget accounting
    /// by an external buffering component.
    pub fn allocated_bytes(&self) -> (r: usize)
        ensures
            r as int == payload_heap_bytes(self@.value),
    {
        self.value.allocated_bytes()
    }
}

impl PartialEq for MetricData {
    fn eq(&self, other: &Self) -> (r: bool) {
        let times_equal: bool = self.time == other.time;
        let kinds_equal: bool = self.kind == other.kind;
        let values_equal: bool = self.value == other.value;
        times_equal && kinds_equal && values_equal
    }
}

impl vstd::std_specs::cmp::PartialEqSpecImpl for MetricData {
    open spec fn obeys_eq_spec() -> bool {
        true
    }

    open spec fn eq_spec(&self, other: &Self) -> bool {
        self@ == other@
    }
}

impl PartialOrd for MetricData {
    fn partial_cmp(&self, other: &Self) -> (r: Option<core::cmp::Ordering>) {
        match (self.time.timestamp, other.time.timestamp) {
            (Some(a), Some(b)) => {
                if a < b {
                    Some(core::cmp::Ordering::Less)
                } else if a == b {
                    Some(core::cmp::Ordering::Equal)
                } else {
                    Some(core::cmp::Ordering::Greater)
                }
            },
            (Some(_), None) => None,
            (None, Some(_)) => None,
            (None, None) => None,
        }
    }
}

impl vstd::std_specs::cmp::PartialOrdSpecImpl for MetricData {
    open spec fn obeys_partial_cmp_spec() -> bool {
        true
    }

    open spec fn partial_cmp_spec(&self, other: &Self) -> Option<core::cmp::Ordering> {
        timestamp_order(self.time.timestamp, other.time.timestamp)
    }
}

} // verus!
