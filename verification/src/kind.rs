use vstd::prelude::*;

verus! {

/// Whether an observation's value is a point-in-time snapshot
/// (`Absolute`) or a delta to be accumulated into a running total
/// (`Incremental`).
#[derive(Clone, Copy, Debug, PartialEq, Eq, Structural)]
pub enum MetricKind {
    Absolute,
    Incremental,
}

} // verus!
