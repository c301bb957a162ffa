//! Merge/reconciliation engine for time-series metric observations.
//!
//! A [`data::MetricData`] is the running accumulator for one metric
//! identity. Callers repeatedly merge newly arrived observations into it;
//! the library decides how two observations combine without double-counting
//! values or misstating the aggregation window that produced them.

pub mod kind;
pub mod time;
pub mod value;
pub mod data;
pub mod laws;
