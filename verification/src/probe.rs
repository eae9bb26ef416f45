use vstd::prelude::*;

verus! {

/// The readiness of a suspended computation after one probe.
///
/// A computation that returns `Pending` must have arranged for its wake
/// callback to fire when progress may be possible; one that returns `Ready`
/// has produced its result exactly once and must not be probed again.
pub enum Probe<T> {
    Ready(T),
    Pending,
}

} // verus!
