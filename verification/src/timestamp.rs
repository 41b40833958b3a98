//! The creation timestamp carried by raw rows, held as plain values. The
//! conversion layer copies a timestamp through without reading it; callers
//! that use a calendar library convert at the boundary.
use vstd::prelude::*;

verus! {

/// A point in time as the storage layer supplies it: whole seconds since
/// the Unix epoch and a subsecond nanosecond part.
#[derive(Debug, Clone, Copy, PartialEq, Eq, Hash, Structural)]
pub struct Timestamp {
    pub unix_seconds: i64,
    pub subsec_nanos: u32,
}

impl Timestamp {
    /// The timestamp at the Unix epoch.
    pub fn epoch() -> (r: Timestamp)
        ensures
            r.unix_seconds == 0,
            r.subsec_nanos == 0,
    {
        Timestamp { unix_seconds: 0, subsec_nanos: 0 }
    }
}

impl Default for Timestamp {
    /// The default timestamp is the Unix epoch.
    fn default() -> (r: Self)
        ensures
            r.unix_seconds == 0,
            r.subsec_nanos == 0,
    {
        Timestamp::epoch()
    }
}

} // verus!
