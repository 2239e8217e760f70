//! Modification times as plain integers.

use vstd::prelude::*;

verus! {

/// A file's modification time: nanoseconds since the Unix epoch, negative
/// for times before it.
#[derive(Clone, Copy, Debug, PartialEq, Eq, Structural)]
pub struct Timestamp {
    pub nanos: i128,
}

impl Timestamp {
    /// Whether `self` is strictly later than `other`.
    pub open spec fn is_after(self, other: Timestamp) -> bool {
        self.nanos > other.nanos
    }
}

/// Whether a file observed at `current` counts as changed for a watcher
/// whose last recorded modification time is `last`: always on the first
/// observation, and afterwards only when the time has strictly advanced.
pub open spec fn changed_since(last: Option<Timestamp>, current: Timestamp) -> bool {
    match last {
        None => true,
        Some(seen) => current.is_after(seen),
    }
}

} // verus!
