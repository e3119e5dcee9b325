use vstd::prelude::*;

verus! {

/// Age from which a lock file counts as abandoned, in milliseconds.
pub const STALE_AFTER_MS: u64 = 30_000;

/// File name of the lock inside the cache directory.
pub const LOCK_FILE_NAME: &'static str = "notification.lock";

/// What was found where the lock file lives.
#[derive(Debug, Clone, Copy, PartialEq, Eq, Structural)]
pub enum LockObservation {
    /// No lock file exists.
    Absent,
    /// A lock file exists but its age could not be read.
    Unreadable,
    /// A lock file exists and was last modified this many milliseconds ago.
    Age(u64),
    /// A lock file exists and was last modified after the current time, so
    /// it is younger than any threshold.
    Future,
}

/// The verdict on an observed lock.
#[derive(Debug, Clone, Copy, PartialEq, Eq, Structural)]
pub enum GateDecision {
    /// Write a fresh lock and go on.
    Admit,
    /// Remove the abandoned lock, write a fresh one and go on.
    ReclaimStale,
    /// Another notification is in flight: stop without side effects.
    Busy,
}

/// A lock younger than the staleness threshold keeps everyone else out; an
/// older one is reclaimed.
pub fn gate_decision(observed: LockObservation) -> (r: GateDecision)
    ensures
        r == GateDecision::Busy <==> (observed is Future || (observed is Age && observed->0
            < STALE_AFTER_MS)),
        r == GateDecision::ReclaimStale <==> (observed is Age && observed->0 >= STALE_AFTER_MS),
        r == GateDecision::Admit <==> (observed is Absent || observed is Unreadable),
{
    match observed {
        LockObservation::Age(ms) => if ms < STALE_AFTER_MS {
            GateDecision::Busy
        } else {
            GateDecision::ReclaimStale
        },
        LockObservation::Future => GateDecision::Busy,
        LockObservation::Absent | LockObservation::Unreadable => GateDecision::Admit,
    }
}

} // verus!
