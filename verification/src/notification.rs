//! The domain notifications that the manager fans out to every loaded plugin.

use vstd::prelude::*;

verus! {

/// A state-transition event delivered to every loaded plugin.
///
/// A range is an inclusive pair of block numbers. Only a committed chain
/// advances the acknowledgement toward the upstream producer; a revert is
/// delivered to plugins but acknowledges nothing. Further upstream event
/// kinds are the producer adapter's to map onto these two: whatever commits
/// a chain segment arrives as `Committed` (a reorganization commits its new
/// segment), whatever only reverts one arrives as `Reverted`.
#[derive(Debug, Clone, Copy, PartialEq, Eq, Structural)]
pub enum Notification {
    /// A chain segment spanning `first..=last` was committed.
    Committed { first: u64, last: u64 },
    /// A chain segment spanning `first..=last` was reverted.
    Reverted { first: u64, last: u64 },
}

impl Notification {
    /// A range is well formed when its bounds are non-decreasing.
    pub open spec fn wf(&self) -> bool {
        match self {
            Notification::Committed { first, last } => *first <= *last,
            Notification::Reverted { first, last } => *first <= *last,
        }
    }

    /// The acknowledgement owed to the upstream producer for this
    /// notification: the highest committed block number, if any.
    pub open spec fn spec_ack(&self) -> Option<u64> {
        match self {
            Notification::Committed { first: _, last } => Some(*last),
            Notification::Reverted { .. } => None,
        }
    }

    /// Computes the acknowledgement for this notification.
    pub fn ack(&self) -> (r: Option<u64>)
        ensures
            r == self.spec_ack(),
    {
        match self {
            Notification::Committed { first: _, last } => Some(*last),
            Notification::Reverted { .. } => None,
        }
    }
}

} // verus!
