//! The four states of an escrow and the legal moves between them.

use vstd::prelude::*;

verus! {

/// Different statuses of an escrow.
#[derive(Debug, PartialEq, Eq, Clone, Copy, Structural)]
pub enum EscrowStatus {
    Pending,
    Completed,
    Refunded,
    Disputed,
}

impl EscrowStatus {
    /// Only `Pending` can still change.
    pub open spec fn terminal(self) -> bool {
        self != EscrowStatus::Pending
    }

    /// The legal moves: a status stays as it is, or leaves `Pending` for one
    /// of the three others. Nothing leads back to `Pending`, and nothing
    /// leads from one of the three to another.
    pub open spec fn may_become(self, next: EscrowStatus) -> bool {
        next == self || self == EscrowStatus::Pending
    }

    /// Whether the status has left `Pending` for good.
    pub fn is_terminal(&self) -> (r: bool)
        ensures
            r == self.terminal(),
    {
        !matches!(self, EscrowStatus::Pending)
    }
}

} // verus!
