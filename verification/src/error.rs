//! Why an escrow operation was rejected.

use vstd::prelude::*;

verus! {

/// Errors of the escrow operations. A rejected call leaves every record as it
/// was, so the same call may be made again.
#[derive(Debug, PartialEq, Eq, Copy, Clone, Structural)]
pub enum Error {
    /// The escrow is not found.
    EscrowNotFound,
    /// The caller is not authorized.
    Unauthorized,
    /// The amount is invalid.
    InvalidAmount,
    /// The status is invalid.
    InvalidStatus,
    /// The funds are insufficient.
    InsufficientFunds,
    /// The transfer failed.
    TransferFailed,
    /// The escrow is already completed.
    AlreadyCompleted,
    /// The escrow has expired.
    EscrowExpired,
}

} // verus!
