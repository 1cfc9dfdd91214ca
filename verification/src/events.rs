//! Notifications of state changes, as plain values for whoever delivers them.

use vstd::prelude::*;
use ink::primitives::AccountId;
use crate::identity::Balance;

verus! {

/// An escrow was created.
#[derive(Debug, PartialEq, Eq, Clone, Copy)]
pub struct EscrowCreated {
    pub escrow_id: u64,
    pub payer: AccountId,
    pub payee: AccountId,
    pub amount: Balance,
    pub service_id: u64,
}

/// An external payment hash was recorded on an escrow.
#[derive(Debug, PartialEq, Eq, Clone, Copy)]
pub struct X402PaymentLinked {
    pub escrow_id: u64,
    pub payment_hash: ink::primitives::Hash,
}

/// An escrow was settled in favour of the payee.
#[derive(Debug, PartialEq, Eq, Clone, Copy)]
pub struct EscrowCompleted {
    pub escrow_id: u64,
    pub payee: AccountId,
    pub amount: Balance,
}

/// An escrow's value went back to the payer.
#[derive(Debug, PartialEq, Eq, Clone, Copy)]
pub struct EscrowRefunded {
    pub escrow_id: u64,
    pub payer: AccountId,
    pub amount: Balance,
}

/// A party froze an escrow.
#[derive(Debug, PartialEq, Eq, Clone, Copy)]
pub struct EscrowDisputed {
    pub escrow_id: u64,
    pub disputer: AccountId,
}

/// Any one notification, in the order in which the engine hands them out.
#[derive(Debug, PartialEq, Eq, Clone, Copy)]
pub enum Notification {
    Created(EscrowCreated),
    Linked(X402PaymentLinked),
    Completed(EscrowCompleted),
    Refunded(EscrowRefunded),
    Disputed(EscrowDisputed),
}

} // verus!
