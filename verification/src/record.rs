//! The escrow record, the unit of custody, and the rules that move it.
//!
//! Each operation is split in two: a verdict, which says from the record, the
//! caller and the time whether the operation is allowed, and an effect, which
//! says what the record becomes. The executable operations are stated over
//! both.

use vstd::prelude::*;
use ink::primitives::AccountId;
use crate::error::Error;
use crate::events::EscrowCompleted;
use crate::events::EscrowCreated;
use crate::events::EscrowDisputed;
use crate::events::EscrowRefunded;
use crate::events::X402PaymentLinked;
use crate::identity::Balance;
use crate::identity::Timestamp;
use crate::status::EscrowStatus;

verus! {

/// Escrow details.
#[derive(Debug, PartialEq, Eq)]
pub struct EscrowDetails {
    pub id: u64,
    pub payer: AccountId,
    pub payee: AccountId,
    pub amount: Balance,
    pub service_id: u64,
    pub status: EscrowStatus,
    pub created_at: Timestamp,
    pub completed_at: Option<Timestamp>,
    pub payment_code: String,
    pub uses_x402: bool,
    pub x402_payment_hash: Option<ink::primitives::Hash>,
    pub x402_verified: bool,
    pub x402_token_address: Option<AccountId>,
}

impl Clone for EscrowDetails {
    fn clone(&self) -> (r: Self)
        ensures
            r == *self,
    {
        EscrowDetails {
            id: self.id,
            payer: self.payer,
            payee: self.payee,
            amount: self.amount,
            service_id: self.service_id,
            status: self.status,
            created_at: self.created_at,
            completed_at: self.completed_at,
            payment_code: self.payment_code.clone(),
            uses_x402: self.uses_x402,
            x402_payment_hash: self.x402_payment_hash,
            x402_verified: self.x402_verified,
            x402_token_address: self.x402_token_address,
        }
    }
}

/// Whether an escrow may be opened with this amount: a zero amount is legal
/// only where the value moves through the external channel.
pub open spec fn amount_accepted(amount: Balance, uses_x402: bool) -> bool {
    uses_x402 || amount > 0
}

impl EscrowDetails {
    // ----- what a record is -----

    /// The invariant of a record.
    pub open spec fn wf(&self) -> bool {
        &&& self.completed_at is None <==> (self.status == EscrowStatus::Pending || self.status
            == EscrowStatus::Disputed)
        &&& self.x402_verified ==> self.x402_payment_hash is Some
        &&& self.x402_payment_hash is Some ==> self.uses_x402
        &&& amount_accepted(self.amount, self.uses_x402)
    }

    /// The record of an escrow that was just opened.
    pub open spec fn opened(
        id: u64,
        payer: AccountId,
        payee: AccountId,
        amount: Balance,
        service_id: u64,
        now: Timestamp,
        payment_code: String,
        uses_x402: bool,
        x402_token_address: Option<AccountId>,
    ) -> EscrowDetails {
        EscrowDetails {
            id,
            payer,
            payee,
            amount,
            service_id,
            status: EscrowStatus::Pending,
            created_at: now,
            completed_at: None,
            payment_code,
            uses_x402,
            x402_payment_hash: None,
            x402_verified: false,
            x402_token_address,
        }
    }

    /// `later` is this escrow at a later moment: what is fixed at creation is
    /// the same, a payment hash or a verification that was there is still
    /// there, and a record that has left `Pending` is the same in every
    /// field, so that the status has stayed or has just left `Pending`.
    pub open spec fn precedes(&self, later: EscrowDetails) -> bool {
        &&& later.id == self.id
        &&& later.payer == self.payer
        &&& later.payee == self.payee
        &&& later.amount == self.amount
        &&& later.service_id == self.service_id
        &&& later.created_at == self.created_at
        &&& later.payment_code == self.payment_code
        &&& later.uses_x402 == self.uses_x402
        &&& later.x402_token_address == self.x402_token_address
        &&& self.status.may_become(later.status)
        &&& self.status.terminal() ==> later == *self
        &&& self.x402_payment_hash is Some ==> later.x402_payment_hash is Some
        &&& self.x402_verified ==> later.x402_verified
    }

    /// Expiry: strictly more than `timeout` has passed since creation.
    pub open spec fn expired(&self, now: Timestamp, timeout: u64) -> bool {
        now - self.created_at > timeout
    }

    /// Whether `who` is the payer or the payee.
    pub open spec fn is_party(&self, who: AccountId) -> bool {
        self.payer == who || self.payee == who
    }

    // ----- verdicts -----

    /// Manual release: by the payer, while pending, not on an external-channel
    /// escrow, and not after expiry.
    pub open spec fn release_verdict(&self, caller: AccountId, now: Timestamp, timeout: u64) -> Result<
        (),
        Error,
    > {
        if self.payer != caller {
            Err(Error::Unauthorized)
        } else if self.status != EscrowStatus::Pending {
            Err(Error::InvalidStatus)
        } else if self.uses_x402 {
            Err(Error::InvalidStatus)
        } else if self.expired(now, timeout) {
            Err(Error::EscrowExpired)
        } else {
            Ok(())
        }
    }

    /// Automatic release: by the payee, while pending, only after expiry.
    pub open spec fn auto_release_verdict(
        &self,
        caller: AccountId,
        now: Timestamp,
        timeout: u64,
    ) -> Result<(), Error> {
        if self.payee != caller {
            Err(Error::Unauthorized)
        } else if self.status != EscrowStatus::Pending {
            Err(Error::InvalidStatus)
        } else if !self.expired(now, timeout) {
            Err(Error::InvalidStatus)
        } else {
            Ok(())
        }
    }

    /// Who may ask for a refund: the payer at any time, the payee after expiry.
    pub open spec fn may_refund(&self, caller: AccountId, now: Timestamp, timeout: u64) -> bool {
        self.payer == caller || (self.payee == caller && self.expired(now, timeout))
    }

    /// Refund: by someone who may ask for it, while pending.
    pub open spec fn refund_verdict(&self, caller: AccountId, now: Timestamp, timeout: u64) -> Result<
        (),
        Error,
    > {
        if !self.may_refund(caller, now, timeout) {
            Err(Error::Unauthorized)
        } else if self.status != EscrowStatus::Pending {
            Err(Error::InvalidStatus)
        } else {
            Ok(())
        }
    }

    /// Linking an external payment: by either party, on a pending
    /// external-channel escrow.
    pub open spec fn link_verdict(&self, caller: AccountId) -> Result<(), Error> {
        if !self.is_party(caller) {
            Err(Error::Unauthorized)
        } else if !self.uses_x402 {
            Err(Error::InvalidStatus)
        } else if self.status != EscrowStatus::Pending {
            Err(Error::InvalidStatus)
        } else {
            Ok(())
        }
    }

    /// Verifying the external payment: by the payee, on a pending
    /// external-channel escrow that has a payment hash.
    pub open spec fn verify_verdict(&self, caller: AccountId) -> Result<(), Error> {
        if self.payee != caller {
            Err(Error::Unauthorized)
        } else if !self.uses_x402 {
            Err(Error::InvalidStatus)
        } else if self.x402_payment_hash is None {
            Err(Error::InvalidStatus)
        } else if self.status != EscrowStatus::Pending {
            Err(Error::InvalidStatus)
        } else {
            Ok(())
        }
    }

    /// Release through the external channel: by the payee, on a pending
    /// external-channel escrow whose payment was verified.
    pub open spec fn release_x402_verdict(&self, caller: AccountId) -> Result<(), Error> {
        if self.payee != caller {
            Err(Error::Unauthorized)
        } else if !self.uses_x402 {
            Err(Error::InvalidStatus)
        } else if self.status != EscrowStatus::Pending {
            Err(Error::InvalidStatus)
        } else if !self.x402_verified {
            Err(Error::InvalidStatus)
        } else {
            Ok(())
        }
    }

    /// Dispute: by either party, while pending.
    pub open spec fn dispute_verdict(&self, caller: AccountId) -> Result<(), Error> {
        if !self.is_party(caller) {
            Err(Error::Unauthorized)
        } else if self.status != EscrowStatus::Pending {
            Err(Error::InvalidStatus)
        } else {
            Ok(())
        }
    }

    // ----- effects -----

    /// The record once settled in favour of the payee at `now`.
    pub open spec fn completed(&self, now: Timestamp) -> EscrowDetails {
        EscrowDetails { status: EscrowStatus::Completed, completed_at: Some(now), ..*self }
    }

    /// The record once its value went back to the payer at `now`.
    pub open spec fn refunded(&self, now: Timestamp) -> EscrowDetails {
        EscrowDetails { status: EscrowStatus::Refunded, completed_at: Some(now), ..*self }
    }

    /// The record once frozen.
    pub open spec fn disputed(&self) -> EscrowDetails {
        EscrowDetails { status: EscrowStatus::Disputed, ..*self }
    }

    /// The record with `hash` as its external payment hash.
    pub open spec fn linked(&self, hash: ink::primitives::Hash) -> EscrowDetails {
        EscrowDetails { x402_payment_hash: Some(hash), ..*self }
    }

    /// The record with its external payment marked as verified.
    pub open spec fn verified(&self) -> EscrowDetails {
        EscrowDetails { x402_verified: true, ..*self }
    }

    // ----- notifications -----

    /// What is notified when this record is created.
    pub open spec fn creation_notice(&self) -> EscrowCreated {
        EscrowCreated {
            escrow_id: self.id,
            payer: self.payer,
            payee: self.payee,
            amount: self.amount,
            service_id: self.service_id,
        }
    }

    /// What is notified when this escrow is completed.
    pub open spec fn completion_notice(&self) -> EscrowCompleted {
        EscrowCompleted { escrow_id: self.id, payee: self.payee, amount: self.amount }
    }

    /// What is notified when this escrow is refunded.
    pub open spec fn refund_notice(&self) -> EscrowRefunded {
        EscrowRefunded { escrow_id: self.id, payer: self.payer, amount: self.amount }
    }

    /// What is notified when `disputer` freezes this escrow.
    pub open spec fn dispute_notice(&self, disputer: AccountId) -> EscrowDisputed {
        EscrowDisputed { escrow_id: self.id, disputer }
    }

    /// What is notified when `hash` is linked to this escrow.
    pub open spec fn link_notice(&self, hash: ink::primitives::Hash) -> X402PaymentLinked {
        X402PaymentLinked { escrow_id: self.id, payment_hash: hash }
    }
}

} // verus!
