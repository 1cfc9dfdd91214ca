//! The operations on one escrow record.
//!
//! An operation that moves value takes the transfer gateway as a function from
//! recipient and amount to success. It is called at most once, only after the
//! verdict allowed the operation, and the record is written only after the
//! gateway reported success.

use vstd::prelude::*;
use ink::primitives::AccountId;
use crate::error::Error;
use crate::events::EscrowCompleted;
use crate::events::EscrowCreated;
use crate::events::EscrowDisputed;
use crate::events::EscrowRefunded;
use crate::events::X402PaymentLinked;
use crate::history::Call;
use crate::history::Step;
use crate::identity::same_account;
use crate::identity::Balance;
use crate::identity::Timestamp;
use crate::record::amount_accepted;
use crate::record::EscrowDetails;
use crate::status::EscrowStatus;

verus! {

/// Checks the amount attached to a creation: a zero amount is refused with
/// `InvalidAmount` unless the escrow uses the external channel.
pub fn check_amount(amount: Balance, uses_x402: bool) -> (r: Result<(), Error>)
    ensures
        r == if amount_accepted(amount, uses_x402) {
            Ok::<(), Error>(())
        } else {
            Err::<(), Error>(Error::InvalidAmount)
        },
{
    if !uses_x402 && amount == 0 {
        return Err(Error::InvalidAmount);
    }
    Ok(())
}

impl EscrowDetails {
    /// Opens an escrow under the identifier `id`. A zero amount is refused
    /// with `InvalidAmount` unless the escrow uses the external channel.
    pub fn open(
        id: u64,
        payer: AccountId,
        payee: AccountId,
        amount: Balance,
        service_id: u64,
        now: Timestamp,
        payment_code: String,
        uses_x402: bool,
        x402_token_address: Option<AccountId>,
    ) -> (r: Result<EscrowDetails, Error>)
        ensures
            amount_accepted(amount, uses_x402) ==> r == Ok::<EscrowDetails, Error>(
                EscrowDetails::opened(
                    id,
                    payer,
                    payee,
                    amount,
                    service_id,
                    now,
                    payment_code,
                    uses_x402,
                    x402_token_address,
                ),
            ),
            !amount_accepted(amount, uses_x402) ==> r == Err::<EscrowDetails, Error>(
                Error::InvalidAmount,
            ),
            r is Ok ==> r->Ok_0.wf(),
    {
        match check_amount(amount, uses_x402) {
            Err(e) => {
                return Err(e);
            },
            Ok(_) => {},
        }
        Ok(
            EscrowDetails {
                id,
                payer,
                payee,
                amount,
                service_id,
                status: EscrowStatus::Pending,
                created_at: now,
                completed_at: None,
                payment_code,
                uses_x402,
                x402_payment_hash: None,
                x402_verified: false,
                x402_token_address,
            },
        )
    }

    /// The notification of this escrow's creation.
    pub fn creation(&self) -> (r: EscrowCreated)
        ensures
            r == self.creation_notice(),
    {
        EscrowCreated {
            escrow_id: self.id,
            payer: self.payer,
            payee: self.payee,
            amount: self.amount,
            service_id: self.service_id,
        }
    }

    /// Whether the escrow has expired at `now`: at the boundary it has not.
    pub fn is_expired(&self, now: Timestamp, timeout: u64) -> (r: bool)
        ensures
            r == self.expired(now, timeout),
    {
        now.saturating_sub(self.created_at) > timeout
    }

    /// Whether the status is still `Pending`.
    pub fn is_pending(&self) -> (r: bool)
        ensures
            r == (self.status == EscrowStatus::Pending),
    {
        self.status == EscrowStatus::Pending
    }

    /// The verdict on a manual release asked by `caller` at `now`.
    pub fn check_release(&self, caller: &AccountId, now: Timestamp, timeout: u64) -> (r: Result<
        (),
        Error,
    >)
        ensures
            r == self.release_verdict(*caller, now, timeout),
    {
        if !same_account(&self.payer, caller) {
            return Err(Error::Unauthorized);
        }
        if !self.is_pending() {
            return Err(Error::InvalidStatus);
        }
        if self.uses_x402 {
            return Err(Error::InvalidStatus);
        }
        if self.is_expired(now, timeout) {
            return Err(Error::EscrowExpired);
        }
        Ok(())
    }

    /// The verdict on an automatic release asked by `caller` at `now`.
    pub fn check_auto_release(&self, caller: &AccountId, now: Timestamp, timeout: u64) -> (r:
        Result<(), Error>)
        ensures
            r == self.auto_release_verdict(*caller, now, timeout),
    {
        if !same_account(&self.payee, caller) {
            return Err(Error::Unauthorized);
        }
        if !self.is_pending() {
            return Err(Error::InvalidStatus);
        }
        if !self.is_expired(now, timeout) {
            return Err(Error::InvalidStatus);
        }
        Ok(())
    }

    /// The verdict on a refund asked by `caller` at `now`.
    pub fn check_refund(&self, caller: &AccountId, now: Timestamp, timeout: u64) -> (r: Result<
        (),
        Error,
    >)
        ensures
            r == self.refund_verdict(*caller, now, timeout),
    {
        let is_authorized = same_account(&self.payer, caller) || (same_account(
            &self.payee,
            caller,
        ) && self.is_expired(now, timeout));
        if !is_authorized {
            return Err(Error::Unauthorized);
        }
        if !self.is_pending() {
            return Err(Error::InvalidStatus);
        }
        Ok(())
    }

    /// The verdict on linking an external payment, asked by `caller`.
    pub fn check_link(&self, caller: &AccountId) -> (r: Result<(), Error>)
        ensures
            r == self.link_verdict(*caller),
    {
        if !same_account(&self.payer, caller) && !same_account(&self.payee, caller) {
            return Err(Error::Unauthorized);
        }
        if !self.uses_x402 {
            return Err(Error::InvalidStatus);
        }
        if !self.is_pending() {
            return Err(Error::InvalidStatus);
        }
        Ok(())
    }

    /// The verdict on verifying the external payment, asked by `caller`.
    pub fn check_verify(&self, caller: &AccountId) -> (r: Result<(), Error>)
        ensures
            r == self.verify_verdict(*caller),
    {
        if !same_account(&self.payee, caller) {
            return Err(Error::Unauthorized);
        }
        if !self.uses_x402 {
            return Err(Error::InvalidStatus);
        }
        if self.x402_payment_hash.is_none() {
            return Err(Error::InvalidStatus);
        }
        if !self.is_pending() {
            return Err(Error::InvalidStatus);
        }
        Ok(())
    }

    /// The verdict on a release through the external channel, asked by
    /// `caller`.
    pub fn check_release_x402(&self, caller: &AccountId) -> (r: Result<(), Error>)
        ensures
            r == self.release_x402_verdict(*caller),
    {
        if !same_account(&self.payee, caller) {
            return Err(Error::Unauthorized);
        }
        if !self.uses_x402 {
            return Err(Error::InvalidStatus);
        }
        if !self.is_pending() {
            return Err(Error::InvalidStatus);
        }
        if !self.x402_verified {
            return Err(Error::InvalidStatus);
        }
        Ok(())
    }

    /// The verdict on a dispute raised by `caller`.
    pub fn check_dispute(&self, caller: &AccountId) -> (r: Result<(), Error>)
        ensures
            r == self.dispute_verdict(*caller),
    {
        if !same_account(&self.payer, caller) && !same_account(&self.payee, caller) {
            return Err(Error::Unauthorized);
        }
        if !self.is_pending() {
            return Err(Error::InvalidStatus);
        }
        Ok(())
    }

    /// Settles the escrow in favour of the payee once the transfer to the
    /// payee was attempted: a failed transfer leaves the record as it was.
    pub fn settle_completed(&mut self, now: Timestamp, transferred: bool) -> (r: Result<
        EscrowCompleted,
        Error,
    >)
        ensures
            transferred ==> *final(self) == old(self).completed(now) && r == Ok::<
                EscrowCompleted,
                Error,
            >(old(self).completion_notice()),
            !transferred ==> *final(self) == *old(self) && r == Err::<EscrowCompleted, Error>(
                Error::TransferFailed,
            ),
    {
        if !transferred {
            return Err(Error::TransferFailed);
        }
        self.status = EscrowStatus::Completed;
        self.completed_at = Some(now);
        Ok(EscrowCompleted { escrow_id: self.id, payee: self.payee, amount: self.amount })
    }

    /// Marks the escrow as refunded once the transfer to the payer was
    /// attempted: a failed transfer leaves the record as it was.
    pub fn settle_refunded(&mut self, now: Timestamp, transferred: bool) -> (r: Result<
        EscrowRefunded,
        Error,
    >)
        ensures
            transferred ==> *final(self) == old(self).refunded(now) && r == Ok::<
                EscrowRefunded,
                Error,
            >(old(self).refund_notice()),
            !transferred ==> *final(self) == *old(self) && r == Err::<EscrowRefunded, Error>(
                Error::TransferFailed,
            ),
    {
        if !transferred {
            return Err(Error::TransferFailed);
        }
        self.status = EscrowStatus::Refunded;
        self.completed_at = Some(now);
        Ok(EscrowRefunded { escrow_id: self.id, payer: self.payer, amount: self.amount })
    }

    /// Release payment to the payee, asked by the payer.
    ///
    /// Where the verdict refuses, its error is returned and the gateway is not
    /// called. Else the gateway is asked to move the amount to the payee; the
    /// record is completed at `now` if it reports success, and is left as it
    /// was, with `TransferFailed`, if it does not.
    pub fn release<G: FnOnce(AccountId, Balance) -> bool>(
        &mut self,
        caller: AccountId,
        now: Timestamp,
        timeout: u64,
        gateway: G,
    ) -> (r: Result<EscrowCompleted, Error>)
        requires
            old(self).release_verdict(caller, now, timeout) is Ok ==> gateway.requires(
                (old(self).payee, old(self).amount),
            ),
        ensures
            old(self).release_verdict(caller, now, timeout) is Err ==> *final(self) == *old(self)
                && r == Err::<EscrowCompleted, Error>(
                old(self).release_verdict(caller, now, timeout)->Err_0,
            ),
            old(self).release_verdict(caller, now, timeout) is Ok ==> {
                ||| (gateway.ensures((old(self).payee, old(self).amount), true) && *final(self)
                    == old(self).completed(now) && r == Ok::<EscrowCompleted, Error>(
                    old(self).completion_notice(),
                ))
                ||| (gateway.ensures((old(self).payee, old(self).amount), false) && *final(self)
                    == *old(self) && r == Err::<EscrowCompleted, Error>(Error::TransferFailed))
            },
            r is Err ==> *final(self) == *old(self),
            old(self).precedes(*final(self)),
            old(self).wf() ==> final(self).wf(),
    {
        match self.check_release(&caller, now, timeout) {
            Err(e) => {
                return Err(e);
            },
            Ok(_) => {},
        }
        let transferred = gateway(self.payee, self.amount);
        self.settle_completed(now, transferred)
    }

    /// Auto-release payment to the payee, asked by the payee after the
    /// timeout. The gateway is used as in `release`.
    pub fn auto_release<G: FnOnce(AccountId, Balance) -> bool>(
        &mut self,
        caller: AccountId,
        now: Timestamp,
        timeout: u64,
        gateway: G,
    ) -> (r: Result<EscrowCompleted, Error>)
        requires
            old(self).auto_release_verdict(caller, now, timeout) is Ok ==> gateway.requires(
                (old(self).payee, old(self).amount),
            ),
        ensures
            old(self).auto_release_verdict(caller, now, timeout) is Err ==> *final(self) == *old(
                self,
            ) && r == Err::<EscrowCompleted, Error>(
                old(self).auto_release_verdict(caller, now, timeout)->Err_0,
            ),
            old(self).auto_release_verdict(caller, now, timeout) is Ok ==> {
                ||| (gateway.ensures((old(self).payee, old(self).amount), true) && *final(self)
                    == old(self).completed(now) && r == Ok::<EscrowCompleted, Error>(
                    old(self).completion_notice(),
                ))
                ||| (gateway.ensures((old(self).payee, old(self).amount), false) && *final(self)
                    == *old(self) && r == Err::<EscrowCompleted, Error>(Error::TransferFailed))
            },
            r is Err ==> *final(self) == *old(self),
            old(self).precedes(*final(self)),
            old(self).wf() ==> final(self).wf(),
    {
        match self.check_auto_release(&caller, now, timeout) {
            Err(e) => {
                return Err(e);
            },
            Ok(_) => {},
        }
        let transferred = gateway(self.payee, self.amount);
        self.settle_completed(now, transferred)
    }

    /// Refund payment to the payer, asked by the payer, or by the payee after
    /// the timeout. The gateway is asked to move the amount to the payer.
    pub fn refund<G: FnOnce(AccountId, Balance) -> bool>(
        &mut self,
        caller: AccountId,
        now: Timestamp,
        timeout: u64,
        gateway: G,
    ) -> (r: Result<EscrowRefunded, Error>)
        requires
            old(self).refund_verdict(caller, now, timeout) is Ok ==> gateway.requires(
                (old(self).payer, old(self).amount),
            ),
        ensures
            old(self).refund_verdict(caller, now, timeout) is Err ==> *final(self) == *old(self)
                && r == Err::<EscrowRefunded, Error>(
                old(self).refund_verdict(caller, now, timeout)->Err_0,
            ),
            old(self).refund_verdict(caller, now, timeout) is Ok ==> {
                ||| (gateway.ensures((old(self).payer, old(self).amount), true) && *final(self)
                    == old(self).refunded(now) && r == Ok::<EscrowRefunded, Error>(
                    old(self).refund_notice(),
                ))
                ||| (gateway.ensures((old(self).payer, old(self).amount), false) && *final(self)
                    == *old(self) && r == Err::<EscrowRefunded, Error>(Error::TransferFailed))
            },
            r is Err ==> *final(self) == *old(self),
            old(self).precedes(*final(self)),
            old(self).wf() ==> final(self).wf(),
    {
        match self.check_refund(&caller, now, timeout) {
            Err(e) => {
                return Err(e);
            },
            Ok(_) => {},
        }
        let transferred = gateway(self.payer, self.amount);
        self.settle_refunded(now, transferred)
    }

    /// Link an external payment to the escrow. A hash that was recorded
    /// before is overwritten.
    pub fn link_x402(&mut self, caller: AccountId, hash: ink::primitives::Hash) -> (r: Result<
        X402PaymentLinked,
        Error,
    >)
        ensures
            old(self).link_verdict(caller) is Err ==> *final(self) == *old(self) && r == Err::<
                X402PaymentLinked,
                Error,
            >(old(self).link_verdict(caller)->Err_0),
            old(self).link_verdict(caller) is Ok ==> *final(self) == old(self).linked(hash) && r
                == Ok::<X402PaymentLinked, Error>(old(self).link_notice(hash)),
            old(self).precedes(*final(self)),
            old(self).wf() ==> final(self).wf(),
    {
        match self.check_link(&caller) {
            Err(e) => {
                return Err(e);
            },
            Ok(_) => {},
        }
        self.x402_payment_hash = Some(hash);
        Ok(X402PaymentLinked { escrow_id: self.id, payment_hash: hash })
    }

    /// Mark the external payment as verified, on the payee's word.
    pub fn verify_x402(&mut self, caller: AccountId) -> (r: Result<(), Error>)
        ensures
            r == old(self).verify_verdict(caller),
            r is Err ==> *final(self) == *old(self),
            r is Ok ==> *final(self) == old(self).verified(),
            old(self).precedes(*final(self)),
            old(self).wf() ==> final(self).wf(),
    {
        match self.check_verify(&caller) {
            Err(e) => {
                return Err(e);
            },
            Ok(_) => {},
        }
        self.x402_verified = true;
        Ok(())
    }

    /// Complete an external-channel escrow whose payment was verified. No
    /// value is moved here: it went through the external channel.
    pub fn release_x402(&mut self, caller: AccountId, now: Timestamp) -> (r: Result<
        EscrowCompleted,
        Error,
    >)
        ensures
            old(self).release_x402_verdict(caller) is Err ==> *final(self) == *old(self) && r
                == Err::<EscrowCompleted, Error>(old(self).release_x402_verdict(caller)->Err_0),
            old(self).release_x402_verdict(caller) is Ok ==> *final(self) == old(self).completed(
                now,
            ) && r == Ok::<EscrowCompleted, Error>(old(self).completion_notice()),
            old(self).precedes(*final(self)),
            old(self).wf() ==> final(self).wf(),
    {
        match self.check_release_x402(&caller) {
            Err(e) => {
                return Err(e);
            },
            Ok(_) => {},
        }
        self.settle_completed(now, true)
    }

    /// Freeze the escrow. Nothing leads out of `Disputed`.
    pub fn dispute(&mut self, caller: AccountId) -> (r: Result<EscrowDisputed, Error>)
        ensures
            old(self).dispute_verdict(caller) is Err ==> *final(self) == *old(self) && r == Err::<
                EscrowDisputed,
                Error,
            >(old(self).dispute_verdict(caller)->Err_0),
            old(self).dispute_verdict(caller) is Ok ==> *final(self) == old(self).disputed() && r
                == Ok::<EscrowDisputed, Error>(old(self).dispute_notice(caller)),
            old(self).precedes(*final(self)),
            old(self).wf() ==> final(self).wf(),
    {
        match self.check_dispute(&caller) {
            Err(e) => {
                return Err(e);
            },
            Ok(_) => {},
        }
        self.status = EscrowStatus::Disputed;
        Ok(EscrowDisputed { escrow_id: self.id, disputer: caller })
    }

    /// Takes one step on the record: the state machine of one escrow, from
    /// the record and the step to the record after it and the step's result.
    /// `step.transferred` is what the gateway answered; it is read only where
    /// the operation moves value and the verdict allowed it.
    pub fn apply(&mut self, step: &Step, timeout: u64) -> (r: Result<(), Error>)
        ensures
            r == old(self).result_of(*step, timeout),
            *final(self) == old(self).after(*step, timeout),
    {
        match step.call {
            Call::Release => {
                match self.check_release(&step.caller, step.now, timeout) {
                    Err(e) => Err(e),
                    Ok(_) => match self.settle_completed(step.now, step.transferred) {
                        Err(e) => Err(e),
                        Ok(_) => Ok(()),
                    },
                }
            },
            Call::AutoRelease => {
                match self.check_auto_release(&step.caller, step.now, timeout) {
                    Err(e) => Err(e),
                    Ok(_) => match self.settle_completed(step.now, step.transferred) {
                        Err(e) => Err(e),
                        Ok(_) => Ok(()),
                    },
                }
            },
            Call::Refund => {
                match self.check_refund(&step.caller, step.now, timeout) {
                    Err(e) => Err(e),
                    Ok(_) => match self.settle_refunded(step.now, step.transferred) {
                        Err(e) => Err(e),
                        Ok(_) => Ok(()),
                    },
                }
            },
            Call::Link(hash) => {
                match self.link_x402(step.caller, hash) {
                    Err(e) => Err(e),
                    Ok(_) => Ok(()),
                }
            },
            Call::Verify => self.verify_x402(step.caller),
            Call::ReleaseX402 => {
                match self.release_x402(step.caller, step.now) {
                    Err(e) => Err(e),
                    Ok(_) => Ok(()),
                }
            },
            Call::Dispute => {
                match self.dispute(step.caller) {
                    Err(e) => Err(e),
                    Ok(_) => Ok(()),
                }
            },
        }
    }
}

} // verus!
