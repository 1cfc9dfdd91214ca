//! The life of one escrow as a sequence of calls.
//!
//! A step is a call together with what the outside world gave it: who called,
//! at what time, and whether the transfer gateway would move the value. The
//! result of a step and the record after it are functions of the record
//! before it; a history is replayed from its first step.

use vstd::prelude::*;
use ink::primitives::AccountId;
use crate::error::Error;
use crate::identity::Timestamp;
use crate::record::EscrowDetails;

verus! {

/// The operations that can be asked of an existing escrow.
#[derive(Debug, PartialEq, Eq, Clone, Copy)]
pub enum Call {
    Release,
    AutoRelease,
    Refund,
    Link(ink::primitives::Hash),
    Verify,
    ReleaseX402,
    Dispute,
}

/// One call and its circumstances.
#[derive(Debug, PartialEq, Eq, Clone, Copy)]
pub struct Step {
    pub call: Call,
    pub caller: AccountId,
    pub now: Timestamp,
    /// What the gateway answers if it is asked.
    pub transferred: bool,
}

impl Call {
    /// Whether the operation asks the gateway to move value.
    pub open spec fn moves_value(self) -> bool {
        self is Release || self is AutoRelease || self is Refund
    }
}

impl EscrowDetails {
    /// The verdict on `step`, before any value is moved.
    pub open spec fn verdict(&self, step: Step, timeout: u64) -> Result<(), Error> {
        match step.call {
            Call::Release => self.release_verdict(step.caller, step.now, timeout),
            Call::AutoRelease => self.auto_release_verdict(step.caller, step.now, timeout),
            Call::Refund => self.refund_verdict(step.caller, step.now, timeout),
            Call::Link(_) => self.link_verdict(step.caller),
            Call::Verify => self.verify_verdict(step.caller),
            Call::ReleaseX402 => self.release_x402_verdict(step.caller),
            Call::Dispute => self.dispute_verdict(step.caller),
        }
    }

    /// What the record becomes where `step` succeeds.
    pub open spec fn effect(&self, step: Step) -> EscrowDetails {
        match step.call {
            Call::Release => self.completed(step.now),
            Call::AutoRelease => self.completed(step.now),
            Call::Refund => self.refunded(step.now),
            Call::Link(hash) => self.linked(hash),
            Call::Verify => self.verified(),
            Call::ReleaseX402 => self.completed(step.now),
            Call::Dispute => self.disputed(),
        }
    }

    /// What `step` returns: the verdict's error, else `TransferFailed` where
    /// value had to move and the gateway failed, else success.
    pub open spec fn result_of(&self, step: Step, timeout: u64) -> Result<(), Error> {
        match self.verdict(step, timeout) {
            Err(e) => Err(e),
            Ok(_) => if step.call.moves_value() && !step.transferred {
                Err(Error::TransferFailed)
            } else {
                Ok(())
            },
        }
    }

    /// The record after `step`: its effect where the step succeeds, the
    /// record itself where it does not.
    pub open spec fn after(&self, step: Step, timeout: u64) -> EscrowDetails {
        if self.result_of(step, timeout) is Ok {
            self.effect(step)
        } else {
            *self
        }
    }
}

/// The record after all of `steps`, taken in order from `start`.
pub open spec fn replay(start: EscrowDetails, steps: Seq<Step>, timeout: u64) -> EscrowDetails
    decreases steps.len(),
{
    if steps.len() == 0 {
        start
    } else {
        replay(start, steps.drop_last(), timeout).after(steps.last(), timeout)
    }
}

/// Whether the step at position `i` of `steps` succeeds in its turn.
pub open spec fn succeeds_at(start: EscrowDetails, steps: Seq<Step>, timeout: u64, i: int) -> bool {
    0 <= i < steps.len() && replay(start, steps.take(i), timeout).result_of(steps[i], timeout)
        is Ok
}

} // verus!
