//! The escrow engine: the store of all escrows and the operations on it.
//!
//! Every operation is one atomic step. The caller's identity, the time and the
//! attached amount come in as arguments; the transfer gateway comes in as a
//! function from recipient and amount to success; notifications go out at the
//! end of `events`.

use vstd::prelude::*;
use ink::primitives::AccountId;
use crate::book::ids_of;
use crate::book::lemma_ids_of_push;
use crate::book::lemma_with_new;
use crate::book::lemma_with_record;
use crate::book::EscrowBook;
use crate::error::Error;
use crate::events::Notification;
use crate::identity::same_account;
use crate::identity::Balance;
use crate::identity::Timestamp;
use crate::operations::check_amount;
use crate::record::amount_accepted;
use crate::record::EscrowDetails;

verus! {

/// One entry of the party index: `party` takes part in the escrow `escrow_id`.
struct PartyEntry {
    party: AccountId,
    escrow_id: u64,
}

/// Storage of the escrow engine.
pub struct PaymentEscrow {
    escrows: Vec<EscrowDetails>,
    user_escrows: Vec<PartyEntry>,
    // Timeout period in milliseconds (e.g., 1 hour = 3600000)
    escrow_timeout: u64,
}

impl View for PaymentEscrow {
    type V = EscrowBook;

    closed spec fn view(&self) -> EscrowBook {
        EscrowBook {
            records: self.escrows@,
            party_log: self.user_escrows@.map_values(|e: PartyEntry| (e.party, e.escrow_id)),
            timeout: self.escrow_timeout,
        }
    }
}

impl PaymentEscrow {
    /// The invariant of the engine: that of its store.
    pub open spec fn wf(&self) -> bool {
        self@.wf()
    }

    /// An engine without escrows, with the given timeout.
    pub fn new(escrow_timeout: u64) -> (r: Self)
        ensures
            r.wf(),
            r@ == EscrowBook::empty(escrow_timeout),
    {
        let r = PaymentEscrow { escrows: Vec::new(), user_escrows: Vec::new(), escrow_timeout };
        assert(r@.party_log =~= Seq::<(AccountId, u64)>::empty());
        r
    }

    /// An engine without escrows, with a timeout of one hour.
    pub fn default() -> (r: Self)
        ensures
            r.wf(),
            r@ == EscrowBook::empty(3600000),
    {
        Self::new(3600000)
    }

    /// The place of the escrow `escrow_id` in the store.
    fn position(&self, escrow_id: u64) -> (r: Option<usize>)
        ensures
            self@.escrow(escrow_id) is None ==> r is None,
            self@.escrow(escrow_id) is Some ==> r is Some && r->Some_0 == escrow_id - 1,
    {
        if escrow_id == 0 {
            return None;
        }
        let len: usize = self.escrows.len();
        if escrow_id - 1 >= len as u64 {
            return None;
        }
        Some((escrow_id - 1) as usize)
    }

    /// Appends one entry to the party index.
    fn append_to_party_index(&mut self, party: AccountId, escrow_id: u64)
        ensures
            final(self)@ == (EscrowBook {
                party_log: old(self)@.party_log.push((party, escrow_id)),
                ..old(self)@
            }),
    {
        self.user_escrows.push(PartyEntry { party, escrow_id });
        assert(self@.party_log =~= old(self)@.party_log.push((party, escrow_id)));
    }

    /// Creates an escrow that `payer` opens for `payee` with `amount`
    /// attached, and returns its identifier.
    ///
    /// A zero amount is refused with `InvalidAmount` unless the escrow uses
    /// the external channel; a refused creation takes no identifier.
    pub fn create_escrow(
        &mut self,
        payer: AccountId,
        amount: Balance,
        now: Timestamp,
        payee: AccountId,
        service_id: u64,
        payment_code: String,
        uses_x402: bool,
        x402_token_address: Option<AccountId>,
        events: &mut Vec<Notification>,
    ) -> (r: Result<u64, Error>)
        requires
            old(self).wf(),
            amount_accepted(amount, uses_x402) ==> old(self)@.next_id() <= u64::MAX,
        ensures
            final(self).wf(),
            old(self)@.evolves_to(final(self)@),
            !amount_accepted(amount, uses_x402) ==> {
                &&& r == Err::<u64, Error>(Error::InvalidAmount)
                &&& final(self)@ == old(self)@
                &&& final(events)@ == old(events)@
            },
            amount_accepted(amount, uses_x402) ==> {
                let record = EscrowDetails::opened(
                    old(self)@.next_id() as u64,
                    payer,
                    payee,
                    amount,
                    service_id,
                    now,
                    payment_code,
                    uses_x402,
                    x402_token_address,
                );
                &&& r == Ok::<u64, Error>(record.id)
                &&& final(self)@ == old(self)@.with_new(record)
                &&& final(events)@ == old(events)@.push(
                    Notification::Created(record.creation_notice()),
                )
            },
    {
        match check_amount(amount, uses_x402) {
            Err(e) => {
                return Err(e);
            },
            Ok(_) => {},
        }
        let count: usize = self.escrows.len();
        let escrow_id: u64 = count as u64 + 1;
        let opened = EscrowDetails::open(
            escrow_id,
            payer,
            payee,
            amount,
            service_id,
            now,
            payment_code,
            uses_x402,
            x402_token_address,
        );
        match opened {
            Err(e) => Err(e),
            Ok(escrow) => {
                let notice = escrow.creation();
                proof {
                    lemma_with_new(self@, escrow);
                }
                self.escrows.push(escrow);
                self.append_to_party_index(payer, escrow_id);
                self.append_to_party_index(payee, escrow_id);
                events.push(Notification::Created(notice));
                Ok(escrow_id)
            },
        }
    }

    /// Release payment to the payee, asked by the payer before the timeout.
    ///
    /// Errors: `EscrowNotFound`; else those of the verdict on a manual
    /// release; else `TransferFailed` where the gateway reports failure. Any
    /// error leaves the store and `events` as they were. On success the
    /// escrow is completed at `now` and the completion is notified.
    pub fn release_payment<G: FnOnce(AccountId, Balance) -> bool>(
        &mut self,
        caller: AccountId,
        now: Timestamp,
        escrow_id: u64,
        gateway: G,
        events: &mut Vec<Notification>,
    ) -> (r: Result<(), Error>)
        requires
            old(self).wf(),
            old(self)@.escrow(escrow_id) matches Some(e) ==> (e.release_verdict(
                caller,
                now,
                old(self)@.timeout,
            ) is Ok ==> gateway.requires((e.payee, e.amount))),
        ensures
            final(self).wf(),
            old(self)@.evolves_to(final(self)@),
            r is Err ==> final(self)@ == old(self)@ && final(events)@ == old(events)@,
            old(self)@.escrow(escrow_id) is None ==> r == Err::<(), Error>(Error::EscrowNotFound),
            old(self)@.escrow(escrow_id) matches Some(e) ==> {
                let verdict = e.release_verdict(caller, now, old(self)@.timeout);
                &&& verdict is Err ==> r == verdict
                &&& verdict is Ok ==> {
                    ||| {
                        &&& gateway.ensures((e.payee, e.amount), true)
                        &&& r == Ok::<(), Error>(())
                        &&& final(self)@ == old(self)@.with_record(escrow_id, e.completed(now))
                        &&& final(events)@ == old(events)@.push(
                            Notification::Completed(e.completion_notice()),
                        )
                    }
                    ||| {
                        &&& gateway.ensures((e.payee, e.amount), false)
                        &&& r == Err::<(), Error>(Error::TransferFailed)
                    }
                }
            },
    {
        let i = match self.position(escrow_id) {
            None => {
                return Err(Error::EscrowNotFound);
            },
            Some(i) => i,
        };
        let timeout = self.escrow_timeout;
        let mut escrow = self.escrows[i].clone();
        match escrow.release(caller, now, timeout, gateway) {
            Err(e) => Err(e),
            Ok(notice) => {
                proof {
                    lemma_with_record(self@, escrow_id, escrow);
                }
                self.escrows[i] = escrow;
                assert(self@.party_log =~= old(self)@.party_log);
                events.push(Notification::Completed(notice));
                Ok(())
            },
        }
    }

    /// Auto-release payment to the payee, asked by the payee after the
    /// timeout.
    ///
    /// Errors: `EscrowNotFound`; else those of the verdict on an automatic
    /// release; else `TransferFailed` where the gateway reports failure. Any
    /// error leaves the store and `events` as they were. On success the
    /// escrow is completed at `now` and the completion is notified.
    pub fn auto_release_payment<G: FnOnce(AccountId, Balance) -> bool>(
        &mut self,
        caller: AccountId,
        now: Timestamp,
        escrow_id: u64,
        gateway: G,
        events: &mut Vec<Notification>,
    ) -> (r: Result<(), Error>)
        requires
            old(self).wf(),
            old(self)@.escrow(escrow_id) matches Some(e) ==> (e.auto_release_verdict(
                caller,
                now,
                old(self)@.timeout,
            ) is Ok ==> gateway.requires((e.payee, e.amount))),
        ensures
            final(self).wf(),
            old(self)@.evolves_to(final(self)@),
            r is Err ==> final(self)@ == old(self)@ && final(events)@ == old(events)@,
            old(self)@.escrow(escrow_id) is None ==> r == Err::<(), Error>(Error::EscrowNotFound),
            old(self)@.escrow(escrow_id) matches Some(e) ==> {
                let verdict = e.auto_release_verdict(caller, now, old(self)@.timeout);
                &&& verdict is Err ==> r == verdict
                &&& verdict is Ok ==> {
                    ||| {
                        &&& gateway.ensures((e.payee, e.amount), true)
                        &&& r == Ok::<(), Error>(())
                        &&& final(self)@ == old(self)@.with_record(escrow_id, e.completed(now))
                        &&& final(events)@ == old(events)@.push(
                            Notification::Completed(e.completion_notice()),
                        )
                    }
                    ||| {
                        &&& gateway.ensures((e.payee, e.amount), false)
                        &&& r == Err::<(), Error>(Error::TransferFailed)
                    }
                }
            },
    {
        let i = match self.position(escrow_id) {
            None => {
                return Err(Error::EscrowNotFound);
            },
            Some(i) => i,
        };
        let timeout = self.escrow_timeout;
        let mut escrow = self.escrows[i].clone();
        match escrow.auto_release(caller, now, timeout, gateway) {
            Err(e) => Err(e),
            Ok(notice) => {
                proof {
                    lemma_with_record(self@, escrow_id, escrow);
                }
                self.escrows[i] = escrow;
                assert(self@.party_log =~= old(self)@.party_log);
                events.push(Notification::Completed(notice));
                Ok(())
            },
        }
    }

    /// Refund payment to the payer, asked by the payer, or by the payee after
    /// the timeout.
    ///
    /// Errors: `EscrowNotFound`; else those of the verdict on a refund; else
    /// `TransferFailed` where the gateway reports failure. Any error leaves
    /// the store and `events` as they were. On success the escrow is refunded
    /// at `now` and the refund is notified.
    pub fn refund<G: FnOnce(AccountId, Balance) -> bool>(
        &mut self,
        caller: AccountId,
        now: Timestamp,
        escrow_id: u64,
        gateway: G,
        events: &mut Vec<Notification>,
    ) -> (r: Result<(), Error>)
        requires
            old(self).wf(),
            old(self)@.escrow(escrow_id) matches Some(e) ==> (e.refund_verdict(
                caller,
                now,
                old(self)@.timeout,
            ) is Ok ==> gateway.requires((e.payer, e.amount))),
        ensures
            final(self).wf(),
            old(self)@.evolves_to(final(self)@),
            r is Err ==> final(self)@ == old(self)@ && final(events)@ == old(events)@,
            old(self)@.escrow(escrow_id) is None ==> r == Err::<(), Error>(Error::EscrowNotFound),
            old(self)@.escrow(escrow_id) matches Some(e) ==> {
                let verdict = e.refund_verdict(caller, now, old(self)@.timeout);
                &&& verdict is Err ==> r == verdict
                &&& verdict is Ok ==> {
                    ||| {
                        &&& gateway.ensures((e.payer, e.amount), true)
                        &&& r == Ok::<(), Error>(())
                        &&& final(self)@ == old(self)@.with_record(escrow_id, e.refunded(now))
                        &&& final(events)@ == old(events)@.push(
                            Notification::Refunded(e.refund_notice()),
                        )
                    }
                    ||| {
                        &&& gateway.ensures((e.payer, e.amount), false)
                        &&& r == Err::<(), Error>(Error::TransferFailed)
                    }
                }
            },
    {
        let i = match self.position(escrow_id) {
            None => {
                return Err(Error::EscrowNotFound);
            },
            Some(i) => i,
        };
        let timeout = self.escrow_timeout;
        let mut escrow = self.escrows[i].clone();
        match escrow.refund(caller, now, timeout, gateway) {
            Err(e) => Err(e),
            Ok(notice) => {
                proof {
                    lemma_with_record(self@, escrow_id, escrow);
                }
                self.escrows[i] = escrow;
                assert(self@.party_log =~= old(self)@.party_log);
                events.push(Notification::Refunded(notice));
                Ok(())
            },
        }
    }

    /// Link an external payment to an escrow, asked by either party. A hash
    /// that was linked before is overwritten.
    ///
    /// Errors: `EscrowNotFound`; else those of the verdict on linking. Any
    /// error leaves the store and `events` as they were. On success the hash
    /// is recorded and the linkage is notified.
    pub fn link_x402_payment(
        &mut self,
        caller: AccountId,
        escrow_id: u64,
        x402_payment_hash: ink::primitives::Hash,
        events: &mut Vec<Notification>,
    ) -> (r: Result<(), Error>)
        requires
            old(self).wf(),
        ensures
            final(self).wf(),
            old(self)@.evolves_to(final(self)@),
            r is Err ==> final(self)@ == old(self)@ && final(events)@ == old(events)@,
            old(self)@.escrow(escrow_id) is None ==> r == Err::<(), Error>(Error::EscrowNotFound),
            old(self)@.escrow(escrow_id) matches Some(e) ==> {
                &&& r == e.link_verdict(caller)
                &&& r is Ok ==> {
                    &&& final(self)@ == old(self)@.with_record(
                        escrow_id,
                        e.linked(x402_payment_hash),
                    )
                    &&& final(events)@ == old(events)@.push(
                        Notification::Linked(e.link_notice(x402_payment_hash)),
                    )
                }
            },
    {
        let i = match self.position(escrow_id) {
            None => {
                return Err(Error::EscrowNotFound);
            },
            Some(i) => i,
        };
        let mut escrow = self.escrows[i].clone();
        match escrow.link_x402(caller, x402_payment_hash) {
            Err(e) => Err(e),
            Ok(notice) => {
                proof {
                    lemma_with_record(self@, escrow_id, escrow);
                }
                self.escrows[i] = escrow;
                assert(self@.party_log =~= old(self)@.party_log);
                events.push(Notification::Linked(notice));
                Ok(())
            },
        }
    }

    /// Mark the external payment of an escrow as verified, on the payee's
    /// word. Nothing is notified.
    ///
    /// Errors: `EscrowNotFound`; else those of the verdict on verifying. Any
    /// error leaves the store as it was.
    pub fn verify_x402_payment(&mut self, caller: AccountId, escrow_id: u64) -> (r: Result<
        (),
        Error,
    >)
        requires
            old(self).wf(),
        ensures
            final(self).wf(),
            old(self)@.evolves_to(final(self)@),
            r is Err ==> final(self)@ == old(self)@,
            old(self)@.escrow(escrow_id) is None ==> r == Err::<(), Error>(Error::EscrowNotFound),
            old(self)@.escrow(escrow_id) matches Some(e) ==> {
                &&& r == e.verify_verdict(caller)
                &&& r is Ok ==> final(self)@ == old(self)@.with_record(escrow_id, e.verified())
            },
    {
        let i = match self.position(escrow_id) {
            None => {
                return Err(Error::EscrowNotFound);
            },
            Some(i) => i,
        };
        let mut escrow = self.escrows[i].clone();
        match escrow.verify_x402(caller) {
            Err(e) => Err(e),
            Ok(_) => {
                proof {
                    lemma_with_record(self@, escrow_id, escrow);
                }
                self.escrows[i] = escrow;
                assert(self@.party_log =~= old(self)@.party_log);
                Ok(())
            },
        }
    }

    /// Complete an external-channel escrow whose payment was verified, asked
    /// by the payee. No value is moved.
    ///
    /// Errors: `EscrowNotFound`; else those of the verdict on a release
    /// through the external channel. Any error leaves the store and `events`
    /// as they were. On success the escrow is completed at `now` and the
    /// completion is notified.
    pub fn release_x402_payment(
        &mut self,
        caller: AccountId,
        now: Timestamp,
        escrow_id: u64,
        events: &mut Vec<Notification>,
    ) -> (r: Result<(), Error>)
        requires
            old(self).wf(),
        ensures
            final(self).wf(),
            old(self)@.evolves_to(final(self)@),
            r is Err ==> final(self)@ == old(self)@ && final(events)@ == old(events)@,
            old(self)@.escrow(escrow_id) is None ==> r == Err::<(), Error>(Error::EscrowNotFound),
            old(self)@.escrow(escrow_id) matches Some(e) ==> {
                &&& r == e.release_x402_verdict(caller)
                &&& r is Ok ==> {
                    &&& final(self)@ == old(self)@.with_record(escrow_id, e.completed(now))
                    &&& final(events)@ == old(events)@.push(
                        Notification::Completed(e.completion_notice()),
                    )
                }
            },
    {
        let i = match self.position(escrow_id) {
            None => {
                return Err(Error::EscrowNotFound);
            },
            Some(i) => i,
        };
        let mut escrow = self.escrows[i].clone();
        match escrow.release_x402(caller, now) {
            Err(e) => Err(e),
            Ok(notice) => {
                proof {
                    lemma_with_record(self@, escrow_id, escrow);
                }
                self.escrows[i] = escrow;
                assert(self@.party_log =~= old(self)@.party_log);
                events.push(Notification::Completed(notice));
                Ok(())
            },
        }
    }

    /// Dispute an escrow, asked by either party. A disputed escrow stays
    /// disputed.
    ///
    /// Errors: `EscrowNotFound`; else those of the verdict on a dispute. Any
    /// error leaves the store and `events` as they were. On success the
    /// escrow is frozen and the dispute is notified with its caller.
    pub fn dispute_escrow(
        &mut self,
        caller: AccountId,
        escrow_id: u64,
        events: &mut Vec<Notification>,
    ) -> (r: Result<(), Error>)
        requires
            old(self).wf(),
        ensures
            final(self).wf(),
            old(self)@.evolves_to(final(self)@),
            r is Err ==> final(self)@ == old(self)@ && final(events)@ == old(events)@,
            old(self)@.escrow(escrow_id) is None ==> r == Err::<(), Error>(Error::EscrowNotFound),
            old(self)@.escrow(escrow_id) matches Some(e) ==> {
                &&& r == e.dispute_verdict(caller)
                &&& r is Ok ==> {
                    &&& final(self)@ == old(self)@.with_record(escrow_id, e.disputed())
                    &&& final(events)@ == old(events)@.push(
                        Notification::Disputed(e.dispute_notice(caller)),
                    )
                }
            },
    {
        let i = match self.position(escrow_id) {
            None => {
                return Err(Error::EscrowNotFound);
            },
            Some(i) => i,
        };
        let mut escrow = self.escrows[i].clone();
        match escrow.dispute(caller) {
            Err(e) => Err(e),
            Ok(notice) => {
                proof {
                    lemma_with_record(self@, escrow_id, escrow);
                }
                self.escrows[i] = escrow;
                assert(self@.party_log =~= old(self)@.party_log);
                events.push(Notification::Disputed(notice));
                Ok(())
            },
        }
    }

    /// Get the external payment hash of an escrow.
    pub fn get_x402_payment_hash(&self, escrow_id: u64) -> (r: Result<
        Option<ink::primitives::Hash>,
        Error,
    >)
        ensures
            r == match self@.escrow(escrow_id) {
                Some(e) => Ok::<Option<ink::primitives::Hash>, Error>(e.x402_payment_hash),
                None => Err::<Option<ink::primitives::Hash>, Error>(Error::EscrowNotFound),
            },
    {
        match self.position(escrow_id) {
            None => Err(Error::EscrowNotFound),
            Some(i) => Ok(self.escrows[i].x402_payment_hash),
        }
    }

    /// Check if an escrow uses the external channel.
    pub fn is_x402_escrow(&self, escrow_id: u64) -> (r: Result<bool, Error>)
        ensures
            r == match self@.escrow(escrow_id) {
                Some(e) => Ok::<bool, Error>(e.uses_x402),
                None => Err::<bool, Error>(Error::EscrowNotFound),
            },
    {
        match self.position(escrow_id) {
            None => Err(Error::EscrowNotFound),
            Some(i) => Ok(self.escrows[i].uses_x402),
        }
    }

    /// Check if an escrow is expired at `now`.
    pub fn is_escrow_expired(&self, now: Timestamp, escrow_id: u64) -> (r: Result<bool, Error>)
        ensures
            r == match self@.escrow(escrow_id) {
                Some(e) => Ok::<bool, Error>(e.expired(now, self@.timeout)),
                None => Err::<bool, Error>(Error::EscrowNotFound),
            },
    {
        match self.position(escrow_id) {
            None => Err(Error::EscrowNotFound),
            Some(i) => Ok(self.escrows[i].is_expired(now, self.escrow_timeout)),
        }
    }

    /// Get the escrows of a party: the identifiers under which it is listed,
    /// oldest first.
    pub fn get_user_escrows(&self, user: AccountId) -> (r: Vec<u64>)
        ensures
            r@ == self@.party_escrows(user),
    {
        let mut found: Vec<u64> = Vec::new();
        let n: usize = self.user_escrows.len();
        let mut i: usize = 0;
        assert(self@.party_log.take(0) =~= Seq::<(AccountId, u64)>::empty());
        while i < n
            invariant
                n == self.user_escrows.len(),
                i <= n,
                found@ == ids_of(self@.party_log.take(i as int), user),
            decreases n - i,
        {
            let entry = &self.user_escrows[i];
            proof {
                let log = self@.party_log;
                assert(log.take(i + 1) =~= log.take(i as int).push(log[i as int]));
                lemma_ids_of_push(log.take(i as int), log[i as int], user);
            }
            if same_account(&entry.party, &user) {
                found.push(entry.escrow_id);
            }
            i += 1;
        }
        assert(self@.party_log.take(n as int) =~= self@.party_log);
        found
    }

    /// Get escrow details.
    pub fn get_escrow(&self, escrow_id: u64) -> (r: Result<EscrowDetails, Error>)
        ensures
            r == match self@.escrow(escrow_id) {
                Some(e) => Ok::<EscrowDetails, Error>(e),
                None => Err::<EscrowDetails, Error>(Error::EscrowNotFound),
            },
    {
        match self.position(escrow_id) {
            None => Err(Error::EscrowNotFound),
            Some(i) => Ok(self.escrows[i].clone()),
        }
    }

    /// Get total escrow count.
    pub fn get_escrow_count(&self) -> (r: u64)
        ensures
            r == self@.records.len(),
    {
        let len: usize = self.escrows.len();
        len as u64
    }

    /// Get escrow timeout period.
    pub fn get_escrow_timeout(&self) -> (r: u64)
        ensures
            r == self@.timeout,
    {
        self.escrow_timeout
    }
}

} // verus!
