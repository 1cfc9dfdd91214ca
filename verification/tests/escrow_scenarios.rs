use std::cell::RefCell;

use ink::primitives::AccountId;
use payment_escrow::error::Error;
use payment_escrow::escrow::PaymentEscrow;
use payment_escrow::events::EscrowCompleted;
use payment_escrow::events::EscrowCreated;
use payment_escrow::events::EscrowDisputed;
use payment_escrow::events::EscrowRefunded;
use payment_escrow::events::Notification;
use payment_escrow::events::X402PaymentLinked;
use payment_escrow::record::EscrowDetails;
use payment_escrow::status::EscrowStatus;

const TIMEOUT: u64 = 3_600_000;

fn alice() -> AccountId {
    AccountId::from([1u8; 32])
}

fn bob() -> AccountId {
    AccountId::from([2u8; 32])
}

fn carol() -> AccountId {
    AccountId::from([3u8; 32])
}

/// A ledger of what the gateway was asked to move.
struct Ledger {
    moved: RefCell<Vec<(AccountId, u128)>>,
}

impl Ledger {
    fn new() -> Self {
        Ledger { moved: RefCell::new(Vec::new()) }
    }

    fn pay(&self, to: AccountId, amount: u128) -> bool {
        self.moved.borrow_mut().push((to, amount));
        true
    }

    fn balance(&self, who: AccountId) -> u128 {
        self.moved.borrow().iter().filter(|(to, _)| *to == who).map(|(_, a)| *a).sum()
    }

    fn attempts(&self) -> usize {
        self.moved.borrow().len()
    }
}

fn open_plain(engine: &mut PaymentEscrow, events: &mut Vec<Notification>, now: u64) -> u64 {
    engine
        .create_escrow(alice(), 1000, now, bob(), 7, String::from("code-1"), false, None, events)
        .unwrap()
}

fn open_external(engine: &mut PaymentEscrow, events: &mut Vec<Notification>, now: u64) -> u64 {
    engine
        .create_escrow(alice(), 0, now, bob(), 7, String::from("code-x"), true, Some(carol()), events)
        .unwrap()
}

#[test]
fn scenario_release_by_payer_before_timeout() {
    let mut engine = PaymentEscrow::default();
    let mut events = Vec::new();
    let ledger = Ledger::new();
    let id = engine
        .create_escrow(alice(), 1000, 10, bob(), 7, String::from("code-1"), false, None, &mut events)
        .unwrap();
    assert_eq!(id, 1);
    assert_eq!(
        events,
        vec![Notification::Created(EscrowCreated {
            escrow_id: 1,
            payer: alice(),
            payee: bob(),
            amount: 1000,
            service_id: 7,
        })]
    );

    let r = engine.release_payment(alice(), 20, 1, |to, amount| ledger.pay(to, amount), &mut events);
    assert_eq!(r, Ok(()));
    let escrow = engine.get_escrow(1).unwrap();
    assert_eq!(escrow.status, EscrowStatus::Completed);
    assert_eq!(escrow.completed_at, Some(20));
    assert_eq!(ledger.balance(bob()), 1000);
    assert_eq!(ledger.attempts(), 1);
    assert_eq!(
        events[1],
        Notification::Completed(EscrowCompleted { escrow_id: 1, payee: bob(), amount: 1000 })
    );

    let again = engine.release_payment(alice(), 21, 1, |to, amount| ledger.pay(to, amount), &mut events);
    assert_eq!(again, Err(Error::InvalidStatus));
    assert_eq!(ledger.attempts(), 1);
    assert_eq!(events.len(), 2);
    assert_eq!(engine.get_escrow(1).unwrap(), escrow);
}

#[test]
fn scenario_external_channel_flow() {
    let mut engine = PaymentEscrow::default();
    let mut events = Vec::new();
    let ledger = Ledger::new();
    let id = engine
        .create_escrow(alice(), 0, 10, bob(), 7, String::from("code-x"), true, None, &mut events)
        .unwrap();
    assert_eq!(id, 1);

    let r = engine.release_payment(alice(), 20, 1, |to, amount| ledger.pay(to, amount), &mut events);
    assert_eq!(r, Err(Error::InvalidStatus));

    let hash = ink::primitives::Hash::from([9u8; 32]);
    assert_eq!(engine.link_x402_payment(alice(), 1, hash, &mut events), Ok(()));
    assert_eq!(engine.get_x402_payment_hash(1), Ok(Some(hash)));
    assert_eq!(events[1], Notification::Linked(X402PaymentLinked { escrow_id: 1, payment_hash: hash }));
    assert_eq!(engine.verify_x402_payment(bob(), 1), Ok(()));
    assert!(engine.get_escrow(1).unwrap().x402_verified);
    assert_eq!(engine.release_x402_payment(bob(), 30, 1, &mut events), Ok(()));

    let escrow = engine.get_escrow(1).unwrap();
    assert_eq!(escrow.status, EscrowStatus::Completed);
    assert_eq!(escrow.completed_at, Some(30));
    assert_eq!(ledger.attempts(), 0);
    assert_eq!(
        events[2],
        Notification::Completed(EscrowCompleted { escrow_id: 1, payee: bob(), amount: 0 })
    );
    assert_eq!(events.len(), 3);
}

#[test]
fn scenario_refund_by_payee_after_timeout() {
    let mut engine = PaymentEscrow::default();
    let mut events = Vec::new();
    let ledger = Ledger::new();
    assert_eq!(open_plain(&mut engine, &mut events, 10), 1);

    let now = 10 + TIMEOUT + 1;
    let r = engine.refund(bob(), now, 1, |to, amount| ledger.pay(to, amount), &mut events);
    assert_eq!(r, Ok(()));
    let escrow = engine.get_escrow(1).unwrap();
    assert_eq!(escrow.status, EscrowStatus::Refunded);
    assert_eq!(escrow.completed_at, Some(now));
    assert_eq!(ledger.balance(alice()), 1000);
    assert_eq!(ledger.balance(bob()), 0);
    assert_eq!(
        events[1],
        Notification::Refunded(EscrowRefunded { escrow_id: 1, payer: alice(), amount: 1000 })
    );
}

#[test]
fn scenario_dispute_is_a_dead_end() {
    let mut engine = PaymentEscrow::default();
    let mut events = Vec::new();
    let ledger = Ledger::new();
    assert_eq!(open_plain(&mut engine, &mut events, 10), 1);

    assert_eq!(engine.dispute_escrow(bob(), 1, &mut events), Ok(()));
    let frozen = engine.get_escrow(1).unwrap();
    assert_eq!(frozen.status, EscrowStatus::Disputed);
    assert_eq!(frozen.completed_at, None);
    assert_eq!(events[1], Notification::Disputed(EscrowDisputed { escrow_id: 1, disputer: bob() }));

    for now in [11u64, 10 + TIMEOUT, 10 + TIMEOUT + 1, u64::MAX] {
        assert_eq!(
            engine.release_payment(alice(), now, 1, |to, amount| ledger.pay(to, amount), &mut events),
            Err(Error::InvalidStatus)
        );
        assert_eq!(
            engine.refund(alice(), now, 1, |to, amount| ledger.pay(to, amount), &mut events),
            Err(Error::InvalidStatus)
        );
        assert_eq!(engine.dispute_escrow(alice(), 1, &mut events), Err(Error::InvalidStatus));
        assert_eq!(engine.dispute_escrow(bob(), 1, &mut events), Err(Error::InvalidStatus));
    }
    assert_eq!(engine.get_escrow(1).unwrap(), frozen);
    assert_eq!(ledger.attempts(), 0);
    assert_eq!(events.len(), 2);
}

#[test]
fn new_engine_is_empty() {
    let engine = PaymentEscrow::new(500);
    assert_eq!(engine.get_escrow_count(), 0);
    assert_eq!(engine.get_escrow_timeout(), 500);
    assert_eq!(engine.get_escrow(1), Err(Error::EscrowNotFound));
    assert_eq!(engine.get_escrow(0), Err(Error::EscrowNotFound));
    assert_eq!(engine.get_user_escrows(alice()), Vec::<u64>::new());
}

#[test]
fn default_timeout_is_one_hour() {
    assert_eq!(PaymentEscrow::default().get_escrow_timeout(), 3_600_000);
}

#[test]
fn created_record_holds_what_was_given() {
    let mut engine = PaymentEscrow::default();
    let mut events = Vec::new();
    let id = open_external(&mut engine, &mut events, 42);
    assert_eq!(
        engine.get_escrow(id),
        Ok(EscrowDetails {
            id: 1,
            payer: alice(),
            payee: bob(),
            amount: 0,
            service_id: 7,
            status: EscrowStatus::Pending,
            created_at: 42,
            completed_at: None,
            payment_code: String::from("code-x"),
            uses_x402: true,
            x402_payment_hash: None,
            x402_verified: false,
            x402_token_address: Some(carol()),
        })
    );
    assert_eq!(engine.is_x402_escrow(id), Ok(true));
    assert_eq!(engine.get_x402_payment_hash(id), Ok(None));
}

#[test]
fn zero_amount_needs_the_external_channel() {
    let mut engine = PaymentEscrow::default();
    let mut events = Vec::new();
    let refused =
        engine.create_escrow(alice(), 0, 1, bob(), 7, String::from("c"), false, None, &mut events);
    assert_eq!(refused, Err(Error::InvalidAmount));
    assert_eq!(engine.get_escrow_count(), 0);
    assert!(events.is_empty());
    assert_eq!(engine.get_user_escrows(alice()), Vec::<u64>::new());

    // a refused creation takes no identifier
    assert_eq!(open_plain(&mut engine, &mut events, 2), 1);
    assert_eq!(open_external(&mut engine, &mut events, 3), 2);
    assert_eq!(engine.get_escrow_count(), 2);
    assert_eq!(engine.is_x402_escrow(1), Ok(false));
}

#[test]
fn identifiers_count_up_from_one() {
    let mut engine = PaymentEscrow::default();
    let mut events = Vec::new();
    for expected in 1..=5u64 {
        assert_eq!(open_plain(&mut engine, &mut events, expected), expected);
        assert_eq!(engine.get_escrow(expected).unwrap().id, expected);
    }
    assert_eq!(engine.get_escrow_count(), 5);
    assert_eq!(engine.get_escrow(6), Err(Error::EscrowNotFound));
}

#[test]
fn party_index_lists_payer_then_payee() {
    let mut engine = PaymentEscrow::default();
    let mut events = Vec::new();
    open_plain(&mut engine, &mut events, 1);
    engine
        .create_escrow(bob(), 5, 2, carol(), 1, String::from("c"), false, None, &mut events)
        .unwrap();
    // self-dealing: the identifier is listed twice
    engine
        .create_escrow(alice(), 5, 3, alice(), 1, String::from("c"), false, None, &mut events)
        .unwrap();
    assert_eq!(engine.get_user_escrows(alice()), vec![1, 3, 3]);
    assert_eq!(engine.get_user_escrows(bob()), vec![1, 2]);
    assert_eq!(engine.get_user_escrows(carol()), vec![2]);
    assert_eq!(engine.get_user_escrows(AccountId::from([8u8; 32])), Vec::<u64>::new());
}

#[test]
fn expiry_is_strict() {
    let mut engine = PaymentEscrow::new(100);
    let mut events = Vec::new();
    open_plain(&mut engine, &mut events, 50);
    assert_eq!(engine.is_escrow_expired(50, 1), Ok(false));
    assert_eq!(engine.is_escrow_expired(150, 1), Ok(false));
    assert_eq!(engine.is_escrow_expired(151, 1), Ok(true));
    // a clock behind the creation time never makes an escrow expired
    assert_eq!(engine.is_escrow_expired(0, 1), Ok(false));
    assert_eq!(engine.is_escrow_expired(u64::MAX, 1), Ok(true));
    assert_eq!(engine.is_escrow_expired(151, 2), Err(Error::EscrowNotFound));
}

#[test]
fn release_window_closes_at_expiry() {
    let mut engine = PaymentEscrow::new(100);
    let mut events = Vec::new();
    let ledger = Ledger::new();
    open_plain(&mut engine, &mut events, 50);
    open_plain(&mut engine, &mut events, 50);

    assert_eq!(
        engine.release_payment(alice(), 151, 1, |to, amount| ledger.pay(to, amount), &mut events),
        Err(Error::EscrowExpired)
    );
    assert_eq!(engine.get_escrow(1).unwrap().status, EscrowStatus::Pending);
    assert_eq!(ledger.attempts(), 0);
    // exactly at the boundary the escrow is not yet expired
    assert_eq!(
        engine.release_payment(alice(), 150, 2, |to, amount| ledger.pay(to, amount), &mut events),
        Ok(())
    );
    assert_eq!(engine.get_escrow(2).unwrap().completed_at, Some(150));
}

#[test]
fn release_is_for_the_payer_only() {
    let mut engine = PaymentEscrow::new(100);
    let mut events = Vec::new();
    let ledger = Ledger::new();
    open_plain(&mut engine, &mut events, 50);
    for who in [bob(), carol()] {
        assert_eq!(
            engine.release_payment(who, 60, 1, |to, amount| ledger.pay(to, amount), &mut events),
            Err(Error::Unauthorized)
        );
    }
    assert_eq!(
        engine.release_payment(alice(), 60, 9, |to, amount| ledger.pay(to, amount), &mut events),
        Err(Error::EscrowNotFound)
    );
    assert_eq!(ledger.attempts(), 0);
}

#[test]
fn auto_release_opens_at_expiry() {
    let mut engine = PaymentEscrow::new(100);
    let mut events = Vec::new();
    let ledger = Ledger::new();
    open_plain(&mut engine, &mut events, 50);

    assert_eq!(
        engine.auto_release_payment(bob(), 150, 1, |to, amount| ledger.pay(to, amount), &mut events),
        Err(Error::InvalidStatus)
    );
    assert_eq!(
        engine.auto_release_payment(alice(), 151, 1, |to, amount| ledger.pay(to, amount), &mut events),
        Err(Error::Unauthorized)
    );
    assert_eq!(
        engine.auto_release_payment(bob(), 151, 7, |to, amount| ledger.pay(to, amount), &mut events),
        Err(Error::EscrowNotFound)
    );
    assert_eq!(ledger.attempts(), 0);
    assert_eq!(
        engine.auto_release_payment(bob(), 151, 1, |to, amount| ledger.pay(to, amount), &mut events),
        Ok(())
    );
    assert_eq!(ledger.balance(bob()), 1000);
    let escrow = engine.get_escrow(1).unwrap();
    assert_eq!(escrow.status, EscrowStatus::Completed);
    assert_eq!(escrow.completed_at, Some(151));
    assert_eq!(
        events[1],
        Notification::Completed(EscrowCompleted { escrow_id: 1, payee: bob(), amount: 1000 })
    );
    assert_eq!(
        engine.auto_release_payment(bob(), 152, 1, |to, amount| ledger.pay(to, amount), &mut events),
        Err(Error::InvalidStatus)
    );
}

#[test]
fn refund_rules_by_caller() {
    let mut engine = PaymentEscrow::new(100);
    let mut events = Vec::new();
    let ledger = Ledger::new();
    open_plain(&mut engine, &mut events, 50);
    open_plain(&mut engine, &mut events, 50);

    // the payee must wait for the timeout, a stranger is never allowed
    assert_eq!(
        engine.refund(bob(), 150, 1, |to, amount| ledger.pay(to, amount), &mut events),
        Err(Error::Unauthorized)
    );
    assert_eq!(
        engine.refund(carol(), 151, 1, |to, amount| ledger.pay(to, amount), &mut events),
        Err(Error::Unauthorized)
    );
    assert_eq!(
        engine.refund(alice(), 60, 3, |to, amount| ledger.pay(to, amount), &mut events),
        Err(Error::EscrowNotFound)
    );
    // the payer may ask at any time while the escrow is pending
    assert_eq!(engine.refund(alice(), 60, 1, |to, amount| ledger.pay(to, amount), &mut events), Ok(()));
    assert_eq!(engine.refund(alice(), 999, 2, |to, amount| ledger.pay(to, amount), &mut events), Ok(()));
    assert_eq!(ledger.balance(alice()), 2000);
    assert_eq!(engine.get_escrow(2).unwrap().status, EscrowStatus::Refunded);
    assert_eq!(
        engine.refund(alice(), 61, 1, |to, amount| ledger.pay(to, amount), &mut events),
        Err(Error::InvalidStatus)
    );
}

#[test]
fn failed_transfer_leaves_everything_as_it_was() {
    let mut engine = PaymentEscrow::new(100);
    let mut events = Vec::new();
    open_plain(&mut engine, &mut events, 50);
    let before = engine.get_escrow(1).unwrap();
    let asked = RefCell::new(Vec::new());
    let refuse = |to: AccountId, amount: u128| {
        asked.borrow_mut().push((to, amount));
        false
    };

    assert_eq!(engine.release_payment(alice(), 60, 1, refuse, &mut events), Err(Error::TransferFailed));
    assert_eq!(engine.get_escrow(1).unwrap(), before);
    assert_eq!(engine.auto_release_payment(bob(), 151, 1, refuse, &mut events), Err(Error::TransferFailed));
    assert_eq!(engine.get_escrow(1).unwrap(), before);
    assert_eq!(engine.refund(alice(), 60, 1, refuse, &mut events), Err(Error::TransferFailed));
    assert_eq!(engine.get_escrow(1).unwrap(), before);
    assert_eq!(events.len(), 1);
    assert_eq!(*asked.borrow(), vec![(bob(), 1000), (bob(), 1000), (alice(), 1000)]);

    // the same call may be made again, and succeeds once the gateway does
    assert_eq!(engine.release_payment(alice(), 60, 1, |_, _| true, &mut events), Ok(()));
    assert_eq!(engine.get_escrow(1).unwrap().status, EscrowStatus::Completed);
}

#[test]
fn external_release_needs_link_then_verify() {
    let mut engine = PaymentEscrow::default();
    let mut events = Vec::new();
    open_external(&mut engine, &mut events, 10);
    let hash = ink::primitives::Hash::from([4u8; 32]);

    assert_eq!(engine.release_x402_payment(bob(), 20, 1, &mut events), Err(Error::InvalidStatus));
    assert_eq!(engine.verify_x402_payment(bob(), 1), Err(Error::InvalidStatus));
    assert_eq!(engine.link_x402_payment(carol(), 1, hash, &mut events), Err(Error::Unauthorized));
    assert_eq!(engine.link_x402_payment(bob(), 1, hash, &mut events), Ok(()));
    assert_eq!(engine.release_x402_payment(bob(), 20, 1, &mut events), Err(Error::InvalidStatus));
    assert_eq!(engine.verify_x402_payment(alice(), 1), Err(Error::Unauthorized));
    assert_eq!(engine.release_x402_payment(alice(), 20, 1, &mut events), Err(Error::Unauthorized));
    assert_eq!(engine.verify_x402_payment(bob(), 1), Ok(()));

    // linking again overwrites the hash and keeps the verification
    let other = ink::primitives::Hash::from([5u8; 32]);
    assert_eq!(engine.link_x402_payment(alice(), 1, other, &mut events), Ok(()));
    let escrow = engine.get_escrow(1).unwrap();
    assert_eq!(escrow.x402_payment_hash, Some(other));
    assert!(escrow.x402_verified);

    assert_eq!(engine.release_x402_payment(bob(), 20, 1, &mut events), Ok(()));
    assert_eq!(engine.link_x402_payment(alice(), 1, hash, &mut events), Err(Error::InvalidStatus));
    assert_eq!(engine.verify_x402_payment(bob(), 1), Err(Error::InvalidStatus));
    assert_eq!(engine.release_x402_payment(bob(), 21, 1, &mut events), Err(Error::InvalidStatus));
    assert_eq!(engine.get_escrow(1).unwrap().completed_at, Some(20));
}

#[test]
fn external_steps_are_refused_on_a_plain_escrow() {
    let mut engine = PaymentEscrow::default();
    let mut events = Vec::new();
    open_plain(&mut engine, &mut events, 10);
    let hash = ink::primitives::Hash::from([4u8; 32]);
    assert_eq!(engine.link_x402_payment(alice(), 1, hash, &mut events), Err(Error::InvalidStatus));
    assert_eq!(engine.verify_x402_payment(bob(), 1), Err(Error::InvalidStatus));
    assert_eq!(engine.release_x402_payment(bob(), 20, 1, &mut events), Err(Error::InvalidStatus));
    assert_eq!(engine.link_x402_payment(alice(), 2, hash, &mut events), Err(Error::EscrowNotFound));
    assert_eq!(engine.verify_x402_payment(bob(), 2), Err(Error::EscrowNotFound));
    assert_eq!(engine.release_x402_payment(bob(), 20, 2, &mut events), Err(Error::EscrowNotFound));
    assert_eq!(engine.get_x402_payment_hash(2), Err(Error::EscrowNotFound));
    assert_eq!(engine.is_x402_escrow(2), Err(Error::EscrowNotFound));
    assert_eq!(events.len(), 1);
}

#[test]
fn dispute_is_for_the_parties() {
    let mut engine = PaymentEscrow::default();
    let mut events = Vec::new();
    open_plain(&mut engine, &mut events, 10);
    assert_eq!(engine.dispute_escrow(carol(), 1, &mut events), Err(Error::Unauthorized));
    assert_eq!(engine.dispute_escrow(alice(), 2, &mut events), Err(Error::EscrowNotFound));
    assert_eq!(engine.dispute_escrow(alice(), 1, &mut events), Ok(()));
    assert_eq!(
        events[1],
        Notification::Disputed(EscrowDisputed { escrow_id: 1, disputer: alice() })
    );
}

#[test]
fn other_escrows_are_untouched() {
    let mut engine = PaymentEscrow::default();
    let mut events = Vec::new();
    open_plain(&mut engine, &mut events, 10);
    open_plain(&mut engine, &mut events, 11);
    let second = engine.get_escrow(2).unwrap();
    assert_eq!(engine.release_payment(alice(), 20, 1, |_, _| true, &mut events), Ok(()));
    assert_eq!(engine.get_escrow(2).unwrap(), second);
    assert_eq!(engine.get_user_escrows(alice()), vec![1, 2]);
}
