use ink::primitives::AccountId;
use payment_escrow::error::Error;
use payment_escrow::events::EscrowCompleted;
use payment_escrow::events::EscrowCreated;
use payment_escrow::events::EscrowRefunded;
use payment_escrow::history::Call;
use payment_escrow::history::Step;
use payment_escrow::operations::check_amount;
use payment_escrow::record::EscrowDetails;
use payment_escrow::status::EscrowStatus;

fn payer() -> AccountId {
    AccountId::from([10u8; 32])
}

fn payee() -> AccountId {
    AccountId::from([20u8; 32])
}

fn stranger() -> AccountId {
    AccountId::from([30u8; 32])
}

fn plain(amount: u128, now: u64) -> EscrowDetails {
    EscrowDetails::open(4, payer(), payee(), amount, 9, now, String::from("pc"), false, None).unwrap()
}

fn external(now: u64) -> EscrowDetails {
    EscrowDetails::open(5, payer(), payee(), 0, 9, now, String::from("pc"), true, None).unwrap()
}

fn step(call: Call, caller: AccountId, now: u64, transferred: bool) -> Step {
    Step { call, caller, now, transferred }
}

#[test]
fn open_validates_the_amount() {
    let refused = EscrowDetails::open(1, payer(), payee(), 0, 9, 3, String::from("pc"), false, None);
    assert_eq!(refused, Err(Error::InvalidAmount));
    let opened = plain(1, 3);
    assert_eq!(opened.id, 4);
    assert_eq!(opened.amount, 1);
    assert_eq!(opened.status, EscrowStatus::Pending);
    assert_eq!(opened.created_at, 3);
    assert_eq!(opened.completed_at, None);
    assert_eq!(opened.x402_payment_hash, None);
    assert!(!opened.x402_verified);
    assert_eq!(external(3).amount, 0);
}

#[test]
fn amount_rule() {
    assert_eq!(check_amount(0, false), Err(Error::InvalidAmount));
    assert_eq!(check_amount(1, false), Ok(()));
    assert_eq!(check_amount(0, true), Ok(()));
    assert_eq!(check_amount(u128::MAX, true), Ok(()));
}

#[test]
fn creation_notice_carries_the_record() {
    assert_eq!(
        plain(12, 3).creation(),
        EscrowCreated { escrow_id: 4, payer: payer(), payee: payee(), amount: 12, service_id: 9 }
    );
}

#[test]
fn status_knows_what_is_terminal() {
    assert!(!EscrowStatus::Pending.is_terminal());
    assert!(EscrowStatus::Completed.is_terminal());
    assert!(EscrowStatus::Refunded.is_terminal());
    assert!(EscrowStatus::Disputed.is_terminal());
}

#[test]
fn expiry_boundary_on_a_record() {
    let r = plain(5, 1000);
    assert!(!r.is_expired(1000, 0));
    assert!(r.is_expired(1001, 0));
    assert!(!r.is_expired(1500, 500));
    assert!(r.is_expired(1501, 500));
    assert!(!r.is_expired(999, 0));
    assert!(!r.is_expired(u64::MAX, u64::MAX));
}

#[test]
fn verdicts_name_the_first_failing_rule() {
    let r = plain(5, 100);
    assert_eq!(r.check_release(&payer(), 150, 50), Ok(()));
    assert_eq!(r.check_release(&payee(), 150, 50), Err(Error::Unauthorized));
    assert_eq!(r.check_release(&payer(), 151, 50), Err(Error::EscrowExpired));
    // the caller is checked before the expiry
    assert_eq!(r.check_release(&stranger(), 151, 50), Err(Error::Unauthorized));
    assert_eq!(external(100).check_release(&payer(), 150, 50), Err(Error::InvalidStatus));

    assert_eq!(r.check_auto_release(&payee(), 150, 50), Err(Error::InvalidStatus));
    assert_eq!(r.check_auto_release(&payee(), 151, 50), Ok(()));
    assert_eq!(r.check_auto_release(&payer(), 151, 50), Err(Error::Unauthorized));

    assert_eq!(r.check_refund(&payer(), 100, 50), Ok(()));
    assert_eq!(r.check_refund(&payee(), 150, 50), Err(Error::Unauthorized));
    assert_eq!(r.check_refund(&payee(), 151, 50), Ok(()));
    assert_eq!(r.check_refund(&stranger(), 151, 50), Err(Error::Unauthorized));

    assert_eq!(r.check_dispute(&payer()), Ok(()));
    assert_eq!(r.check_dispute(&payee()), Ok(()));
    assert_eq!(r.check_dispute(&stranger()), Err(Error::Unauthorized));

    let x = external(100);
    assert_eq!(x.check_link(&payer()), Ok(()));
    assert_eq!(x.check_link(&payee()), Ok(()));
    assert_eq!(x.check_link(&stranger()), Err(Error::Unauthorized));
    assert_eq!(r.check_link(&payer()), Err(Error::InvalidStatus));
    assert_eq!(x.check_verify(&payee()), Err(Error::InvalidStatus));
    assert_eq!(x.check_verify(&payer()), Err(Error::Unauthorized));
    assert_eq!(x.check_release_x402(&payee()), Err(Error::InvalidStatus));
    assert_eq!(x.check_release_x402(&payer()), Err(Error::Unauthorized));
}

#[test]
fn a_payer_who_is_also_the_payee_may_refund_at_once() {
    let me = payer();
    let mut r = EscrowDetails::open(1, me, me, 7, 9, 100, String::from("pc"), false, None).unwrap();
    assert_eq!(r.check_refund(&me, 100, 50), Ok(()));
    assert_eq!(
        r.refund(me, 100, 50, |_, _| true),
        Ok(EscrowRefunded { escrow_id: 1, payer: me, amount: 7 })
    );
    assert_eq!(r.status, EscrowStatus::Refunded);
}

#[test]
fn record_release_asks_the_gateway_once_for_the_payee() {
    let mut r = plain(250, 100);
    let asked = std::cell::RefCell::new(Vec::new());
    let out = r.release(payer(), 120, 50, |to, amount| {
        asked.borrow_mut().push((to, amount));
        true
    });
    assert_eq!(out, Ok(EscrowCompleted { escrow_id: 4, payee: payee(), amount: 250 }));
    assert_eq!(*asked.borrow(), vec![(payee(), 250)]);
    assert_eq!(r.status, EscrowStatus::Completed);
    assert_eq!(r.completed_at, Some(120));
}

#[test]
fn record_operations_do_not_ask_the_gateway_when_refused() {
    let mut r = plain(250, 100);
    let before = r.clone();
    let calls = std::cell::Cell::new(0u32);
    let count = |_: AccountId, _: u128| {
        calls.set(calls.get() + 1);
        true
    };
    assert_eq!(r.release(payee(), 120, 50, count), Err(Error::Unauthorized));
    assert_eq!(r.auto_release(payee(), 120, 50, count), Err(Error::InvalidStatus));
    assert_eq!(r.refund(stranger(), 120, 50, count), Err(Error::Unauthorized));
    assert_eq!(calls.get(), 0);
    assert_eq!(r, before);
}

#[test]
fn settling_needs_a_successful_transfer() {
    let mut r = plain(250, 100);
    let before = r.clone();
    assert_eq!(r.settle_completed(130, false), Err(Error::TransferFailed));
    assert_eq!(r, before);
    assert_eq!(r.settle_refunded(130, false), Err(Error::TransferFailed));
    assert_eq!(r, before);
    assert_eq!(
        r.settle_refunded(130, true),
        Ok(EscrowRefunded { escrow_id: 4, payer: payer(), amount: 250 })
    );
    assert_eq!(r.status, EscrowStatus::Refunded);
    assert_eq!(r.completed_at, Some(130));
}

#[test]
fn steps_follow_the_operations() {
    let mut r = external(100);
    let hash = ink::primitives::Hash::from([1u8; 32]);
    assert_eq!(r.apply(&step(Call::ReleaseX402, payee(), 110, true), 50), Err(Error::InvalidStatus));
    assert_eq!(r.apply(&step(Call::Verify, payee(), 110, true), 50), Err(Error::InvalidStatus));
    assert_eq!(r.apply(&step(Call::Link(hash), payer(), 110, true), 50), Ok(()));
    assert_eq!(r.x402_payment_hash, Some(hash));
    assert_eq!(r.apply(&step(Call::Verify, payee(), 111, true), 50), Ok(()));
    assert!(r.x402_verified);
    // no value moves on this path, so the gateway's answer is not read
    assert_eq!(r.apply(&step(Call::ReleaseX402, payee(), 112, false), 50), Ok(()));
    assert_eq!(r.status, EscrowStatus::Completed);
    assert_eq!(r.completed_at, Some(112));
    let settled = r.clone();
    for call in [Call::Release, Call::AutoRelease, Call::Refund, Call::Dispute, Call::Verify] {
        for who in [payer(), payee(), stranger()] {
            assert!(r.apply(&step(call, who, 500, true), 50).is_err());
            assert_eq!(r, settled);
        }
    }
}

#[test]
fn a_step_with_a_failed_transfer_changes_nothing() {
    let mut r = plain(250, 100);
    let before = r.clone();
    assert_eq!(r.apply(&step(Call::Release, payer(), 120, false), 50), Err(Error::TransferFailed));
    assert_eq!(r.apply(&step(Call::AutoRelease, payee(), 151, false), 50), Err(Error::TransferFailed));
    assert_eq!(r.apply(&step(Call::Refund, payer(), 120, false), 50), Err(Error::TransferFailed));
    assert_eq!(r, before);
    assert_eq!(r.apply(&step(Call::Dispute, payee(), 120, false), 50), Ok(()));
    assert_eq!(r.status, EscrowStatus::Disputed);
    assert_eq!(r.completed_at, None);
}
