//! What holds of every escrow, whatever is asked of it and in whatever order.

use vstd::prelude::*;
use ink::primitives::AccountId;
use crate::book::ids_of;
use crate::book::lemma_ids_of_push;
use crate::book::EscrowBook;
use crate::error::Error;
use crate::history::replay;
use crate::history::succeeds_at;
use crate::history::Call;
use crate::history::Step;
use crate::identity::Timestamp;
use crate::record::EscrowDetails;
use crate::status::EscrowStatus;

verus! {

/// One step takes a record to a later state of the same escrow, and keeps
/// the record's invariant. In particular the status stays, or leaves
/// `Pending` for one of the three others, and what is fixed at creation
/// stays fixed.
pub proof fn law_step_is_legal(r: EscrowDetails, step: Step, timeout: u64)
    ensures
        r.precedes(r.after(step, timeout)),
        r.status.may_become(r.after(step, timeout).status),
        r.wf() ==> r.after(step, timeout).wf(),
{
}

/// A step that fails, for whatever reason, leaves the record as it was.
pub proof fn law_failure_changes_nothing(r: EscrowDetails, step: Step, timeout: u64)
    requires
        r.result_of(step, timeout) is Err,
    ensures
        r.after(step, timeout) == r,
{
}

/// Where the gateway fails to move the value, the step fails and every
/// field of the record is as before.
pub proof fn law_failed_transfer_changes_nothing(r: EscrowDetails, step: Step, timeout: u64)
    requires
        step.call.moves_value(),
        !step.transferred,
    ensures
        r.result_of(step, timeout) is Err,
        r.verdict(step, timeout) is Ok ==> r.result_of(step, timeout) == Err::<(), Error>(
            Error::TransferFailed,
        ),
        r.after(step, timeout) == r,
{
}

/// Once an escrow has left `Pending`, no step succeeds on it and the record
/// never changes again; a caller whom the step's identity check lets through
/// is told `InvalidStatus`.
pub proof fn law_terminal_is_final(r: EscrowDetails, step: Step, timeout: u64)
    requires
        r.status != EscrowStatus::Pending,
    ensures
        r.result_of(step, timeout) is Err,
        r.after(step, timeout) == r,
        r.verdict(step, timeout) != Err::<(), Error>(Error::Unauthorized) ==> r.result_of(
            step,
            timeout,
        ) == Err::<(), Error>(Error::InvalidStatus),
{
}

/// Over any history, an earlier state precedes a later one: the status only
/// ever goes from `Pending` to at most one of `Completed`, `Refunded` and
/// `Disputed`, and never back.
pub proof fn law_status_never_reverts(
    start: EscrowDetails,
    steps: Seq<Step>,
    timeout: u64,
    i: int,
    j: int,
)
    requires
        0 <= i <= j <= steps.len(),
    ensures
        replay(start, steps.take(i), timeout).precedes(replay(start, steps.take(j), timeout)),
        replay(start, steps.take(i), timeout).status.may_become(
            replay(start, steps.take(j), timeout).status,
        ),
    decreases j - i,
{
    if i < j {
        law_status_never_reverts(start, steps, timeout, i, j - 1);
        assert(steps.take(j).drop_last() =~= steps.take(j - 1));
        let before = replay(start, steps.take(j - 1), timeout);
        law_step_is_legal(before, steps.take(j).last(), timeout);
    }
}

/// Manual release by the payer of a pending escrow that does not use the
/// external channel: it succeeds while the timeout has not elapsed, given
/// that the gateway moves the value, and fails with `EscrowExpired` once it
/// has, whatever the gateway would do.
pub proof fn law_release_window(r: EscrowDetails, now: Timestamp, timeout: u64, transferred: bool)
    requires
        r.status == EscrowStatus::Pending,
        !r.uses_x402,
    ensures
        ({
            let result = r.result_of(
                Step { call: Call::Release, caller: r.payer, now, transferred },
                timeout,
            );
            &&& !r.expired(now, timeout) && transferred ==> result == Ok::<(), Error>(())
            &&& r.expired(now, timeout) ==> result == Err::<(), Error>(Error::EscrowExpired)
        }),
{
}

/// Automatic release of a pending escrow: whoever is not the payee is
/// refused as unauthorized; the payee is refused with `InvalidStatus` until
/// the timeout has elapsed, and succeeds after it, given that the gateway
/// moves the value.
pub proof fn law_auto_release_window(
    r: EscrowDetails,
    caller: AccountId,
    now: Timestamp,
    timeout: u64,
    transferred: bool,
)
    requires
        r.status == EscrowStatus::Pending,
    ensures
        ({
            let result = r.result_of(
                Step { call: Call::AutoRelease, caller, now, transferred },
                timeout,
            );
            &&& caller != r.payee ==> result == Err::<(), Error>(Error::Unauthorized)
            &&& caller == r.payee && !r.expired(now, timeout) ==> result == Err::<(), Error>(
                Error::InvalidStatus,
            )
            &&& caller == r.payee && r.expired(now, timeout) && transferred ==> result == Ok::<
                (),
                Error,
            >(())
        }),
{
}

/// Refund of a pending escrow: asked by the payer it succeeds at any time;
/// asked by a payee who is not also the payer it succeeds after the timeout
/// has elapsed and is refused as unauthorized before. Success is given that
/// the gateway moves the value.
pub proof fn law_refund_window(r: EscrowDetails, now: Timestamp, timeout: u64, transferred: bool)
    requires
        r.status == EscrowStatus::Pending,
    ensures
        ({
            let by_payer = r.result_of(
                Step { call: Call::Refund, caller: r.payer, now, transferred },
                timeout,
            );
            let by_payee = r.result_of(
                Step { call: Call::Refund, caller: r.payee, now, transferred },
                timeout,
            );
            &&& transferred ==> by_payer == Ok::<(), Error>(())
            &&& r.payee != r.payer && r.expired(now, timeout) && transferred ==> by_payee == Ok::<
                (),
                Error,
            >(())
            &&& r.payee != r.payer && !r.expired(now, timeout) ==> by_payee == Err::<(), Error>(
                Error::Unauthorized,
            )
        }),
{
}

/// If the payment hash is present after `k` steps of a history that began
/// without one, a link succeeded among them.
proof fn lemma_hash_needs_link(start: EscrowDetails, steps: Seq<Step>, timeout: u64, k: int) -> (i:
    int)
    requires
        start.x402_payment_hash is None,
        0 <= k <= steps.len(),
        replay(start, steps.take(k), timeout).x402_payment_hash is Some,
    ensures
        0 <= i < k,
        steps[i].call is Link,
        succeeds_at(start, steps, timeout, i),
    decreases k,
{
    if k == 0 {
        assert(steps.take(0) =~= Seq::<Step>::empty());
        0
    } else {
        assert(steps.take(k).drop_last() =~= steps.take(k - 1));
        let before = replay(start, steps.take(k - 1), timeout);
        if before.x402_payment_hash is Some {
            lemma_hash_needs_link(start, steps, timeout, k - 1)
        } else {
            k - 1
        }
    }
}

/// If the payment is marked verified after `k` steps of a history that
/// began unverified, a verification succeeded among them.
proof fn lemma_verified_needs_verify(
    start: EscrowDetails,
    steps: Seq<Step>,
    timeout: u64,
    k: int,
) -> (j: int)
    requires
        !start.x402_verified,
        0 <= k <= steps.len(),
        replay(start, steps.take(k), timeout).x402_verified,
    ensures
        0 <= j < k,
        steps[j].call is Verify,
        succeeds_at(start, steps, timeout, j),
    decreases k,
{
    if k == 0 {
        assert(steps.take(0) =~= Seq::<Step>::empty());
        0
    } else {
        assert(steps.take(k).drop_last() =~= steps.take(k - 1));
        let before = replay(start, steps.take(k - 1), timeout);
        if before.x402_verified {
            lemma_verified_needs_verify(start, steps, timeout, k - 1)
        } else {
            k - 1
        }
    }
}

/// A release through the external channel succeeds only after a link and
/// then a verification have succeeded on the same escrow, in that order.
/// Asked by the payee, it fails with `InvalidStatus` and with nothing else.
pub proof fn law_x402_release_needs_link_then_verify(
    start: EscrowDetails,
    steps: Seq<Step>,
    timeout: u64,
    k: int,
)
    requires
        start.x402_payment_hash is None,
        !start.x402_verified,
        0 <= k < steps.len(),
        steps[k].call is ReleaseX402,
    ensures
        succeeds_at(start, steps, timeout, k) ==> exists|i: int, j: int|
            0 <= i < j < k && steps[i].call is Link && steps[j].call is Verify
                && #[trigger] succeeds_at(start, steps, timeout, i) && #[trigger] succeeds_at(
                start,
                steps,
                timeout,
                j,
            ),
        steps[k].caller == replay(start, steps.take(k), timeout).payee && !succeeds_at(
            start,
            steps,
            timeout,
            k,
        ) ==> replay(start, steps.take(k), timeout).result_of(steps[k], timeout) == Err::<
            (),
            Error,
        >(Error::InvalidStatus),
{
    if succeeds_at(start, steps, timeout, k) {
        let j = lemma_verified_needs_verify(start, steps, timeout, k);
        let i = lemma_hash_needs_link(start, steps, timeout, j);
        assert(succeeds_at(start, steps, timeout, i) && succeeds_at(start, steps, timeout, j));
    }
}

/// A later state of a later state is a later state.
pub proof fn law_precedes_is_transitive(a: EscrowDetails, b: EscrowDetails, c: EscrowDetails)
    requires
        a.precedes(b),
        b.precedes(c),
    ensures
        a.precedes(c),
{
}

/// The store only ever evolves: evolving is reflexive and transitive, so it
/// holds between any two moments of a sequence of operations.
pub proof fn law_evolution_is_transitive(a: EscrowBook, b: EscrowBook, c: EscrowBook)
    requires
        a.evolves_to(b),
        b.evolves_to(c),
    ensures
        a.evolves_to(a),
        a.evolves_to(c),
{
    assert forall|i: int| 0 <= i < a.records.len() implies (#[trigger] a.records[i]).precedes(
        c.records[i],
    ) by {
        law_precedes_is_transitive(a.records[i], b.records[i], c.records[i]);
    }
    assert forall|i: int| 0 <= i < a.records.len() implies (#[trigger] a.records[i]).precedes(
        a.records[i],
    ) by {}
    assert(a.party_log.is_prefix_of(c.party_log)) by {
        assert(a.party_log =~= b.party_log.subrange(0, a.party_log.len() as int));
        assert(b.party_log =~= c.party_log.subrange(0, b.party_log.len() as int));
        assert(a.party_log =~= c.party_log.subrange(0, a.party_log.len() as int));
    }
    assert(a.party_log.is_prefix_of(a.party_log)) by {
        assert(a.party_log =~= a.party_log.subrange(0, a.party_log.len() as int));
    }
}

/// A new escrow is listed at the end of its payer's list and then of its
/// payee's, twice for a party that is both, and in no other list.
pub proof fn law_creation_lists_both_parties(
    book: EscrowBook,
    record: EscrowDetails,
    party: AccountId,
)
    ensures
        book.with_new(record).party_escrows(party) == book.party_escrows(party) + (if record.payer
            == party {
            seq![record.id]
        } else {
            Seq::<u64>::empty()
        }) + (if record.payee == party {
            seq![record.id]
        } else {
            Seq::<u64>::empty()
        }),
{
    let first = book.party_log.push((record.payer, record.id));
    lemma_ids_of_push(book.party_log, (record.payer, record.id), party);
    lemma_ids_of_push(first, (record.payee, record.id), party);
    let listed = book.party_escrows(party);
    assert(listed + Seq::<u64>::empty() =~= listed);
    assert(listed + seq![record.id] =~= listed.push(record.id));
    assert(listed.push(record.id) + seq![record.id] =~= listed.push(record.id).push(record.id));
    assert(listed.push(record.id) + Seq::<u64>::empty() =~= listed.push(record.id));
}

/// The identifiers listed for `party` among the first `n` escrows.
proof fn lemma_listed_among_first(book: EscrowBook, party: AccountId, id: u64, n: int)
    requires
        book.wf(),
        0 <= n <= book.records.len(),
    ensures
        ids_of(book.party_log.take(2 * n), party).contains(id) <==> (1 <= id <= n
            && book.records[id - 1].is_party(party)),
    decreases n,
{
    let log = book.party_log;
    if n == 0 {
        assert(log.take(0) =~= Seq::<(AccountId, u64)>::empty());
    } else {
        lemma_listed_among_first(book, party, id, n - 1);
        let record = book.records[n - 1];
        let base = log.take(2 * (n - 1));
        let mid = base.push(log[2 * (n - 1)]);
        assert(log.take(2 * n - 1) =~= mid);
        assert(log.take(2 * n) =~= mid.push(log[2 * (n - 1) + 1]));
        lemma_ids_of_push(base, log[2 * (n - 1)], party);
        lemma_ids_of_push(mid, log[2 * (n - 1) + 1], party);
        let a = ids_of(base, party);
        let b = ids_of(mid, party);
        let c = ids_of(log.take(2 * n), party);
        assert(record.id == n);
        if record.payer == party {
            assert(b == a.push(record.id));
            assert(b.last() == record.id);
            assert(forall|x: u64| b.contains(x) <==> a.contains(x) || x == record.id) by {
                assert forall|x: u64| b.contains(x) implies a.contains(x) || x == record.id by {
                    let k = choose|k: int| 0 <= k < b.len() && b[k] == x;
                    if k < a.len() {
                        assert(a[k] == x);
                    }
                }
                assert forall|x: u64| a.contains(x) || x == record.id implies b.contains(x) by {
                    if a.contains(x) {
                        let k = choose|k: int| 0 <= k < a.len() && a[k] == x;
                        assert(b[k] == x);
                    } else {
                        assert(b[b.len() - 1] == x);
                    }
                }
            }
        }
        if record.payee == party {
            assert(c == b.push(record.id));
            assert(forall|x: u64| c.contains(x) <==> b.contains(x) || x == record.id) by {
                assert forall|x: u64| c.contains(x) implies b.contains(x) || x == record.id by {
                    let k = choose|k: int| 0 <= k < c.len() && c[k] == x;
                    if k < b.len() {
                        assert(b[k] == x);
                    }
                }
                assert forall|x: u64| b.contains(x) || x == record.id implies c.contains(x) by {
                    if b.contains(x) {
                        let k = choose|k: int| 0 <= k < b.len() && b[k] == x;
                        assert(c[k] == x);
                    } else {
                        assert(c[c.len() - 1] == x);
                    }
                }
            }
        }
    }
}

/// The party index lists for a party exactly the escrows in which it is the
/// payer or the payee.
pub proof fn law_party_index_lists_participation(book: EscrowBook, party: AccountId, id: u64)
    requires
        book.wf(),
    ensures
        book.party_escrows(party).contains(id) <==> (book.escrow(id) matches Some(e)
            && e.is_party(party)),
{
    lemma_listed_among_first(book, party, id, book.records.len() as int);
    assert(book.party_log.take(2 * (book.records.len() as int)) =~= book.party_log);
}

/// Every escrow is stored under its own identifier, and the identifiers in
/// use are exactly those from 1 to the number of escrows.
pub proof fn law_identifiers_are_sequential(book: EscrowBook, id: u64)
    requires
        book.wf(),
    ensures
        book.escrow(id) is Some <==> 1 <= id <= book.records.len(),
        book.escrow(id) matches Some(e) ==> e.id == id && e.wf(),
{
    if 1 <= id <= book.records.len() {
        let e = book.records[id - 1];
        assert(e.id == id);
    }
}

/// An identifier is never given twice: a new escrow gets an identifier that
/// no escrow has, and every escrow that was there stays under its own.
pub proof fn law_identifiers_are_never_reused(book: EscrowBook, record: EscrowDetails, id: u64)
    requires
        book.wf(),
        record.id == book.next_id(),
    ensures
        book.escrow(record.id) is None,
        book.escrow(id) is Some ==> book.with_new(record).escrow(id) == book.escrow(id),
{
}

/// Writing one escrow touches no other.
pub proof fn law_other_escrows_are_untouched(
    book: EscrowBook,
    id: u64,
    record: EscrowDetails,
    other: u64,
)
    requires
        book.escrow(id) is Some,
        other != id,
    ensures
        book.with_record(id, record).escrow(other) == book.escrow(other),
{
}

} // verus!
