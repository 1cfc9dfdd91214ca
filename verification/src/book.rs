//! The mathematical model of the escrow store: every record in the order of
//! its identifier, the log of the party index, and the timeout.

use vstd::prelude::*;
use ink::primitives::AccountId;
use crate::record::EscrowDetails;

verus! {

/// What the store holds. The escrow with identifier `id` is `records[id - 1]`;
/// the party index is the log of its appends, each a party and an identifier.
pub struct EscrowBook {
    pub records: Seq<EscrowDetails>,
    pub party_log: Seq<(AccountId, u64)>,
    pub timeout: u64,
}

/// The identifiers that `log` holds for `party`, in the order of the appends.
pub open spec fn ids_of(log: Seq<(AccountId, u64)>, party: AccountId) -> Seq<u64>
    decreases log.len(),
{
    if log.len() == 0 {
        Seq::<u64>::empty()
    } else if log.last().0 == party {
        ids_of(log.drop_last(), party).push(log.last().1)
    } else {
        ids_of(log.drop_last(), party)
    }
}

impl EscrowBook {
    /// The book of a store that holds nothing yet.
    pub open spec fn empty(timeout: u64) -> EscrowBook {
        EscrowBook {
            records: Seq::<EscrowDetails>::empty(),
            party_log: Seq::<(AccountId, u64)>::empty(),
            timeout,
        }
    }

    /// The invariant of the store: identifiers count up from 1, every record
    /// is well formed, and the party index holds, for each record in turn,
    /// its identifier for the payer and then for the payee.
    pub open spec fn wf(self) -> bool {
        &&& self.party_log.len() == 2 * self.records.len()
        &&& forall|i: int|
            0 <= i < self.records.len() ==> {
                &&& (#[trigger] self.records[i]).id == i + 1
                &&& self.records[i].wf()
                &&& self.party_log[2 * i] == (self.records[i].payer, self.records[i].id)
                &&& self.party_log[2 * i + 1] == (self.records[i].payee, self.records[i].id)
            }
    }

    /// The record of the escrow `id`, if there is one.
    pub open spec fn escrow(self, id: u64) -> Option<EscrowDetails> {
        if 1 <= id <= self.records.len() {
            Some(self.records[id - 1])
        } else {
            None
        }
    }

    /// The identifiers under which `party` is listed, oldest first. An escrow
    /// whose payer is also its payee is listed twice.
    pub open spec fn party_escrows(self, party: AccountId) -> Seq<u64> {
        ids_of(self.party_log, party)
    }

    /// The identifier that the next escrow gets.
    pub open spec fn next_id(self) -> nat {
        self.records.len() + 1
    }

    /// The book with `record` in the place of the escrow `id`.
    pub open spec fn with_record(self, id: u64, record: EscrowDetails) -> EscrowBook {
        EscrowBook { records: self.records.update(id - 1, record), ..self }
    }

    /// The book with `record` added as its newest escrow and listed for its
    /// payer, then for its payee.
    pub open spec fn with_new(self, record: EscrowDetails) -> EscrowBook {
        EscrowBook {
            records: self.records.push(record),
            party_log: self.party_log.push((record.payer, record.id)).push(
                (record.payee, record.id),
            ),
            timeout: self.timeout,
        }
    }

    /// `later` is this store at a later moment: no record has gone, every
    /// record is the same escrow at a later moment, the party index has only
    /// grown at its end, and the timeout is the same.
    pub open spec fn evolves_to(self, later: EscrowBook) -> bool {
        &&& later.timeout == self.timeout
        &&& self.records.len() <= later.records.len()
        &&& forall|i: int|
            0 <= i < self.records.len() ==> (#[trigger] self.records[i]).precedes(
                later.records[i],
            )
        &&& self.party_log.is_prefix_of(later.party_log)
    }
}

/// Replacing a record by a later state of the same escrow keeps the store's
/// invariant, and the store evolves.
pub proof fn lemma_with_record(book: EscrowBook, id: u64, record: EscrowDetails)
    requires
        book.wf(),
        book.escrow(id) is Some,
        book.escrow(id)->Some_0.precedes(record),
        record.wf(),
    ensures
        book.with_record(id, record).wf(),
        book.evolves_to(book.with_record(id, record)),
        book.with_record(id, record).escrow(id) == Some(record),
{
    let after = book.with_record(id, record);
    assert forall|i: int| 0 <= i < after.records.len() implies {
        &&& (#[trigger] after.records[i]).id == i + 1
        &&& after.records[i].wf()
        &&& after.party_log[2 * i] == (after.records[i].payer, after.records[i].id)
        &&& after.party_log[2 * i + 1] == (after.records[i].payee, after.records[i].id)
    } by {
        let before = book.records[i];
        assert(before.id == i + 1);
    }
    assert forall|i: int| 0 <= i < book.records.len() implies (#[trigger] book.records[i]).precedes(
        after.records[i],
    ) by {}
}

/// Adding a well-formed record under the next identifier keeps the store's
/// invariant, and the store evolves.
pub proof fn lemma_with_new(book: EscrowBook, record: EscrowDetails)
    requires
        book.wf(),
        record.wf(),
        record.id == book.next_id(),
    ensures
        book.with_new(record).wf(),
        book.evolves_to(book.with_new(record)),
        book.with_new(record).escrow(record.id) == Some(record),
{
    let after = book.with_new(record);
    assert forall|i: int| 0 <= i < after.records.len() implies {
        &&& (#[trigger] after.records[i]).id == i + 1
        &&& after.records[i].wf()
        &&& after.party_log[2 * i] == (after.records[i].payer, after.records[i].id)
        &&& after.party_log[2 * i + 1] == (after.records[i].payee, after.records[i].id)
    } by {
        if i < book.records.len() {
            let before = book.records[i];
            assert(before.id == i + 1);
        }
    }
    assert forall|i: int| 0 <= i < book.records.len() implies (#[trigger] book.records[i]).precedes(
        after.records[i],
    ) by {}
}

/// One append to the party index adds its identifier to the list of its
/// party, at the end, and changes no other list.
pub proof fn lemma_ids_of_push(log: Seq<(AccountId, u64)>, entry: (AccountId, u64), party: AccountId)
    ensures
        ids_of(log.push(entry), party) == if entry.0 == party {
            ids_of(log, party).push(entry.1)
        } else {
            ids_of(log, party)
        },
{
    assert(log.push(entry).drop_last() =~= log);
    assert(log.push(entry).last() == entry);
}

} // verus!
