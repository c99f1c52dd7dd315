//! What holds of the escrow state machine, proved of every state and
//! every call.

use vstd::prelude::*;
use crate::error::EscrowError;
use crate::identity::Identity;
use crate::ledger::Holding;
use crate::model::BookView;
use crate::policy::{spec_is_authorized, Transition};
use crate::record::{EscrowStatus, EscrowView};

verus! {

/// Creating an escrow keeps the invariant of the book.
pub proof fn lemma_initialize_keeps_wf(
    book: BookView,
    buyer: Identity,
    seller: Identity,
    signers: Seq<Identity>,
    order_id: Seq<char>,
    amount: u64,
)
    requires
        book.wf(),
        book.records.len() < u64::MAX,
    ensures
        book.initialize(buyer, seller, signers, order_id, amount).0.wf(),
{
    let (after, done) = book.initialize(buyer, seller, signers, order_id, amount);
    if done is Ok {
        let id: u64 = book.records.len() as u64;
        assert(book.balances[Holding::Custody(id)] == book.custody_due(id));
        assert forall|other: u64| #[trigger]
            after.balances[Holding::Custody(other)] == after.custody_due(other) by {
            assert(book.balances[Holding::Custody(other)] == book.custody_due(other));
        }
        assert forall|h: Holding| #[trigger] after.balances[h] <= u64::MAX by {
            assert(book.balances[h] <= u64::MAX);
        }
    }
}

/// Confirming delivery keeps the invariant of the book.
pub proof fn lemma_confirm_keeps_wf(book: BookView, id: u64, signers: Seq<Identity>)
    requires
        book.wf(),
    ensures
        book.confirm(id, signers).0.wf(),
{
    let (after, done) = book.confirm(id, signers);
    if done is Ok {
        assert(book.balances[Holding::Custody(id)] == book.custody_due(id));
        assert forall|other: u64| #[trigger]
            after.balances[Holding::Custody(other)] == after.custody_due(other) by {
            assert(book.balances[Holding::Custody(other)] == book.custody_due(other));
        }
        assert forall|h: Holding| #[trigger] after.balances[h] <= u64::MAX by {
            assert(book.balances[h] <= u64::MAX);
        }
    }
}

/// Cancelling keeps the invariant of the book.
pub proof fn lemma_cancel_keeps_wf(book: BookView, id: u64, signers: Seq<Identity>)
    requires
        book.wf(),
    ensures
        book.cancel(id, signers).0.wf(),
{
    let (after, done) = book.cancel(id, signers);
    if done is Ok {
        assert(book.balances[Holding::Custody(id)] == book.custody_due(id));
        assert forall|other: u64| #[trigger]
            after.balances[Holding::Custody(other)] == after.custody_due(other) by {
            assert(book.balances[Holding::Custody(other)] == book.custody_due(other));
        }
        assert forall|h: Holding| #[trigger] after.balances[h] <= u64::MAX by {
            assert(book.balances[h] <= u64::MAX);
        }
    }
}

/// A deposit keeps the invariant of the book.
pub proof fn lemma_deposit_keeps_wf(book: BookView, party: Identity, amount: u64)
    requires
        book.wf(),
    ensures
        book.deposit(party, amount).0.wf(),
{
    let (after, done) = book.deposit(party, amount);
    if done is Ok {
        assert forall|other: u64| #[trigger]
            after.balances[Holding::Custody(other)] == after.custody_due(other) by {
            assert(book.balances[Holding::Custody(other)] == book.custody_due(other));
        }
        assert forall|h: Holding| #[trigger] after.balances[h] <= u64::MAX by {
            assert(book.balances[h] <= u64::MAX);
        }
    }
}

/// Creating an escrow, case by case.
///
/// The call succeeds exactly when the amount is not zero, the buyer has
/// authorized it and the buyer holds at least the amount. Each error comes
/// on exactly the inputs given for it, and with an error the book is
/// unchanged. On success the new record is `Locked` under the next
/// identifier, exactly `amount` has left the buyer's holding, the custody
/// holding of the new escrow holds exactly `amount`, and no other balance
/// or record has changed.
pub proof fn lemma_initialize_outcome(
    book: BookView,
    buyer: Identity,
    seller: Identity,
    signers: Seq<Identity>,
    order_id: Seq<char>,
    amount: u64,
)
    requires
        book.wf(),
    ensures
        ({
            let (after, created) = book.initialize(buyer, seller, signers, order_id, amount);
            let funds = book.balances[Holding::Party(buyer)];
            &&& created == if amount == 0 {
                Err::<u64, EscrowError>(EscrowError::InvalidAmount)
            } else if !signers.contains(buyer) {
                Err(EscrowError::UnauthorizedCaller)
            } else if funds < amount {
                Err(EscrowError::InsufficientFunds)
            } else {
                Ok(book.records.len() as u64)
            }
            &&& created is Err ==> after == book
            &&& created matches Ok(id) ==> {
                &&& after.records == book.records.push(
                    EscrowView { buyer, seller, amount, order_id, status: EscrowStatus::Locked },
                )
                &&& after.balances[Holding::Party(buyer)] == funds - amount
                &&& after.balances[Holding::Custody(id)] == amount
                &&& forall|h: Holding|
                    h != Holding::Party(buyer) && h != Holding::Custody(id) ==> after.balances[h]
                        == book.balances[h]
            }
        }),
{
    let id: u64 = book.records.len() as u64;
    assert(book.balances[Holding::Custody(id)] == book.custody_due(id));
}

/// Confirming delivery, case by case.
///
/// The call succeeds exactly when the record exists and is `Locked`, buyer
/// and seller have both authorized it, and the seller's holding can take
/// the amount. Each error comes on exactly the inputs given for it, and
/// with an error the book is unchanged. On success the record is
/// `Completed` and otherwise as it was, the custody holding is empty, the
/// seller has exactly the amount more, and no other balance or record has
/// changed.
pub proof fn lemma_confirm_outcome(book: BookView, id: u64, signers: Seq<Identity>)
    requires
        book.wf(),
    ensures
        ({
            let (after, done) = book.confirm(id, signers);
            let record = book.records[id as int];
            let locked = book.status(id) == Some(EscrowStatus::Locked);
            let authorized = signers.contains(record.buyer) && signers.contains(record.seller);
            let held = book.balances[Holding::Party(record.seller)];
            &&& done == if !locked {
                Err::<(), EscrowError>(EscrowError::InvalidStatus)
            } else if !authorized {
                Err(EscrowError::UnauthorizedCaller)
            } else if held + record.amount > u64::MAX {
                Err(EscrowError::TransferFailed)
            } else {
                Ok(())
            }
            &&& done is Err ==> after == book
            &&& done is Ok ==> {
                &&& after.records == book.records.update(
                    id as int,
                    record.with_status(EscrowStatus::Completed),
                )
                &&& after.balances[Holding::Custody(id)] == 0
                &&& after.balances[Holding::Party(record.seller)] == held + record.amount
                &&& forall|h: Holding|
                    h != Holding::Party(record.seller) && h != Holding::Custody(id)
                        ==> after.balances[h] == book.balances[h]
            }
        }),
{
    if id < book.records.len() {
        let record = book.records[id as int];
        assert(book.balances[Holding::Custody(id)] == book.custody_due(id));
    }
}

/// Cancelling, case by case.
///
/// The call succeeds exactly when the record exists and is `Locked`, the
/// buyer has authorized it, and the buyer's holding can take the amount.
/// Each error comes on exactly the inputs given for it, and with an error
/// the book is unchanged. On success the record is `Cancelled` and
/// otherwise as it was, the custody holding is empty, the buyer has exactly
/// the amount more, and no other balance or record has changed.
pub proof fn lemma_cancel_outcome(book: BookView, id: u64, signers: Seq<Identity>)
    requires
        book.wf(),
    ensures
        ({
            let (after, done) = book.cancel(id, signers);
            let record = book.records[id as int];
            let locked = book.status(id) == Some(EscrowStatus::Locked);
            let authorized = signers.contains(record.buyer);
            let held = book.balances[Holding::Party(record.buyer)];
            &&& done == if !locked {
                Err::<(), EscrowError>(EscrowError::InvalidStatus)
            } else if !authorized {
                Err(EscrowError::UnauthorizedCaller)
            } else if held + record.amount > u64::MAX {
                Err(EscrowError::TransferFailed)
            } else {
                Ok(())
            }
            &&& done is Err ==> after == book
            &&& done is Ok ==> {
                &&& after.records == book.records.update(
                    id as int,
                    record.with_status(EscrowStatus::Cancelled),
                )
                &&& after.balances[Holding::Custody(id)] == 0
                &&& after.balances[Holding::Party(record.buyer)] == held + record.amount
                &&& forall|h: Holding|
                    h != Holding::Party(record.buyer) && h != Holding::Custody(id)
                        ==> after.balances[h] == book.balances[h]
            }
        }),
{
    if id < book.records.len() {
        let record = book.records[id as int];
        assert(book.balances[Holding::Custody(id)] == book.custody_due(id));
    }
}

/// A record that has left `Locked` stays where it is: whoever authorizes
/// the call, confirming and cancelling are both refused with
/// `InvalidStatus`, and neither moves any funds or changes any record. The
/// same holds of an identifier that has no record.
pub proof fn lemma_ended_escrow_rejects(book: BookView, id: u64, signers: Seq<Identity>)
    requires
        book.status(id) != Some(EscrowStatus::Locked),
    ensures
        book.confirm(id, signers) == (book, Err::<(), EscrowError>(EscrowError::InvalidStatus)),
        book.cancel(id, signers) == (book, Err::<(), EscrowError>(EscrowError::InvalidStatus)),
{
}

/// A call without the authorizations that its transition requires is
/// refused with `UnauthorizedCaller` and leaves the record `Locked`, the
/// book and every balance as they were.
pub proof fn lemma_unauthorized_is_rejected(book: BookView, id: u64, signers: Seq<Identity>)
    requires
        book.status(id) == Some(EscrowStatus::Locked),
    ensures
        !spec_is_authorized(
            Transition::Confirm,
            book.records[id as int].buyer,
            book.records[id as int].seller,
            signers,
        ) ==> book.confirm(id, signers) == (
            book,
            Err::<(), EscrowError>(EscrowError::UnauthorizedCaller),
        ),
        !spec_is_authorized(
            Transition::Cancel,
            book.records[id as int].buyer,
            book.records[id as int].seller,
            signers,
        ) ==> book.cancel(id, signers) == (
            book,
            Err::<(), EscrowError>(EscrowError::UnauthorizedCaller),
        ),
{
}

/// Confirming twice: once a confirmation has gone through, a second one on
/// the same escrow is refused with `InvalidStatus` whoever authorizes it,
/// and changes nothing. Custody was debited by the first call, of exactly
/// the amount, and is not touched by the second.
pub proof fn lemma_confirm_twice(book: BookView, id: u64, first: Seq<Identity>, second: Seq<Identity>)
    requires
        book.wf(),
        book.status(id) == Some(EscrowStatus::Locked),
        book.confirm(id, first).1 is Ok,
    ensures
        ({
            let (once, _) = book.confirm(id, first);
            let (twice, again) = once.confirm(id, second);
            &&& again == Err::<(), EscrowError>(EscrowError::InvalidStatus)
            &&& twice == once
            &&& once.balances[Holding::Custody(id)] == book.balances[Holding::Custody(id)]
                - book.records[id as int].amount
            &&& twice.balances[Holding::Custody(id)] == once.balances[Holding::Custody(id)]
        }),
{
    lemma_confirm_outcome(book, id, first);
    let (once, _) = book.confirm(id, first);
    lemma_ended_escrow_rejects(once, id, second);
    assert(book.balances[Holding::Custody(id)] == book.custody_due(id));
}

/// Cancelling twice: once a cancellation has gone through, a second one on
/// the same escrow is refused with `InvalidStatus` whoever authorizes it,
/// and changes nothing. The buyer was refunded by the first call, of
/// exactly the amount, and gets nothing from the second.
pub proof fn lemma_cancel_twice(book: BookView, id: u64, first: Seq<Identity>, second: Seq<Identity>)
    requires
        book.wf(),
        book.status(id) == Some(EscrowStatus::Locked),
        book.cancel(id, first).1 is Ok,
    ensures
        ({
            let buyer = Holding::Party(book.records[id as int].buyer);
            let (once, _) = book.cancel(id, first);
            let (twice, again) = once.cancel(id, second);
            &&& again == Err::<(), EscrowError>(EscrowError::InvalidStatus)
            &&& twice == once
            &&& once.balances[buyer] == book.balances[buyer] + book.records[id as int].amount
            &&& twice.balances[buyer] == once.balances[buyer]
        }),
{
    lemma_cancel_outcome(book, id, first);
    let (once, _) = book.cancel(id, first);
    lemma_ended_escrow_rejects(once, id, second);
}

/// Confirming and cancelling exclude each other: once either has gone
/// through on an escrow, the other is refused on it with `InvalidStatus`,
/// whoever authorizes it, and changes nothing.
pub proof fn lemma_confirm_and_cancel_exclude(
    book: BookView,
    id: u64,
    first: Seq<Identity>,
    second: Seq<Identity>,
)
    requires
        book.status(id) == Some(EscrowStatus::Locked),
    ensures
        book.cancel(id, first).1 is Ok ==> book.cancel(id, first).0.confirm(id, second) == (
            book.cancel(id, first).0,
            Err::<(), EscrowError>(EscrowError::InvalidStatus),
        ),
        book.confirm(id, first).1 is Ok ==> book.confirm(id, first).0.cancel(id, second) == (
            book.confirm(id, first).0,
            Err::<(), EscrowError>(EscrowError::InvalidStatus),
        ),
{
    if book.cancel(id, first).1 is Ok {
        lemma_ended_escrow_rejects(book.cancel(id, first).0, id, second);
    }
    if book.confirm(id, first).1 is Ok {
        lemma_ended_escrow_rejects(book.confirm(id, first).0, id, second);
    }
}

/// Records only move forward. Confirming or cancelling adds and removes no
/// record, changes no record but the one it names, and changes of that one
/// nothing but the status, which goes from `Locked` to `Completed` or to
/// `Cancelled` and in no other direction.
pub proof fn lemma_records_only_advance(book: BookView, id: u64, signers: Seq<Identity>, i: int)
    requires
        0 <= i < book.records.len(),
    ensures
        ({
            let after = book.confirm(id, signers).0;
            &&& after.records.len() == book.records.len()
            &&& after.records[i] == book.records[i].with_status(after.records[i].status)
            &&& i != id ==> after.records[i] == book.records[i]
            &&& after.records[i].status != book.records[i].status ==> book.records[i].status
                == EscrowStatus::Locked && after.records[i].status == EscrowStatus::Completed
        }),
        ({
            let after = book.cancel(id, signers).0;
            &&& after.records.len() == book.records.len()
            &&& after.records[i] == book.records[i].with_status(after.records[i].status)
            &&& i != id ==> after.records[i] == book.records[i]
            &&& after.records[i].status != book.records[i].status ==> book.records[i].status
                == EscrowStatus::Locked && after.records[i].status == EscrowStatus::Cancelled
        }),
{
}

/// A cancellation undoes the creation: right after an escrow is created, a
/// cancellation that the buyer has authorized goes through, and leaves every
/// balance as it was before the escrow was created. The record stays, as
/// `Cancelled`.
pub proof fn lemma_cancel_undoes_initialize(
    book: BookView,
    buyer: Identity,
    seller: Identity,
    signers: Seq<Identity>,
    order_id: Seq<char>,
    amount: u64,
    cancel_signers: Seq<Identity>,
)
    requires
        book.wf(),
        book.records.len() < u64::MAX,
        book.initialize(buyer, seller, signers, order_id, amount).1 is Ok,
        cancel_signers.contains(buyer),
    ensures
        ({
            let (locked, created) = book.initialize(buyer, seller, signers, order_id, amount);
            let id = created->Ok_0;
            let (after, done) = locked.cancel(id, cancel_signers);
            &&& done is Ok
            &&& after.balances == book.balances
            &&& after.status(id) == Some(EscrowStatus::Cancelled)
        }),
{
    let (locked, created) = book.initialize(buyer, seller, signers, order_id, amount);
    let id: u64 = created->Ok_0;
    lemma_initialize_outcome(book, buyer, seller, signers, order_id, amount);
    lemma_initialize_keeps_wf(book, buyer, seller, signers, order_id, amount);
    lemma_cancel_outcome(locked, id, cancel_signers);
    let after = locked.cancel(id, cancel_signers).0;
    assert(book.balances[Holding::Custody(id)] == book.custody_due(id));
    assert(after.balances =~= book.balances);
}

} // verus!
