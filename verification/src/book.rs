//! The book of escrows: every record under its identifier, beside the
//! ledger that holds the parties' funds and the funds in custody.

use vstd::prelude::*;
use crate::context::{CancelEscrow, ConfirmDelivery, InitializeEscrow};
use crate::error::{EscrowError, TransferError};
use crate::identity::Identity;
use crate::laws::{
    lemma_cancel_keeps_wf,
    lemma_cancel_outcome,
    lemma_confirm_keeps_wf,
    lemma_confirm_outcome,
    lemma_deposit_keeps_wf,
    lemma_initialize_keeps_wf,
    lemma_initialize_outcome,
};
use crate::ledger::{Holding, Ledger};
use crate::model::BookView;
use crate::record::{Escrow, EscrowStatus};
use crate::staging::{stage_cancel, stage_confirm, stage_initialize, Staged};

verus! {

/// Every escrow under the identifier it was given, and the ledger that its
/// funds move on. Records are added and never removed.
pub struct EscrowBook {
    records: Vec<Escrow>,
    ledger: Ledger,
}

impl View for EscrowBook {
    type V = BookView;

    closed spec fn view(&self) -> BookView {
        BookView {
            records: Seq::new(self.records@.len(), |i: int| self.records@[i]@),
            balances: self.ledger@,
        }
    }
}

impl EscrowBook {
    /// The book is sound: its ledger is well formed and its state keeps the
    /// invariant. Every book that this module hands out is, and every
    /// operation keeps it so.
    pub closed spec fn wf(&self) -> bool {
        &&& self.ledger.wf()
        &&& self@.wf()
    }

    /// A sound book keeps the invariant of its state.
    pub proof fn lemma_wf_view(&self)
        requires
            self.wf(),
        ensures
            self@.wf(),
    {
    }

    /// A book without records, on which every balance is zero.
    pub fn new() -> (book: EscrowBook)
        ensures
            book.wf(),
            book@.records.len() == 0,
            forall|h: Holding| #[trigger] book@.balances[h] == 0,
    {
        EscrowBook { records: Vec::new(), ledger: Ledger::new() }
    }

    /// The number of escrows ever created, which is also the identifier
    /// that the next one will get.
    pub fn len(&self) -> (count: u64)
        ensures
            count == self@.records.len(),
    {
        self.records.len() as u64
    }

    /// The record kept under `id`, if there is one.
    pub fn load(&self, id: u64) -> (found: Option<&Escrow>)
        ensures
            match found {
                Some(escrow) => id < self@.records.len() && escrow@ == self@.records[id as int],
                None => id >= self@.records.len(),
            },
    {
        if id < self.records.len() as u64 {
            Some(&self.records[id as usize])
        } else {
            None
        }
    }

    /// The balance of `holding`.
    pub fn balance(&self, holding: &Holding) -> (balance: u64)
        requires
            self.wf(),
        ensures
            balance == self@.balances[*holding],
    {
        self.ledger.balance(holding)
    }

    /// Credits `party` with `amount` of new funds. Refused, with the book
    /// unchanged, when the party's balance could not hold the sum.
    pub fn deposit(&mut self, party: Identity, amount: u64) -> (done: Result<(), TransferError>)
        requires
            old(self).wf(),
        ensures
            final(self).wf(),
            final(self)@ == old(self)@.deposit(party, amount).0,
            done == old(self)@.deposit(party, amount).1,
    {
        proof {
            lemma_deposit_keeps_wf(self@, party, amount);
        }
        match self.ledger.deposit(Holding::Party(party), amount) {
            Ok(_) => Ok(()),
            Err(e) => Err(e),
        }
    }

    /// Makes the transfer of a staged transition on the record at `index`
    /// and, only if the ledger made it, moves the record to its new status.
    fn commit(&mut self, index: usize, staged: &Staged) -> (done: Result<(), EscrowError>)
        requires
            old(self).ledger.wf(),
            index < old(self).records.len(),
        ensures
            final(self).ledger.wf(),
            final(self)@ == old(self)@.commit(index as u64, *staged).0,
            done == old(self)@.commit(index as u64, *staged).1,
    {
        let outcome = self.ledger.transfer(&staged.transfer);
        match staged.settle(outcome) {
            Ok(status) => {
                self.records[index].status = status;
                assert(self@.records =~= old(self)@.records.update(
                    index as int,
                    old(self)@.records[index as int].with_status(status),
                ));
                Ok(())
            },
            Err(e) => Err(e),
        }
    }
}

/// Creates an escrow of `amount` between `ctx.buyer` and `ctx.seller` for the
/// order `order_id`, and locks the amount in custody.
///
/// On success the result is the identifier of the new record, which is
/// `Locked`; exactly `amount` has left the buyer's holding and sits in the
/// custody holding of that identifier. The call is refused with
/// `InvalidAmount` when `amount` is zero, else with `UnauthorizedCaller` when
/// the buyer is not among `ctx.signers`, else with `InsufficientFunds` when
/// the buyer holds less than `amount`. A refused call adds no record and
/// moves no funds.
pub fn initialize_escrow(
    book: &mut EscrowBook,
    ctx: &InitializeEscrow,
    order_id: String,
    amount: u64,
) -> (created: Result<u64, EscrowError>)
    requires
        old(book).wf(),
    ensures
        final(book).wf(),
        final(book)@ == old(book)@.initialize(
            ctx.buyer,
            ctx.seller,
            ctx.signers@,
            order_id@,
            amount,
        ).0,
        created == old(book)@.initialize(
            ctx.buyer,
            ctx.seller,
            ctx.signers@,
            order_id@,
            amount,
        ).1,
        ({
            let funds = old(book)@.balances[Holding::Party(ctx.buyer)];
            let next = old(book)@.records.len() as u64;
            &&& created == if amount == 0 {
                Err::<u64, EscrowError>(EscrowError::InvalidAmount)
            } else if !ctx.signers@.contains(ctx.buyer) {
                Err(EscrowError::UnauthorizedCaller)
            } else if funds < amount {
                Err(EscrowError::InsufficientFunds)
            } else {
                Ok(next)
            }
            &&& created is Ok ==> {
                &&& final(book)@.status(next) == Some(EscrowStatus::Locked)
                &&& final(book)@.records[next as int].amount == amount
                &&& final(book)@.balances[Holding::Party(ctx.buyer)] == funds - amount
                &&& final(book)@.balances[Holding::Custody(next)] == amount
            }
            &&& created is Err ==> final(book)@ == old(book)@
        }),
{
    proof {
        lemma_initialize_outcome(
            book@,
            ctx.buyer,
            ctx.seller,
            ctx.signers@,
            order_id@,
            amount,
        );
    }
    let id: u64 = book.records.len() as u64;
    let staged = match stage_initialize(ctx, amount, id) {
        Ok(staged) => staged,
        Err(e) => {
            return Err(e);
        },
    };
    let outcome = book.ledger.transfer(&staged.transfer);
    match staged.settle(outcome) {
        Ok(status) => {
            let escrow = Escrow { buyer: ctx.buyer, seller: ctx.seller, amount, order_id, status };
            book.records.push(escrow);
            proof {
                assert(book.records.len() == old(book).records.len() + 1);
                assert(book@.records =~= old(book)@.records.push(escrow@));
                lemma_initialize_keeps_wf(
                    old(book)@,
                    ctx.buyer,
                    ctx.seller,
                    ctx.signers@,
                    order_id@,
                    amount,
                );
            }
            Ok(id)
        },
        Err(e) => Err(e),
    }
}

/// Confirms delivery on the escrow `ctx.escrow`: the record becomes
/// `Completed` and its amount moves from custody to the seller.
///
/// The call is refused with `InvalidStatus` unless the record exists and is
/// `Locked`, else with `UnauthorizedCaller` unless buyer and seller are both
/// among `ctx.signers`, else with `TransferFailed` when the ledger refuses
/// the transfer. A refused call leaves the record `Locked` and moves no
/// funds.
pub fn confirm_delivery(book: &mut EscrowBook, ctx: &ConfirmDelivery) -> (done: Result<
    (),
    EscrowError,
>)
    requires
        old(book).wf(),
    ensures
        final(book).wf(),
        final(book)@ == old(book)@.confirm(ctx.escrow, ctx.signers@).0,
        done == old(book)@.confirm(ctx.escrow, ctx.signers@).1,
        ({
            let record = old(book)@.records[ctx.escrow as int];
            let locked = old(book)@.status(ctx.escrow) == Some(EscrowStatus::Locked);
            let authorized = ctx.signers@.contains(record.buyer) && ctx.signers@.contains(
                record.seller,
            );
            let held = old(book)@.balances[Holding::Party(record.seller)];
            &&& done == if !locked {
                Err::<(), EscrowError>(EscrowError::InvalidStatus)
            } else if !authorized {
                Err(EscrowError::UnauthorizedCaller)
            } else if held + record.amount > u64::MAX {
                Err(EscrowError::TransferFailed)
            } else {
                Ok(())
            }
            &&& done is Ok ==> {
                &&& final(book)@.status(ctx.escrow) == Some(EscrowStatus::Completed)
                &&& final(book)@.balances[Holding::Custody(ctx.escrow)] == 0
                &&& final(book)@.balances[Holding::Party(record.seller)] == held + record.amount
            }
            &&& done is Err ==> final(book)@ == old(book)@
        }),
{
    proof {
        lemma_confirm_outcome(book@, ctx.escrow, ctx.signers@);
    }
    if ctx.escrow >= book.records.len() as u64 {
        return Err(EscrowError::InvalidStatus);
    }
    let index: usize = ctx.escrow as usize;
    let staged = match stage_confirm(&book.records[index], ctx) {
        Ok(staged) => staged,
        Err(e) => {
            return Err(e);
        },
    };
    proof {
        lemma_confirm_keeps_wf(old(book)@, ctx.escrow, ctx.signers@);
    }
    book.commit(index, &staged)
}

/// Cancels the escrow `ctx.escrow`: the record becomes `Cancelled` and its
/// amount moves from custody back to the buyer.
///
/// The call is refused with `InvalidStatus` unless the record exists and is
/// `Locked`, else with `UnauthorizedCaller` unless the buyer is among
/// `ctx.signers`, else with `TransferFailed` when the ledger refuses the
/// transfer. A refused call leaves the record `Locked` and moves no funds.
pub fn cancel_escrow(book: &mut EscrowBook, ctx: &CancelEscrow) -> (done: Result<(), EscrowError>)
    requires
        old(book).wf(),
    ensures
        final(book).wf(),
        final(book)@ == old(book)@.cancel(ctx.escrow, ctx.signers@).0,
        done == old(book)@.cancel(ctx.escrow, ctx.signers@).1,
        ({
            let record = old(book)@.records[ctx.escrow as int];
            let locked = old(book)@.status(ctx.escrow) == Some(EscrowStatus::Locked);
            let authorized = ctx.signers@.contains(record.buyer);
            let held = old(book)@.balances[Holding::Party(record.buyer)];
            &&& done == if !locked {
                Err::<(), EscrowError>(EscrowError::InvalidStatus)
            } else if !authorized {
                Err(EscrowError::UnauthorizedCaller)
            } else if held + record.amount > u64::MAX {
                Err(EscrowError::TransferFailed)
            } else {
                Ok(())
            }
            &&& done is Ok ==> {
                &&& final(book)@.status(ctx.escrow) == Some(EscrowStatus::Cancelled)
                &&& final(book)@.balances[Holding::Custody(ctx.escrow)] == 0
                &&& final(book)@.balances[Holding::Party(record.buyer)] == held + record.amount
            }
            &&& done is Err ==> final(book)@ == old(book)@
        }),
{
    proof {
        lemma_cancel_outcome(book@, ctx.escrow, ctx.signers@);
    }
    if ctx.escrow >= book.records.len() as u64 {
        return Err(EscrowError::InvalidStatus);
    }
    let index: usize = ctx.escrow as usize;
    let staged = match stage_cancel(&book.records[index], ctx) {
        Ok(staged) => staged,
        Err(e) => {
            return Err(e);
        },
    };
    proof {
        lemma_cancel_keeps_wf(old(book)@, ctx.escrow, ctx.signers@);
    }
    book.commit(index, &staged)
}

} // verus!
