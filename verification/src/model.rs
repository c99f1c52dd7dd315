//! The escrow state machine as mathematics: the state of a book, and what
//! each operation makes of it.

use vstd::prelude::*;
use crate::error::{EscrowError, TransferError};
use crate::identity::Identity;
use crate::ledger::{deposit_outcome, transfer_outcome, valid_balances, Holding};
use crate::record::{EscrowStatus, EscrowView};
use crate::staging::{
    spec_rejection,
    spec_stage_cancel,
    spec_stage_confirm,
    spec_stage_initialize,
    Staged,
};

verus! {

/// The state of a book as mathematical values: the records in the order of
/// their identifiers, and the balance of every holding.
#[verifier::ext_equal]
pub struct BookView {
    pub records: Seq<EscrowView>,
    pub balances: Map<Holding, nat>,
}

impl BookView {
    /// What the custody holding of escrow `id` must hold: the escrow's
    /// amount while it is `Locked`, and nothing before it exists or after
    /// it has ended.
    pub open spec fn custody_due(self, id: u64) -> nat {
        if id < self.records.len() && self.records[id as int].status == EscrowStatus::Locked {
            self.records[id as int].amount as nat
        } else {
            0
        }
    }

    /// The invariant of the book. Every custody holding has exactly what is
    /// due to it, so the funds of an escrow leave custody once and no more;
    /// no record is for an amount of zero; identifiers and balances fit in
    /// 64 bits.
    pub open spec fn wf(self) -> bool {
        &&& valid_balances(self.balances)
        &&& self.records.len() <= u64::MAX
        &&& forall|id: u64| #[trigger] self.balances[Holding::Custody(id)] == self.custody_due(id)
        &&& forall|i: int| 0 <= i < self.records.len() ==> (#[trigger] self.records[i]).amount > 0
    }

    /// The status of the record under `id`, if there is one.
    pub open spec fn status(self, id: u64) -> Option<EscrowStatus> {
        if id < self.records.len() {
            Some(self.records[id as int].status)
        } else {
            None
        }
    }

    /// Creating an escrow.
    ///
    /// The new record takes the next identifier. If the guards pass and the
    /// ledger moves `amount` from the buyer into the custody holding of that
    /// identifier, the record is added as `Locked`. In every other case the
    /// book stays as it is and the error says why.
    pub open spec fn initialize(
        self,
        buyer: Identity,
        seller: Identity,
        signers: Seq<Identity>,
        order_id: Seq<char>,
        amount: u64,
    ) -> (BookView, Result<u64, EscrowError>) {
        let id = self.records.len() as u64;
        match spec_stage_initialize(buyer, seller, signers, amount, id) {
            Err(e) => (self, Err(e)),
            Ok(staged) => match transfer_outcome(self.balances, staged.transfer) {
                Err(e) => (self, Err(spec_rejection(staged.transition, e))),
                Ok(balances) => (
                    BookView {
                        records: self.records.push(
                            EscrowView {
                                buyer,
                                seller,
                                amount,
                                order_id,
                                status: EscrowStatus::Locked,
                            },
                        ),
                        balances,
                    },
                    Ok(id),
                ),
            },
        }
    }

    /// Applies a staged transition to the record under `id`: the transfer
    /// and the change of status happen together, or neither does.
    pub open spec fn commit(self, id: u64, staged: Staged) -> (BookView, Result<(), EscrowError>) {
        match transfer_outcome(self.balances, staged.transfer) {
            Err(e) => (self, Err(spec_rejection(staged.transition, e))),
            Ok(balances) => (
                BookView {
                    records: self.records.update(
                        id as int,
                        self.records[id as int].with_status(staged.transition.spec_target()),
                    ),
                    balances,
                },
                Ok(()),
            ),
        }
    }

    /// Confirming delivery on the escrow under `id`.
    ///
    /// An identifier without a record is in no state that a transition
    /// leaves from, and is refused like a record that has ended.
    pub open spec fn confirm(self, id: u64, signers: Seq<Identity>) -> (
        BookView,
        Result<(), EscrowError>,
    ) {
        if id >= self.records.len() {
            (self, Err(EscrowError::InvalidStatus))
        } else {
            match spec_stage_confirm(self.records[id as int], signers, id) {
                Err(e) => (self, Err(e)),
                Ok(staged) => self.commit(id, staged),
            }
        }
    }

    /// Cancelling the escrow under `id`.
    ///
    /// An identifier without a record is in no state that a transition
    /// leaves from, and is refused like a record that has ended.
    pub open spec fn cancel(self, id: u64, signers: Seq<Identity>) -> (
        BookView,
        Result<(), EscrowError>,
    ) {
        if id >= self.records.len() {
            (self, Err(EscrowError::InvalidStatus))
        } else {
            match spec_stage_cancel(self.records[id as int], signers, id) {
                Err(e) => (self, Err(e)),
                Ok(staged) => self.commit(id, staged),
            }
        }
    }

    /// Crediting a party's own holding with `amount`.
    pub open spec fn deposit(self, party: Identity, amount: u64) -> (
        BookView,
        Result<(), TransferError>,
    ) {
        match deposit_outcome(self.balances, Holding::Party(party), amount) {
            Err(e) => (self, Err(e)),
            Ok(balances) => (BookView { balances, ..self }, Ok(())),
        }
    }
}

} // verus!
