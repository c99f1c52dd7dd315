//! The guards of each transition, and the step that settles it.
//!
//! A transition is made in two halves. Staging checks the guards against
//! the record and the authorizations, touches nothing, and names the one
//! transfer that the transition needs. Settling takes the ledger's answer to
//! that transfer and gives the record's new status, or the error to report
//! while the record stays as it was. The status never changes without the
//! transfer, nor the transfer without the status.

use vstd::prelude::*;
use crate::context::{CancelEscrow, ConfirmDelivery, InitializeEscrow};
use crate::error::{EscrowError, TransferError};
use crate::identity::Identity;
use crate::ledger::{Holding, TransferRequest};
use crate::policy::{is_authorized, spec_is_authorized, Transition};
use crate::record::{Escrow, EscrowStatus, EscrowView};

verus! {

/// A transition whose guards have passed, waiting for its transfer.
#[derive(Clone, Copy, Debug)]
pub struct Staged {
    /// The transition to make.
    pub transition: Transition,
    /// The transfer that must succeed for the transition to happen.
    pub transfer: TransferRequest,
}

/// The guards of creating an escrow, and the transfer that locks its funds.
///
/// An amount of zero is refused first; then a call that the buyer has not
/// authorized. Otherwise `amount` is to move from the buyer's holding to
/// the custody holding `custody`.
pub open spec fn spec_stage_initialize(
    buyer: Identity,
    seller: Identity,
    signers: Seq<Identity>,
    amount: u64,
    custody: u64,
) -> Result<Staged, EscrowError> {
    if amount == 0 {
        Err(EscrowError::InvalidAmount)
    } else if !spec_is_authorized(Transition::Initialize, buyer, seller, signers) {
        Err(EscrowError::UnauthorizedCaller)
    } else {
        Ok(
            Staged {
                transition: Transition::Initialize,
                transfer: TransferRequest {
                    source: Holding::Party(buyer),
                    destination: Holding::Custody(custody),
                    amount,
                },
            },
        )
    }
}

/// The guards that `Confirm` and `Cancel` share: the record must be
/// `Locked`, which is asked first, and the call must carry the
/// authorizations that the transition requires.
pub open spec fn spec_guard(record: EscrowView, transition: Transition, signers: Seq<Identity>) -> Option<
    EscrowError,
> {
    if record.status != EscrowStatus::Locked {
        Some(EscrowError::InvalidStatus)
    } else if !spec_is_authorized(transition, record.buyer, record.seller, signers) {
        Some(EscrowError::UnauthorizedCaller)
    } else {
        None
    }
}

/// The guards of a release, and the transfer that pays the seller: the
/// record's whole amount, from its custody holding to the seller.
pub open spec fn spec_stage_confirm(record: EscrowView, signers: Seq<Identity>, custody: u64) -> Result<
    Staged,
    EscrowError,
> {
    match spec_guard(record, Transition::Confirm, signers) {
        Some(e) => Err(e),
        None => Ok(
            Staged {
                transition: Transition::Confirm,
                transfer: TransferRequest {
                    source: Holding::Custody(custody),
                    destination: Holding::Party(record.seller),
                    amount: record.amount,
                },
            },
        ),
    }
}

/// The guards of a cancellation, and the transfer that refunds the buyer:
/// the record's whole amount, from its custody holding to the buyer.
pub open spec fn spec_stage_cancel(record: EscrowView, signers: Seq<Identity>, custody: u64) -> Result<
    Staged,
    EscrowError,
> {
    match spec_guard(record, Transition::Cancel, signers) {
        Some(e) => Err(e),
        None => Ok(
            Staged {
                transition: Transition::Cancel,
                transfer: TransferRequest {
                    source: Holding::Custody(custody),
                    destination: Holding::Party(record.buyer),
                    amount: record.amount,
                },
            },
        ),
    }
}

/// The error that a transition reports when the ledger refuses its
/// transfer. Only the creation of an escrow tells a buyer that is short of
/// funds from any other refusal.
pub open spec fn spec_rejection(transition: Transition, error: TransferError) -> EscrowError {
    if transition == Transition::Initialize && error == TransferError::InsufficientFunds {
        EscrowError::InsufficientFunds
    } else {
        EscrowError::TransferFailed
    }
}

/// The end of a staged transition, given the ledger's answer: the new
/// status if the transfer was made, the error to report if it was not.
pub open spec fn spec_settle(transition: Transition, outcome: Result<(), TransferError>) -> Result<
    EscrowStatus,
    EscrowError,
> {
    match outcome {
        Ok(_) => Ok(transition.spec_target()),
        Err(e) => Err(spec_rejection(transition, e)),
    }
}

/// Checks the guards of creating an escrow of `amount` whose funds will be
/// held under `custody`.
pub fn stage_initialize(ctx: &InitializeEscrow, amount: u64, custody: u64) -> (staged: Result<
    Staged,
    EscrowError,
>)
    ensures
        staged == spec_stage_initialize(ctx.buyer, ctx.seller, ctx.signers@, amount, custody),
{
    if amount == 0 {
        return Err(EscrowError::InvalidAmount);
    }
    if !is_authorized(Transition::Initialize, ctx.buyer, ctx.seller, &ctx.signers) {
        return Err(EscrowError::UnauthorizedCaller);
    }
    Ok(
        Staged {
            transition: Transition::Initialize,
            transfer: TransferRequest {
                source: Holding::Party(ctx.buyer),
                destination: Holding::Custody(custody),
                amount,
            },
        },
    )
}

/// Checks the guards that `Confirm` and `Cancel` share.
fn guard(escrow: &Escrow, transition: Transition, signers: &Vec<Identity>) -> (refusal: Option<
    EscrowError,
>)
    ensures
        refusal == spec_guard(escrow@, transition, signers@),
{
    match escrow.status {
        EscrowStatus::Locked => {},
        _ => {
            return Some(EscrowError::InvalidStatus);
        },
    }
    if !is_authorized(transition, escrow.buyer, escrow.seller, signers) {
        return Some(EscrowError::UnauthorizedCaller);
    }
    None
}

/// Checks the guards of releasing the funds of `escrow`, which is kept
/// under the identifier `ctx.escrow`.
pub fn stage_confirm(escrow: &Escrow, ctx: &ConfirmDelivery) -> (staged: Result<Staged, EscrowError>)
    ensures
        staged == spec_stage_confirm(escrow@, ctx.signers@, ctx.escrow),
{
    match guard(escrow, Transition::Confirm, &ctx.signers) {
        Some(e) => Err(e),
        None => Ok(
            Staged {
                transition: Transition::Confirm,
                transfer: TransferRequest {
                    source: Holding::Custody(ctx.escrow),
                    destination: Holding::Party(escrow.seller),
                    amount: escrow.amount,
                },
            },
        ),
    }
}

/// Checks the guards of cancelling `escrow`, which is kept under the
/// identifier `ctx.escrow`.
pub fn stage_cancel(escrow: &Escrow, ctx: &CancelEscrow) -> (staged: Result<Staged, EscrowError>)
    ensures
        staged == spec_stage_cancel(escrow@, ctx.signers@, ctx.escrow),
{
    match guard(escrow, Transition::Cancel, &ctx.signers) {
        Some(e) => Err(e),
        None => Ok(
            Staged {
                transition: Transition::Cancel,
                transfer: TransferRequest {
                    source: Holding::Custody(ctx.escrow),
                    destination: Holding::Party(escrow.buyer),
                    amount: escrow.amount,
                },
            },
        ),
    }
}

impl Staged {
    /// Settles the transition once the ledger has answered its transfer.
    ///
    /// If the transfer was made, the result is the status that the record
    /// takes. If it was refused, the result is the error to report, and the
    /// record is to stay as it is.
    pub fn settle(&self, outcome: Result<(), TransferError>) -> (settled: Result<
        EscrowStatus,
        EscrowError,
    >)
        ensures
            settled == spec_settle(self.transition, outcome),
    {
        match outcome {
            Ok(_) => Ok(self.transition.target()),
            Err(TransferError::InsufficientFunds) => match self.transition {
                Transition::Initialize => Err(EscrowError::InsufficientFunds),
                _ => Err(EscrowError::TransferFailed),
            },
            Err(TransferError::Rejected) => Err(EscrowError::TransferFailed),
        }
    }
}

} // verus!
