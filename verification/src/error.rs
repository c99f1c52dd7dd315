//! The ways in which an escrow operation, or a movement on the ledger, fails.

use vstd::prelude::*;

verus! {

/// Why the ledger turned a transfer down.
#[derive(Clone, Copy, Debug, PartialEq, Eq, Structural)]
pub enum TransferError {
    /// The source holding has less than the amount asked for.
    InsufficientFunds,
    /// The ledger refused the movement for any other reason.
    Rejected,
}

/// Why an escrow operation was rejected. A rejected operation changes
/// neither the record nor any balance.
#[derive(Clone, Copy, Debug, PartialEq, Eq, Structural)]
pub enum EscrowError {
    /// An escrow cannot be created for an amount of zero.
    InvalidAmount,
    /// The call lacks an authorization that the transition demands.
    UnauthorizedCaller,
    /// The record is not in the state that the transition leaves from.
    InvalidStatus,
    /// The buyer's holding is too small to fund the escrow.
    InsufficientFunds,
    /// The ledger refused to move the funds.
    TransferFailed,
}

impl EscrowError {
    /// The text shown for this error.
    pub open spec fn spec_message(self) -> Seq<char> {
        match self {
            EscrowError::InvalidAmount => "Escrow amount must be greater than zero"@,
            EscrowError::UnauthorizedCaller => "Caller is not authorized for this transition"@,
            EscrowError::InvalidStatus => "Invalid escrow status"@,
            EscrowError::InsufficientFunds => "Insufficient funds to lock in escrow"@,
            EscrowError::TransferFailed => "Ledger transfer failed"@,
        }
    }

    /// A short description of the error, fit for a log line or a reply.
    pub fn message(&self) -> (text: &'static str)
        ensures
            text@ == self.spec_message(),
    {
        match self {
            EscrowError::InvalidAmount => "Escrow amount must be greater than zero",
            EscrowError::UnauthorizedCaller => "Caller is not authorized for this transition",
            EscrowError::InvalidStatus => "Invalid escrow status",
            EscrowError::InsufficientFunds => "Insufficient funds to lock in escrow",
            EscrowError::TransferFailed => "Ledger transfer failed",
        }
    }
}

} // verus!
