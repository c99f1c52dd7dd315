//! What a caller presents with each operation: the parties or the escrow it
//! speaks of, and the parties that have authorized the call.

use vstd::prelude::*;
use crate::identity::Identity;

verus! {

/// A call to create an escrow and lock its funds.
#[derive(Debug)]
pub struct InitializeEscrow {
    /// The party that funds the escrow.
    pub buyer: Identity,
    /// The party that is to be paid.
    pub seller: Identity,
    /// The parties whose authorization of this call has been checked.
    pub signers: Vec<Identity>,
}

/// A call to confirm delivery and release the funds to the seller.
#[derive(Debug)]
pub struct ConfirmDelivery {
    /// The identifier of the escrow to complete.
    pub escrow: u64,
    /// The parties whose authorization of this call has been checked.
    pub signers: Vec<Identity>,
}

/// A call to cancel an escrow and return the funds to the buyer.
#[derive(Debug)]
pub struct CancelEscrow {
    /// The identifier of the escrow to cancel.
    pub escrow: u64,
    /// The parties whose authorization of this call has been checked.
    pub signers: Vec<Identity>,
}

} // verus!
