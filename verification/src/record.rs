//! The escrow record and its status.

use vstd::prelude::*;
use crate::identity::Identity;

verus! {

/// Where an escrow stands in its life.
///
/// A record is created `Locked` and leaves that status exactly once, for
/// `Completed` or for `Cancelled`. Both of those are terminal.
#[derive(Clone, Copy, Debug, PartialEq, Eq, Structural)]
pub enum EscrowStatus {
    /// The funds sit in custody.
    Locked,
    /// The funds were released to the seller.
    Completed,
    /// The funds were returned to the buyer.
    Cancelled,
}

impl EscrowStatus {
    /// No transition leaves a terminal status.
    pub open spec fn spec_is_terminal(self) -> bool {
        self != EscrowStatus::Locked
    }

    /// Whether a record in status `self` may move to status `next`.
    pub open spec fn spec_can_become(self, next: EscrowStatus) -> bool {
        self == EscrowStatus::Locked && next != EscrowStatus::Locked
    }

    /// The number under which the status is stored.
    pub open spec fn spec_tag(self) -> u8 {
        match self {
            EscrowStatus::Locked => 0u8,
            EscrowStatus::Completed => 1u8,
            EscrowStatus::Cancelled => 2u8,
        }
    }

    /// The status stored under `tag`, if there is one.
    pub open spec fn spec_from_tag(tag: u8) -> Option<EscrowStatus> {
        if tag == 0 {
            Some(EscrowStatus::Locked)
        } else if tag == 1 {
            Some(EscrowStatus::Completed)
        } else if tag == 2 {
            Some(EscrowStatus::Cancelled)
        } else {
            None
        }
    }

    /// Whether the status is `Completed` or `Cancelled`.
    pub fn is_terminal(&self) -> (terminal: bool)
        ensures
            terminal == self.spec_is_terminal(),
    {
        match self {
            EscrowStatus::Locked => false,
            EscrowStatus::Completed => true,
            EscrowStatus::Cancelled => true,
        }
    }

    /// Whether the state machine has a transition from `self` to `next`.
    pub fn can_become(&self, next: EscrowStatus) -> (allowed: bool)
        ensures
            allowed == self.spec_can_become(next),
    {
        match (self, next) {
            (EscrowStatus::Locked, EscrowStatus::Completed) => true,
            (EscrowStatus::Locked, EscrowStatus::Cancelled) => true,
            _ => false,
        }
    }

    /// Encodes the status as one byte: 0 for `Locked`, 1 for `Completed`,
    /// 2 for `Cancelled`.
    pub fn tag(&self) -> (tag: u8)
        ensures
            tag == self.spec_tag(),
            EscrowStatus::spec_from_tag(tag) == Some(*self),
    {
        match self {
            EscrowStatus::Locked => 0,
            EscrowStatus::Completed => 1,
            EscrowStatus::Cancelled => 2,
        }
    }

    /// Decodes a stored byte. Every byte but 0, 1 and 2 is refused, so no
    /// record ever carries a status outside the three.
    pub fn from_tag(tag: u8) -> (status: Option<EscrowStatus>)
        ensures
            status == EscrowStatus::spec_from_tag(tag),
            status matches Some(s) ==> s.spec_tag() == tag,
            status is Some <==> tag <= 2,
    {
        if tag == 0 {
            Some(EscrowStatus::Locked)
        } else if tag == 1 {
            Some(EscrowStatus::Completed)
        } else if tag == 2 {
            Some(EscrowStatus::Cancelled)
        } else {
            None
        }
    }
}

/// What an escrow record says, as mathematical values.
#[verifier::ext_equal]
pub struct EscrowView {
    pub buyer: Identity,
    pub seller: Identity,
    pub amount: u64,
    pub order_id: Seq<char>,
    pub status: EscrowStatus,
}

impl EscrowView {
    /// The same record in another status. Nothing but the status of a
    /// record ever changes.
    pub open spec fn with_status(self, status: EscrowStatus) -> EscrowView {
        EscrowView { status, ..self }
    }
}

/// Value held in trust between a buyer and a seller.
///
/// `buyer`, `seller`, `amount` and `order_id` are set when the record is
/// created and stay as they are; `status` is the only field that moves.
#[derive(Debug)]
pub struct Escrow {
    /// The party that funds the escrow.
    pub buyer: Identity,
    /// The party that is paid on release.
    pub seller: Identity,
    /// The quantity locked, which is also the quantity of every transfer
    /// made for this escrow.
    pub amount: u64,
    /// The outside order that this escrow belongs to.
    pub order_id: String,
    /// Where the escrow stands.
    pub status: EscrowStatus,
}

impl View for Escrow {
    type V = EscrowView;

    open spec fn view(&self) -> EscrowView {
        EscrowView {
            buyer: self.buyer,
            seller: self.seller,
            amount: self.amount,
            order_id: self.order_id@,
            status: self.status,
        }
    }
}

impl Clone for Escrow {
    fn clone(&self) -> (copy: Escrow)
        ensures
            copy@ == self@,
    {
        Escrow {
            buyer: self.buyer,
            seller: self.seller,
            amount: self.amount,
            order_id: self.order_id.clone(),
            status: self.status,
        }
    }
}

impl Escrow {
    /// Whether the record has reached `Completed` or `Cancelled`.
    pub fn is_terminal(&self) -> (terminal: bool)
        ensures
            terminal == self@.status.spec_is_terminal(),
    {
        self.status.is_terminal()
    }

    /// Whether buyer and seller are different parties. An escrow between a
    /// party and itself is accepted like any other; this tells a caller
    /// that it has one.
    pub fn has_distinct_parties(&self) -> (distinct: bool)
        ensures
            distinct == (self@.buyer != self@.seller),
    {
        !(self.buyer == self.seller)
    }
}

} // verus!
