//! Who must authorize which transition.

use vstd::prelude::*;
use crate::identity::Identity;
use crate::record::EscrowStatus;

verus! {

/// A step of the escrow state machine.
#[derive(Clone, Copy, Debug, PartialEq, Eq, Structural)]
pub enum Transition {
    /// Creates the record and locks the funds.
    Initialize,
    /// Releases the funds to the seller.
    Confirm,
    /// Returns the funds to the buyer.
    Cancel,
}

impl Transition {
    /// The status of a record after this transition.
    pub open spec fn spec_target(self) -> EscrowStatus {
        match self {
            Transition::Initialize => EscrowStatus::Locked,
            Transition::Confirm => EscrowStatus::Completed,
            Transition::Cancel => EscrowStatus::Cancelled,
        }
    }

    /// The status in which this transition leaves a record.
    pub fn target(&self) -> (status: EscrowStatus)
        ensures
            status == self.spec_target(),
    {
        match self {
            Transition::Initialize => EscrowStatus::Locked,
            Transition::Confirm => EscrowStatus::Completed,
            Transition::Cancel => EscrowStatus::Cancelled,
        }
    }
}

/// The parties that must all have authorized a call for `transition` on an
/// escrow between `buyer` and `seller`.
///
/// The buyer alone creates and cancels an escrow. A release needs the buyer
/// and the seller together, so that the seller cannot pay itself.
pub open spec fn spec_required_authorizers(
    transition: Transition,
    buyer: Identity,
    seller: Identity,
) -> Set<Identity> {
    match transition {
        Transition::Initialize => set![buyer],
        Transition::Confirm => set![buyer, seller],
        Transition::Cancel => set![buyer],
    }
}

/// Whether the parties in `signers` suffice for `transition`: the buyer for
/// creating and for cancelling, the buyer and the seller for a release.
pub open spec fn spec_is_authorized(
    transition: Transition,
    buyer: Identity,
    seller: Identity,
    signers: Seq<Identity>,
) -> bool {
    match transition {
        Transition::Initialize => signers.contains(buyer),
        Transition::Confirm => signers.contains(buyer) && signers.contains(seller),
        Transition::Cancel => signers.contains(buyer),
    }
}

/// A call is authorized exactly when every party that the policy requires
/// for the transition is among its signers.
pub proof fn lemma_authorized_iff_required_signed(
    transition: Transition,
    buyer: Identity,
    seller: Identity,
    signers: Seq<Identity>,
)
    ensures
        spec_is_authorized(transition, buyer, seller, signers) <==> (forall|who: Identity| #[trigger]
            spec_required_authorizers(transition, buyer, seller).contains(who)
                ==> signers.contains(who)),
{
    let required = spec_required_authorizers(transition, buyer, seller);
    assert(required.contains(buyer));
    if transition == Transition::Confirm {
        assert(required.contains(seller));
    }
}

/// Whether `who` is one of `signers`.
pub fn is_authorized_signer(signers: &Vec<Identity>, who: &Identity) -> (found: bool)
    ensures
        found == signers@.contains(*who),
{
    let mut i: usize = 0;
    while i < signers.len()
        invariant
            i <= signers.len(),
            forall|j: int| 0 <= j < i ==> signers@[j] != *who,
        decreases signers.len() - i,
    {
        if signers[i] == *who {
            return true;
        }
        i += 1;
    }
    false
}

/// The parties that must authorize `transition`, each listed once.
pub fn required_authorizers(transition: Transition, buyer: Identity, seller: Identity) -> (required:
    Vec<Identity>)
    ensures
        required@.no_duplicates(),
        required@.to_set() == spec_required_authorizers(transition, buyer, seller),
{
    let mut required: Vec<Identity> = Vec::new();
    required.push(buyer);
    match transition {
        Transition::Confirm => {
            if !(seller == buyer) {
                required.push(seller);
            }
        },
        _ => {},
    }
    proof {
        let wanted = spec_required_authorizers(transition, buyer, seller);
        assert(required@[0] == buyer);
        if required@.len() == 2 {
            assert(required@[1] == seller);
        }
        assert forall|who: Identity| required@.to_set().contains(who) <==> wanted.contains(
            who,
        ) by {
            if required@.contains(who) {
                let i = choose|i: int| 0 <= i < required@.len() && required@[i] == who;
                assert(wanted.contains(who));
            }
        }
        assert(required@.to_set() =~= wanted);
    }
    required
}

/// Whether a call authorized by `signers` may make `transition` on an
/// escrow between `buyer` and `seller`.
pub fn is_authorized(
    transition: Transition,
    buyer: Identity,
    seller: Identity,
    signers: &Vec<Identity>,
) -> (authorized: bool)
    ensures
        authorized == spec_is_authorized(transition, buyer, seller, signers@),
{
    proof {
        lemma_authorized_iff_required_signed(transition, buyer, seller, signers@);
    }
    let required = required_authorizers(transition, buyer, seller);
    let ghost wanted = spec_required_authorizers(transition, buyer, seller);
    let mut i: usize = 0;
    while i < required.len()
        invariant
            i <= required.len(),
            wanted == spec_required_authorizers(transition, buyer, seller),
            required@.to_set() == wanted,
            forall|j: int| 0 <= j < i ==> signers@.contains(#[trigger] required@[j]),
        decreases required.len() - i,
    {
        if !is_authorized_signer(signers, &required[i]) {
            proof {
                assert(required@.contains(required@[i as int]));
                assert(wanted.contains(required@[i as int]));
            }
            return false;
        }
        i += 1;
    }
    proof {
        assert forall|who: Identity| #[trigger] wanted.contains(who) implies signers@.contains(
            who,
        ) by {
            assert(required@.to_set().contains(who));
            assert(required@.contains(who));
        }
    }
    true
}

} // verus!
