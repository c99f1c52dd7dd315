use ai_agent_escrow::{
    is_authorized, is_authorized_signer, required_authorizers, EscrowStatus, Identity, Transition,
};

fn id(tag: u8) -> Identity {
    Identity::new([tag; 32])
}

#[test]
fn the_buyer_alone_creates_and_cancels() {
    let (buyer, seller) = (id(1), id(2));
    assert_eq!(required_authorizers(Transition::Initialize, buyer, seller), vec![buyer]);
    assert_eq!(required_authorizers(Transition::Cancel, buyer, seller), vec![buyer]);
}

#[test]
fn a_release_needs_buyer_and_seller() {
    let (buyer, seller) = (id(1), id(2));
    let required = required_authorizers(Transition::Confirm, buyer, seller);
    assert_eq!(required.len(), 2);
    assert!(required.contains(&buyer));
    assert!(required.contains(&seller));
}

#[test]
fn a_party_on_both_sides_is_required_once() {
    let both = id(5);
    assert_eq!(required_authorizers(Transition::Confirm, both, both), vec![both]);
    assert!(is_authorized(Transition::Confirm, both, both, &vec![both]));
    assert!(!is_authorized(Transition::Confirm, both, both, &vec![]));
}

#[test]
fn authorization_follows_the_policy() {
    let (buyer, seller, stranger) = (id(1), id(2), id(3));
    let cases: [(Vec<Identity>, bool, bool, bool); 6] = [
        (vec![], false, false, false),
        (vec![buyer], true, false, true),
        (vec![seller], false, false, false),
        (vec![stranger], false, false, false),
        (vec![seller, buyer], true, true, true),
        (vec![stranger, seller, buyer], true, true, true),
    ];
    for (signers, initialize, confirm, cancel) in cases {
        assert_eq!(is_authorized(Transition::Initialize, buyer, seller, &signers), initialize);
        assert_eq!(is_authorized(Transition::Confirm, buyer, seller, &signers), confirm);
        assert_eq!(is_authorized(Transition::Cancel, buyer, seller, &signers), cancel);
    }
}

#[test]
fn signers_are_found_by_all_their_bytes() {
    let mut bytes = [9u8; 32];
    let first = Identity::new(bytes);
    bytes[17] = 8;
    let second = Identity::new(bytes);
    let signers = vec![first];
    assert!(is_authorized_signer(&signers, &first));
    assert!(!is_authorized_signer(&signers, &second));
    assert!(!is_authorized_signer(&vec![], &first));
    assert!(is_authorized_signer(&vec![second, first], &first));
}

#[test]
fn each_transition_has_its_target() {
    assert_eq!(Transition::Initialize.target(), EscrowStatus::Locked);
    assert_eq!(Transition::Confirm.target(), EscrowStatus::Completed);
    assert_eq!(Transition::Cancel.target(), EscrowStatus::Cancelled);
}
