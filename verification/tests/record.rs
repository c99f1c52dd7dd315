use ai_agent_escrow::{Escrow, EscrowStatus, Identity};

#[test]
fn status_tags_are_zero_one_two() {
    assert_eq!(EscrowStatus::Locked.tag(), 0);
    assert_eq!(EscrowStatus::Completed.tag(), 1);
    assert_eq!(EscrowStatus::Cancelled.tag(), 2);
}

#[test]
fn tags_decode_to_their_status() {
    assert_eq!(EscrowStatus::from_tag(0), Some(EscrowStatus::Locked));
    assert_eq!(EscrowStatus::from_tag(1), Some(EscrowStatus::Completed));
    assert_eq!(EscrowStatus::from_tag(2), Some(EscrowStatus::Cancelled));
}

#[test]
fn no_other_tag_decodes() {
    for tag in 3..=u8::MAX {
        assert_eq!(EscrowStatus::from_tag(tag), None);
    }
}

#[test]
fn tag_and_from_tag_are_inverse() {
    for status in [EscrowStatus::Locked, EscrowStatus::Completed, EscrowStatus::Cancelled] {
        assert_eq!(EscrowStatus::from_tag(status.tag()), Some(status));
    }
}

#[test]
fn only_locked_is_not_terminal() {
    assert!(!EscrowStatus::Locked.is_terminal());
    assert!(EscrowStatus::Completed.is_terminal());
    assert!(EscrowStatus::Cancelled.is_terminal());
}

#[test]
fn the_only_transitions_leave_locked() {
    let all = [EscrowStatus::Locked, EscrowStatus::Completed, EscrowStatus::Cancelled];
    for from in all {
        for to in all {
            let expected = from == EscrowStatus::Locked && to != EscrowStatus::Locked;
            assert_eq!(from.can_become(to), expected);
        }
    }
}

#[test]
fn a_record_reports_its_state() {
    let mut escrow = Escrow {
        buyer: Identity::new([1; 32]),
        seller: Identity::new([2; 32]),
        amount: 12,
        order_id: String::from("order-12"),
        status: EscrowStatus::Locked,
    };
    assert!(!escrow.is_terminal());
    assert!(escrow.has_distinct_parties());
    escrow.status = EscrowStatus::Cancelled;
    assert!(escrow.is_terminal());
    escrow.seller = escrow.buyer;
    assert!(!escrow.has_distinct_parties());
}

#[test]
fn a_copy_of_a_record_says_the_same() {
    let escrow = Escrow {
        buyer: Identity::new([1; 32]),
        seller: Identity::new([2; 32]),
        amount: 12,
        order_id: String::from("order-12"),
        status: EscrowStatus::Completed,
    };
    let copy = escrow.clone();
    assert_eq!(copy.buyer, escrow.buyer);
    assert_eq!(copy.seller, escrow.seller);
    assert_eq!(copy.amount, 12);
    assert_eq!(copy.order_id, "order-12");
    assert_eq!(copy.status, EscrowStatus::Completed);
}

#[test]
fn identities_compare_by_their_bytes() {
    let mut bytes = [0u8; 32];
    let zero = Identity::new(bytes);
    assert_eq!(zero, Identity::new([0; 32]));
    assert_eq!(zero.to_bytes(), [0; 32]);
    for i in 0..32 {
        bytes = [0u8; 32];
        bytes[i] = 1;
        let other = Identity::new(bytes);
        assert_ne!(zero, other);
        assert_eq!(other.to_bytes(), bytes);
    }
}
