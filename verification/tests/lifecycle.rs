use ai_agent_escrow::{
    cancel_escrow, confirm_delivery, initialize_escrow, CancelEscrow, ConfirmDelivery, EscrowBook,
    EscrowError, EscrowStatus, Holding, Identity, InitializeEscrow,
};

fn party(tag: u8) -> Identity {
    Identity::new([tag; 32])
}

fn funded_book(buyer: Identity, funds: u64) -> EscrowBook {
    let mut book = EscrowBook::new();
    assert_eq!(book.deposit(buyer, funds), Ok(()));
    book
}

fn lock(book: &mut EscrowBook, buyer: Identity, seller: Identity, amount: u64) -> u64 {
    let ctx = InitializeEscrow { buyer, seller, signers: vec![buyer] };
    initialize_escrow(book, &ctx, String::from("order"), amount).expect("the escrow is created")
}

#[test]
fn initialize_moves_exactly_the_amount_into_custody() {
    for amount in [1u64, 2, 999, 1000, 70_000] {
        let (buyer, seller) = (party(1), party(2));
        let mut book = funded_book(buyer, 70_000);
        let id = lock(&mut book, buyer, seller, amount);
        assert_eq!(book.load(id).unwrap().status, EscrowStatus::Locked);
        assert_eq!(book.load(id).unwrap().amount, amount);
        assert_eq!(book.balance(&Holding::Party(buyer)), 70_000 - amount);
        assert_eq!(book.balance(&Holding::Custody(id)), amount);
        assert_eq!(book.balance(&Holding::Party(seller)), 0);
    }
}

#[test]
fn initialize_can_lock_all_that_the_buyer_holds() {
    let (buyer, seller) = (party(1), party(2));
    let mut book = funded_book(buyer, u64::MAX);
    let id = lock(&mut book, buyer, seller, u64::MAX);
    assert_eq!(book.balance(&Holding::Party(buyer)), 0);
    assert_eq!(book.balance(&Holding::Custody(id)), u64::MAX);
}

#[test]
fn identifiers_count_up_and_custody_is_kept_apart() {
    let (buyer, seller) = (party(1), party(2));
    let mut book = funded_book(buyer, 100);
    assert_eq!(book.len(), 0);
    let first = lock(&mut book, buyer, seller, 30);
    let second = lock(&mut book, buyer, seller, 50);
    assert_eq!((first, second), (0, 1));
    assert_eq!(book.len(), 2);
    assert_eq!(book.balance(&Holding::Custody(first)), 30);
    assert_eq!(book.balance(&Holding::Custody(second)), 50);
    assert_eq!(book.balance(&Holding::Party(buyer)), 20);

    let ctx = CancelEscrow { escrow: first, signers: vec![buyer] };
    assert_eq!(cancel_escrow(&mut book, &ctx), Ok(()));
    assert_eq!(book.balance(&Holding::Custody(first)), 0);
    assert_eq!(book.balance(&Holding::Custody(second)), 50);
    assert_eq!(book.balance(&Holding::Party(buyer)), 50);
    assert_eq!(book.load(second).unwrap().status, EscrowStatus::Locked);
}

#[test]
fn confirm_twice_is_rejected_and_debits_custody_once() {
    let (buyer, seller) = (party(1), party(2));
    let mut book = funded_book(buyer, 500);
    let id = lock(&mut book, buyer, seller, 200);
    let ctx = ConfirmDelivery { escrow: id, signers: vec![buyer, seller] };

    assert_eq!(confirm_delivery(&mut book, &ctx), Ok(()));
    assert_eq!(book.balance(&Holding::Custody(id)), 0);
    assert_eq!(book.balance(&Holding::Party(seller)), 200);

    assert_eq!(confirm_delivery(&mut book, &ctx), Err(EscrowError::InvalidStatus));
    assert_eq!(book.balance(&Holding::Custody(id)), 0);
    assert_eq!(book.balance(&Holding::Party(seller)), 200);
    assert_eq!(book.balance(&Holding::Party(buyer)), 300);
    assert_eq!(book.load(id).unwrap().status, EscrowStatus::Completed);
}

#[test]
fn cancel_then_confirm_is_rejected() {
    let (buyer, seller) = (party(1), party(2));
    let mut book = funded_book(buyer, 500);
    let id = lock(&mut book, buyer, seller, 200);

    let cancel = CancelEscrow { escrow: id, signers: vec![buyer] };
    assert_eq!(cancel_escrow(&mut book, &cancel), Ok(()));
    let confirm = ConfirmDelivery { escrow: id, signers: vec![buyer, seller] };
    assert_eq!(confirm_delivery(&mut book, &confirm), Err(EscrowError::InvalidStatus));

    assert_eq!(book.load(id).unwrap().status, EscrowStatus::Cancelled);
    assert_eq!(book.balance(&Holding::Party(buyer)), 500);
    assert_eq!(book.balance(&Holding::Party(seller)), 0);
}

#[test]
fn confirm_then_cancel_is_rejected() {
    let (buyer, seller) = (party(1), party(2));
    let mut book = funded_book(buyer, 500);
    let id = lock(&mut book, buyer, seller, 200);

    let confirm = ConfirmDelivery { escrow: id, signers: vec![buyer, seller] };
    assert_eq!(confirm_delivery(&mut book, &confirm), Ok(()));
    let cancel = CancelEscrow { escrow: id, signers: vec![buyer] };
    assert_eq!(cancel_escrow(&mut book, &cancel), Err(EscrowError::InvalidStatus));

    assert_eq!(book.load(id).unwrap().status, EscrowStatus::Completed);
    assert_eq!(book.balance(&Holding::Party(buyer)), 300);
    assert_eq!(book.balance(&Holding::Party(seller)), 200);
}

#[test]
fn cancel_twice_is_rejected_and_refunds_once() {
    let (buyer, seller) = (party(1), party(2));
    let mut book = funded_book(buyer, 500);
    let id = lock(&mut book, buyer, seller, 200);
    let cancel = CancelEscrow { escrow: id, signers: vec![buyer] };
    assert_eq!(cancel_escrow(&mut book, &cancel), Ok(()));
    assert_eq!(cancel_escrow(&mut book, &cancel), Err(EscrowError::InvalidStatus));
    assert_eq!(book.balance(&Holding::Party(buyer)), 500);
}

#[test]
fn confirm_needs_buyer_and_seller_together() {
    let (buyer, seller, stranger) = (party(1), party(2), party(3));
    for signers in [
        vec![],
        vec![seller],
        vec![buyer],
        vec![stranger],
        vec![seller, stranger],
        vec![buyer, stranger],
    ] {
        let mut book = funded_book(buyer, 500);
        let id = lock(&mut book, buyer, seller, 200);
        let ctx = ConfirmDelivery { escrow: id, signers };
        assert_eq!(confirm_delivery(&mut book, &ctx), Err(EscrowError::UnauthorizedCaller));
        assert_eq!(book.load(id).unwrap().status, EscrowStatus::Locked);
        assert_eq!(book.balance(&Holding::Custody(id)), 200);
        assert_eq!(book.balance(&Holding::Party(seller)), 0);
        assert_eq!(book.balance(&Holding::Party(buyer)), 300);
    }
}

#[test]
fn confirm_accepts_the_two_signatures_in_any_order_and_company() {
    let (buyer, seller, stranger) = (party(1), party(2), party(3));
    for signers in [vec![seller, buyer], vec![stranger, buyer, stranger, seller]] {
        let mut book = funded_book(buyer, 500);
        let id = lock(&mut book, buyer, seller, 200);
        let ctx = ConfirmDelivery { escrow: id, signers };
        assert_eq!(confirm_delivery(&mut book, &ctx), Ok(()));
        assert_eq!(book.balance(&Holding::Party(seller)), 200);
    }
}

#[test]
fn cancel_is_for_the_buyer_alone() {
    let (buyer, seller, stranger) = (party(1), party(2), party(3));
    for signers in [vec![], vec![seller], vec![stranger], vec![seller, stranger]] {
        let mut book = funded_book(buyer, 500);
        let id = lock(&mut book, buyer, seller, 200);
        let ctx = CancelEscrow { escrow: id, signers };
        assert_eq!(cancel_escrow(&mut book, &ctx), Err(EscrowError::UnauthorizedCaller));
        assert_eq!(book.load(id).unwrap().status, EscrowStatus::Locked);
        assert_eq!(book.balance(&Holding::Custody(id)), 200);
        assert_eq!(book.balance(&Holding::Party(buyer)), 300);
    }
}

#[test]
fn cancel_on_a_completed_record_never_moves_funds() {
    let (buyer, seller, stranger) = (party(1), party(2), party(3));
    let mut book = funded_book(buyer, 500);
    let id = lock(&mut book, buyer, seller, 200);
    let confirm = ConfirmDelivery { escrow: id, signers: vec![buyer, seller] };
    assert_eq!(confirm_delivery(&mut book, &confirm), Ok(()));

    for signers in [vec![buyer], vec![], vec![seller], vec![stranger], vec![buyer, seller]] {
        let cancel = CancelEscrow { escrow: id, signers };
        assert_eq!(cancel_escrow(&mut book, &cancel), Err(EscrowError::InvalidStatus));
        assert_eq!(book.load(id).unwrap().status, EscrowStatus::Completed);
        assert_eq!(book.balance(&Holding::Party(buyer)), 300);
        assert_eq!(book.balance(&Holding::Party(seller)), 200);
        assert_eq!(book.balance(&Holding::Custody(id)), 0);
    }
}

#[test]
fn a_party_may_escrow_with_itself() {
    let both = party(7);
    let mut book = funded_book(both, 90);
    let id = lock(&mut book, both, both, 40);
    assert!(!book.load(id).unwrap().has_distinct_parties());
    assert_eq!(book.balance(&Holding::Party(both)), 50);
    let ctx = ConfirmDelivery { escrow: id, signers: vec![both] };
    assert_eq!(confirm_delivery(&mut book, &ctx), Ok(()));
    assert_eq!(book.balance(&Holding::Party(both)), 90);
    assert_eq!(book.balance(&Holding::Custody(id)), 0);
}
