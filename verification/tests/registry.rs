use timemint::Account;
use timemint::erc721::Erc721;
use timemint::erc721::ReceiverOutcome;
use timemint::errors::Erc721Error;
use timemint::events::Event;

fn acct(n: u128) -> Account {
    Account { hi: 0, lo: n }
}

#[test]
fn mint_assigns_ownership() {
    let mut reg = Erc721::new();
    let alice = acct(1);
    let id = reg.mint(alice).unwrap();
    assert_eq!(id, 0);
    assert_eq!(reg.owner_of(0), Ok(alice));
    assert_eq!(reg.balance_of(alice), Ok(1));
    assert_eq!(reg.total_supply(), 1);
    assert_eq!(
        reg.events[0],
        Event::Transfer { from: Account::zero(), to: alice, token_id: 0 }
    );
}

#[test]
fn mint_ids_strictly_increase() {
    let mut reg = Erc721::new();
    let alice = acct(1);
    let id0 = reg.mint(alice).unwrap();
    let id1 = reg.mint(alice).unwrap();
    let id2 = reg.mint(alice).unwrap();
    assert_eq!((id0, id1, id2), (0, 1, 2));
    // burning does not reclaim ids or decrement the supply counter
    reg.burn(alice, alice, 1).unwrap();
    assert_eq!(reg.total_supply(), 3);
    let id3 = reg.mint(alice).unwrap();
    assert_eq!(id3, 3);
    assert_eq!(reg.total_supply(), 4);
}

#[test]
fn transfer_from_by_owner() {
    let mut reg = Erc721::new();
    let alice = acct(1);
    let bob = acct(2);
    let id = reg.mint(alice).unwrap();
    assert_eq!(reg.transfer_from(alice, alice, bob, id), Ok(()));
    assert_eq!(reg.owner_of(id), Ok(bob));
    assert_eq!(reg.balance_of(alice), Ok(0));
    assert_eq!(reg.balance_of(bob), Ok(1));
}

#[test]
fn transfer_from_by_operator() {
    let mut reg = Erc721::new();
    let alice = acct(1);
    let bob = acct(2);
    let op = acct(3);
    let id = reg.mint(alice).unwrap();
    reg.set_approval_for_all(alice, op, true).unwrap();
    assert_eq!(reg.is_approved_for_all(alice, op), Ok(true));
    assert_eq!(reg.transfer_from(op, alice, bob, id), Ok(()));
    assert_eq!(reg.owner_of(id), Ok(bob));
}

#[test]
fn operator_approval_can_be_revoked() {
    let mut reg = Erc721::new();
    let alice = acct(1);
    let op = acct(3);
    reg.set_approval_for_all(alice, op, true).unwrap();
    reg.set_approval_for_all(alice, op, false).unwrap();
    assert_eq!(reg.is_approved_for_all(alice, op), Ok(false));
    let bob = acct(2);
    let id = reg.mint(alice).unwrap();
    let owner = reg.owner_of(id).unwrap();
    assert_eq!(
        reg.transfer_from(op, alice, bob, id),
        Err(Erc721Error::NotApproved { owner, spender: op, token_id: id })
    );
}

#[test]
fn transfer_from_by_approved_spender() {
    let mut reg = Erc721::new();
    let alice = acct(1);
    let bob = acct(2);
    let spender = acct(4);
    let id = reg.mint(alice).unwrap();
    reg.approve(alice, spender, id).unwrap();
    assert_eq!(reg.transfer_from(spender, alice, bob, id), Ok(()));
    assert_eq!(reg.owner_of(id), Ok(bob));
}

#[test]
fn transfer_from_stranger_rejected() {
    let mut reg = Erc721::new();
    let alice = acct(1);
    let bob = acct(2);
    let mallory = acct(9);
    let id = reg.mint(alice).unwrap();
    assert_eq!(
        reg.transfer_from(mallory, alice, bob, id),
        Err(Erc721Error::NotApproved { owner: alice, spender: mallory, token_id: id })
    );
    // nothing moved
    assert_eq!(reg.owner_of(id), Ok(alice));
    assert_eq!(reg.balance_of(bob), Ok(0));
}

#[test]
fn transfer_from_wrong_source_reports_real_owner() {
    let mut reg = Erc721::new();
    let alice = acct(1);
    let bob = acct(2);
    let id = reg.mint(alice).unwrap();
    assert_eq!(
        reg.transfer_from(bob, bob, bob, id),
        Err(Erc721Error::NotOwner { from: bob, token_id: id, real_owner: alice })
    );
}

#[test]
fn transfer_from_to_zero_rejected() {
    let mut reg = Erc721::new();
    let alice = acct(1);
    let id = reg.mint(alice).unwrap();
    assert_eq!(
        reg.transfer_from(alice, alice, Account::zero(), id),
        Err(Erc721Error::TransferToZero { token_id: id })
    );
}

#[test]
fn transfer_from_unknown_token_rejected() {
    let mut reg = Erc721::new();
    let alice = acct(1);
    let bob = acct(2);
    assert_eq!(
        reg.transfer_from(alice, alice, bob, 7),
        Err(Erc721Error::InvalidTokenId { token_id: 7 })
    );
}

#[test]
fn approval_round_trip_and_cleared_by_transfer() {
    let mut reg = Erc721::new();
    let alice = acct(1);
    let bob = acct(2);
    let spender = acct(4);
    let id = reg.mint(alice).unwrap();
    reg.approve(alice, spender, id).unwrap();
    assert_eq!(reg.get_approved(id), Ok(spender));
    // an unrelated transfer of the token resets the approval to zero
    reg.transfer_from(alice, alice, bob, id).unwrap();
    assert_eq!(reg.get_approved(id), Ok(Account::zero()));
}

#[test]
fn approve_by_stranger_rejected() {
    let mut reg = Erc721::new();
    let alice = acct(1);
    let mallory = acct(9);
    let id = reg.mint(alice).unwrap();
    assert_eq!(
        reg.approve(mallory, mallory, id),
        Err(Erc721Error::NotApproved { owner: alice, spender: mallory, token_id: id })
    );
}

#[test]
fn balance_counts_owned_tokens_after_mixed_operations() {
    let mut reg = Erc721::new();
    let alice = acct(1);
    let bob = acct(2);
    let id0 = reg.mint(alice).unwrap();
    let id1 = reg.mint(alice).unwrap();
    let id2 = reg.mint(bob).unwrap();
    reg.transfer_from(alice, alice, bob, id0).unwrap();
    reg.burn(bob, bob, id2).unwrap();
    assert_eq!(reg.balance_of(alice), Ok(1)); // id1
    assert_eq!(reg.balance_of(bob), Ok(1)); // id0
    assert_eq!(reg.balance_of(Account::zero()), Ok(0));
    assert_eq!(reg.owner_of(id1), Ok(alice));
    assert_eq!(reg.owner_of(id0), Ok(bob));
    assert_eq!(reg.owner_of(id2), Err(Erc721Error::InvalidTokenId { token_id: id2 }));
}

#[test]
fn burn_requires_authorization() {
    let mut reg = Erc721::new();
    let alice = acct(1);
    let mallory = acct(9);
    let id = reg.mint(alice).unwrap();
    assert_eq!(
        reg.burn(mallory, alice, id),
        Err(Erc721Error::NotApproved { owner: alice, spender: mallory, token_id: id })
    );
    assert_eq!(reg.owner_of(id), Ok(alice));
    reg.burn(alice, alice, id).unwrap();
    assert_eq!(reg.owner_of(id), Err(Erc721Error::InvalidTokenId { token_id: id }));
    assert_eq!(reg.total_supply(), 1);
}

#[test]
fn safe_transfer_accepted_with_magic_code() {
    let mut reg = Erc721::new();
    let alice = acct(1);
    let receiver = acct(5);
    let id = reg.mint(alice).unwrap();
    let outcome = ReceiverOutcome::Returned { code: 0x150b7a02 };
    assert_eq!(reg.safe_transfer_from(alice, alice, receiver, id, outcome), Ok(()));
    assert_eq!(reg.owner_of(id), Ok(receiver));
}

#[test]
fn safe_transfer_refused_leaves_ownership_unchanged() {
    let mut reg = Erc721::new();
    let alice = acct(1);
    let receiver = acct(5);
    let id = reg.mint(alice).unwrap();
    let outcome = ReceiverOutcome::Returned { code: 0xdeadbeef };
    assert_eq!(
        reg.safe_transfer_from(alice, alice, receiver, id, outcome),
        Err(Erc721Error::ReceiverRefused {
            receiver,
            token_id: id,
            returned: 0xdeadbeef
        })
    );
    // all-or-nothing: the failed safe transfer left no trace
    assert_eq!(reg.owner_of(id), Ok(alice));
    assert_eq!(reg.balance_of(alice), Ok(1));
    assert_eq!(reg.balance_of(receiver), Ok(0));
}

#[test]
fn safe_transfer_errored_callback_reports_zero_code() {
    let mut reg = Erc721::new();
    let alice = acct(1);
    let receiver = acct(5);
    let id = reg.mint(alice).unwrap();
    assert_eq!(
        reg.safe_transfer_from(alice, alice, receiver, id, ReceiverOutcome::CallErrored),
        Err(Erc721Error::ReceiverRefused { receiver, token_id: id, returned: 0 })
    );
    assert_eq!(reg.owner_of(id), Ok(alice));
}

#[test]
fn safe_transfer_skips_ack_for_plain_accounts() {
    let mut reg = Erc721::new();
    let alice = acct(1);
    let bob = acct(2);
    let id = reg.mint(alice).unwrap();
    assert_eq!(
        reg.safe_transfer_from(alice, alice, bob, id, ReceiverOutcome::NoReceiverCode),
        Ok(())
    );
    assert_eq!(reg.owner_of(id), Ok(bob));
}

#[test]
fn safe_transfer_with_data_carries_payload() {
    let mut reg = Erc721::new();
    let alice = acct(1);
    let bob = acct(2);
    let id = reg.mint(alice).unwrap();
    let outcome = ReceiverOutcome::Returned { code: 0x150b7a02 };
    assert_eq!(
        reg.safe_transfer_from_with_data(alice, alice, bob, id, vec![1, 2, 3], outcome),
        Ok(())
    );
    assert_eq!(reg.owner_of(id), Ok(bob));
}

#[test]
fn supports_interface_recognises_known_ids() {
    assert_eq!(Erc721::supports_interface([0x01, 0xff, 0xc9, 0xa7]), Ok(true));
    assert_eq!(Erc721::supports_interface([0x80, 0xac, 0x58, 0xcd]), Ok(true));
    assert_eq!(Erc721::supports_interface([0x5b, 0x5e, 0x13, 0x9f]), Ok(true));
    assert_eq!(Erc721::supports_interface([0x12, 0x34, 0x56, 0x78]), Ok(false));
    // the reserved all-ones pattern is denied explicitly
    assert_eq!(Erc721::supports_interface([0xff, 0xff, 0xff, 0xff]), Ok(false));
}

#[test]
fn name_and_symbol() {
    assert_eq!(Erc721::name().unwrap(), "TimeMint Slot");
    assert_eq!(Erc721::symbol().unwrap(), "TMSLOT");
}

#[test]
fn approval_event_emitted_after_grant() {
    let mut reg = Erc721::new();
    let alice = acct(1);
    let spender = acct(4);
    let op = acct(3);
    let id = reg.mint(alice).unwrap();
    reg.approve(alice, spender, id).unwrap();
    reg.set_approval_for_all(alice, op, true).unwrap();
    assert_eq!(reg.events.len(), 3);
    assert_eq!(reg.events[1], Event::Approval { owner: alice, approved: spender, token_id: id });
    assert_eq!(
        reg.events[2],
        Event::ApprovalForAll { owner: alice, operator: op, approved: true }
    );
}
