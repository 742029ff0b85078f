use timemint::Account;
use timemint::booking::TimeMint;
use timemint::booking::site_key;
use timemint::errors::BookingError;
use timemint::slots::SlotRecord;
use timemint::slots::SlotRecordEntry;
use timemint::table::TableEntry;

fn acct(n: u128) -> Account {
    Account { hi: 0, lo: n }
}

#[test]
fn booking_fee_split_scenario() {
    let mut tm = TimeMint::new();
    let admin = acct(0xa);
    let creator = acct(0xb);
    let caller = acct(0xc);
    tm.init(admin).unwrap();
    tm.set_booking_fee(admin, 100).unwrap();
    tm.register_site(creator, b"alice-cal", creator).unwrap();
    let id = tm.book_slot(caller, b"alice-cal", 10, 20, 100).unwrap();
    assert_eq!(id, 0);
    assert_eq!(tm.user_balances.amount(creator), 95);
    assert_eq!(tm.user_balances.amount(admin), 5);
    // a second booking with a short payment fails and credits nothing
    assert_eq!(
        tm.book_slot(caller, b"alice-cal", 30, 40, 99),
        Err(BookingError::InsufficientPayment { sent: 99, fee: 100 })
    );
    assert_eq!(tm.user_balances.amount(creator), 95);
    assert_eq!(tm.user_balances.amount(admin), 5);
}

#[test]
fn booking_advances_token_ids() {
    let mut tm = TimeMint::new();
    let admin = acct(0xa);
    let creator = acct(0xb);
    tm.init(admin).unwrap();
    tm.register_site(creator, b"x", creator).unwrap();
    assert_eq!(tm.book_slot(acct(1), b"x", 1, 2, 0), Ok(0));
    assert_eq!(tm.book_slot(acct(2), b"x", 5, 9, 0), Ok(1));
    assert_eq!(tm.erc721.total_supply(), 2);
}

#[test]
fn booking_remainder_accrues_to_admin() {
    let mut tm = TimeMint::new();
    let admin = acct(0xa);
    let creator = acct(0xb);
    tm.init(admin).unwrap();
    tm.set_booking_fee(admin, 7).unwrap();
    tm.register_site(creator, b"site", creator).unwrap();
    tm.book_slot(acct(1), b"site", 1, 2, 7).unwrap();
    // 7 * 95 / 100 = 6 to the creator, remainder 1 to the admin
    assert_eq!(tm.user_balances.amount(creator), 6);
    assert_eq!(tm.user_balances.amount(admin), 1);
}

#[test]
fn register_site_twice_fails_for_any_caller() {
    let mut tm = TimeMint::new();
    let b = acct(0xb);
    let c = acct(0xc);
    tm.register_site(b, b"x", b).unwrap();
    assert_eq!(
        tm.register_site(c, b"x", c),
        Err(BookingError::SiteAlreadyRegistered { creator: b })
    );
    assert_eq!(
        tm.register_site(b, b"x", b),
        Err(BookingError::SiteAlreadyRegistered { creator: b })
    );
}

#[test]
fn register_site_requires_self_registration() {
    let mut tm = TimeMint::new();
    let b = acct(0xb);
    let c = acct(0xc);
    assert_eq!(
        tm.register_site(c, b"x", b),
        Err(BookingError::NotCreator { caller: c, creator: b })
    );
}

#[test]
fn site_keys_collide_on_truncated_prefix() {
    let mut tm = TimeMint::new();
    let b = acct(0xb);
    let c = acct(0xc);
    // both identifiers share their first 32 bytes, so they share one key
    let long_a = b"aaaaaaaaaaaaaaaaaaaaaaaaaaaaaaaa-first";
    let long_b = b"aaaaaaaaaaaaaaaaaaaaaaaaaaaaaaaa-second";
    assert_eq!(site_key(long_a), site_key(long_b));
    tm.register_site(b, long_a, b).unwrap();
    assert_eq!(
        tm.register_site(c, long_b, c),
        Err(BookingError::SiteAlreadyRegistered { creator: b })
    );
}

#[test]
fn short_site_keys_are_zero_padded() {
    let key = site_key(b"x");
    assert_eq!(key.len(), 32);
    assert_eq!(key[0], b'x');
    assert!(key[1..].iter().all(|&b| b == 0));
    // padding means "x" and "x\0" share a key
    assert_eq!(site_key(b"x\0"), key);
}

#[test]
fn withdraw_twice_fails_with_no_balance() {
    let mut tm = TimeMint::new();
    let admin = acct(0xa);
    let creator = acct(0xb);
    tm.init(admin).unwrap();
    tm.set_booking_fee(admin, 100).unwrap();
    tm.register_site(creator, b"s", creator).unwrap();
    tm.book_slot(acct(1), b"s", 1, 2, 100).unwrap();
    assert_eq!(tm.withdraw(creator), Ok(95));
    assert_eq!(tm.user_balances.amount(creator), 0);
    // the first call zeroed the balance, so the second finds nothing
    assert_eq!(tm.withdraw(creator), Err(BookingError::NoBalance { caller: creator }));
}

#[test]
fn init_is_write_once() {
    let mut tm = TimeMint::new();
    let a = acct(0xa);
    let b = acct(0xb);
    tm.init(a).unwrap();
    assert_eq!(tm.init(b), Err(BookingError::AlreadyInitialized { admin: a }));
}

#[test]
fn set_booking_fee_is_admin_only() {
    let mut tm = TimeMint::new();
    let a = acct(0xa);
    let m = acct(9);
    // before initialization nobody is the administrator
    assert_eq!(tm.set_booking_fee(m, 5), Err(BookingError::NotAdmin { caller: m }));
    tm.init(a).unwrap();
    assert_eq!(tm.set_booking_fee(m, 5), Err(BookingError::NotAdmin { caller: m }));
    assert_eq!(tm.set_booking_fee(a, 5), Ok(()));
    assert_eq!(tm.booking_fee, 5);
}

#[test]
fn book_slot_rejects_invalid_ranges() {
    let mut tm = TimeMint::new();
    let b = acct(0xb);
    tm.register_site(b, b"s", b).unwrap();
    assert_eq!(
        tm.book_slot(acct(1), b"s", 0, 5, 0),
        Err(BookingError::InvalidRange { start: 0, end: 5 })
    );
    assert_eq!(
        tm.book_slot(acct(1), b"s", 5, 0, 0),
        Err(BookingError::InvalidRange { start: 5, end: 0 })
    );
    assert_eq!(
        tm.book_slot(acct(1), b"s", 5, 5, 0),
        Err(BookingError::InvalidRange { start: 5, end: 5 })
    );
    assert_eq!(
        tm.book_slot(acct(1), b"s", 6, 5, 0),
        Err(BookingError::InvalidRange { start: 6, end: 5 })
    );
}

#[test]
fn book_slot_requires_registered_creator() {
    let mut tm = TimeMint::new();
    assert_eq!(
        tm.book_slot(acct(1), b"nowhere", 1, 2, 0),
        Err(BookingError::NoCreatorForSite)
    );
}

#[test]
fn booking_without_admin_uses_zero_fee() {
    let mut tm = TimeMint::new();
    let creator = acct(0xb);
    tm.register_site(creator, b"s", creator).unwrap();
    // nobody can raise the fee before initialization, so booking is free
    // and the split credits nothing, to the creator or to anyone else
    assert_eq!(tm.book_slot(acct(1), b"s", 1, 2, 0), Ok(0));
    assert_eq!(tm.user_balances.amount(creator), 0);
    assert_eq!(tm.user_balances.amount(Account::zero()), 0);
}

#[test]
fn creator_who_is_admin_collects_both_shares() {
    let mut tm = TimeMint::new();
    let both = acct(0xab);
    tm.init(both).unwrap();
    tm.set_booking_fee(both, 100).unwrap();
    tm.register_site(both, b"s", both).unwrap();
    tm.book_slot(acct(1), b"s", 1, 2, 100).unwrap();
    assert_eq!(tm.user_balances.amount(both), 100);
    assert_eq!(tm.withdraw(both), Ok(100));
}

#[test]
fn slot_index_reads_skip_unpopulated_entries() {
    let mut tm = TimeMint::new();
    let owner = acct(7);
    let creator = acct(8);
    tm.owner_index.entries.push(TableEntry { key: owner, val: vec![5, 0, 7, 0, 9] });
    tm.creator_index.entries.push(TableEntry { key: creator, val: vec![0, 3] });
    assert_eq!(tm.slots_of_owner(owner), vec![5, 7, 9]);
    assert_eq!(tm.slots_of_creator(creator), vec![3]);
    assert_eq!(tm.slots_of_owner(acct(1)), Vec::<usize>::new());
    // the raw listing keeps the unpopulated positions
    assert_eq!(tm.debug_owner_info(owner), vec![5, 0, 7, 0, 9]);
    assert_eq!(tm.debug_owner_info(acct(1)), Vec::<usize>::new());
}

#[test]
fn slot_metadata_reports_complete_records_only() {
    let mut tm = TimeMint::new();
    let creator = acct(8);
    tm.slot_records.entries.push(SlotRecordEntry {
        token_id: 1,
        record: SlotRecord { creator, start: 10, end: 20 },
    });
    tm.slot_records.entries.push(SlotRecordEntry {
        token_id: 2,
        record: SlotRecord { creator, start: 0, end: 20 },
    });
    assert_eq!(tm.slot_metadata(1), (creator, 10, 20));
    // an incomplete record reads as absent
    assert_eq!(tm.slot_metadata(2), (Account::zero(), 0, 0));
    assert_eq!(tm.slot_metadata(3), (Account::zero(), 0, 0));
}

#[test]
fn on_erc721_received_acknowledges() {
    let tm = TimeMint::new();
    let code = tm.on_erc721_received(acct(1), acct(2), 0, vec![]);
    assert_eq!(code, [0x15, 0x0b, 0x7a, 0x02]);
}

#[test]
fn empty_site_id_has_all_zero_key() {
    let mut tm = TimeMint::new();
    let b = acct(0xb);
    let c = acct(0xc);
    assert_eq!(site_key(b""), vec![0u8; 32]);
    tm.register_site(b, b"", b).unwrap();
    // the empty identifier and a string of NUL bytes share the zero key
    assert_eq!(
        tm.register_site(c, b"\0\0", c),
        Err(BookingError::SiteAlreadyRegistered { creator: b })
    );
}

#[test]
fn registering_zero_creator_leaves_site_unregistered() {
    let mut tm = TimeMint::new();
    let zero = Account::zero();
    let b = acct(0xb);
    // self-registration of the zero account succeeds but binds nothing
    assert_eq!(tm.register_site(zero, b"s", zero), Ok(()));
    assert_eq!(
        tm.book_slot(acct(1), b"s", 1, 2, 0),
        Err(BookingError::NoCreatorForSite)
    );
    // the key is still free for a real creator
    assert_eq!(tm.register_site(b, b"s", b), Ok(()));
    assert_eq!(tm.book_slot(acct(1), b"s", 1, 2, 0), Ok(0));
}

#[test]
fn booking_error_messages() {
    assert_eq!(
        BookingError::NoBalance { caller: acct(1) }.message(),
        "No balance to withdraw"
    );
    assert_eq!(
        BookingError::AlreadyInitialized { admin: acct(1) }.message(),
        "Already initialized"
    );
    assert_eq!(
        BookingError::InsufficientPayment { sent: 1, fee: 2 }.message(),
        "Insufficient booking fee"
    );
    assert_eq!(
        BookingError::InvalidRange { start: 2, end: 1 }.message(),
        "Invalid slot time range"
    );
}
