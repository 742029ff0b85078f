use vstd::prelude::*;
use crate::account::Account;
use crate::erc721::Erc721;
use crate::errors::BookingError;
use crate::sites::SiteTable;
use crate::sites::site_find;
use crate::slots::SlotRecordTable;
use crate::slots::ids_view;
use crate::slots::nonzero_ids;
use crate::table::AccountTable;
use vstd::arithmetic::div_mod::lemma_div_is_ordered;
use vstd::arithmetic::div_mod::lemma_div_multiples_vanish;
use vstd::arithmetic::div_mod::lemma_fundamental_div_mod;
use vstd::arithmetic::div_mod::lemma_hoist_over_denominator;

verus! {

/// The width, in bytes, of a canonical site key.
pub const SITE_KEY_WIDTH: usize = 32;

/// The share of a fee, in hundredths, owed to the site creator; the
/// remainder of the split accrues to the administrator.
pub const CREATOR_SHARE_HUNDREDTHS: u128 = 95;

/// The canonical fixed-width key of a site identifier: its bytes
/// truncated to the key width, zero-padded at the end if shorter.
/// Distinct identifiers sharing a truncated prefix collide by design.
pub open spec fn site_key_spec(s: Seq<u8>) -> Seq<u8> {
    Seq::new(
        SITE_KEY_WIDTH as nat,
        |i: int|
            if i < s.len() {
                s[i]
            } else {
                0u8
            },
    )
}

/// Derive the canonical fixed-width key of a site identifier.
pub fn site_key(site_id: &[u8]) -> (r: Vec<u8>)
    ensures
        r@ == site_key_spec(site_id@),
{
    let mut r: Vec<u8> = Vec::new();
    let mut i: usize = 0;
    while i < SITE_KEY_WIDTH
        invariant
            i <= SITE_KEY_WIDTH,
            r@.len() == i,
            forall|j: int| 0 <= j < i ==> r@[j] == site_key_spec(site_id@)[j],
        decreases SITE_KEY_WIDTH - i,
    {
        if i < site_id.len() {
            let b = site_id[i];
            r.push(b);
        } else {
            r.push(0u8);
        }
        i = i + 1;
    }
    proof {
        assert(r@ =~= site_key_spec(site_id@));
    }
    r
}

/// The creator's share of a fee: 95% of it, rounded down.
pub open spec fn creator_share_of(fee: u128) -> int {
    (fee * CREATOR_SHARE_HUNDREDTHS) / 100
}

/// The administrator's share of a fee: the remainder of the split.
pub open spec fn admin_share_of(fee: u128) -> int {
    fee - creator_share_of(fee)
}

/// The creator's share never exceeds the fee.
pub proof fn lemma_creator_share_le_fee(fee: u128)
    ensures
        0 <= creator_share_of(fee) <= fee,
        0 <= admin_share_of(fee) <= fee,
{
    lemma_div_is_ordered(fee * CREATOR_SHARE_HUNDREDTHS, fee * 100, 100);
    lemma_div_multiples_vanish(fee as int, 100);
    assert(fee * 100 == 100 * fee as int);
    assert((fee * 100) / 100 == fee);
    lemma_div_is_ordered(0, fee * CREATOR_SHARE_HUNDREDTHS, 100);
}

/// The booking ledger: the site-creator registry, the global booking fee,
/// per-account withdrawable balances, the underlying token registry whose
/// supply counter allocates booking ids, and the informational per-token
/// slot records and per-account slot indexes.
pub struct TimeMint {
    pub erc721: Erc721,
    pub admin: Option<Account>,
    pub booking_fee: u128,
    pub user_balances: AccountTable<u128>,
    pub sites: SiteTable,
    pub creator_index: AccountTable<Vec<usize>>,
    pub owner_index: AccountTable<Vec<usize>>,
    pub slot_records: SlotRecordTable,
}

impl TimeMint {
    /// Well-formedness of the whole ledger.
    pub open spec fn wf(self) -> bool {
        &&& self.erc721.wf()
        &&& self.sites.wf()
        &&& self.slot_records.wf()
    }

    /// The creator registered for a canonical site key; zero if none.
    pub open spec fn site_view(self, key: Seq<u8>) -> Account {
        site_find(self.sites.entries@, key)
    }

    /// The creator a site identifier resolves to, through its canonical
    /// key.
    pub open spec fn booking_creator(self, site_id: Seq<u8>) -> Account {
        self.site_view(site_key_spec(site_id))
    }

    /// The withdrawable balance of an account.
    pub open spec fn user_balance_view(self, a: Account) -> u128 {
        self.user_balances.spec_amount(a)
    }

    /// The account the administrator's share accrues to: the administrator
    /// if initialized, the zero account otherwise.
    pub open spec fn admin_account(self) -> Account {
        match self.admin {
            Some(a) => a,
            None => Account::zero_spec(),
        }
    }

    /// A fresh booking ledger: uninitialized, zero fee, no sites, no
    /// balances, no tokens.
    pub fn new() -> (r: TimeMint)
        ensures
            r.wf(),
            r.admin is None,
            r.booking_fee == 0,
            r.erc721.token_count() == 0,
            r.erc721.events@.len() == 0,
            forall|o: Account, p: Account| !(#[trigger] r.erc721.operator_view(o, p)),
            forall|a: Account| #[trigger] r.user_balance_view(a) == 0,
            forall|k: Seq<u8>| #[trigger] r.site_view(k) == Account::zero_spec(),
            r.creator_index.entries@.len() == 0,
            r.owner_index.entries@.len() == 0,
            r.slot_records.entries@.len() == 0,
            forall|a: Account| #[trigger] ids_view(r.creator_index, a) == Seq::<usize>::empty(),
            forall|a: Account| #[trigger] ids_view(r.owner_index, a) == Seq::<usize>::empty(),
            forall|id: usize| #[trigger] r.slot_records.spec_find(id) is None,
    {
        let reg = Erc721::new();
        let r = TimeMint {
            erc721: reg,
            admin: None,
            booking_fee: 0,
            user_balances: AccountTable::new(),
            sites: SiteTable::new(),
            creator_index: AccountTable::new(),
            owner_index: AccountTable::new(),
            slot_records: SlotRecordTable::new(),
        };
        proof {
            assert forall|a: Account| #[trigger] r.user_balance_view(a) == 0 by {
                assert(r.user_balances.spec_find(a) is None);
            }
            assert forall|o: Account, p: Account| !(#[trigger] r.erc721.operator_view(o, p)) by {
                assert(!reg.operator_view(o, p));
            }
            assert forall|a: Account| #[trigger] ids_view(r.creator_index, a) == Seq::<
                usize,
            >::empty() by {
                assert(r.creator_index.spec_find(a) is None);
            }
            assert forall|a: Account| #[trigger] ids_view(r.owner_index, a) == Seq::<
                usize,
            >::empty() by {
                assert(r.owner_index.spec_find(a) is None);
            }
        }
        r
    }

    /// One-time initialization of the administrator identity; fails with
    /// `AlreadyInitialized` if it is already set.
    pub fn init(&mut self, admin: Account) -> (r: Result<(), BookingError>)
        requires
            old(self).wf(),
        ensures
            final(self).wf(),
            r is Ok <==> old(self).admin is None,
            r is Ok ==> final(self).admin == Some(admin),
            r is Err ==> *final(self) == *old(self),
            r is Err ==> r == Err::<(), BookingError>(
                BookingError::AlreadyInitialized { admin: old(self).admin_account() },
            ),
            final(self).erc721 == old(self).erc721,
            final(self).booking_fee == old(self).booking_fee,
            final(self).user_balances == old(self).user_balances,
            final(self).sites == old(self).sites,
            final(self).creator_index == old(self).creator_index,
            final(self).owner_index == old(self).owner_index,
            final(self).slot_records == old(self).slot_records,
    {
        match self.admin {
            Some(existing) => Err(BookingError::AlreadyInitialized { admin: existing }),
            None => {
                self.admin = Some(admin);
                Ok(())
            },
        }
    }

    /// Register `creator` for the canonical key of `site_id`. Write-once:
    /// fails if a creator is already on file for that key; and only the
    /// creator may register their own site. Registering the zero account
    /// succeeds but leaves every key unregistered.
    pub fn register_site(&mut self, caller: Account, site_id: &[u8], creator: Account) -> (r:
        Result<(), BookingError>)
        requires
            old(self).wf(),
        ensures
            final(self).wf(),
            r is Ok <==> (old(self).booking_creator(site_id@) == Account::zero_spec() && caller
                == creator),
            r is Ok ==> forall|k2: Seq<u8>| #[trigger]
                final(self).site_view(k2) == (if k2 == site_key_spec(site_id@) && creator
                    != Account::zero_spec() {
                    creator
                } else {
                    old(self).site_view(k2)
                }),
            r is Err ==> *final(self) == *old(self),
            match r {
                Ok(_) => true,
                Err(e) => if old(self).booking_creator(site_id@) != Account::zero_spec() {
                    e == (BookingError::SiteAlreadyRegistered {
                        creator: old(self).booking_creator(site_id@),
                    })
                } else {
                    e == (BookingError::NotCreator { caller, creator })
                },
            },
            final(self).erc721 == old(self).erc721,
            final(self).admin == old(self).admin,
            final(self).booking_fee == old(self).booking_fee,
            final(self).user_balances == old(self).user_balances,
            final(self).creator_index == old(self).creator_index,
            final(self).owner_index == old(self).owner_index,
            final(self).slot_records == old(self).slot_records,
    {
        let key = site_key(site_id);
        let existing = self.sites.creator_of(&key);
        if !existing.is_zero() {
            return Err(BookingError::SiteAlreadyRegistered { creator: existing });
        }
        if caller != creator {
            return Err(BookingError::NotCreator { caller, creator });
        }
        if creator.is_zero() {
            return Ok(());
        }
        self.sites.insert(key, creator);
        Ok(())
    }

    /// Set the global booking fee; only the administrator may.
    pub fn set_booking_fee(&mut self, caller: Account, new_fee: u128) -> (r: Result<
        (),
        BookingError,
    >)
        requires
            old(self).wf(),
        ensures
            final(self).wf(),
            r is Ok <==> old(self).admin == Some(caller),
            r is Ok ==> final(self).booking_fee == new_fee,
            r is Err ==> *final(self) == *old(self),
            r is Err ==> r == Err::<(), BookingError>(BookingError::NotAdmin { caller }),
            final(self).erc721 == old(self).erc721,
            final(self).admin == old(self).admin,
            final(self).user_balances == old(self).user_balances,
            final(self).sites == old(self).sites,
            final(self).creator_index == old(self).creator_index,
            final(self).owner_index == old(self).owner_index,
            final(self).slot_records == old(self).slot_records,
    {
        let is_admin = match self.admin {
            Some(a) => a == caller,
            None => false,
        };
        if !is_admin {
            return Err(BookingError::NotAdmin { caller });
        }
        self.booking_fee = new_fee;
        Ok(())
    }

    /// Book a slot for a site: demands `0 < start < end`, a registered
    /// creator for the site key, and an attached payment of at least the
    /// current booking fee; splits the fee 95% to the creator's
    /// withdrawable balance and the remainder to the administrator's
    /// (integer division, remainder accruing to the administrator); and
    /// allocates and returns the next token id by advancing the supply
    /// counter. The id starts unowned and no slot record or index entry is
    /// written here: that materialization step is deliberately left to the
    /// surrounding product decision.
    pub fn book_slot(
        &mut self,
        caller: Account,
        site_id: &[u8],
        start: u64,
        end: u64,
        payment: u128,
    ) -> (r: Result<usize, BookingError>)
        requires
            old(self).wf(),
            old(self).user_balance_view(old(self).booking_creator(site_id@)) + old(
                self,
            ).booking_fee <= u128::MAX,
            old(self).user_balance_view(old(self).admin_account()) + old(self).booking_fee
                <= u128::MAX,
        ensures
            final(self).wf(),
            r is Ok <==> (0 < start < end && old(self).booking_creator(site_id@)
                != Account::zero_spec() && payment >= old(self).booking_fee),
            r is Err ==> *final(self) == *old(self),
            match r {
                Ok(token_id) => {
                    &&& token_id == old(self).erc721.token_count()
                    &&& final(self).erc721.owners@ == old(self).erc721.owners@.push(
                        Account::zero_spec(),
                    )
                    &&& final(self).erc721.approvals@ == old(self).erc721.approvals@.push(
                        Account::zero_spec(),
                    )
                    &&& final(self).erc721.balances == old(self).erc721.balances
                    &&& final(self).erc721.operators == old(self).erc721.operators
                    &&& final(self).erc721.token_count() == old(self).erc721.token_count() + 1
                    &&& forall|b: Account| #[trigger]
                        final(self).user_balance_view(b) == old(self).user_balance_view(b) + (
                        if b == old(self).booking_creator(site_id@) {
                            creator_share_of(old(self).booking_fee)
                        } else {
                            0
                        }) + (if b == old(self).admin_account() {
                            admin_share_of(old(self).booking_fee)
                        } else {
                            0
                        })
                    &&& final(self).admin == old(self).admin
                    &&& final(self).booking_fee == old(self).booking_fee
                    &&& final(self).sites == old(self).sites
                    &&& final(self).creator_index == old(self).creator_index
                    &&& final(self).owner_index == old(self).owner_index
                    &&& final(self).slot_records == old(self).slot_records
                    &&& final(self).erc721.events@ == old(self).erc721.events@
                },
                Err(e) => if !(0 < start < end) {
                    e == (BookingError::InvalidRange { start, end })
                } else if old(self).booking_creator(site_id@) == Account::zero_spec() {
                    e == BookingError::NoCreatorForSite
                } else {
                    e == (BookingError::InsufficientPayment {
                        sent: payment,
                        fee: old(self).booking_fee,
                    })
                },
            },
    {
        let key = site_key(site_id);
        if start == 0 || end == 0 || end <= start {
            return Err(BookingError::InvalidRange { start, end });
        }
        let creator = self.sites.creator_of(&key);
        if creator.is_zero() {
            return Err(BookingError::NoCreatorForSite);
        }
        let fee = self.booking_fee;
        if payment < fee {
            return Err(BookingError::InsufficientPayment { sent: payment, fee });
        }
        let q = fee / 100;
        let rem = fee % 100;
        let creator_share = CREATOR_SHARE_HUNDREDTHS * q + (CREATOR_SHARE_HUNDREDTHS * rem) / 100;
        proof {
            lemma_fundamental_div_mod(fee as int, 100);
            lemma_hoist_over_denominator(
                CREATOR_SHARE_HUNDREDTHS * (rem as int),
                CREATOR_SHARE_HUNDREDTHS * (q as int),
                100nat,
            );
            assert(fee * CREATOR_SHARE_HUNDREDTHS == CREATOR_SHARE_HUNDREDTHS * (rem as int)
                + (CREATOR_SHARE_HUNDREDTHS * (q as int)) * 100);
            assert(creator_share == creator_share_of(fee));
            lemma_creator_share_le_fee(fee);
        }
        let admin_share = fee - creator_share;
        let creator_balance = self.user_balances.amount(creator);
        self.user_balances.set(creator, creator_balance + creator_share);
        let admin_acct = match self.admin {
            Some(a) => a,
            None => Account::zero(),
        };
        let admin_balance = self.user_balances.amount(admin_acct);
        self.user_balances.set(admin_acct, admin_balance + admin_share);
        let token_id = self.erc721.allocate_token();
        Ok(token_id)
    }

    /// Withdraw the caller's accumulated balance: fails with `NoBalance`
    /// if it is zero; otherwise zeroes the balance and returns the amount
    /// to pay out. The balance is zeroed before any payment is issued, so
    /// a reentrant second withdrawal during the payout finds nothing.
    pub fn withdraw(&mut self, caller: Account) -> (r: Result<u128, BookingError>)
        requires
            old(self).wf(),
        ensures
            final(self).wf(),
            r is Ok <==> old(self).user_balance_view(caller) != 0,
            r is Ok ==> r == Ok::<u128, BookingError>(old(self).user_balance_view(caller)),
            r is Ok ==> forall|b: Account| #[trigger]
                final(self).user_balance_view(b) == (if b == caller {
                    0
                } else {
                    old(self).user_balance_view(b)
                }),
            r is Err ==> *final(self) == *old(self),
            r is Err ==> r == Err::<u128, BookingError>(BookingError::NoBalance { caller }),
            final(self).erc721 == old(self).erc721,
            final(self).admin == old(self).admin,
            final(self).booking_fee == old(self).booking_fee,
            final(self).sites == old(self).sites,
            final(self).creator_index == old(self).creator_index,
            final(self).owner_index == old(self).owner_index,
            final(self).slot_records == old(self).slot_records,
    {
        let amount = self.user_balances.amount(caller);
        if amount == 0 {
            return Err(BookingError::NoBalance { caller });
        }
        self.user_balances.set(caller, 0);
        Ok(amount)
    }

    /// The token ids indexed for a creator, skipping unpopulated entries.
    pub fn slots_of_creator(&self, creator: Account) -> (r: Vec<usize>)
        ensures
            r@ == nonzero_ids(ids_view(self.creator_index, creator)),
    {
        self.creator_index.nonzero_ids_of(creator)
    }

    /// The token ids indexed for an owner, skipping unpopulated entries.
    pub fn slots_of_owner(&self, owner: Account) -> (r: Vec<usize>)
        ensures
            r@ == nonzero_ids(ids_view(self.owner_index, owner)),
    {
        self.owner_index.nonzero_ids_of(owner)
    }

    /// The slot metadata of a token: its creator and time range, or all
    /// zeroes if the record is absent or incomplete. A nonzero answer is
    /// a complete record, and by the slot-record rule its range is
    /// ordered: `0 < start < end`.
    pub fn slot_metadata(&self, token_id: usize) -> (r: (Account, u64, u64))
        requires
            self.wf(),
        ensures
            r == self.slot_metadata_view(token_id),
            r.0 != Account::zero_spec() ==> 0 < r.1 < r.2,
    {
        proof {
            crate::slots::lemma_record_find_preserves_wf(self.slot_records.entries@, token_id);
        }
        match self.slot_records.get(token_id) {
            Some(rec) => {
                if rec.creator.is_zero() || rec.start == 0 || rec.end == 0 {
                    (Account::zero(), 0, 0)
                } else {
                    (rec.creator, rec.start, rec.end)
                }
            },
            None => (Account::zero(), 0, 0),
        }
    }

    /// What `slot_metadata` reports for a token.
    pub open spec fn slot_metadata_view(self, token_id: usize) -> (Account, u64, u64) {
        match self.slot_records.spec_find(token_id) {
            Some(rec) => if rec.creator == Account::zero_spec() || rec.start == 0 || rec.end
                == 0 {
                (Account::zero_spec(), 0u64, 0u64)
            } else {
                (rec.creator, rec.start, rec.end)
            },
            None => (Account::zero_spec(), 0u64, 0u64),
        }
    }

    /// Acknowledge an incoming safe transfer: returns the well-known
    /// receiver acknowledgment code, as its four big-endian bytes.
    pub fn on_erc721_received(
        &self,
        _operator: Account,
        _from: Account,
        _token_id: usize,
        _data: Vec<u8>,
    ) -> (r: [u8; 4])
        ensures
            crate::erc721::interface_word(r@) == crate::erc721::ERC721_TOKEN_RECEIVER_ID,
    {
        let r: [u8; 4] = [0x15, 0x0b, 0x7a, 0x02];
        r
    }

    /// The ids indexed for an owner, unpopulated entries included: the
    /// raw positional listing behind `slots_of_owner`.
    pub fn debug_owner_info(&self, owner: Account) -> (r: Vec<usize>)
        ensures
            r@ == ids_view(self.owner_index, owner),
    {
        self.owner_index.raw_ids_of(owner)
    }
}

/// Law: a booking's fee split is conserved — the creator's and the
/// administrator's shares sum exactly to the fee, and the creator
/// receives 95% rounded down.
pub proof fn lemma_fee_split_conserved(fee: u128)
    ensures
        creator_share_of(fee) + admin_share_of(fee) == fee,
        creator_share_of(fee) == (fee * CREATOR_SHARE_HUNDREDTHS) / 100,
        0 <= creator_share_of(fee) <= fee,
        0 <= admin_share_of(fee) <= fee,
{
    lemma_creator_share_le_fee(fee);
}

} // verus!
