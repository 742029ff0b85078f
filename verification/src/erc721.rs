use vstd::prelude::*;
use crate::account::Account;
use crate::errors::Erc721Error;
use crate::events::Event;
use crate::operators::OperatorTable;
use crate::table::AccountTable;

verus! {

/// The 4-byte acknowledgment code, as a big-endian word, that a receiving
/// contract must return for a safe transfer to stand.
pub const ERC721_TOKEN_RECEIVER_ID: u32 = 0x150b7a02;

/// The interface identifier words recognised by `supports_interface`.
pub const IERC165_ID: u32 = 0x01ffc9a7;

pub const IERC721_ID: u32 = 0x80ac58cd;

pub const IERC721_METADATA_ID: u32 = 0x5b5e139f;

/// The reserved word that `supports_interface` must always deny, even
/// though it is bitwise a valid pattern.
pub const INTERFACE_NOT_SUPPORTED_ID: u32 = 0xffffffff;

/// What came of the synchronous callback to a transfer's recipient. The
/// host environment performs the call and hands its result in; the
/// protocol decides from it alone.
#[derive(Clone, Copy, Debug, PartialEq, Eq, Structural)]
pub enum ReceiverOutcome {
    /// The recipient has no executable code; no acknowledgment is needed.
    NoReceiverCode,
    /// The callback itself errored; reported as a refusal with code zero.
    CallErrored,
    /// The callback returned this 4-byte code, as a big-endian word.
    Returned { code: u32 },
}

/// Whether the callback outcome acknowledges the transfer.
pub open spec fn receiver_accepts(outcome: ReceiverOutcome) -> bool {
    match outcome {
        ReceiverOutcome::NoReceiverCode => true,
        ReceiverOutcome::CallErrored => false,
        ReceiverOutcome::Returned { code } => code == ERC721_TOKEN_RECEIVER_ID,
    }
}

/// The code a refusal reports for the callback outcome: what the receiver
/// returned, or zero if the call itself errored.
pub open spec fn refused_code(outcome: ReceiverOutcome) -> u32 {
    match outcome {
        ReceiverOutcome::NoReceiverCode => 0,
        ReceiverOutcome::CallErrored => 0,
        ReceiverOutcome::Returned { code } => code,
    }
}

/// How many positions of `s` hold `a`: the number of tokens `a` owns when
/// `s` is the owner column.
pub open spec fn owned_count(s: Seq<Account>, a: Account) -> nat
    decreases s.len(),
{
    if s.len() == 0 {
        0
    } else {
        owned_count(s.drop_last(), a) + (if s.last() == a {
            1nat
        } else {
            0nat
        })
    }
}

/// No account owns more tokens than there are positions.
pub proof fn lemma_owned_count_le_len(s: Seq<Account>, a: Account)
    ensures
        owned_count(s, a) <= s.len(),
    decreases s.len(),
{
    if s.len() > 0 {
        lemma_owned_count_le_len(s.drop_last(), a);
    }
}

/// An account that owns some position owns at least one token.
pub proof fn lemma_owned_count_at_index(s: Seq<Account>, i: int, a: Account)
    requires
        0 <= i < s.len(),
        s[i] == a,
    ensures
        owned_count(s, a) >= 1,
    decreases s.len(),
{
    if i < s.len() - 1 {
        lemma_owned_count_at_index(s.drop_last(), i, a);
    }
}

/// Appending one owner raises exactly that owner's count by one.
pub proof fn lemma_owned_count_push(s: Seq<Account>, x: Account, a: Account)
    ensures
        owned_count(s.push(x), a) == owned_count(s, a) + (if x == a {
            1nat
        } else {
            0nat
        }),
{
    assert(s.push(x).drop_last() =~= s);
    assert(s.push(x).last() == x);
}

/// Reassigning one position moves exactly one unit of count from the old
/// owner of that position to the new one.
pub proof fn lemma_owned_count_update(s: Seq<Account>, i: int, x: Account, a: Account)
    requires
        0 <= i < s.len(),
    ensures
        owned_count(s.update(i, x), a) + (if s[i] == a {
            1nat
        } else {
            0nat
        }) == owned_count(s, a) + (if x == a {
            1nat
        } else {
            0nat
        }),
    decreases s.len(),
{
    let s2 = s.update(i, x);
    if i == s.len() - 1 {
        assert(s2.drop_last() =~= s.drop_last());
        assert(s2.last() == x);
    } else {
        assert(s2.drop_last() =~= s.drop_last().update(i, x));
        assert(s2.last() == s.last());
        lemma_owned_count_update(s.drop_last(), i, x, a);
    }
}

/// The positions of `s` that hold `a`: the token ids `a` owns when `s` is
/// the owner column.
pub open spec fn owned_ids(s: Seq<Account>, a: Account) -> Set<int> {
    Set::new(|i: int| 0 <= i < s.len() && s[i] == a)
}

/// `owned_count` is exactly the number of owned positions.
pub proof fn lemma_owned_count_is_cardinality(s: Seq<Account>, a: Account)
    ensures
        owned_ids(s, a).finite(),
        owned_count(s, a) == owned_ids(s, a).len(),
    decreases s.len(),
{
    if s.len() == 0 {
        assert(owned_ids(s, a) =~= Set::<int>::empty());
    } else {
        lemma_owned_count_is_cardinality(s.drop_last(), a);
        let prev = owned_ids(s.drop_last(), a);
        if s.last() == a {
            assert(!prev.contains(s.len() - 1));
            assert(owned_ids(s, a) =~= prev.insert(s.len() - 1));
        } else {
            assert(owned_ids(s, a) =~= prev);
        }
    }
}

/// The non-fungible-token ownership registry: the owner and approved
/// spender of each allocated token id, per-account balances, standing
/// operator approvals, and the log of emitted notifications.
///
/// Token ids are the positions of the owner column, handed out in order by
/// the supply counter; the zero account in a position means the token is
/// not currently held (never transferred in, or burned). Ids are never
/// reused and the supply counter never decreases.
pub struct Erc721 {
    pub owners: Vec<Account>,
    pub approvals: Vec<Account>,
    pub balances: AccountTable<u128>,
    pub operators: OperatorTable,
    pub events: Vec<Event>,
}

impl Erc721 {
    /// The supply counter: how many token ids have been allocated.
    pub open spec fn token_count(self) -> nat {
        self.owners@.len()
    }

    /// The current owner of a token id; the zero account if the id is
    /// unallocated or the token is not held.
    pub open spec fn owner_view(self, token_id: int) -> Account {
        if 0 <= token_id < self.owners@.len() {
            self.owners@[token_id]
        } else {
            Account::zero_spec()
        }
    }

    /// The approved spender of a token id; the zero account if none.
    pub open spec fn approved_view(self, token_id: int) -> Account {
        if 0 <= token_id < self.approvals@.len() {
            self.approvals@[token_id]
        } else {
            Account::zero_spec()
        }
    }

    /// The balance ledger's entry for an account.
    pub open spec fn balance_view(self, a: Account) -> u128 {
        self.balances.spec_amount(a)
    }

    /// Whether `operator` holds a standing approval from `owner`.
    pub open spec fn operator_view(self, owner: Account, operator: Account) -> bool {
        self.operators.spec_approved(owner, operator)
    }

    /// Well-formedness: the approval column matches the owner column in
    /// length, and the balance ledger counts exactly the currently-owned
    /// tokens of every account — the zero account holds none.
    pub open spec fn wf(self) -> bool {
        &&& self.approvals@.len() == self.owners@.len()
        &&& self.balances.spec_amount(Account::zero_spec()) == 0
        &&& forall|a: Account|
            a != Account::zero_spec() ==> #[trigger] self.balances.spec_amount(a) == owned_count(
                self.owners@,
                a,
            )
    }

    /// Whether `caller` may move the token: it is the owner, an approved
    /// operator of the owner, or the token's approved spender.
    pub open spec fn is_authorized(self, caller: Account, owner: Account, token_id: int) -> bool {
        ||| caller == owner
        ||| self.operator_view(owner, caller)
        ||| self.approved_view(token_id) == caller
    }

    /// The transition a successful transfer applies: ownership of the
    /// token reassigned, its approval cleared, balances moved with it
    /// (through `wf`), everything else untouched, and one transfer
    /// notification appended.
    pub open spec fn transfer_applied(
        pre: Erc721,
        post: Erc721,
        token_id: usize,
        from: Account,
        to: Account,
    ) -> bool {
        &&& pre.owner_view(token_id as int) == from
        &&& token_id < pre.token_count()
        &&& post.owners@ == pre.owners@.update(token_id as int, to)
        &&& post.approvals@ == pre.approvals@.update(token_id as int, Account::zero_spec())
        &&& post.approved_view(token_id as int) == Account::zero_spec()
        &&& post.operators == pre.operators
        &&& post.events@ == pre.events@.push(Event::Transfer { from, to, token_id })
    }

    /// The transition a mint applies: the next id allocated to `to`, with
    /// a cleared approval slot and one transfer notification from the zero
    /// account.
    pub open spec fn mint_applied(pre: Erc721, post: Erc721, to: Account, token_id: usize) -> bool {
        &&& token_id == pre.token_count()
        &&& post.owners@ == pre.owners@.push(to)
        &&& post.approvals@ == pre.approvals@.push(Account::zero_spec())
        &&& post.operators == pre.operators
        &&& post.events@ == pre.events@.push(
            Event::Transfer { from: Account::zero_spec(), to, token_id },
        )
    }

    /// The transition a successful approval applies: the token's approved
    /// spender replaced, everything else untouched, and one approval
    /// notification appended.
    pub open spec fn approve_applied(
        pre: Erc721,
        post: Erc721,
        caller: Account,
        approved: Account,
        token_id: usize,
    ) -> bool {
        &&& token_id < pre.token_count()
        &&& post.owners@ == pre.owners@
        &&& post.approvals@ == pre.approvals@.update(token_id as int, approved)
        &&& post.approved_view(token_id as int) == approved
        &&& post.balances == pre.balances
        &&& post.operators == pre.operators
        &&& post.events@ == pre.events@.push(
            Event::Approval { owner: pre.owner_view(token_id as int), approved, token_id },
        )
    }

    /// A fresh registry: no tokens, no approvals, no balances, no log.
    pub fn new() -> (r: Erc721)
        ensures
            r.wf(),
            r.token_count() == 0,
            r.events@.len() == 0,
            forall|a: Account| #[trigger] r.balance_view(a) == 0,
            forall|o: Account, p: Account| !(#[trigger] r.operator_view(o, p)),
    {
        let r = Erc721 {
            owners: Vec::new(),
            approvals: Vec::new(),
            balances: AccountTable::new(),
            operators: OperatorTable::new(),
            events: Vec::new(),
        };
        proof {
            assert forall|a: Account| #[trigger] r.balance_view(a) == 0 by {
                assert(r.balances.spec_find(a) is None);
            }
        }
        r
    }

    /// The supply counter.
    pub fn total_supply(&self) -> (r: usize)
        ensures
            r == self.token_count(),
    {
        self.owners.len()
    }

    /// The current owner of `token_id`; fails with `InvalidTokenId` if the
    /// token has no current owner (never minted, or burned).
    pub fn owner_of(&self, token_id: usize) -> (r: Result<Account, Erc721Error>)
        ensures
            self.owner_view(token_id as int) != Account::zero_spec() ==> r == Ok::<
                Account,
                Erc721Error,
            >(self.owner_view(token_id as int)),
            self.owner_view(token_id as int) == Account::zero_spec() ==> r == Err::<
                Account,
                Erc721Error,
            >(Erc721Error::InvalidTokenId { token_id }),
    {
        if token_id < self.owners.len() {
            let owner = self.owners[token_id];
            if owner.is_zero() {
                Err(Erc721Error::InvalidTokenId { token_id })
            } else {
                Ok(owner)
            }
        } else {
            Err(Erc721Error::InvalidTokenId { token_id })
        }
    }

    /// The number of tokens `owner` currently holds; never fails.
    pub fn balance_of(&self, owner: Account) -> (r: Result<u128, Erc721Error>)
        ensures
            r == Ok::<u128, Erc721Error>(self.balance_view(owner)),
    {
        Ok(self.balances.amount(owner))
    }

    /// The approved spender of `token_id`; the zero account if none. Never
    /// fails.
    pub fn get_approved(&self, token_id: usize) -> (r: Result<Account, Erc721Error>)
        ensures
            r == Ok::<Account, Erc721Error>(self.approved_view(token_id as int)),
    {
        if token_id < self.approvals.len() {
            Ok(self.approvals[token_id])
        } else {
            Ok(Account::zero())
        }
    }

    /// Whether `operator` holds a standing approval from `owner`; never
    /// fails.
    pub fn is_approved_for_all(&self, owner: Account, operator: Account) -> (r: Result<
        bool,
        Erc721Error,
    >)
        ensures
            r == Ok::<bool, Erc721Error>(self.operator_view(owner, operator)),
    {
        Ok(self.operators.get(owner, operator))
    }

    /// The authorization gate of every caller-facing transfer entry point:
    /// resolves the owner (propagating `InvalidTokenId`), demands that
    /// `from` is that owner, and accepts the caller exactly when it is the
    /// owner, an approved operator of the owner, or the token's approved
    /// spender.
    pub fn require_authorized_to_spend(&self, caller: Account, from: Account, token_id: usize) -> (r:
        Result<(), Erc721Error>)
        ensures
            r is Ok <==> (self.owner_view(token_id as int) != Account::zero_spec()
                && self.owner_view(token_id as int) == from && self.is_authorized(
                caller,
                from,
                token_id as int,
            )),
            match r {
                Ok(_) => true,
                Err(e) => if self.owner_view(token_id as int) == Account::zero_spec() {
                    e == (Erc721Error::InvalidTokenId { token_id })
                } else if self.owner_view(token_id as int) != from {
                    e == (Erc721Error::NotOwner {
                        from,
                        token_id,
                        real_owner: self.owner_view(token_id as int),
                    })
                } else {
                    e == (Erc721Error::NotApproved {
                        owner: self.owner_view(token_id as int),
                        spender: caller,
                        token_id,
                    })
                },
            },
    {
        let owner = match self.owner_of(token_id) {
            Ok(o) => o,
            Err(e) => {
                return Err(e);
            },
        };
        if from != owner {
            return Err(Erc721Error::NotOwner { from, token_id, real_owner: owner });
        }
        if caller == owner {
            return Ok(());
        }
        if self.operators.get(owner, caller) {
            return Ok(());
        }
        let approved = if token_id < self.approvals.len() {
            self.approvals[token_id]
        } else {
            Account::zero()
        };
        if caller == approved {
            return Ok(());
        }
        Err(Erc721Error::NotApproved { owner, spender: caller, token_id })
    }

    /// The core transfer primitive, not itself access-checked: demands
    /// that `from` is the token's current owner (failing with `NotOwner`
    /// and the real owner otherwise), reassigns ownership, moves one unit
    /// of balance, clears the token's approval, and appends the transfer
    /// notification. All-or-nothing: a failure leaves the registry
    /// untouched. A transfer from the zero account — the mint path — must
    /// name an id the supply counter has already allocated.
    pub fn transfer(&mut self, token_id: usize, from: Account, to: Account) -> (r: Result<
        (),
        Erc721Error,
    >)
        requires
            old(self).wf(),
            from == Account::zero_spec() ==> token_id < old(self).token_count(),
        ensures
            final(self).wf(),
            r is Ok <==> old(self).owner_view(token_id as int) == from,
            r is Ok ==> Erc721::transfer_applied(*old(self), *final(self), token_id, from, to),
            r is Err ==> *final(self) == *old(self),
            match r {
                Ok(_) => true,
                Err(e) => e == (Erc721Error::NotOwner {
                    from,
                    token_id,
                    real_owner: old(self).owner_view(token_id as int),
                }),
            },
    {
        if token_id >= self.owners.len() {
            return Err(Erc721Error::NotOwner { from, token_id, real_owner: Account::zero() });
        }
        let previous_owner = self.owners[token_id];
        if previous_owner != from {
            return Err(Erc721Error::NotOwner { from, token_id, real_owner: previous_owner });
        }
        self.owners[token_id] = to;
        if !from.is_zero() {
            let from_balance = self.balances.amount(from);
            proof {
                lemma_owned_count_at_index(old(self).owners@, token_id as int, from);
            }
            self.balances.set(from, from_balance - 1);
        }
        if !to.is_zero() {
            let to_balance = self.balances.amount(to);
            proof {
                lemma_owned_count_le_len(old(self).owners@, to);
                assert(old(self).balances.spec_amount(to) == owned_count(old(self).owners@, to));
                assert(old(self).owners@.len() <= usize::MAX);
            }
            self.balances.set(to, to_balance + 1);
        }
        self.approvals[token_id] = Account::zero();
        self.events.push(Event::Transfer { from, to, token_id });
        proof {
            assert forall|a: Account|
                a != Account::zero_spec() implies #[trigger] self.balances.spec_amount(a)
                == owned_count(self.owners@, a) by {
                lemma_owned_count_update(old(self).owners@, token_id as int, to, a);
                assert(old(self).balances.spec_amount(a) == owned_count(old(self).owners@, a));
            }
        }
        Ok(())
    }

    /// Allocate the next token id by advancing the supply counter; the new
    /// id starts unowned, with no approval and no notification.
    pub fn allocate_token(&mut self) -> (token_id: usize)
        requires
            old(self).wf(),
        ensures
            final(self).wf(),
            token_id == old(self).token_count(),
            final(self).owners@ == old(self).owners@.push(Account::zero_spec()),
            final(self).approvals@ == old(self).approvals@.push(Account::zero_spec()),
            final(self).balances == old(self).balances,
            final(self).operators == old(self).operators,
            final(self).events@ == old(self).events@,
    {
        let token_id = self.owners.len();
        self.owners.push(Account::zero());
        self.approvals.push(Account::zero());
        proof {
            assert forall|a: Account|
                a != Account::zero_spec() implies #[trigger] self.balances.spec_amount(a)
                == owned_count(self.owners@, a) by {
                lemma_owned_count_push(old(self).owners@, Account::zero_spec(), a);
            }
        }
        token_id
    }

    /// Mint a token: allocate the next id from the supply counter and
    /// transfer it from the zero account to `to`. Never fails — a freshly
    /// allocated id has no owner to conflict with.
    pub fn mint(&mut self, to: Account) -> (r: Result<usize, Erc721Error>)
        requires
            old(self).wf(),
        ensures
            final(self).wf(),
            r == Ok::<usize, Erc721Error>((old(self).token_count() as usize)),
            Erc721::mint_applied(
                *old(self),
                *final(self),
                to,
                (old(self).token_count() as usize),
            ),
            final(self).token_count() == old(self).token_count() + 1,
    {
        let token_id = self.allocate_token();
        let res = self.transfer(token_id, Account::zero(), to);
        proof {
            assert(self.owners@ =~= old(self).owners@.push(to));
            assert(self.approvals@ =~= old(self).approvals@.push(Account::zero_spec()));
        }
        match res {
            Ok(_) => Ok(token_id),
            Err(e) => Err(e),
        }
    }

    /// Burn a token: transfer it from `from` to the zero account, subject
    /// to the full transfer authorization. The supply counter is not
    /// decremented and the id is never reused.
    pub fn burn(&mut self, caller: Account, from: Account, token_id: usize) -> (r: Result<
        (),
        Erc721Error,
    >)
        requires
            old(self).wf(),
        ensures
            final(self).wf(),
            r is Ok <==> (old(self).owner_view(token_id as int) != Account::zero_spec() && old(
                self,
            ).owner_view(token_id as int) == from && old(self).is_authorized(
                caller,
                from,
                token_id as int,
            )),
            r is Ok ==> Erc721::transfer_applied(
                *old(self),
                *final(self),
                token_id,
                from,
                Account::zero_spec(),
            ),
            final(self).token_count() == old(self).token_count(),
            r is Err ==> *final(self) == *old(self),
            match r {
                Ok(_) => true,
                Err(e) => if old(self).owner_view(token_id as int) == Account::zero_spec() {
                    e == (Erc721Error::InvalidTokenId { token_id })
                } else if old(self).owner_view(token_id as int) != from {
                    e == (Erc721Error::NotOwner {
                        from,
                        token_id,
                        real_owner: old(self).owner_view(token_id as int),
                    })
                } else {
                    e == (Erc721Error::NotApproved {
                        owner: old(self).owner_view(token_id as int),
                        spender: caller,
                        token_id,
                    })
                },
            },
    {
        match self.require_authorized_to_spend(caller, from, token_id) {
            Ok(_) => {},
            Err(e) => {
                return Err(e);
            },
        }
        self.transfer(token_id, from, Account::zero())
    }

    /// Caller-facing transfer: rejects the zero account as recipient, then
    /// authorizes the caller, then applies the core transfer. Succeeds if
    /// and only if the recipient is nonzero, the token is currently owned
    /// by `from`, and the caller is owner, approved operator, or approved
    /// spender.
    pub fn transfer_from(
        &mut self,
        caller: Account,
        from: Account,
        to: Account,
        token_id: usize,
    ) -> (r: Result<(), Erc721Error>)
        requires
            old(self).wf(),
        ensures
            final(self).wf(),
            r is Ok <==> (to != Account::zero_spec() && old(self).owner_view(token_id as int)
                != Account::zero_spec() && old(self).owner_view(token_id as int) == from && old(
                self,
            ).is_authorized(caller, from, token_id as int)),
            r is Ok ==> Erc721::transfer_applied(*old(self), *final(self), token_id, from, to),
            r is Err ==> *final(self) == *old(self),
            match r {
                Ok(_) => true,
                Err(e) => if to == Account::zero_spec() {
                    e == (Erc721Error::TransferToZero { token_id })
                } else if old(self).owner_view(token_id as int) == Account::zero_spec() {
                    e == (Erc721Error::InvalidTokenId { token_id })
                } else if old(self).owner_view(token_id as int) != from {
                    e == (Erc721Error::NotOwner {
                        from,
                        token_id,
                        real_owner: old(self).owner_view(token_id as int),
                    })
                } else {
                    e == (Erc721Error::NotApproved {
                        owner: old(self).owner_view(token_id as int),
                        spender: caller,
                        token_id,
                    })
                },
            },
    {
        if to.is_zero() {
            return Err(Erc721Error::TransferToZero { token_id });
        }
        match self.require_authorized_to_spend(caller, from, token_id) {
            Ok(_) => {},
            Err(e) => {
                return Err(e);
            },
        }
        self.transfer(token_id, from, to)
    }

    /// Decide a callback outcome: accepts when the recipient had no code
    /// or returned the well-known acknowledgment word; otherwise refuses,
    /// carrying the returned code (zero if the call errored).
    pub fn check_receiver_ack(to: Account, token_id: usize, outcome: ReceiverOutcome) -> (r: Result<
        (),
        Erc721Error,
    >)
        ensures
            r is Ok <==> receiver_accepts(outcome),
            match r {
                Ok(_) => true,
                Err(e) => e == (Erc721Error::ReceiverRefused {
                    receiver: to,
                    token_id,
                    returned: refused_code(outcome),
                }),
            },
    {
        match outcome {
            ReceiverOutcome::NoReceiverCode => Ok(()),
            ReceiverOutcome::CallErrored => Err(
                Erc721Error::ReceiverRefused { receiver: to, token_id, returned: 0 },
            ),
            ReceiverOutcome::Returned { code } => {
                if code == ERC721_TOKEN_RECEIVER_ID {
                    Ok(())
                } else {
                    Err(Erc721Error::ReceiverRefused { receiver: to, token_id, returned: code })
                }
            },
        }
    }

    /// Transfer, then hold the recipient to the acknowledgment protocol.
    /// The host performs the callback (handing it `data`) and its result
    /// arrives as `outcome`; since the answer is in hand, a refusal is
    /// decided before the ledger is touched, so a failed safe transfer
    /// leaves no trace — the all-or-nothing failure discipline that the
    /// enclosing transaction boundary owes the caller.
    pub fn safe_transfer(
        &mut self,
        token_id: usize,
        from: Account,
        to: Account,
        _data: Vec<u8>,
        outcome: ReceiverOutcome,
    ) -> (r: Result<(), Erc721Error>)
        requires
            old(self).wf(),
            from == Account::zero_spec() ==> token_id < old(self).token_count(),
        ensures
            final(self).wf(),
            r is Ok <==> (old(self).owner_view(token_id as int) == from && receiver_accepts(
                outcome,
            )),
            r is Ok ==> Erc721::transfer_applied(*old(self), *final(self), token_id, from, to),
            r is Err ==> *final(self) == *old(self),
            match r {
                Ok(_) => true,
                Err(e) => if old(self).owner_view(token_id as int) != from {
                    e == (Erc721Error::NotOwner {
                        from,
                        token_id,
                        real_owner: old(self).owner_view(token_id as int),
                    })
                } else {
                    e == (Erc721Error::ReceiverRefused {
                        receiver: to,
                        token_id,
                        returned: refused_code(outcome),
                    })
                },
            },
    {
        let current = if token_id < self.owners.len() {
            self.owners[token_id]
        } else {
            Account::zero()
        };
        if current != from {
            return Err(Erc721Error::NotOwner { from, token_id, real_owner: current });
        }
        match Erc721::check_receiver_ack(to, token_id, outcome) {
            Ok(_) => {},
            Err(e) => {
                return Err(e);
            },
        }
        self.transfer(token_id, from, to)
    }

    /// Caller-facing safe transfer: `transfer_from`'s checks and mutation,
    /// plus the acknowledgment protocol toward recipients that bear code.
    /// `data` is the opaque payload the host hands to the receiver
    /// callback; it does not influence the ledger.
    pub fn safe_transfer_from_with_data(
        &mut self,
        caller: Account,
        from: Account,
        to: Account,
        token_id: usize,
        data: Vec<u8>,
        outcome: ReceiverOutcome,
    ) -> (r: Result<(), Erc721Error>)
        requires
            old(self).wf(),
        ensures
            final(self).wf(),
            r is Ok <==> (to != Account::zero_spec() && old(self).owner_view(token_id as int)
                != Account::zero_spec() && old(self).owner_view(token_id as int) == from && old(
                self,
            ).is_authorized(caller, from, token_id as int) && receiver_accepts(outcome)),
            r is Ok ==> Erc721::transfer_applied(*old(self), *final(self), token_id, from, to),
            r is Err ==> *final(self) == *old(self),
            match r {
                Ok(_) => true,
                Err(e) => if to == Account::zero_spec() {
                    e == (Erc721Error::TransferToZero { token_id })
                } else if old(self).owner_view(token_id as int) == Account::zero_spec() {
                    e == (Erc721Error::InvalidTokenId { token_id })
                } else if old(self).owner_view(token_id as int) != from {
                    e == (Erc721Error::NotOwner {
                        from,
                        token_id,
                        real_owner: old(self).owner_view(token_id as int),
                    })
                } else if !old(self).is_authorized(caller, from, token_id as int) {
                    e == (Erc721Error::NotApproved {
                        owner: old(self).owner_view(token_id as int),
                        spender: caller,
                        token_id,
                    })
                } else {
                    e == (Erc721Error::ReceiverRefused {
                        receiver: to,
                        token_id,
                        returned: refused_code(outcome),
                    })
                },
            },
    {
        if to.is_zero() {
            return Err(Erc721Error::TransferToZero { token_id });
        }
        match self.require_authorized_to_spend(caller, from, token_id) {
            Ok(_) => {},
            Err(e) => {
                return Err(e);
            },
        }
        self.safe_transfer(token_id, from, to, data, outcome)
    }

    /// Safe transfer with an empty callback payload.
    pub fn safe_transfer_from(
        &mut self,
        caller: Account,
        from: Account,
        to: Account,
        token_id: usize,
        outcome: ReceiverOutcome,
    ) -> (r: Result<(), Erc721Error>)
        requires
            old(self).wf(),
        ensures
            final(self).wf(),
            r is Ok <==> (to != Account::zero_spec() && old(self).owner_view(token_id as int)
                != Account::zero_spec() && old(self).owner_view(token_id as int) == from && old(
                self,
            ).is_authorized(caller, from, token_id as int) && receiver_accepts(outcome)),
            r is Ok ==> Erc721::transfer_applied(*old(self), *final(self), token_id, from, to),
            r is Err ==> *final(self) == *old(self),
            match r {
                Ok(_) => true,
                Err(e) => if to == Account::zero_spec() {
                    e == (Erc721Error::TransferToZero { token_id })
                } else if old(self).owner_view(token_id as int) == Account::zero_spec() {
                    e == (Erc721Error::InvalidTokenId { token_id })
                } else if old(self).owner_view(token_id as int) != from {
                    e == (Erc721Error::NotOwner {
                        from,
                        token_id,
                        real_owner: old(self).owner_view(token_id as int),
                    })
                } else if !old(self).is_authorized(caller, from, token_id as int) {
                    e == (Erc721Error::NotApproved {
                        owner: old(self).owner_view(token_id as int),
                        spender: caller,
                        token_id,
                    })
                } else {
                    e == (Erc721Error::ReceiverRefused {
                        receiver: to,
                        token_id,
                        returned: refused_code(outcome),
                    })
                },
            },
    {
        self.safe_transfer_from_with_data(caller, from, to, token_id, Vec::new(), outcome)
    }

    /// Grant or replace the approved spender of a token. The caller must
    /// be the owner or an approved operator of the owner.
    pub fn approve(&mut self, caller: Account, approved: Account, token_id: usize) -> (r: Result<
        (),
        Erc721Error,
    >)
        requires
            old(self).wf(),
        ensures
            final(self).wf(),
            r is Ok <==> (old(self).owner_view(token_id as int) != Account::zero_spec() && (caller
                == old(self).owner_view(token_id as int) || old(self).operator_view(
                old(self).owner_view(token_id as int),
                caller,
            ))),
            r is Ok ==> Erc721::approve_applied(
                *old(self),
                *final(self),
                caller,
                approved,
                token_id,
            ),
            r is Err ==> *final(self) == *old(self),
            match r {
                Ok(_) => true,
                Err(e) => if old(self).owner_view(token_id as int) == Account::zero_spec() {
                    e == (Erc721Error::InvalidTokenId { token_id })
                } else {
                    e == (Erc721Error::NotApproved {
                        owner: old(self).owner_view(token_id as int),
                        spender: caller,
                        token_id,
                    })
                },
            },
    {
        let owner = match self.owner_of(token_id) {
            Ok(o) => o,
            Err(e) => {
                return Err(e);
            },
        };
        if caller != owner && !self.operators.get(owner, caller) {
            return Err(Erc721Error::NotApproved { owner, spender: caller, token_id });
        }
        self.approvals[token_id] = approved;
        self.events.push(Event::Approval { owner, approved, token_id });
        Ok(())
    }

    /// Set or clear a standing operator approval for all of the caller's
    /// tokens. Unconditional: an account writes only its own operator
    /// table. Never fails.
    pub fn set_approval_for_all(&mut self, caller: Account, operator: Account, approved: bool) -> (r:
        Result<(), Erc721Error>)
        requires
            old(self).wf(),
        ensures
            final(self).wf(),
            r == Ok::<(), Erc721Error>(()),
            forall|o2: Account, p2: Account| #[trigger]
                final(self).operator_view(o2, p2) == (if o2 == caller && p2 == operator {
                    approved
                } else {
                    old(self).operator_view(o2, p2)
                }),
            final(self).owners@ == old(self).owners@,
            final(self).approvals@ == old(self).approvals@,
            final(self).balances == old(self).balances,
            final(self).events@ == old(self).events@.push(
                Event::ApprovalForAll { owner: caller, operator, approved },
            ),
    {
        self.operators.set(caller, operator, approved);
        self.events.push(Event::ApprovalForAll { owner: caller, operator, approved });
        Ok(())
    }

    /// The collection's name.
    pub fn name() -> (r: Result<String, Erc721Error>)
        ensures
            r is Ok,
            r matches Ok(s) ==> s@ == "TimeMint Slot"@,
    {
        Ok(String::from_str("TimeMint Slot"))
    }

    /// The collection's ticker symbol.
    pub fn symbol() -> (r: Result<String, Erc721Error>)
        ensures
            r is Ok,
            r matches Ok(s) ==> s@ == "TMSLOT"@,
    {
        Ok(String::from_str("TMSLOT"))
    }

    /// Whether the 4-byte interface identifier belongs to the fixed set of
    /// supported interfaces. The reserved all-ones word is denied
    /// explicitly. Never fails.
    pub fn supports_interface(interface: [u8; 4]) -> (r: Result<bool, Erc721Error>)
        ensures
            r == Ok::<bool, Erc721Error>(
                interface_word_supported(interface_word(interface@)),
            ),
    {
        let interface_id: u32 = (interface[0] as u32) * 0x1000000 + (interface[1] as u32) * 0x10000
            + (interface[2] as u32) * 0x100 + (interface[3] as u32);
        if interface_id == INTERFACE_NOT_SUPPORTED_ID {
            return Ok(false);
        }
        Ok(
            interface_id == IERC165_ID || interface_id == IERC721_ID || interface_id
                == IERC721_METADATA_ID,
        )
    }
}

/// A 4-byte identifier read as a big-endian word.
pub open spec fn interface_word(b: Seq<u8>) -> int
    recommends
        b.len() == 4,
{
    b[0] * 0x1000000 + b[1] * 0x10000 + b[2] * 0x100 + b[3]
}

/// The closed set of interface words that `supports_interface` accepts;
/// the reserved all-ones word is denied even though it is bitwise a valid
/// match pattern.
pub open spec fn interface_word_supported(word: int) -> bool {
    &&& word != INTERFACE_NOT_SUPPORTED_ID
    &&& (word == IERC165_ID || word == IERC721_ID || word == IERC721_METADATA_ID)
}

/// Law: the balance ledger always counts exactly the currently-owned
/// tokens — for every nonzero account the recorded balance equals the
/// number of token ids whose owner is that account, and the zero account
/// holds nothing. Every operation preserves `wf`, so this holds after any
/// sequence of operations.
pub proof fn lemma_balance_counts_owned_tokens(s: Erc721, a: Account)
    requires
        s.wf(),
    ensures
        a != Account::zero_spec() ==> s.balance_view(a) == owned_count(s.owners@, a),
        a != Account::zero_spec() ==> s.balance_view(a) == owned_ids(s.owners@, a).len(),
        a == Account::zero_spec() ==> s.balance_view(a) == 0,
{
    lemma_owned_count_is_cardinality(s.owners@, a);
}

/// Law: successive mints hand out strictly increasing, never-repeated
/// token ids — the second of two consecutive mints returns exactly one
/// more than the first.
pub proof fn lemma_mint_ids_strictly_increase(
    s0: Erc721,
    s1: Erc721,
    s2: Erc721,
    to1: Account,
    to2: Account,
    id1: usize,
    id2: usize,
)
    requires
        Erc721::mint_applied(s0, s1, to1, id1),
        Erc721::mint_applied(s1, s2, to2, id2),
    ensures
        id2 == id1 + 1,
        id1 < id2,
{
}

/// Law: an approval reads back exactly as granted, and any later transfer
/// of the token resets its approved spender to the zero account.
pub proof fn lemma_approval_round_trip(
    s0: Erc721,
    s1: Erc721,
    s2: Erc721,
    caller: Account,
    spender: Account,
    from: Account,
    to: Account,
    token_id: usize,
)
    requires
        Erc721::approve_applied(s0, s1, caller, spender, token_id),
        Erc721::transfer_applied(s1, s2, token_id, from, to),
    ensures
        s1.approved_view(token_id as int) == spender,
        s2.approved_view(token_id as int) == Account::zero_spec(),
{
}

} // verus!
