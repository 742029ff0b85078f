use vstd::prelude::*;
use crate::account::Account;

verus! {

/// One standing permission: `owner` lets (or forbids) `operator` manage all
/// of `owner`'s tokens.
pub struct OperatorEntry {
    pub owner: Account,
    pub operator: Account,
    pub approved: bool,
}

/// The operator-approval table, keyed by the (owner, operator) pair with
/// first-match lookup; a pair with no entry reads as not approved.
pub struct OperatorTable {
    pub entries: Vec<OperatorEntry>,
}

/// The flag bound to the pair (owner, operator) in `s`, if any.
pub open spec fn operator_find(s: Seq<OperatorEntry>, owner: Account, operator: Account) -> Option<
    bool,
>
    decreases s.len(),
{
    if s.len() == 0 {
        None
    } else if s[0].owner == owner && s[0].operator == operator {
        Some(s[0].approved)
    } else {
        operator_find(s.drop_first(), owner, operator)
    }
}

/// The earliest entry with a matching pair decides the lookup.
pub proof fn lemma_operator_find_first_match(
    s: Seq<OperatorEntry>,
    owner: Account,
    operator: Account,
    i: int,
)
    requires
        0 <= i < s.len(),
        s[i].owner == owner,
        s[i].operator == operator,
        forall|j: int| 0 <= j < i ==> !(s[j].owner == owner && s[j].operator == operator),
    ensures
        operator_find(s, owner, operator) == Some(s[i].approved),
    decreases i,
{
    if i > 0 {
        lemma_operator_find_first_match(s.drop_first(), owner, operator, i - 1);
    }
}

/// A pair that no entry carries reads as unbound.
pub proof fn lemma_operator_find_no_match(s: Seq<OperatorEntry>, owner: Account, operator: Account)
    requires
        forall|j: int| 0 <= j < s.len() ==> !(s[j].owner == owner && s[j].operator == operator),
    ensures
        operator_find(s, owner, operator) is None,
    decreases s.len(),
{
    if s.len() > 0 {
        lemma_operator_find_no_match(s.drop_first(), owner, operator);
    }
}

/// Rewriting the flag of one entry leaves the bindings of other pairs as
/// they were.
pub proof fn lemma_operator_find_update_value(
    s: Seq<OperatorEntry>,
    i: int,
    approved: bool,
    owner2: Account,
    operator2: Account,
)
    requires
        0 <= i < s.len(),
        !(s[i].owner == owner2 && s[i].operator == operator2),
    ensures
        operator_find(
            s.update(i, OperatorEntry { owner: s[i].owner, operator: s[i].operator, approved }),
            owner2,
            operator2,
        ) == operator_find(s, owner2, operator2),
    decreases i,
{
    let s2 = s.update(i, OperatorEntry { owner: s[i].owner, operator: s[i].operator, approved });
    if i == 0 {
        assert(s2.drop_first() =~= s.drop_first());
    } else {
        assert(s2[0] == s[0]);
        if !(s[0].owner == owner2 && s[0].operator == operator2) {
            assert(s2.drop_first() =~= s.drop_first().update(
                i - 1,
                OperatorEntry {
                    owner: s.drop_first()[i - 1].owner,
                    operator: s.drop_first()[i - 1].operator,
                    approved,
                },
            ));
            lemma_operator_find_update_value(s.drop_first(), i - 1, approved, owner2, operator2);
            assert(operator_find(s2, owner2, operator2) == operator_find(
                s2.drop_first(),
                owner2,
                operator2,
            ));
            assert(operator_find(s, owner2, operator2) == operator_find(
                s.drop_first(),
                owner2,
                operator2,
            ));
        }
    }
}

/// Appending an entry leaves the bindings of other pairs as they were.
pub proof fn lemma_operator_find_push(
    s: Seq<OperatorEntry>,
    e: OperatorEntry,
    owner2: Account,
    operator2: Account,
)
    requires
        !(e.owner == owner2 && e.operator == operator2),
    ensures
        operator_find(s.push(e), owner2, operator2) == operator_find(s, owner2, operator2),
    decreases s.len(),
{
    if s.len() == 0 {
        assert(s.push(e)[0] == e);
        assert(s.push(e).drop_first() =~= Seq::<OperatorEntry>::empty());
        assert(operator_find(s.push(e).drop_first(), owner2, operator2) is None);
        assert(operator_find(s, owner2, operator2) is None);
        assert(operator_find(s.push(e), owner2, operator2) is None);
    } else {
        assert(s.push(e)[0] == s[0]);
        if !(s[0].owner == owner2 && s[0].operator == operator2) {
            assert(s.push(e).drop_first() =~= s.drop_first().push(e));
            lemma_operator_find_push(s.drop_first(), e, owner2, operator2);
            assert(operator_find(s.push(e), owner2, operator2) == operator_find(
                s.push(e).drop_first(),
                owner2,
                operator2,
            ));
            assert(operator_find(s, owner2, operator2) == operator_find(
                s.drop_first(),
                owner2,
                operator2,
            ));
        }
    }
}

impl OperatorTable {
    /// Whether `operator` is an approved operator for `owner`, as a
    /// specification value; a pair with no entry is not approved.
    pub open spec fn spec_approved(self, owner: Account, operator: Account) -> bool {
        match operator_find(self.entries@, owner, operator) {
            Some(b) => b,
            None => false,
        }
    }

    /// An empty table: no operator is approved for anyone.
    pub fn new() -> (t: OperatorTable)
        ensures
            t.entries@.len() == 0,
            forall|o: Account, p: Account| !(#[trigger] t.spec_approved(o, p)),
    {
        let t = OperatorTable { entries: Vec::new() };
        proof {
            assert forall|o: Account, p: Account| !(#[trigger] t.spec_approved(o, p)) by {
                lemma_operator_find_no_match(t.entries@, o, p);
            }
        }
        t
    }

    /// Whether `operator` is an approved operator for `owner`.
    pub fn get(&self, owner: Account, operator: Account) -> (r: bool)
        ensures
            r == self.spec_approved(owner, operator),
    {
        let n = self.entries.len();
        let mut i: usize = 0;
        while i < n
            invariant
                i <= n,
                n == self.entries@.len(),
                forall|j: int|
                    0 <= j < i ==> !(self.entries@[j].owner == owner
                        && self.entries@[j].operator == operator),
            decreases n - i,
        {
            if self.entries[i].owner == owner && self.entries[i].operator == operator {
                proof {
                    lemma_operator_find_first_match(self.entries@, owner, operator, i as int);
                }
                return self.entries[i].approved;
            }
            i = i + 1;
        }
        proof {
            lemma_operator_find_no_match(self.entries@, owner, operator);
        }
        false
    }

    /// Bind the pair (owner, operator) to `approved`, leaving every other
    /// pair unchanged.
    pub fn set(&mut self, owner: Account, operator: Account, approved: bool)
        ensures
            forall|o2: Account, p2: Account| #[trigger]
                final(self).spec_approved(o2, p2) == (if o2 == owner && p2 == operator {
                    approved
                } else {
                    old(self).spec_approved(o2, p2)
                }),
    {
        let n = self.entries.len();
        let mut i: usize = 0;
        while i < n
            invariant
                i <= n,
                n == self.entries@.len(),
                self.entries@ == old(self).entries@,
                forall|j: int|
                    0 <= j < i ==> !(self.entries@[j].owner == owner
                        && self.entries@[j].operator == operator),
            decreases n - i,
        {
            if self.entries[i].owner == owner && self.entries[i].operator == operator {
                self.entries[i] = OperatorEntry { owner, operator, approved };
                proof {
                    assert(self.entries@ =~= old(self).entries@.update(
                        i as int,
                        OperatorEntry {
                            owner: old(self).entries@[i as int].owner,
                            operator: old(self).entries@[i as int].operator,
                            approved,
                        },
                    ));
                    assert forall|o2: Account, p2: Account| #[trigger]
                        self.spec_approved(o2, p2) == (if o2 == owner && p2 == operator {
                            approved
                        } else {
                            old(self).spec_approved(o2, p2)
                        }) by {
                        if o2 == owner && p2 == operator {
                            lemma_operator_find_first_match(self.entries@, owner, operator, i as int);
                        } else {
                            lemma_operator_find_update_value(
                                old(self).entries@,
                                i as int,
                                approved,
                                o2,
                                p2,
                            );
                        }
                    }
                }
                return ;
            }
            i = i + 1;
        }
        self.entries.push(OperatorEntry { owner, operator, approved });
        proof {
            assert forall|o2: Account, p2: Account| #[trigger]
                self.spec_approved(o2, p2) == (if o2 == owner && p2 == operator {
                    approved
                } else {
                    old(self).spec_approved(o2, p2)
                }) by {
                if o2 == owner && p2 == operator {
                    lemma_operator_find_first_match(
                        self.entries@,
                        owner,
                        operator,
                        old(self).entries@.len() as int,
                    );
                } else {
                    lemma_operator_find_push(
                        old(self).entries@,
                        OperatorEntry { owner, operator, approved },
                        o2,
                        p2,
                    );
                }
            }
        }
    }
}

} // verus!
