use vstd::prelude::*;
use crate::account::Account;

verus! {

/// One binding of an account to a value.
pub struct TableEntry<V> {
    pub key: Account,
    pub val: V,
}

/// An account-keyed table with first-match lookup semantics: the binding of
/// a key is the value of the earliest entry carrying that key, and a key
/// with no entry is unbound. `set` rewrites the earliest entry for the key,
/// or appends one, so lookups behave exactly like a mutable map.
pub struct AccountTable<V> {
    pub entries: Vec<TableEntry<V>>,
}

/// The value bound to `key` in `s`: the value of the earliest entry whose
/// key equals `key`, if any.
pub open spec fn table_find<V>(s: Seq<TableEntry<V>>, key: Account) -> Option<V>
    decreases s.len(),
{
    if s.len() == 0 {
        None
    } else if s[0].key == key {
        Some(s[0].val)
    } else {
        table_find(s.drop_first(), key)
    }
}

/// The earliest entry with a matching key decides the lookup.
pub proof fn lemma_table_find_first_match<V>(s: Seq<TableEntry<V>>, key: Account, i: int)
    requires
        0 <= i < s.len(),
        s[i].key == key,
        forall|j: int| 0 <= j < i ==> s[j].key != key,
    ensures
        table_find(s, key) == Some(s[i].val),
    decreases i,
{
    if i > 0 {
        lemma_table_find_first_match(s.drop_first(), key, i - 1);
    }
}

/// A key that no entry carries is unbound.
pub proof fn lemma_table_find_no_match<V>(s: Seq<TableEntry<V>>, key: Account)
    requires
        forall|j: int| 0 <= j < s.len() ==> s[j].key != key,
    ensures
        table_find(s, key) is None,
    decreases s.len(),
{
    if s.len() > 0 {
        lemma_table_find_no_match(s.drop_first(), key);
    }
}

/// Rewriting the value of one entry leaves the bindings of other keys as
/// they were.
pub proof fn lemma_table_find_update_value<V>(s: Seq<TableEntry<V>>, i: int, val: V, key2: Account)
    requires
        0 <= i < s.len(),
        s[i].key != key2,
    ensures
        table_find(s.update(i, TableEntry { key: s[i].key, val }), key2) == table_find(s, key2),
    decreases i,
{
    let s2 = s.update(i, TableEntry { key: s[i].key, val });
    if i == 0 {
        assert(s2.drop_first() =~= s.drop_first());
    } else {
        assert(s2[0] == s[0]);
        if s[0].key != key2 {
            assert(s2.drop_first() =~= s.drop_first().update(
                i - 1,
                TableEntry { key: s.drop_first()[i - 1].key, val },
            ));
            lemma_table_find_update_value(s.drop_first(), i - 1, val, key2);
        }
    }
}

/// Appending an entry leaves the bindings of other keys as they were.
pub proof fn lemma_table_find_push<V>(s: Seq<TableEntry<V>>, e: TableEntry<V>, key2: Account)
    requires
        e.key != key2,
    ensures
        table_find(s.push(e), key2) == table_find(s, key2),
    decreases s.len(),
{
    if s.len() == 0 {
        assert(s.push(e).len() == 1);
        assert(s.push(e)[0] == e);
        assert(s.push(e).drop_first() =~= Seq::<TableEntry<V>>::empty());
        assert(table_find(s.push(e).drop_first(), key2) is None);
        assert(table_find(s, key2) is None);
        assert(table_find(s.push(e), key2) is None);
    } else {
        assert(s.push(e)[0] == s[0]);
        if s[0].key != key2 {
            assert(s.push(e).drop_first() =~= s.drop_first().push(e));
            lemma_table_find_push(s.drop_first(), e, key2);
            assert(table_find(s.push(e), key2) == table_find(s.push(e).drop_first(), key2));
            assert(table_find(s, key2) == table_find(s.drop_first(), key2));
        }
    }
}

impl<V> AccountTable<V> {
    /// The binding of `key`, as a specification value.
    pub open spec fn spec_find(self, key: Account) -> Option<V> {
        table_find(self.entries@, key)
    }

    /// An empty table: every key is unbound.
    pub fn new() -> (t: AccountTable<V>)
        ensures
            t.entries@.len() == 0,
            forall|k: Account| #[trigger] t.spec_find(k) is None,
    {
        let t = AccountTable { entries: Vec::new() };
        proof {
            assert forall|k: Account| #[trigger] t.spec_find(k) is None by {
                lemma_table_find_no_match(t.entries@, k);
            }
        }
        t
    }

    /// The position of the earliest entry for `key`, if any.
    pub fn index_of(&self, key: Account) -> (r: Option<usize>)
        ensures
            match r {
                Some(i) => {
                    &&& i < self.entries@.len()
                    &&& self.entries@[i as int].key == key
                    &&& forall|j: int| 0 <= j < i ==> self.entries@[j].key != key
                    &&& self.spec_find(key) == Some(self.entries@[i as int].val)
                },
                None => {
                    &&& self.spec_find(key) is None
                    &&& forall|j: int|
                        0 <= j < self.entries@.len() ==> self.entries@[j].key != key
                },
            },
    {
        let n = self.entries.len();
        let mut i: usize = 0;
        while i < n
            invariant
                i <= n,
                n == self.entries@.len(),
                forall|j: int| 0 <= j < i ==> self.entries@[j].key != key,
            decreases n - i,
        {
            if self.entries[i].key == key {
                proof {
                    lemma_table_find_first_match(self.entries@, key, i as int);
                }
                return Some(i);
            }
            i = i + 1;
        }
        proof {
            lemma_table_find_no_match(self.entries@, key);
        }
        None
    }

    /// Bind `key` to `val`, leaving every other binding unchanged.
    pub fn set(&mut self, key: Account, val: V)
        ensures
            forall|k2: Account| #[trigger] final(self).spec_find(k2) == (if k2 == key {
                Some(val)
            } else {
                old(self).spec_find(k2)
            }),
    {
        match self.index_of(key) {
            Some(i) => {
                self.entries[i] = TableEntry { key, val };
                proof {
                    assert(self.entries@ =~= old(self).entries@.update(
                        i as int,
                        TableEntry { key: old(self).entries@[i as int].key, val },
                    ));
                    assert forall|k2: Account| #[trigger] self.spec_find(k2) == (if k2 == key {
                        Some(val)
                    } else {
                        old(self).spec_find(k2)
                    }) by {
                        if k2 == key {
                            lemma_table_find_first_match(self.entries@, key, i as int);
                        } else {
                            lemma_table_find_update_value(old(self).entries@, i as int, val, k2);
                        }
                    }
                }
            },
            None => {
                self.entries.push(TableEntry { key, val });
                proof {
                    assert forall|k2: Account| #[trigger] self.spec_find(k2) == (if k2 == key {
                        Some(val)
                    } else {
                        old(self).spec_find(k2)
                    }) by {
                        if k2 == key {
                            lemma_table_find_first_match(
                                self.entries@,
                                key,
                                old(self).entries@.len() as int,
                            );
                        } else {
                            lemma_table_find_push(old(self).entries@, TableEntry { key, val }, k2);
                        }
                    }
                }
            },
        }
    }
}

impl<V: Copy> AccountTable<V> {
    /// The value bound to `key`, if any.
    pub fn get(&self, key: Account) -> (r: Option<V>)
        ensures
            r == self.spec_find(key),
    {
        match self.index_of(key) {
            Some(i) => Some(self.entries[i].val),
            None => None,
        }
    }
}

impl AccountTable<u128> {
    /// The amount bound to `key`, with unbound keys reading as zero: the
    /// view taken by the balance ledgers.
    pub open spec fn spec_amount(self, key: Account) -> u128 {
        match self.spec_find(key) {
            Some(v) => v,
            None => 0,
        }
    }

    /// The amount bound to `key`; an unbound key reads as zero.
    pub fn amount(&self, key: Account) -> (r: u128)
        ensures
            r == self.spec_amount(key),
    {
        match self.get(key) {
            Some(v) => v,
            None => 0,
        }
    }
}

} // verus!
