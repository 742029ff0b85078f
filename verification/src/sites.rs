use vstd::prelude::*;
use crate::account::Account;

verus! {

/// One registered site: a fixed-width key and its creator account.
pub struct SiteEntry {
    pub key: Vec<u8>,
    pub creator: Account,
}

/// The site-creator registry, keyed by fixed-width site keys with
/// first-match lookup; a key with no entry reads as the zero account.
/// Registration is write-once: entries are only ever appended, and only
/// for keys that read as zero.
pub struct SiteTable {
    pub entries: Vec<SiteEntry>,
}

/// The creator bound to `key` in `s`: the creator of the earliest entry
/// whose key equals `key`, or the zero account if none.
pub open spec fn site_find(s: Seq<SiteEntry>, key: Seq<u8>) -> Account
    decreases s.len(),
{
    if s.len() == 0 {
        Account::zero_spec()
    } else if s[0].key@ == key {
        s[0].creator
    } else {
        site_find(s.drop_first(), key)
    }
}

/// The earliest entry with a matching key decides the lookup.
pub proof fn lemma_site_find_first_match(s: Seq<SiteEntry>, key: Seq<u8>, i: int)
    requires
        0 <= i < s.len(),
        s[i].key@ == key,
        forall|j: int| 0 <= j < i ==> s[j].key@ != key,
    ensures
        site_find(s, key) == s[i].creator,
    decreases i,
{
    if i > 0 {
        lemma_site_find_first_match(s.drop_first(), key, i - 1);
    }
}

/// A key that no entry carries reads as the zero account.
pub proof fn lemma_site_find_no_match(s: Seq<SiteEntry>, key: Seq<u8>)
    requires
        forall|j: int| 0 <= j < s.len() ==> s[j].key@ != key,
    ensures
        site_find(s, key) == Account::zero_spec(),
    decreases s.len(),
{
    if s.len() > 0 {
        lemma_site_find_no_match(s.drop_first(), key);
    }
}

/// When every creator on file is nonzero, a key that reads as zero is
/// carried by no entry at all.
pub proof fn lemma_site_find_zero_no_match(s: Seq<SiteEntry>, key: Seq<u8>)
    requires
        forall|j: int| 0 <= j < s.len() ==> s[j].creator != Account::zero_spec(),
        site_find(s, key) == Account::zero_spec(),
    ensures
        forall|j: int| 0 <= j < s.len() ==> s[j].key@ != key,
    decreases s.len(),
{
    if s.len() > 0 {
        assert(s[0].key@ != key);
        lemma_site_find_zero_no_match(s.drop_first(), key);
        assert forall|j: int| 0 <= j < s.len() implies s[j].key@ != key by {
            if j > 0 {
                assert(s.drop_first()[j - 1] == s[j]);
            }
        }
    }
}

/// Appending an entry leaves the bindings of other keys as they were.
pub proof fn lemma_site_find_push(s: Seq<SiteEntry>, e: SiteEntry, key2: Seq<u8>)
    requires
        e.key@ != key2,
    ensures
        site_find(s.push(e), key2) == site_find(s, key2),
    decreases s.len(),
{
    if s.len() == 0 {
        assert(s.push(e)[0] == e);
        assert(s.push(e).drop_first() =~= Seq::<SiteEntry>::empty());
        assert(site_find(s.push(e).drop_first(), key2) == Account::zero_spec());
        assert(site_find(s, key2) == Account::zero_spec());
    } else {
        assert(s.push(e)[0] == s[0]);
        if s[0].key@ != key2 {
            assert(s.push(e).drop_first() =~= s.drop_first().push(e));
            lemma_site_find_push(s.drop_first(), e, key2);
            assert(site_find(s.push(e), key2) == site_find(s.push(e).drop_first(), key2));
            assert(site_find(s, key2) == site_find(s.drop_first(), key2));
        }
    }
}

/// Whether two byte strings are equal.
pub fn bytes_eq(a: &Vec<u8>, b: &Vec<u8>) -> (r: bool)
    ensures
        r == (a@ == b@),
{
    if a.len() != b.len() {
        return false;
    }
    let n = a.len();
    let mut i: usize = 0;
    while i < n
        invariant
            i <= n,
            n == a@.len(),
            n == b@.len(),
            forall|j: int| 0 <= j < i ==> a@[j] == b@[j],
        decreases n - i,
    {
        if a[i] != b[i] {
            return false;
        }
        i = i + 1;
    }
    proof {
        assert(a@ =~= b@);
    }
    true
}

impl SiteTable {
    /// Well-formedness: every creator on file is nonzero, so a key that
    /// reads as zero is genuinely unregistered.
    pub open spec fn wf(self) -> bool {
        forall|j: int|
            0 <= j < self.entries@.len() ==> (#[trigger] self.entries@[j]).creator
                != Account::zero_spec()
    }

    /// An empty registry: every key reads as the zero account.
    pub fn new() -> (t: SiteTable)
        ensures
            t.wf(),
            t.entries@.len() == 0,
            forall|k: Seq<u8>| site_find(#[trigger] t.entries@, k) == Account::zero_spec(),
    {
        let t = SiteTable { entries: Vec::new() };
        proof {
            assert forall|k: Seq<u8>|
                site_find(#[trigger] t.entries@, k) == Account::zero_spec() by {
                lemma_site_find_no_match(t.entries@, k);
            }
        }
        t
    }

    /// The creator registered for `key`; the zero account if none.
    pub fn creator_of(&self, key: &Vec<u8>) -> (r: Account)
        ensures
            r == site_find(self.entries@, key@),
    {
        let n = self.entries.len();
        let mut i: usize = 0;
        while i < n
            invariant
                i <= n,
                n == self.entries@.len(),
                forall|j: int| 0 <= j < i ==> self.entries@[j].key@ != key@,
            decreases n - i,
        {
            if bytes_eq(&self.entries[i].key, key) {
                proof {
                    lemma_site_find_first_match(self.entries@, key@, i as int);
                }
                return self.entries[i].creator;
            }
            i = i + 1;
        }
        proof {
            lemma_site_find_no_match(self.entries@, key@);
        }
        Account::zero()
    }

    /// Register `creator` for a key that currently reads as zero, leaving
    /// every other key's binding unchanged.
    pub fn insert(&mut self, key: Vec<u8>, creator: Account)
        requires
            old(self).wf(),
            creator != Account::zero_spec(),
            site_find(old(self).entries@, key@) == Account::zero_spec(),
        ensures
            final(self).wf(),
            forall|k2: Seq<u8>|
                site_find(#[trigger] final(self).entries@, k2) == (if k2 == key@ {
                    creator
                } else {
                    site_find(old(self).entries@, k2)
                }),
    {
        proof {
            lemma_site_find_zero_no_match(self.entries@, key@);
        }
        let ghost key_view = key@;
        self.entries.push(SiteEntry { key, creator });
        proof {
            assert forall|k2: Seq<u8>|
                site_find(#[trigger] self.entries@, k2) == (if k2 == key_view {
                    creator
                } else {
                    site_find(old(self).entries@, k2)
                }) by {
                if k2 == key_view {
                    lemma_site_find_first_match(
                        self.entries@,
                        k2,
                        old(self).entries@.len() as int,
                    );
                } else {
                    lemma_site_find_push(
                        old(self).entries@,
                        self.entries@[old(self).entries@.len() as int],
                        k2,
                    );
                }
            }
        }
    }
}

} // verus!
