use vstd::prelude::*;
use crate::account::Account;
use crate::table::AccountTable;

verus! {

/// The metadata of one booked slot: its site creator and time range.
#[derive(Clone, Copy, Debug, PartialEq, Eq, Structural)]
pub struct SlotRecord {
    pub creator: Account,
    pub start: u64,
    pub end: u64,
}

impl SlotRecord {
    /// A fully-populated record — creator, start and end all nonzero —
    /// carries an ordered time range.
    pub open spec fn wf(self) -> bool {
        (self.creator != Account::zero_spec() && self.start != 0 && self.end != 0)
            ==> self.start < self.end
    }
}

/// One token's slot record.
pub struct SlotRecordEntry {
    pub token_id: usize,
    pub record: SlotRecord,
}

/// Per-token slot records, keyed by token id with first-match lookup.
pub struct SlotRecordTable {
    pub entries: Vec<SlotRecordEntry>,
}

/// The record bound to `token_id` in `s`, if any.
pub open spec fn record_find(s: Seq<SlotRecordEntry>, token_id: usize) -> Option<SlotRecord>
    decreases s.len(),
{
    if s.len() == 0 {
        None
    } else if s[0].token_id == token_id {
        Some(s[0].record)
    } else {
        record_find(s.drop_first(), token_id)
    }
}

/// The earliest entry with a matching id decides the lookup.
pub proof fn lemma_record_find_first_match(s: Seq<SlotRecordEntry>, token_id: usize, i: int)
    requires
        0 <= i < s.len(),
        s[i].token_id == token_id,
        forall|j: int| 0 <= j < i ==> s[j].token_id != token_id,
    ensures
        record_find(s, token_id) == Some(s[i].record),
    decreases i,
{
    if i > 0 {
        lemma_record_find_first_match(s.drop_first(), token_id, i - 1);
    }
}

/// An id that no entry carries has no record.
pub proof fn lemma_record_find_no_match(s: Seq<SlotRecordEntry>, token_id: usize)
    requires
        forall|j: int| 0 <= j < s.len() ==> s[j].token_id != token_id,
    ensures
        record_find(s, token_id) is None,
    decreases s.len(),
{
    if s.len() > 0 {
        lemma_record_find_no_match(s.drop_first(), token_id);
    }
}

/// A lookup in a table of well-formed records yields a well-formed
/// record.
pub proof fn lemma_record_find_preserves_wf(s: Seq<SlotRecordEntry>, token_id: usize)
    requires
        forall|j: int| 0 <= j < s.len() ==> (#[trigger] s[j]).record.wf(),
    ensures
        match record_find(s, token_id) {
            Some(rec) => rec.wf(),
            None => true,
        },
    decreases s.len(),
{
    if s.len() > 0 && s[0].token_id != token_id {
        assert forall|j: int| 0 <= j < s.drop_first().len() implies (#[trigger] s.drop_first()[j]).record.wf() by {
            assert(s.drop_first()[j] == s[j + 1]);
        }
        lemma_record_find_preserves_wf(s.drop_first(), token_id);
    }
}

impl SlotRecordTable {
    /// The record of `token_id`, as a specification value.
    pub open spec fn spec_find(self, token_id: usize) -> Option<SlotRecord> {
        record_find(self.entries@, token_id)
    }

    /// Well-formedness: every record on file obeys the slot-record rule —
    /// a fully-populated record has an ordered range.
    pub open spec fn wf(self) -> bool {
        forall|j: int| 0 <= j < self.entries@.len() ==> (#[trigger] self.entries@[j]).record.wf()
    }

    /// An empty record table.
    pub fn new() -> (t: SlotRecordTable)
        ensures
            t.wf(),
            t.entries@.len() == 0,
            forall|id: usize| #[trigger] t.spec_find(id) is None,
    {
        let t = SlotRecordTable { entries: Vec::new() };
        proof {
            assert forall|id: usize| #[trigger] t.spec_find(id) is None by {
                lemma_record_find_no_match(t.entries@, id);
            }
        }
        t
    }

    /// The record of `token_id`, if any.
    pub fn get(&self, token_id: usize) -> (r: Option<SlotRecord>)
        ensures
            r == self.spec_find(token_id),
    {
        let n = self.entries.len();
        let mut i: usize = 0;
        while i < n
            invariant
                i <= n,
                n == self.entries@.len(),
                forall|j: int| 0 <= j < i ==> self.entries@[j].token_id != token_id,
            decreases n - i,
        {
            if self.entries[i].token_id == token_id {
                proof {
                    lemma_record_find_first_match(self.entries@, token_id, i as int);
                }
                return Some(self.entries[i].record);
            }
            i = i + 1;
        }
        proof {
            lemma_record_find_no_match(self.entries@, token_id);
        }
        None
    }
}

/// The listed ids with unpopulated (zero) positions skipped, in order.
pub open spec fn nonzero_ids(s: Seq<usize>) -> Seq<usize>
    decreases s.len(),
{
    if s.len() == 0 {
        Seq::empty()
    } else if s.last() != 0 {
        nonzero_ids(s.drop_last()).push(s.last())
    } else {
        nonzero_ids(s.drop_last())
    }
}

/// The ids a slot index lists for an account; an account with no entry
/// lists none.
pub open spec fn ids_view(t: AccountTable<Vec<usize>>, a: Account) -> Seq<usize> {
    match t.spec_find(a) {
        Some(v) => v@,
        None => Seq::empty(),
    }
}

impl AccountTable<Vec<usize>> {
    /// The ids listed for `a`, skipping unpopulated (zero) positions.
    pub fn nonzero_ids_of(&self, a: Account) -> (r: Vec<usize>)
        ensures
            r@ == nonzero_ids(ids_view(*self, a)),
    {
        let mut r: Vec<usize> = Vec::new();
        match self.index_of(a) {
            None => {
                r
            },
            Some(e) => {
                let n = self.entries[e].val.len();
                let mut i: usize = 0;
                while i < n
                    invariant
                        i <= n,
                        e < self.entries@.len(),
                        n == self.entries@[e as int].val@.len(),
                        ids_view(*self, a) == self.entries@[e as int].val@,
                        r@ == nonzero_ids(self.entries@[e as int].val@.subrange(0, i as int)),
                    decreases n - i,
                {
                    let id = self.entries[e].val[i];
                    proof {
                        let ids = self.entries@[e as int].val@;
                        assert(ids.subrange(0, i as int + 1).drop_last() =~= ids.subrange(
                            0,
                            i as int,
                        ));
                        assert(ids.subrange(0, i as int + 1).last() == ids[i as int]);
                    }
                    if id != 0 {
                        r.push(id);
                    }
                    i = i + 1;
                }
                proof {
                    assert(self.entries@[e as int].val@.subrange(0, n as int) =~= self.entries@[e
                        as int].val@);
                }
                r
            },
        }
    }

    /// The ids listed for `a`, zeros included.
    pub fn raw_ids_of(&self, a: Account) -> (r: Vec<usize>)
        ensures
            r@ == ids_view(*self, a),
    {
        let mut r: Vec<usize> = Vec::new();
        match self.index_of(a) {
            None => {
                proof {
                    assert(r@ =~= ids_view(*self, a));
                }
                r
            },
            Some(e) => {
                let n = self.entries[e].val.len();
                let mut i: usize = 0;
                while i < n
                    invariant
                        i <= n,
                        e < self.entries@.len(),
                        n == self.entries@[e as int].val@.len(),
                        ids_view(*self, a) == self.entries@[e as int].val@,
                        r@ == self.entries@[e as int].val@.subrange(0, i as int),
                    decreases n - i,
                {
                    let id = self.entries[e].val[i];
                    proof {
                        assert(self.entries@[e as int].val@.subrange(0, i as int + 1)
                            =~= self.entries@[e as int].val@.subrange(0, i as int).push(
                            self.entries@[e as int].val@[i as int],
                        ));
                    }
                    r.push(id);
                    i = i + 1;
                }
                proof {
                    assert(self.entries@[e as int].val@.subrange(0, n as int) =~= self.entries@[e
                        as int].val@);
                }
                r
            },
        }
    }
}

} // verus!
