//! The vote-marker ledger: at most one marker per (report, agent) pair.
//!
//! Double voting is prevented by a keyed create-once guard, not by scanning
//! prior votes: the ledger is modelled as a map from the composite key to the
//! marker, and inserting an existing key fails. Markers are immutable once
//! created and are never removed.

use vstd::prelude::*;
use crate::state::VoteRecord;

verus! {

/// The create-once key of a vote marker: the (report, agent) pair.
pub open spec fn vote_key(record: VoteRecord) -> (u64, u64) {
    (record.report, record.agent)
}

spec fn unique_keys(s: Seq<VoteRecord>) -> bool {
    forall|i: int, j: int| 0 <= i < j < s.len() ==> vote_key(s[i]) != vote_key(s[j])
}

spec fn map_of(s: Seq<VoteRecord>) -> Map<(u64, u64), VoteRecord>
    decreases s.len(),
{
    if s.len() == 0 {
        Map::empty()
    } else {
        map_of(s.drop_last()).insert(vote_key(s.last()), s.last())
    }
}

proof fn lemma_map_of_contains(s: Seq<VoteRecord>, k: (u64, u64))
    ensures
        map_of(s).contains_key(k) <==> exists|i: int| 0 <= i < s.len() && vote_key(s[i]) == k,
    decreases s.len(),
{
    if s.len() == 0 {
    } else {
        lemma_map_of_contains(s.drop_last(), k);
        if vote_key(s.last()) == k {
            assert(vote_key(s[s.len() - 1]) == k);
        } else {
            if map_of(s).contains_key(k) {
                let i = choose|i: int|
                    0 <= i < s.drop_last().len() && vote_key(s.drop_last()[i]) == k;
                assert(vote_key(s[i]) == k);
            }
            if exists|i: int| 0 <= i < s.len() && vote_key(s[i]) == k {
                let i = choose|i: int| 0 <= i < s.len() && vote_key(s[i]) == k;
                assert(s.drop_last()[i] == s[i]);
            }
        }
    }
}

proof fn lemma_map_of_index(s: Seq<VoteRecord>, i: int)
    requires
        unique_keys(s),
        0 <= i < s.len(),
    ensures
        map_of(s).contains_key(vote_key(s[i])),
        map_of(s)[vote_key(s[i])] == s[i],
    decreases s.len(),
{
    if i == s.len() - 1 {
    } else {
        assert forall|m: int, n: int| 0 <= m < n < s.drop_last().len() implies vote_key(
            s.drop_last()[m],
        ) != vote_key(s.drop_last()[n]) by {
            assert(s.drop_last()[m] == s[m]);
            assert(s.drop_last()[n] == s[n]);
        }
        lemma_map_of_index(s.drop_last(), i);
        assert(vote_key(s.last()) != vote_key(s[i]));
        assert(s.drop_last()[i] == s[i]);
    }
}

proof fn lemma_map_of_push(s: Seq<VoteRecord>, record: VoteRecord)
    ensures
        map_of(s.push(record)) == map_of(s).insert(vote_key(record), record),
{
    assert(s.push(record).drop_last() =~= s);
    assert(s.push(record).last() == record);
}

/// The ledger of vote markers, viewed as a map keyed by (report, agent).
pub struct VoteLedger {
    entries: Vec<VoteRecord>,
}

impl View for VoteLedger {
    type V = Map<(u64, u64), VoteRecord>;

    closed spec fn view(&self) -> Map<(u64, u64), VoteRecord> {
        map_of(self.entries@)
    }
}

impl VoteLedger {
    /// The ledger's invariant: no two markers share a (report, agent) key.
    pub closed spec fn wf(self) -> bool {
        unique_keys(self.entries@)
    }

    /// An empty ledger.
    pub fn new() -> (ledger: VoteLedger)
        ensures
            ledger.wf(),
            ledger@ == Map::<(u64, u64), VoteRecord>::empty(),
    {
        VoteLedger { entries: Vec::new() }
    }

    /// Whether an agent already holds a marker on a report.
    pub fn contains(&self, report: u64, agent: u64) -> (present: bool)
        ensures
            present == self@.contains_key((report, agent)),
    {
        let n = self.entries.len();
        let mut i: usize = 0;
        while i < n
            invariant
                n == self.entries.len(),
                i <= n,
                forall|j: int| 0 <= j < i ==> vote_key(self.entries@[j]) != (report, agent),
            decreases n - i,
        {
            let entry = &self.entries[i];
            if entry.report == report && entry.agent == agent {
                proof {
                    lemma_map_of_contains(self.entries@, (report, agent));
                    assert(vote_key(self.entries@[i as int]) == (report, agent));
                }
                return true;
            }
            i = i + 1;
        }
        proof {
            lemma_map_of_contains(self.entries@, (report, agent));
        }
        false
    }

    /// The marker an agent holds on a report, if any.
    pub fn get(&self, report: u64, agent: u64) -> (found: Option<&VoteRecord>)
        requires
            self.wf(),
        ensures
            match found {
                Some(record) => self@.contains_key((report, agent)) && *record == self@[
                    (report, agent)
                ],
                None => !self@.contains_key((report, agent)),
            },
    {
        let n = self.entries.len();
        let mut i: usize = 0;
        while i < n
            invariant
                self.wf(),
                n == self.entries.len(),
                i <= n,
                forall|j: int| 0 <= j < i ==> vote_key(self.entries@[j]) != (report, agent),
            decreases n - i,
        {
            let entry = &self.entries[i];
            if entry.report == report && entry.agent == agent {
                proof {
                    assert(vote_key(self.entries@[i as int]) == (report, agent));
                    lemma_map_of_index(self.entries@, i as int);
                }
                return Some(entry);
            }
            i = i + 1;
        }
        proof {
            lemma_map_of_contains(self.entries@, (report, agent));
        }
        None
    }

    /// Creates a marker unless its (report, agent) key already exists; the
    /// ledger is unchanged when the insertion is refused.
    pub fn try_insert(&mut self, record: VoteRecord) -> (inserted: bool)
        requires
            old(self).wf(),
        ensures
            final(self).wf(),
            inserted == !old(self)@.contains_key(vote_key(record)),
            inserted ==> final(self)@ == old(self)@.insert(vote_key(record), record),
            !inserted ==> *final(self) == *old(self),
    {
        if self.contains(record.report, record.agent) {
            false
        } else {
            proof {
                lemma_map_of_contains(self.entries@, vote_key(record));
                lemma_map_of_push(self.entries@, record);
                let ghost s = self.entries@;
                assert forall|i: int, j: int| 0 <= i < j < s.push(record).len() implies vote_key(
                    s.push(record)[i],
                ) != vote_key(s.push(record)[j]) by {
                    if j < s.len() {
                        assert(s.push(record)[i] == s[i]);
                        assert(s.push(record)[j] == s[j]);
                    } else {
                        assert(s.push(record)[i] == s[i]);
                        assert(s.push(record)[j] == record);
                        assert(vote_key(s[i]) != vote_key(record));
                    }
                }
            }
            self.entries.push(record);
            true
        }
    }
}

} // verus!
