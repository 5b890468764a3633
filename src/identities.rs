use vstd::prelude::*;
use crate::record::{AccountId, AccountView, AttributeRecord, RecordView};

verus! {

/// The abstract value of the identity mapping: account to record.
pub type IdentitiesView = Map<AccountView, RecordView>;

/// The mapping from accounts to their records. Each account has at most one
/// entry; the order of the entries carries no meaning.
pub struct Identities {
    entries: Vec<(AccountId, AttributeRecord)>,
}

/// The mapping that a sequence of entries with distinct accounts stands for.
pub open spec fn entries_map(s: Seq<(AccountId, AttributeRecord)>) -> IdentitiesView
    decreases s.len(),
{
    if s.len() == 0 {
        Map::empty()
    } else {
        entries_map(s.drop_last()).insert(s.last().0@, s.last().1@)
    }
}

/// Accounts of a sequence of entries are pairwise distinct.
pub open spec fn keys_distinct(s: Seq<(AccountId, AttributeRecord)>) -> bool {
    forall|i: int, j: int|
        0 <= i < s.len() && 0 <= j < s.len() && i != j ==> #[trigger] s[i].0@ != #[trigger] s[j].0@
}

proof fn lemma_entries_map_domain(s: Seq<(AccountId, AttributeRecord)>, k: AccountView)
    ensures
        entries_map(s).contains_key(k) <==> exists|i: int| 0 <= i < s.len() && #[trigger] s[i].0@ == k,
    decreases s.len(),
{
    if s.len() > 0 {
        lemma_entries_map_domain(s.drop_last(), k);
        let t = s.drop_last();
        if entries_map(t).contains_key(k) {
            let i = choose|i: int| 0 <= i < t.len() && #[trigger] t[i].0@ == k;
            assert(s[i].0@ == k);
        }
        if exists|i: int| 0 <= i < s.len() && #[trigger] s[i].0@ == k {
            let i = choose|i: int| 0 <= i < s.len() && #[trigger] s[i].0@ == k;
            if i < s.len() - 1 {
                assert(t[i].0@ == k);
            }
        }
    }
}

proof fn lemma_entries_map_at(s: Seq<(AccountId, AttributeRecord)>, i: int)
    requires
        keys_distinct(s),
        0 <= i < s.len(),
    ensures
        entries_map(s).contains_key(s[i].0@),
        entries_map(s)[s[i].0@] == s[i].1@,
    decreases s.len(),
{
    let t = s.drop_last();
    if i < s.len() - 1 {
        assert(keys_distinct(t)) by {
            assert forall|a: int, b: int|
                0 <= a < t.len() && 0 <= b < t.len() && a != b implies #[trigger] t[a].0@
                != #[trigger] t[b].0@ by {
                assert(t[a] == s[a] && t[b] == s[b]);
            }
        }
        lemma_entries_map_at(t, i);
        assert(t[i] == s[i]);
        assert(s[i].0@ != s[s.len() - 1].0@);
    }
}

proof fn lemma_entries_map_update(s: Seq<(AccountId, AttributeRecord)>, i: int, e: (AccountId, AttributeRecord))
    requires
        keys_distinct(s),
        0 <= i < s.len(),
        e.0@ == s[i].0@,
    ensures
        keys_distinct(s.update(i, e)),
        entries_map(s.update(i, e)) == entries_map(s).insert(e.0@, e.1@),
{
    let u = s.update(i, e);
    assert(keys_distinct(u)) by {
        assert forall|a: int, b: int|
            0 <= a < u.len() && 0 <= b < u.len() && a != b implies #[trigger] u[a].0@
            != #[trigger] u[b].0@ by {
            assert(s[a].0@ != s[b].0@);
        }
    }
    assert forall|k: AccountView| #[trigger] entries_map(u).contains_key(k) <==> entries_map(s).insert(e.0@, e.1@).contains_key(k) by {
        lemma_entries_map_domain(u, k);
        lemma_entries_map_domain(s, k);
        if exists|j: int| 0 <= j < s.len() && #[trigger] s[j].0@ == k {
            let j = choose|j: int| 0 <= j < s.len() && #[trigger] s[j].0@ == k;
            assert(u[j].0@ == k);
        }
        if exists|j: int| 0 <= j < u.len() && #[trigger] u[j].0@ == k {
            let j = choose|j: int| 0 <= j < u.len() && #[trigger] u[j].0@ == k;
            assert(s[j].0@ == k);
        }
        assert(u[i].0@ == e.0@);
    }
    assert forall|k: AccountView| #[trigger] entries_map(u).contains_key(k) implies entries_map(u)[k] == entries_map(s).insert(e.0@, e.1@)[k] by {
        lemma_entries_map_domain(u, k);
        let j = choose|j: int| 0 <= j < u.len() && #[trigger] u[j].0@ == k;
        lemma_entries_map_at(u, j);
        if j != i {
            lemma_entries_map_at(s, j);
        }
    }
    assert(entries_map(u) =~= entries_map(s).insert(e.0@, e.1@));
}

impl View for Identities {
    type V = IdentitiesView;

    closed spec fn view(&self) -> IdentitiesView {
        entries_map(self.entries@)
    }
}

impl Identities {
    /// Each account has at most one entry.
    pub closed spec fn wf(&self) -> bool {
        keys_distinct(self.entries@)
    }

    /// An empty mapping.
    pub fn new() -> (r: Identities)
        ensures
            r.wf(),
            r@ == IdentitiesView::empty(),
    {
        Identities { entries: Vec::new() }
    }

    /// The position of the entry for `user`, if there is one.
    fn position(&self, user: &AccountId) -> (r: Option<usize>)
        requires
            self.wf(),
        ensures
            r is None <==> !self@.contains_key(user@),
            r matches Some(i) ==> i < self.entries@.len() && self.entries@[i as int].0@ == user@,
    {
        let mut i: usize = 0;
        while i < self.entries.len()
            invariant
                i <= self.entries@.len(),
                keys_distinct(self.entries@),
                forall|j: int| 0 <= j < i ==> #[trigger] self.entries@[j].0@ != user@,
            decreases self.entries@.len() - i,
        {
            if self.entries[i].0.same_as(user) {
                proof {
                    lemma_entries_map_at(self.entries@, i as int);
                }
                return Some(i);
            }
            i = i + 1;
        }
        proof {
            lemma_entries_map_domain(self.entries@, user@);
        }
        None
    }

    /// Whether `user` has an entry.
    pub fn contains(&self, user: &AccountId) -> (r: bool)
        requires
            self.wf(),
        ensures
            r == self@.contains_key(user@),
    {
        self.position(user).is_some()
    }

    /// A copy of the record of `user`, if there is one.
    pub fn get(&self, user: &AccountId) -> (r: Option<AttributeRecord>)
        requires
            self.wf(),
        ensures
            r is None <==> !self@.contains_key(user@),
            r matches Some(rec) ==> rec@ == self@[user@],
    {
        match self.position(user) {
            Some(i) => {
                proof {
                    lemma_entries_map_at(self.entries@, i as int);
                }
                Some(self.entries[i].1.duplicate())
            },
            None => None,
        }
    }

    /// The entries, one per account, in no particular order.
    pub fn into_entries(self) -> (r: Vec<(AccountId, AttributeRecord)>)
        requires
            self.wf(),
        ensures
            keys_distinct(r@),
            entries_map(r@) == self@,
    {
        self.entries
    }

    /// Gives `user` the record `rec`, replacing any record it had.
    pub fn set(&mut self, user: AccountId, rec: AttributeRecord)
        requires
            old(self).wf(),
        ensures
            final(self).wf(),
            final(self)@ == old(self)@.insert(user@, rec@),
    {
        match self.position(&user) {
            Some(i) => {
                proof {
                    lemma_entries_map_update(self.entries@, i as int, (user, rec));
                }
                self.entries.set(i, (user, rec));
            },
            None => {
                let ghost s = self.entries@;
                proof {
                    lemma_entries_map_domain(s, user@);
                }
                self.entries.push((user, rec));
                assert(self.entries@.drop_last() == s);
                assert(keys_distinct(self.entries@)) by {
                    let u = self.entries@;
                    assert forall|a: int, b: int|
                        0 <= a < u.len() && 0 <= b < u.len() && a != b implies #[trigger] u[a].0@
                        != #[trigger] u[b].0@ by {
                        if a < s.len() && b < s.len() {
                            assert(u[a] == s[a] && u[b] == s[b]);
                        } else if a < s.len() {
                            assert(u[a] == s[a]);
                        } else {
                            assert(u[b] == s[b]);
                        }
                    }
                }
            },
        }
    }
}

} // verus!
