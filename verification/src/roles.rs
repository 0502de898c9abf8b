//! Per-permission role lists: which Discord roles a server assigned to each
//! permission key.

use vstd::prelude::*;
use crate::text::str_eq;

verus! {

/// Role lists keyed by permission key. A key is present once at most.
/// The lists sit in a vector rather than a `HashMap`: vstd gives hash maps
/// a key model for integer keys only, so a map keyed by text would prove
/// nothing about what a read returns.
#[derive(Debug)]
pub struct RuleRoles {
    entries: Vec<(String, Vec<u64>)>,
}

pub open spec fn key_at(e: Seq<(String, Vec<u64>)>, k: Seq<char>, i: int) -> bool {
    0 <= i < e.len() && e[i].0@ == k
}

impl View for RuleRoles {
    type V = Map<Seq<char>, Seq<u64>>;

    closed spec fn view(&self) -> Map<Seq<char>, Seq<u64>> {
        Map::new(
            |k: Seq<char>| exists|i: int| key_at(self.entries@, k, i),
            |k: Seq<char>| self.entries@[choose|i: int| key_at(self.entries@, k, i)].1@,
        )
    }
}

impl RuleRoles {
    #[verifier::type_invariant]
    spec fn keys_distinct(self) -> bool {
        forall|i: int, j: int|
            0 <= i < j < self.entries@.len() ==> #[trigger] self.entries@[i].0@ != #[trigger] self.entries@[j].0@
    }

    /// No lists.
    pub fn new() -> (r: Self)
        ensures
            r@ == Map::<Seq<char>, Seq<u64>>::empty(),
    {
        let r = RuleRoles { entries: Vec::new() };
        assert(r@ =~= Map::<Seq<char>, Seq<u64>>::empty());
        r
    }

    fn find(&self, key: &str) -> (r: Option<usize>)
        ensures
            match r {
                Some(i) => key_at(self.entries@, key@, i as int),
                None => forall|i: int| !key_at(self.entries@, key@, i),
            },
    {
        let mut i: usize = 0;
        while i < self.entries.len()
            invariant
                i <= self.entries.len(),
                forall|m: int| 0 <= m < i ==> !key_at(self.entries@, key@, m),
            decreases self.entries.len() - i,
        {
            if str_eq(self.entries[i].0.as_str(), key) {
                return Some(i);
            }
            i = i + 1;
        }
        None
    }

    /// The list stored for `key`, if the key is present (an empty list counts).
    pub fn get(&self, key: &str) -> (r: Option<&Vec<u64>>)
        ensures
            r is Some <==> self@.contains_key(key@),
            r is Some ==> r->0@ == self@[key@],
    {
        proof { use_type_invariant(self); }
        match self.find(key) {
            Some(i) => {
                proof {
                    let c = choose|j: int| key_at(self.entries@, key@, j);
                    if c != i as int {
                        if c < i { assert(self.entries@[c].0@ != self.entries@[i as int].0@); }
                        else { assert(self.entries@[i as int].0@ != self.entries@[c].0@); }
                    }
                }
                Some(&self.entries[i].1)
            }
            None => None,
        }
    }

    /// Stores `roles` as the list for `key`, replacing any list it had.
    pub fn insert(&mut self, key: String, roles: Vec<u64>)
        ensures
            final(self)@ == old(self)@.insert(key@, roles@),
    {
        proof { use_type_invariant(&*self); }
        let ghost old_entries = self.entries@;
        let ghost old_view = self@;
        let ghost k = key@;
        let ghost rv = roles@;
        let ghost mut pos: int = 0;
        match self.find(key.as_str()) {
            Some(i) => {
                let mut entries = Vec::new();
                std::mem::swap(&mut entries, &mut self.entries);
                entries.set(i, (key, roles));
                proof {
                    assert forall|a: int, b: int| 0 <= a < b < entries@.len()
                        implies #[trigger] entries@[a].0@ != #[trigger] entries@[b].0@ by {
                        if a != i as int && b != i as int {
                            assert(old_entries[a].0@ != old_entries[b].0@);
                        } else if a == i as int {
                            assert(old_entries[a].0@ != old_entries[b].0@);
                        } else {
                            assert(old_entries[a].0@ != old_entries[b].0@);
                        }
                    }
                }
                self.entries = entries;
                proof { pos = i as int; }
            }
            None => {
                let mut entries = Vec::new();
                std::mem::swap(&mut entries, &mut self.entries);
                entries.push((key, roles));
                proof {
                    assert forall|a: int, b: int| 0 <= a < b < entries@.len()
                        implies #[trigger] entries@[a].0@ != #[trigger] entries@[b].0@ by {
                        if b == old_entries.len() {
                            assert(!key_at(old_entries, k, a));
                        } else {
                            assert(old_entries[a].0@ != old_entries[b].0@);
                        }
                    }
                }
                self.entries = entries;
                proof { pos = old_entries.len() as int; }
            }
        }
        proof {
            let e = self.entries@;
            assert(key_at(e, k, pos) && e[pos].1@ == rv);
            assert forall|q: Seq<char>| #[trigger] self@.contains_key(q) == old_view.insert(k, rv).contains_key(q) by {
                if q == k {
                    assert(key_at(e, k, pos));
                } else {
                    if exists|j: int| key_at(e, q, j) {
                        let j = choose|j: int| key_at(e, q, j);
                        assert(key_at(old_entries, q, j));
                    }
                    if exists|j: int| key_at(old_entries, q, j) {
                        let j = choose|j: int| key_at(old_entries, q, j);
                        assert(key_at(e, q, j));
                    }
                }
            }
            assert forall|q: Seq<char>| self@.contains_key(q) implies #[trigger] self@[q] == old_view.insert(k, rv)[q] by {
                let c = choose|j: int| key_at(e, q, j);
                if q == k {
                    assert(e[c].1@ == rv) by {
                        let w = pos;
                        if c != w {
                            if c < w { assert(e[c].0@ != e[w].0@); } else { assert(e[w].0@ != e[c].0@); }
                        }
                    }
                } else {
                    let d = choose|j: int| key_at(old_entries, q, j);
                    assert(key_at(old_entries, q, c));
                    if c != d {
                        if c < d { assert(old_entries[c].0@ != old_entries[d].0@); }
                        else { assert(old_entries[d].0@ != old_entries[c].0@); }
                    }
                }
            }
            assert(self@ =~= old_view.insert(k, rv));
        }
    }
}

impl Default for RuleRoles {
    fn default() -> (r: Self)
        ensures
            r@ == Map::<Seq<char>, Seq<u64>>::empty(),
    {
        RuleRoles::new()
    }
}

/// A list stored for a key is what the key reads back afterwards, and storing
/// it leaves every other key's list as it was: `after` is `before` once
/// `insert(key, roles)` has run on it.
pub proof fn law_stored_list_reads_back(
    before: RuleRoles,
    after: RuleRoles,
    key: Seq<char>,
    roles: Seq<u64>,
    other: Seq<char>,
)
    requires
        after@ == before@.insert(key, roles),
        other != key,
    ensures
        after@.contains_key(key),
        after@[key] == roles,
        after@.contains_key(other) == before@.contains_key(other),
        before@.contains_key(other) ==> after@[other] == before@[other],
{
}

} // verus!
