//! Who has the remote open: open sockets per (guild, user), and the people
//! a guild's page is being viewed by.

use vstd::prelude::*;
use crate::sorting::{sort_u64, sorted_u64};

verus! {

broadcast use vstd::seq_lib::group_to_multiset_ensures;

/// Open remote sockets, counted per (guild, user). Only positive counts are kept.
/// The counts sit in a vector with distinct keys rather than a `HashMap`:
/// vstd gives hash maps a key model for integer keys only, not for pairs.
#[derive(Debug)]
pub struct PresenceRegistry {
    entries: Vec<((u64, u64), usize)>,
}

pub open spec fn slot_at(e: Seq<((u64, u64), usize)>, k: (u64, u64), i: int) -> bool {
    0 <= i < e.len() && e[i].0 == k
}

/// One more socket for `k`.
pub open spec fn opened(m: Map<(u64, u64), nat>, k: (u64, u64)) -> Map<(u64, u64), nat> {
    m.insert(k, if m.contains_key(k) { m[k] + 1 } else { 1 })
}

/// One socket fewer for `k`; the key goes when its last socket does.
pub open spec fn closed(m: Map<(u64, u64), nat>, k: (u64, u64)) -> Map<(u64, u64), nat> {
    if !m.contains_key(k) {
        m
    } else if m[k] <= 1 {
        m.remove(k)
    } else {
        m.insert(k, (m[k] - 1) as nat)
    }
}

/// The users viewing `guild`.
pub open spec fn viewer_set(m: Map<(u64, u64), nat>, guild: u64) -> Set<u64> {
    Set::new(|u: u64| m.contains_key((guild, u)))
}

impl View for PresenceRegistry {
    type V = Map<(u64, u64), nat>;

    closed spec fn view(&self) -> Map<(u64, u64), nat> {
        Map::new(
            |k: (u64, u64)| exists|i: int| slot_at(self.entries@, k, i),
            |k: (u64, u64)| self.entries@[choose|i: int| slot_at(self.entries@, k, i)].1 as nat,
        )
    }
}

impl PresenceRegistry {
    #[verifier::type_invariant]
    spec fn well_formed(self) -> bool {
        &&& forall|i: int, j: int|
            0 <= i < j < self.entries@.len() ==> #[trigger] self.entries@[i].0 != #[trigger] self.entries@[j].0
        &&& forall|i: int| 0 <= i < self.entries@.len() ==> #[trigger] self.entries@[i].1 > 0
    }

    proof fn lemma_view_at(&self, k: (u64, u64), i: int)
        requires
            self.well_formed(),
            slot_at(self.entries@, k, i),
        ensures
            self@.contains_key(k),
            self@[k] == self.entries@[i].1 as nat,
            self@[k] > 0,
    {
        let c = choose|j: int| slot_at(self.entries@, k, j);
        if c != i {
            if c < i { assert(self.entries@[c].0 != self.entries@[i].0); }
            else { assert(self.entries@[i].0 != self.entries@[c].0); }
        }
    }

    /// Nobody.
    pub fn new() -> (r: Self)
        ensures
            r@ == Map::<(u64, u64), nat>::empty(),
    {
        let r = PresenceRegistry { entries: Vec::new() };
        assert(r@ =~= Map::<(u64, u64), nat>::empty());
        r
    }

    fn find(&self, k: (u64, u64)) -> (r: Option<usize>)
        ensures
            match r {
                Some(i) => slot_at(self.entries@, k, i as int),
                None => forall|i: int| !slot_at(self.entries@, k, i),
            },
    {
        let mut i: usize = 0;
        while i < self.entries.len()
            invariant
                i <= self.entries.len(),
                forall|m: int| 0 <= m < i ==> !slot_at(self.entries@, k, m),
            decreases self.entries.len() - i,
        {
            if self.entries[i].0.0 == k.0 && self.entries[i].0.1 == k.1 {
                return Some(i);
            }
            i = i + 1;
        }
        None
    }

    /// Sockets `user` has open on `guild`.
    pub fn count(&self, guild: u64, user: u64) -> (n: usize)
        ensures
            n == (if self@.contains_key((guild, user)) { self@[(guild, user)] } else { 0 }),
    {
        proof { use_type_invariant(self); }
        match self.find((guild, user)) {
            Some(i) => {
                proof { self.lemma_view_at((guild, user), i as int); }
                self.entries[i].1
            }
            None => 0,
        }
    }

    /// Replaces the entries and checks the view that results.
    fn set_entries(&mut self, entries: Vec<((u64, u64), usize)>)
        requires
            forall|i: int, j: int| 0 <= i < j < entries@.len() ==> #[trigger] entries@[i].0 != #[trigger] entries@[j].0,
            forall|i: int| 0 <= i < entries@.len() ==> #[trigger] entries@[i].1 > 0,
        ensures
            final(self).entries@ == entries@,
    {
        self.entries = entries;
    }

    /// A socket of `user` on `guild` opened.
    pub fn add(&mut self, guild: u64, user: u64)
        requires
            old(self)@.contains_key((guild, user)) ==> old(self)@[(guild, user)] < usize::MAX,
        ensures
            final(self)@ == opened(old(self)@, (guild, user)),
    {
        proof { use_type_invariant(&*self); }
        let k = (guild, user);
        let ghost old_view = self@;
        let ghost old_entries = self.entries@;
        let mut entries: Vec<((u64, u64), usize)> = Vec::new();
        std::mem::swap(&mut entries, &mut self.entries);
        let ghost mut pos: int = 0;
        match self_find(&entries, k) {
            Some(i) => {
                proof { old_self_view_at(old_entries, old_view, k, i as int); }
                let c = entries[i].1;
                entries.set(i, (k, c + 1));
                proof { pos = i as int; }
            }
            None => {
                entries.push((k, 1));
                proof { pos = old_entries.len() as int; }
            }
        }
        proof {
            let e = entries@;
            assert forall|a: int, b: int| 0 <= a < b < e.len() implies #[trigger] e[a].0 != #[trigger] e[b].0 by {
                if b == old_entries.len() {
                    assert(!slot_at(old_entries, k, a));
                } else {
                    assert(old_entries[a].0 != old_entries[b].0);
                }
            }
        }
        self.set_entries(entries);
        proof {
            let e = self.entries@;
            let target = opened(old_view, k);
            assert(slot_at(e, k, pos));
            assert forall|q: (u64, u64)| #[trigger] self@.contains_key(q) == target.contains_key(q) by {
                if q != k {
                    if exists|j: int| slot_at(e, q, j) {
                        let j = choose|j: int| slot_at(e, q, j);
                        assert(slot_at(old_entries, q, j));
                    }
                    if exists|j: int| slot_at(old_entries, q, j) {
                        let j = choose|j: int| slot_at(old_entries, q, j);
                        assert(slot_at(e, q, j));
                    }
                }
            }
            assert forall|q: (u64, u64)| self@.contains_key(q) implies #[trigger] self@[q] == target[q] by {
                self.lemma_view_at(q, choose|j: int| slot_at(e, q, j));
                if q == k {
                    self.lemma_view_at(k, pos);
                } else {
                    let j = choose|j: int| slot_at(e, q, j);
                    assert(slot_at(old_entries, q, j));
                    old_self_view_at(old_entries, old_view, q, j);
                }
            }
            assert(self@ =~= target);
        }
    }

    /// A socket of `user` on `guild` closed. Returns whether it was the last one.
    pub fn remove(&mut self, guild: u64, user: u64) -> (gone: bool)
        ensures
            final(self)@ == closed(old(self)@, (guild, user)),
            gone == (old(self)@.contains_key((guild, user)) && old(self)@[(guild, user)] <= 1),
    {
        proof { use_type_invariant(&*self); }
        let k = (guild, user);
        let ghost old_view = self@;
        let ghost old_entries = self.entries@;
        let found = self.find(k);
        let i = match found {
            Some(i) => i,
            None => {
                proof {
                    assert(!old_view.contains_key(k));
                }
                return false;
            }
        };
        proof { self.lemma_view_at(k, i as int); }
        let mut entries: Vec<((u64, u64), usize)> = Vec::new();
        std::mem::swap(&mut entries, &mut self.entries);
        let c = entries[i].1;
        let gone = c <= 1;
        if gone {
            entries.remove(i);
            proof {
                let e = entries@;
                assert(e =~= old_entries.remove(i as int));
                assert forall|a: int, b: int| 0 <= a < b < e.len() implies #[trigger] e[a].0 != #[trigger] e[b].0 by {
                    let a0 = if a < i { a } else { a + 1 };
                    let b0 = if b < i { b } else { b + 1 };
                    assert(old_entries[a0].0 != old_entries[b0].0);
                }
                assert forall|a: int| 0 <= a < e.len() implies #[trigger] e[a].1 > 0 by {
                    let a0 = if a < i { a } else { a + 1 };
                    assert(old_entries[a0].1 > 0);
                }
            }
        } else {
            entries.set(i, (k, c - 1));
            proof {
                let e = entries@;
                assert forall|a: int, b: int| 0 <= a < b < e.len() implies #[trigger] e[a].0 != #[trigger] e[b].0 by {
                    assert(old_entries[a].0 != old_entries[b].0);
                }
            }
        }
        self.set_entries(entries);
        proof {
            let e = self.entries@;
            let target = closed(old_view, k);
            assert forall|q: (u64, u64)| #[trigger] self@.contains_key(q) == target.contains_key(q) by {
                if q != k {
                    if exists|j: int| slot_at(e, q, j) {
                        let j = choose|j: int| slot_at(e, q, j);
                        if gone { assert(slot_at(old_entries, q, if j < i { j } else { j + 1 })); }
                        else { assert(slot_at(old_entries, q, j)); }
                    }
                    if exists|j: int| slot_at(old_entries, q, j) {
                        let j = choose|j: int| slot_at(old_entries, q, j);
                        if gone { assert(slot_at(e, q, if j < i { j } else { j - 1 })); }
                        else { assert(slot_at(e, q, j)); }
                    }
                } else {
                    if gone {
                        if exists|j: int| slot_at(e, q, j) {
                            let j = choose|j: int| slot_at(e, q, j);
                            let j0 = if j < i { j } else { j + 1 };
                            assert(slot_at(old_entries, k, j0));
                            if j0 < i { assert(old_entries[j0].0 != old_entries[i as int].0); }
                            else { assert(old_entries[i as int].0 != old_entries[j0].0); }
                        }
                    } else {
                        assert(slot_at(e, k, i as int));
                    }
                }
            }
            assert forall|q: (u64, u64)| self@.contains_key(q) implies #[trigger] self@[q] == target[q] by {
                let j = choose|j: int| slot_at(e, q, j);
                self.lemma_view_at(q, j);
                if q == k {
                    self.lemma_view_at(k, i as int);
                } else {
                    let j0 = if gone && j >= i { j + 1 } else { j };
                    assert(slot_at(old_entries, q, j0));
                    old_self_view_at(old_entries, old_view, q, j0);
                }
            }
            assert(self@ =~= target);
        }
        gone
    }

    /// The users viewing `guild`, ascending, each once.
    pub fn viewers_of(&self, guild: u64) -> (out: Vec<u64>)
        ensures
            sorted_u64(out@),
            out@.no_duplicates(),
            out@.to_set() == viewer_set(self@, guild),
    {
        proof { use_type_invariant(self); }
        let mut users: Vec<u64> = Vec::new();
        let mut i: usize = 0;
        while i < self.entries.len()
            invariant
                i <= self.entries.len(),
                forall|a: int, b: int|
                    0 <= a < b < self.entries@.len() ==> #[trigger] self.entries@[a].0 != #[trigger] self.entries@[b].0,
                users@.no_duplicates(),
                forall|u: u64| users@.contains(u) <==> exists|j: int| 0 <= j < i && #[trigger] slot_at(self.entries@, (guild, u), j),
            decreases self.entries.len() - i,
        {
            let (key, _) = self.entries[i];
            if key.0 == guild {
                proof {
                    assert(!users@.contains(key.1)) by {
                        if users@.contains(key.1) {
                            let j = choose|j: int| 0 <= j < i && slot_at(self.entries@, (guild, key.1), j);
                            assert(self.entries@[j].0 != self.entries@[i as int].0);
                        }
                    }
                }
                let ghost old_users = users@;
                users.push(key.1);
                proof {
                    assert forall|u: u64| users@.contains(u) <==> exists|j: int| 0 <= j < i + 1 && #[trigger] slot_at(self.entries@, (guild, u), j) by {
                        assert(users@ == old_users.push(key.1));
                        if u == key.1 {
                            assert(slot_at(self.entries@, (guild, u), i as int));
                            assert(users@[users@.len() - 1] == u);
                        } else {
                            assert(users@.contains(u) == old_users.contains(u)) by {
                                if users@.contains(u) {
                                    let m = choose|m: int| 0 <= m < users@.len() && users@[m] == u;
                                    assert(old_users[m] == u);
                                }
                                if old_users.contains(u) {
                                    let m = choose|m: int| 0 <= m < old_users.len() && old_users[m] == u;
                                    assert(users@[m] == u);
                                }
                            }
                            if exists|j: int| 0 <= j < i + 1 && #[trigger] slot_at(self.entries@, (guild, u), j) {
                                let j = choose|j: int| 0 <= j < i + 1 && #[trigger] slot_at(self.entries@, (guild, u), j);
                                assert(j != i);
                                assert(0 <= j < i && slot_at(self.entries@, (guild, u), j));
                            }
                        }
                    }
                }
            } else {
                proof {
                    assert forall|u: u64| users@.contains(u) <==> exists|j: int| 0 <= j < i + 1 && #[trigger] slot_at(self.entries@, (guild, u), j) by {
                        if exists|j: int| 0 <= j < i + 1 && #[trigger] slot_at(self.entries@, (guild, u), j) {
                            let j = choose|j: int| 0 <= j < i + 1 && #[trigger] slot_at(self.entries@, (guild, u), j);
                            assert(j != i);
                        }
                    }
                }
            }
            i = i + 1;
        }
        let out = sort_u64(&users);
        proof {
            users@.lemma_multiset_has_no_duplicates();
            out@.lemma_multiset_has_no_duplicates_conv();
            assert forall|u: u64| #[trigger] out@.to_set().contains(u) == viewer_set(self@, guild).contains(u) by {
                assert(out@.to_set().contains(u) == out@.contains(u));
                assert(users@.to_multiset().contains(u) == users@.contains(u));
                if users@.contains(u) {
                    let j = choose|j: int| 0 <= j < i && slot_at(self.entries@, (guild, u), j);
                    self.lemma_view_at((guild, u), j);
                }
                if self@.contains_key((guild, u)) {
                    let j = choose|j: int| slot_at(self.entries@, (guild, u), j);
                    assert(0 <= j < i && slot_at(self.entries@, (guild, u), j));
                }
            }
            assert(out@.to_set() =~= viewer_set(self@, guild));
        }
        out
    }

    /// How many users are viewing `guild`.
    pub fn viewer_count(&self, guild: u64) -> (n: usize)
        ensures
            n == viewer_set(self@, guild).len(),
    {
        let viewers = self.viewers_of(guild);
        proof {
            viewers@.unique_seq_to_set();
        }
        viewers.len()
    }
}

fn self_find(entries: &Vec<((u64, u64), usize)>, k: (u64, u64)) -> (r: Option<usize>)
    ensures
        match r {
            Some(i) => slot_at(entries@, k, i as int),
            None => forall|i: int| !slot_at(entries@, k, i),
        },
{
    let mut i: usize = 0;
    while i < entries.len()
        invariant
            i <= entries.len(),
            forall|m: int| 0 <= m < i ==> !slot_at(entries@, k, m),
        decreases entries.len() - i,
    {
        if entries[i].0.0 == k.0 && entries[i].0.1 == k.1 {
            return Some(i);
        }
        i = i + 1;
    }
    None
}

/// The view read off a well-formed entry list at a known position.
proof fn old_self_view_at(e: Seq<((u64, u64), usize)>, view: Map<(u64, u64), nat>, k: (u64, u64), i: int)
    requires
        forall|a: int, b: int| 0 <= a < b < e.len() ==> #[trigger] e[a].0 != #[trigger] e[b].0,
        view == Map::new(
            |k: (u64, u64)| exists|i: int| slot_at(e, k, i),
            |k: (u64, u64)| e[choose|i: int| slot_at(e, k, i)].1 as nat,
        ),
        slot_at(e, k, i),
    ensures
        view.contains_key(k),
        view[k] == e[i].1 as nat,
{
    let c = choose|j: int| slot_at(e, k, j);
    if c != i {
        if c < i { assert(e[c].0 != e[i].0); } else { assert(e[i].0 != e[c].0); }
    }
}

/// Opening and then closing a socket leaves the registry as it was.
pub proof fn law_open_then_close_restores(m: Map<(u64, u64), nat>, k: (u64, u64))
    requires
        forall|q: (u64, u64)| m.contains_key(q) ==> m[q] > 0,
    ensures
        closed(opened(m, k), k) == m,
{
    if m.contains_key(k) {
        assert(closed(opened(m, k), k) =~= m);
    } else {
        assert(closed(opened(m, k), k) =~= m);
    }
}

/// Closing a socket never makes anyone new appear, and opening one makes the
/// user a viewer of that guild.
pub proof fn law_viewers_follow_sockets(m: Map<(u64, u64), nat>, guild: u64, user: u64)
    ensures
        viewer_set(opened(m, (guild, user)), guild) == viewer_set(m, guild).insert(user),
        viewer_set(closed(m, (guild, user)), guild).subset_of(viewer_set(m, guild)),
{
    assert(viewer_set(opened(m, (guild, user)), guild) =~= viewer_set(m, guild).insert(user));
}

} // verus!
