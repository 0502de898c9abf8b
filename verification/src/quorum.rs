//! Vote-to-skip arithmetic: how many votes a population needs, and whether the
//! votes cast so far carry the skip under the server's chosen basis.

use vstd::prelude::*;
use std::collections::HashSet;
use vstd::std_specs::iter::IteratorSpec;

verus! {

broadcast use vstd::std_specs::hash::group_hash_axioms;

/// Whose votes decide a skip.
#[derive(Debug, Clone, Copy, PartialEq, Eq, Structural)]
pub enum VoteSkipBasis {
    /// People in the bot's voice channel.
    Listeners,
    /// People with the remote open.
    Viewers,
    /// Either group reaching its quorum is enough.
    Either,
    /// Both groups must reach their quorum.
    Both,
}

/// `ceil(pop * ratio / 100)`, at least `min`, never more than `pop`; zero for nobody.
pub open spec fn votes_needed_spec(pop: nat, ratio: nat, min: nat) -> nat {
    if pop == 0 {
        0
    } else {
        let by_ratio = ((pop * ratio + 99) / 100) as nat;
        let wanted = if by_ratio < min { min } else { by_ratio };
        if wanted < pop { wanted } else { pop }
    }
}

impl VoteSkipBasis {
    /// The stored / wire name.
    pub fn as_str(self) -> (s: &'static str)
        ensures
            s@ == basis_key(self),
    {
        match self {
            VoteSkipBasis::Listeners => "listeners",
            VoteSkipBasis::Viewers => "viewers",
            VoteSkipBasis::Either => "either",
            VoteSkipBasis::Both => "both",
        }
    }

    /// Reads a stored / wire name.
    pub fn parse(value: &str) -> (r: Option<VoteSkipBasis>)
        ensures
            r == parse_basis_spec(value@),
    {
        proof {
            reveal_strlit("listeners");
            reveal_strlit("viewers");
            reveal_strlit("either");
            reveal_strlit("both");
        }
        if crate::text::str_eq(value, "listeners") {
            Some(VoteSkipBasis::Listeners)
        } else if crate::text::str_eq(value, "viewers") {
            Some(VoteSkipBasis::Viewers)
        } else if crate::text::str_eq(value, "either") {
            Some(VoteSkipBasis::Either)
        } else if crate::text::str_eq(value, "both") {
            Some(VoteSkipBasis::Both)
        } else {
            None
        }
    }

    /// The sentence the skip button's tooltip uses for this basis.
    pub fn description(self) -> (s: &'static str)
        ensures
            s@ == basis_description(self),
    {
        match self {
            VoteSkipBasis::Listeners => "봇과 같은 음성 채널에서 듣는 사람 기준",
            VoteSkipBasis::Viewers => "리모컨을 보고 있는 사람 기준",
            VoteSkipBasis::Either => "듣는 사람이나 보는 사람 중 한쪽만 넘어도 통과",
            VoteSkipBasis::Both => "듣는 사람과 보는 사람 모두 넘어야 통과",
        }
    }

    /// Votes needed out of `population` people: `ratio` percent rounded up,
    /// at least `min_votes`, capped at the population; zero when nobody is there.
    pub fn votes_needed(population: u32, ratio: u32, min_votes: u32) -> (n: u32)
        ensures
            n == votes_needed_spec(population as nat, ratio as nat, min_votes as nat),
            n <= population,
    {
        if population == 0 {
            return 0;
        }
        proof {
            assert((population as int) * (ratio as int) <= 0xffff_ffff * 0xffff_ffff) by (nonlinear_arith)
                requires population <= 0xffff_ffff, ratio <= 0xffff_ffff;
        }
        let product: u64 = (population as u64) * (ratio as u64);
        let by_ratio: u64 = (product + 99) / 100;
        let wanted: u64 = if by_ratio < min_votes as u64 { min_votes as u64 } else { by_ratio };
        if wanted < population as u64 {
            wanted as u32
        } else {
            population
        }
    }
}

pub open spec fn basis_key(b: VoteSkipBasis) -> Seq<char> {
    match b {
        VoteSkipBasis::Listeners => "listeners"@,
        VoteSkipBasis::Viewers => "viewers"@,
        VoteSkipBasis::Either => "either"@,
        VoteSkipBasis::Both => "both"@,
    }
}

pub open spec fn basis_description(b: VoteSkipBasis) -> Seq<char> {
    match b {
        VoteSkipBasis::Listeners => "봇과 같은 음성 채널에서 듣는 사람 기준"@,
        VoteSkipBasis::Viewers => "리모컨을 보고 있는 사람 기준"@,
        VoteSkipBasis::Either => "듣는 사람이나 보는 사람 중 한쪽만 넘어도 통과"@,
        VoteSkipBasis::Both => "듣는 사람과 보는 사람 모두 넘어야 통과"@,
    }
}

pub open spec fn parse_basis_spec(s: Seq<char>) -> Option<VoteSkipBasis> {
    if s == "listeners"@ {
        Some(VoteSkipBasis::Listeners)
    } else if s == "viewers"@ {
        Some(VoteSkipBasis::Viewers)
    } else if s == "either"@ {
        Some(VoteSkipBasis::Either)
    } else if s == "both"@ {
        Some(VoteSkipBasis::Both)
    } else {
        None
    }
}

/// The state of a skip vote as the screen shows it.
#[derive(Debug, Clone, Copy, PartialEq, Eq, Structural)]
pub struct SkipQuorum {
    /// Votes that count under the basis shown.
    pub have: usize,
    /// Votes needed under the basis shown.
    pub need: usize,
    /// Size of the group shown (not `need`).
    pub pool: usize,
    pub passed: bool,
}

/// Saturating difference.
pub open spec fn shortfall(need: nat, have: nat) -> nat {
    if have >= need { 0 } else { (need - have) as nat }
}

/// The quorum `skip_quorum` reports, over the three groups' contents.
/// `Either` shows the group closer to passing, `Both` the one further away;
/// an empty group counts as satisfied for `Both`.
pub open spec fn quorum_spec(
    listeners: Set<u64>,
    viewers: Set<u64>,
    voters: Set<u64>,
    basis: VoteSkipBasis,
    ratio: nat,
    min: nat,
) -> SkipQuorum {
    let hl = voters.intersect(listeners).len();
    let hv = voters.intersect(viewers).len();
    let nl = votes_needed_spec(listeners.len(), ratio, min);
    let nv = votes_needed_spec(viewers.len(), ratio, min);
    let pl = listeners.len();
    let pv = viewers.len();
    let listeners_ok = pl == 0 || hl >= nl;
    let viewers_ok = pv == 0 || hv >= nv;
    match basis {
        VoteSkipBasis::Listeners => SkipQuorum {
            have: hl as usize, need: nl as usize, pool: pl as usize, passed: nl > 0 && hl >= nl },
        VoteSkipBasis::Viewers => SkipQuorum {
            have: hv as usize, need: nv as usize, pool: pv as usize, passed: nv > 0 && hv >= nv },
        VoteSkipBasis::Either => {
            let take_l = nl > 0 && (nv == 0 || shortfall(nl, hl) <= shortfall(nv, hv));
            SkipQuorum {
                have: (if take_l { hl } else { hv }) as usize,
                need: (if take_l { nl } else { nv }) as usize,
                pool: (if take_l { pl } else { pv }) as usize,
                passed: (nl > 0 && hl >= nl) || (nv > 0 && hv >= nv),
            }
        },
        VoteSkipBasis::Both => {
            let take_l = shortfall(nl, hl) >= shortfall(nv, hv);
            SkipQuorum {
                have: (if take_l { hl } else { hv }) as usize,
                need: (if take_l { nl } else { nv }) as usize,
                pool: (if take_l { pl } else { pv }) as usize,
                passed: listeners_ok && viewers_ok && (nl > 0 || nv > 0),
            }
        },
    }
}

/// The votes needed never exceed the population, and anyone present with a
/// non-zero ratio or minimum needs at least one vote; so a lone listener can
/// always skip alone.
pub proof fn law_votes_needed_within_population(pop: nat, ratio: nat, min: nat)
    ensures
        votes_needed_spec(pop, ratio, min) <= pop,
        pop == 0 ==> votes_needed_spec(pop, ratio, min) == 0,
        pop > 0 && (ratio > 0 || min > 0) ==> votes_needed_spec(pop, ratio, min) >= 1,
        pop == 1 && (ratio > 0 || min > 0) ==> votes_needed_spec(pop, ratio, min) == 1,
{
    if pop > 0 && ratio > 0 {
        assert(pop * ratio >= 1) by (nonlinear_arith)
            requires pop > 0, ratio > 0;
        assert((pop * ratio + 99) / 100 >= 1);
    }
}

/// An empty room (nobody listening, nobody watching) never passes by vote,
/// whatever the basis and whoever voted.
pub proof fn law_empty_room_never_passes(voters: Set<u64>, basis: VoteSkipBasis, ratio: nat, min: nat)
    ensures
        !quorum_spec(Set::empty(), Set::empty(), voters, basis, ratio, min).passed,
{
}

/// When every listener has voted (and there is at least one, with a non-zero
/// ratio or minimum), the listener basis passes.
pub proof fn law_full_turnout_passes(
    listeners: Set<u64>,
    viewers: Set<u64>,
    voters: Set<u64>,
    ratio: nat,
    min: nat,
)
    requires
        listeners.finite(),
        listeners.len() > 0,
        listeners.subset_of(voters),
        ratio > 0 || min > 0,
    ensures
        quorum_spec(listeners, viewers, voters, VoteSkipBasis::Listeners, ratio, min).passed,
{
    assert(voters.intersect(listeners) =~= listeners);
    law_votes_needed_within_population(listeners.len(), ratio, min);
}

/// Under the listener basis only listeners' votes count: two vote sets that
/// agree on the listeners give the same result.
pub proof fn law_only_listener_votes_count(
    listeners: Set<u64>,
    viewers: Set<u64>,
    voters1: Set<u64>,
    voters2: Set<u64>,
    ratio: nat,
    min: nat,
)
    requires
        voters1.intersect(listeners) == voters2.intersect(listeners),
    ensures
        quorum_spec(listeners, viewers, voters1, VoteSkipBasis::Listeners, ratio, min)
            == quorum_spec(listeners, viewers, voters2, VoteSkipBasis::Listeners, ratio, min),
{
}

/// `Both` is stricter than `Either`; `Either` passes exactly when one of the
/// single-group bases passes; a passing single-group vote has at least one
/// vote and no more votes needed than people in the group.
pub proof fn law_bases_are_ordered(
    listeners: Set<u64>,
    viewers: Set<u64>,
    voters: Set<u64>,
    ratio: nat,
    min: nat,
)
    requires
        listeners.finite(),
        listeners.len() <= usize::MAX,
        viewers.len() <= usize::MAX,
    ensures
        quorum_spec(listeners, viewers, voters, VoteSkipBasis::Both, ratio, min).passed
            ==> quorum_spec(listeners, viewers, voters, VoteSkipBasis::Either, ratio, min).passed,
        quorum_spec(listeners, viewers, voters, VoteSkipBasis::Either, ratio, min).passed
            == (quorum_spec(listeners, viewers, voters, VoteSkipBasis::Listeners, ratio, min).passed
            || quorum_spec(listeners, viewers, voters, VoteSkipBasis::Viewers, ratio, min).passed),
        quorum_spec(listeners, viewers, voters, VoteSkipBasis::Listeners, ratio, min).passed ==> {
            let q = quorum_spec(listeners, viewers, voters, VoteSkipBasis::Listeners, ratio, min);
            0 < q.need <= q.have && q.need <= listeners.len()
        },
{
    law_votes_needed_within_population(listeners.len(), ratio, min);
    law_votes_needed_within_population(viewers.len(), ratio, min);
    vstd::set_lib::lemma_len_intersect(listeners, voters);
    assert(voters.intersect(listeners) =~= listeners.intersect(voters));
}

/// Under `Both`, an empty group counts as met: with nobody watching it
/// passes exactly when the listener basis does, and with nobody listening
/// exactly when the viewer basis does.
pub proof fn law_empty_group_counts_as_met(
    listeners: Set<u64>,
    viewers: Set<u64>,
    voters: Set<u64>,
    ratio: nat,
    min: nat,
)
    requires
        listeners.finite(),
        viewers.finite(),
        listeners.len() <= u32::MAX,
        viewers.len() <= u32::MAX,
    ensures
        viewers.len() == 0 ==> quorum_spec(listeners, viewers, voters, VoteSkipBasis::Both, ratio, min).passed
            == quorum_spec(listeners, viewers, voters, VoteSkipBasis::Listeners, ratio, min).passed,
        listeners.len() == 0 ==> quorum_spec(listeners, viewers, voters, VoteSkipBasis::Both, ratio, min).passed
            == quorum_spec(listeners, viewers, voters, VoteSkipBasis::Viewers, ratio, min).passed,
{
    law_votes_needed_within_population(listeners.len(), ratio, min);
    law_votes_needed_within_population(viewers.len(), ratio, min);
}

/// What the screen is shown: the votes in, the votes needed and the group
/// size of the listeners or the viewers. `Listeners` and `Viewers` show
/// their own group; `Either` shows the listeners when they need votes and
/// are no further from passing than the viewers (or the viewers need none),
/// else the viewers; `Both` shows the listeners when they are at least as far
/// from passing, else the viewers.
pub proof fn law_quorum_reports_the_group_shown(
    listeners: Set<u64>,
    viewers: Set<u64>,
    voters: Set<u64>,
    basis: VoteSkipBasis,
    ratio: nat,
    min: nat,
)
    requires
        listeners.finite(),
        viewers.finite(),
        listeners.len() <= u32::MAX,
        viewers.len() <= u32::MAX,
    ensures
        ({
            let q = quorum_spec(listeners, viewers, voters, basis, ratio, min);
            let hl = voters.intersect(listeners).len();
            let hv = voters.intersect(viewers).len();
            let nl = votes_needed_spec(listeners.len(), ratio, min);
            let nv = votes_needed_spec(viewers.len(), ratio, min);
            let l = (hl, nl, listeners.len());
            let v = (hv, nv, viewers.len());
            let shown = (q.have as nat, q.need as nat, q.pool as nat);
            &&& basis == VoteSkipBasis::Listeners ==> shown == l
            &&& basis == VoteSkipBasis::Viewers ==> shown == v
            &&& basis == VoteSkipBasis::Either ==>
                shown == (if nl > 0 && (nv == 0 || shortfall(nl, hl) <= shortfall(nv, hv)) { l } else { v })
            &&& basis == VoteSkipBasis::Both ==>
                shown == (if shortfall(nl, hl) >= shortfall(nv, hv) { l } else { v })
        }),
{
    law_votes_needed_within_population(listeners.len(), ratio, min);
    law_votes_needed_within_population(viewers.len(), ratio, min);
    vstd::set_lib::lemma_len_intersect(listeners, voters);
    vstd::set_lib::lemma_len_intersect(viewers, voters);
    assert(voters.intersect(listeners) =~= listeners.intersect(voters));
    assert(voters.intersect(viewers) =~= viewers.intersect(voters));
    let hl = voters.intersect(listeners).len();
    let hv = voters.intersect(viewers).len();
    assert(hl <= listeners.len());
    assert(hv <= viewers.len());
    assert(hl as usize as nat == hl);
    assert(hv as usize as nat == hv);
}

/// How many members `a` and `b` have in common.
pub fn count_common(a: &HashSet<u64>, b: &HashSet<u64>) -> (n: usize)
    ensures
        n == a@.intersect(b@).len(),
{
    let mut n: usize = 0;
    let ghost mut seen: Seq<u64> = Seq::empty();
    proof {
        assert(seen.to_set() =~= Set::empty());
        assert(seen.to_set().intersect(b@) =~= Set::empty());
    }
    let total = a.len();
    let ghost keys = vstd::std_specs::hash::spec_hash_keys_iter(a).remaining().unref();
    for x in it: a.iter()
        invariant
            it.seq().unref() == keys,
            keys.len() == a@.len(),
            a@.len() == total,
            it.seq().unref().to_set() == a@,
            it.seq().unref().no_duplicates(),
            seen == it.seq().unref().take(it.index() as int),
            n == seen.to_set().intersect(b@).len(),
            n <= seen.len(),
    {
        let ghost all = it.seq().unref();
        proof {
            assert(all[seen.len() as int] == *x);
            assert(!seen.contains(*x)) by {
                if seen.contains(*x) {
                    let k = choose|k: int| 0 <= k < seen.len() && seen[k] == *x;
                    assert(all[k] == all[seen.len() as int]);
                }
            }
            vstd::seq_lib::seq_to_set_is_finite(seen);
            seen.lemma_push_to_set_commute(*x);
        }
        if b.contains(x) {
            proof {
                assert(seen.push(*x).to_set().intersect(b@) =~= seen.to_set().intersect(b@).insert(*x));
                assert(!seen.to_set().intersect(b@).contains(*x));
            }
            n = n + 1;
        } else {
            proof {
                assert(seen.push(*x).to_set().intersect(b@) =~= seen.to_set().intersect(b@));
            }
        }
        proof {
            assert(all.take(it.index() + 1) =~= seen.push(*x));
            seen = seen.push(*x);
        }
    }
    proof {
        assert(seen =~= keys);
    }
    n
}

/// Decides a skip vote. `have`/`need`/`pool` are what the screen prints;
/// `passed` is whether the song goes now.
pub fn skip_quorum(
    listeners: &HashSet<u64>,
    viewers: &HashSet<u64>,
    voters: &HashSet<u64>,
    basis: VoteSkipBasis,
    ratio: u32,
    min_votes: u32,
) -> (q: SkipQuorum)
    requires
        listeners@.len() <= u32::MAX,
        viewers@.len() <= u32::MAX,
    ensures
        q == quorum_spec(listeners@, viewers@, voters@, basis, ratio as nat, min_votes as nat),
{
    let have_listeners = count_common(voters, listeners);
    let have_viewers = count_common(voters, viewers);
    let pool_listeners = listeners.len();
    let pool_viewers = viewers.len();
    let need_listeners = VoteSkipBasis::votes_needed(pool_listeners as u32, ratio, min_votes) as usize;
    let need_viewers = VoteSkipBasis::votes_needed(pool_viewers as u32, ratio, min_votes) as usize;
    let listeners_ok = pool_listeners == 0 || have_listeners >= need_listeners;
    let viewers_ok = pool_viewers == 0 || have_viewers >= need_viewers;
    let left = if have_listeners >= need_listeners { 0 } else { need_listeners - have_listeners };
    let right = if have_viewers >= need_viewers { 0 } else { need_viewers - have_viewers };
    match basis {
        VoteSkipBasis::Listeners => SkipQuorum {
            have: have_listeners,
            need: need_listeners,
            pool: pool_listeners,
            passed: need_listeners > 0 && have_listeners >= need_listeners,
        },
        VoteSkipBasis::Viewers => SkipQuorum {
            have: have_viewers,
            need: need_viewers,
            pool: pool_viewers,
            passed: need_viewers > 0 && have_viewers >= need_viewers,
        },
        VoteSkipBasis::Either => {
            let take_listeners = need_listeners > 0 && (need_viewers == 0 || left <= right);
            SkipQuorum {
                have: if take_listeners { have_listeners } else { have_viewers },
                need: if take_listeners { need_listeners } else { need_viewers },
                pool: if take_listeners { pool_listeners } else { pool_viewers },
                passed: (need_listeners > 0 && have_listeners >= need_listeners)
                    || (need_viewers > 0 && have_viewers >= need_viewers),
            }
        },
        VoteSkipBasis::Both => {
            let take_listeners = left >= right;
            SkipQuorum {
                have: if take_listeners { have_listeners } else { have_viewers },
                need: if take_listeners { need_listeners } else { need_viewers },
                pool: if take_listeners { pool_listeners } else { pool_viewers },
                passed: listeners_ok && viewers_ok && (need_listeners > 0 || need_viewers > 0),
            }
        },
    }
}

} // verus!
