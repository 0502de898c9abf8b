//! One guild's open skip vote: who has voted on which song, and what a press
//! of the skip button does with it.

use vstd::prelude::*;
use std::collections::HashSet;
use std::time::Instant;
use crate::clock::{elapsed_since, instant_now, whole_secs};
use crate::quorum::{quorum_spec, skip_quorum, SkipQuorum, VoteSkipBasis};

verus! {

broadcast use vstd::std_specs::hash::group_hash_axioms;

/// A vote lives this many seconds; after that it failed.
pub const SKIP_VOTE_TTL_SECS: u64 = 90;

/// An open vote to skip one queue item. Kept in memory only.
#[derive(Debug)]
pub struct SkipVoteState {
    item_id: String,
    voters: HashSet<u64>,
    opened: Instant,
}

/// Pressing the button toggles: a second press withdraws the vote.
pub open spec fn toggle_voter(voters: Set<u64>, user: u64) -> Set<u64> {
    if voters.contains(user) { voters.remove(user) } else { voters.insert(user) }
}

/// Whether a vote opened `secs` whole seconds ago has run out.
pub fn vote_window_over(secs: u64) -> (over: bool)
    ensures
        over == (secs >= SKIP_VOTE_TTL_SECS),
{
    secs >= SKIP_VOTE_TTL_SECS
}

impl SkipVoteState {
    pub closed spec fn item(&self) -> Seq<char> {
        self.item_id@
    }

    pub closed spec fn voter_set(&self) -> Set<u64> {
        self.voters@
    }

    /// The moment the vote was opened.
    pub closed spec fn opened_at(&self) -> Instant {
        self.opened
    }

    /// A fresh vote on `item_id`, with no voters yet, opened now.
    pub fn new(item_id: String) -> (s: Self)
        ensures
            s.item() == item_id@,
            s.voter_set() == Set::<u64>::empty(),
    {
        SkipVoteState { item_id, voters: HashSet::new(), opened: instant_now() }
    }

    /// The queue item this vote is about.
    pub fn item_id(&self) -> (r: &str)
        ensures
            r@ == self.item(),
    {
        self.item_id.as_str()
    }

    /// Who has voted.
    pub fn voters(&self) -> (r: &HashSet<u64>)
        ensures
            r@ == self.voter_set(),
    {
        &self.voters
    }

    /// When the vote was opened.
    pub fn opened(&self) -> (t: Instant)
        ensures
            t == self.opened_at(),
    {
        self.opened
    }

    /// Whether the vote is older than its lifetime. Reads the clock, so
    /// nothing is claimed of the answer; `vote_window_over` decides it.
    pub fn is_expired(&self) -> bool {
        let elapsed = elapsed_since(&self.opened);
        vote_window_over(whole_secs(&elapsed))
    }

    /// Presses the skip button for `user`: adds the vote, or withdraws it if
    /// it was there. Returns whether the user's vote is in afterwards.
    pub fn toggle(&mut self, user: u64) -> (mine: bool)
        ensures
            final(self).item() == old(self).item(),
            final(self).voter_set() == toggle_voter(old(self).voter_set(), user),
            mine == !old(self).voter_set().contains(user),
    {
        if self.voters.remove(&user) {
            false
        } else {
            self.voters.insert(user);
            true
        }
    }

    /// Withdraws `user`'s vote, if any.
    pub fn withdraw(&mut self, user: u64)
        ensures
            final(self).item() == old(self).item(),
            final(self).voter_set() == old(self).voter_set().remove(user),
    {
        self.voters.remove(&user);
    }
}

/// Pressing twice leaves the voters as they were.
pub proof fn law_toggle_twice_restores(voters: Set<u64>, user: u64)
    ensures
        toggle_voter(toggle_voter(voters, user), user) == voters,
{
    if voters.contains(user) {
        assert(voters.remove(user).insert(user) =~= voters);
    } else {
        assert(voters.insert(user).remove(user) =~= voters);
    }
}

/// What a skip press leads to.
#[derive(Debug, Clone, Copy, PartialEq, Eq)]
pub enum SkipDecision {
    /// Skip now. `by_votes` is the number of votes when a vote carried it.
    Immediate { by_votes: Option<usize> },
    /// The vote was counted and is still short; `mine` says whether the
    /// presser's vote is in.
    Pending { quorum: SkipQuorum, mine: bool },
}

/// Who skips without a vote: votes are off, nothing is playing, a manager or
/// the bot owner, the person who queued the song, or a room with nobody in it.
pub open spec fn skips_without_vote(
    enabled: bool,
    current_item: Option<Seq<char>>,
    requested_by: Option<u64>,
    is_manager: bool,
    user: u64,
    listeners: Set<u64>,
    viewers: Set<u64>,
) -> bool {
    ||| !enabled
    ||| current_item is None
    ||| is_manager
    ||| requested_by == Some(user)
    ||| (listeners.is_empty() && viewers.is_empty())
}

/// The voters a press starts from: the open vote's, if it is about the
/// current item and still fresh; nobody otherwise.
pub open spec fn carried_voters(slot: Option<SkipVoteState>, current: Seq<char>, expired: bool) -> Set<u64> {
    match slot {
        Some(v) => if v.item() == current && !expired { v.voter_set() } else { Set::empty() },
        None => Set::empty(),
    }
}

/// The decision and new vote slot for one press, given whether the open
/// vote has expired.
pub open spec fn press_result(
    before: Option<SkipVoteState>,
    after: Option<SkipVoteState>,
    d: SkipDecision,
    expired: bool,
    enabled: bool,
    current: Option<Seq<char>>,
    requested_by: Option<u64>,
    is_manager: bool,
    user: u64,
    listeners: Set<u64>,
    viewers: Set<u64>,
    basis: VoteSkipBasis,
    ratio: nat,
    min_votes: nat,
) -> bool {
    if skips_without_vote(enabled, current, requested_by, is_manager, user, listeners, viewers) {
        &&& d == SkipDecision::Immediate { by_votes: None }
        &&& after == before
    } else {
        let base = carried_voters(before, current->0, expired);
        let voters = toggle_voter(base, user);
        let q = quorum_spec(listeners, viewers, voters, basis, ratio, min_votes);
        if q.passed {
            &&& d == SkipDecision::Immediate { by_votes: Some(q.have) }
            &&& after is None
        } else {
            &&& d == SkipDecision::Pending { quorum: q, mine: !base.contains(user) }
            &&& after is Some
            &&& after->0.item() == current->0
            &&& after->0.voter_set() == voters
        }
    }
}

pub open spec fn opt_view(s: Option<&str>) -> Option<Seq<char>> {
    match s { Some(c) => Some(c@), None => None }
}

/// Decides a press of the skip button, given whether the guild's open vote
/// (in `slot`) has expired. A stale or expired vote is dropped first, the
/// press toggles the presser's vote, and a vote that reaches its quorum
/// skips and closes.
pub fn resolve_skip_at(
    slot: &mut Option<SkipVoteState>,
    expired: bool,
    enabled: bool,
    current_item: Option<&str>,
    requested_by: Option<u64>,
    is_manager: bool,
    user: u64,
    listeners: &HashSet<u64>,
    viewers: &HashSet<u64>,
    basis: VoteSkipBasis,
    ratio: u32,
    min_votes: u32,
) -> (d: SkipDecision)
    requires
        listeners@.len() <= u32::MAX,
        viewers@.len() <= u32::MAX,
    ensures
        press_result(*old(slot), *final(slot), d, expired, enabled, opt_view(current_item), requested_by,
            is_manager, user, listeners@, viewers@, basis, ratio as nat, min_votes as nat),
{
    if !enabled {
        return SkipDecision::Immediate { by_votes: None };
    }
    let current = match current_item {
        Some(c) => c,
        None => {
            return SkipDecision::Immediate { by_votes: None };
        }
    };
    if is_manager {
        return SkipDecision::Immediate { by_votes: None };
    }
    match requested_by {
        Some(r) => {
            if r == user {
                return SkipDecision::Immediate { by_votes: None };
            }
        }
        None => {}
    }
    if listeners.is_empty() && viewers.is_empty() {
        return SkipDecision::Immediate { by_votes: None };
    }
    let keep = match slot {
        Some(v) => !expired && crate::text::str_eq(v.item_id(), current),
        None => false,
    };
    let mut vote = if keep {
        slot.take().unwrap()
    } else {
        SkipVoteState::new(crate::text::owned(current))
    };
    let mine = vote.toggle(user);
    let q = skip_quorum(listeners, viewers, vote.voters(), basis, ratio, min_votes);
    if q.passed {
        *slot = None;
        SkipDecision::Immediate { by_votes: Some(q.have) }
    } else {
        *slot = Some(vote);
        SkipDecision::Pending { quorum: q, mine }
    }
}

/// Decides a press of the skip button, reading the clock for the open
/// vote's age. The outcome is `resolve_skip_at`'s for one of the two answers
/// the clock can give.
pub fn resolve_skip(
    slot: &mut Option<SkipVoteState>,
    enabled: bool,
    current_item: Option<&str>,
    requested_by: Option<u64>,
    is_manager: bool,
    user: u64,
    listeners: &HashSet<u64>,
    viewers: &HashSet<u64>,
    basis: VoteSkipBasis,
    ratio: u32,
    min_votes: u32,
) -> (d: SkipDecision)
    requires
        listeners@.len() <= u32::MAX,
        viewers@.len() <= u32::MAX,
    ensures
        press_result(*old(slot), *final(slot), d, false, enabled, opt_view(current_item), requested_by,
            is_manager, user, listeners@, viewers@, basis, ratio as nat, min_votes as nat)
        || press_result(*old(slot), *final(slot), d, true, enabled, opt_view(current_item), requested_by,
            is_manager, user, listeners@, viewers@, basis, ratio as nat, min_votes as nat),
{
    let expired = match slot {
        Some(v) => v.is_expired(),
        None => false,
    };
    resolve_skip_at(slot, expired, enabled, current_item, requested_by, is_manager, user,
        listeners, viewers, basis, ratio, min_votes)
}

/// An expired vote counts for nothing: given that the open vote has run out,
/// a press that goes to a vote starts from no voters, so the presser's vote
/// is the only one, whoever had voted before; and a vote on another song is
/// dropped the same way.
pub proof fn law_expired_vote_starts_over(
    before: Option<SkipVoteState>,
    after: Option<SkipVoteState>,
    d: SkipDecision,
    expired: bool,
    current: Seq<char>,
    requested_by: Option<u64>,
    user: u64,
    listeners: Set<u64>,
    viewers: Set<u64>,
    basis: VoteSkipBasis,
    ratio: nat,
    min_votes: nat,
)
    requires
        press_result(before, after, d, expired, true, Some(current), requested_by, false, user, listeners, viewers,
            basis, ratio, min_votes),
        requested_by != Some(user),
        !(listeners.is_empty() && viewers.is_empty()),
        expired || (before matches Some(v) && v.item() != current),
    ensures
        d == (if quorum_spec(listeners, viewers, set![user], basis, ratio, min_votes).passed {
            SkipDecision::Immediate { by_votes: Some(quorum_spec(listeners, viewers, set![user], basis, ratio, min_votes).have) }
        } else {
            SkipDecision::Pending { quorum: quorum_spec(listeners, viewers, set![user], basis, ratio, min_votes), mine: true }
        }),
        d is Pending ==> after is Some && after->0.item() == current && after->0.voter_set() == set![user],
{
    assert(carried_voters(before, current, expired) == Set::<u64>::empty());
    assert(toggle_voter(Set::<u64>::empty(), user) =~= set![user]);
}

/// Withdraws `user`'s vote from the guild's open vote; a vote left with
/// nobody closes.
pub fn skip_vote_cancel(slot: &mut Option<SkipVoteState>, user: u64)
    ensures
        match *old(slot) {
            None => *final(slot) is None,
            Some(v) => if v.voter_set().remove(user).is_empty() {
                *final(slot) is None
            } else {
                &&& *final(slot) is Some
                &&& (*final(slot))->0.item() == v.item()
                &&& (*final(slot))->0.voter_set() == v.voter_set().remove(user)
            },
        },
{
    match slot {
        Some(v) => {
            v.withdraw(user);
        }
        None => {}
    }
    let empty = match slot {
        Some(v) => v.voters().is_empty(),
        None => false,
    };
    if empty {
        *slot = None;
    }
}

} // verus!
