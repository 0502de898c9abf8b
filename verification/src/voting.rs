//! Votes on songs from the remote: the checks before a vote counts, which
//! song it lands on, and the bookkeeping a changed vote needs.

use vstd::prelude::*;
use crate::access::{ctx_allows, require_denial, suspension_denial, unsuspended, AuthContext, Denial, SuspensionScope};
use crate::permissions::RemoteGuildSettings;
use crate::scoring::{parse_vote_kind, BoomttaAction, QueueScore, QueueVoteKind};
use crate::text::{decimal, push_decimal, push_str};
use crate::text::{owned, str_eq};

verus! {

/// A song a vote may land on: the queued ones, then the one playing.
#[derive(Debug, Clone)]
pub struct VoteTarget {
    pub item_id: String,
    pub requested_by: Option<u64>,
}

/// The vote kind a request names: none for nothing, `""` or `none`;
/// otherwise a kind, `None` inside when the name is unknown.
pub open spec fn requested_kind(kind: Option<Seq<char>>) -> Option<Option<QueueVoteKind>> {
    match kind {
        None => Some(None),
        Some(k) => if k == ""@ || k == "none"@ {
            Some(None)
        } else if k == "like"@ {
            Some(Some(QueueVoteKind::Like))
        } else if k == "superLike"@ || k == "superlike"@ {
            Some(Some(QueueVoteKind::SuperLike))
        } else if k == "dislike"@ {
            Some(Some(QueueVoteKind::Dislike))
        } else {
            None
        },
    }
}

/// The first song with `id`, if any.
pub open spec fn first_target(items: Seq<VoteTarget>, id: Seq<char>) -> Option<int> {
    if exists|i: int| 0 <= i < items.len() && items[i].item_id@ == id {
        Some(choose|i: int| 0 <= i < items.len() && items[i].item_id@ == id
            && forall|j: int| 0 <= j < i ==> items[j].item_id@ != id)
    } else {
        None
    }
}

/// The checks of a vote, in order: the vote permission, a queue suspension,
/// the rate limit, the song (queued or playing), not one's own song, a
/// known kind. Passing gives the song's place and the kind (none to take
/// the vote back).
pub open spec fn vote_gate_spec(
    ctx: &AuthContext,
    rate_limited: bool,
    items: Seq<VoteTarget>,
    item_id: Seq<char>,
    kind: Option<Seq<char>>,
    r: Result<(usize, Option<QueueVoteKind>), Denial>,
) -> bool {
    if !ctx_allows(ctx, "vote"@, ctx.settings.vote_rule) {
        r is Err && require_denial(ctx, "vote"@, ctx.settings.vote_rule, "투표할 권한이 없어요."@, r->Err_0)
    } else if !unsuspended(ctx, SuspensionScope::Queue) {
        r is Err && suspension_denial(ctx, SuspensionScope::Queue, r->Err_0)
    } else if rate_limited {
        r is Err && r->Err_0.status == 429 && r->Err_0.message@ == "투표 요청이 너무 빨라요. 잠깐만 쉬었다 해요."@
    } else if first_target(items, item_id) is None {
        r is Err && r->Err_0.status == 404 && r->Err_0.message@ == "그 곡을 찾지 못했어요."@
    } else if items[first_target(items, item_id)->0].requested_by == Some(ctx.session.user_id) {
        r is Err && r->Err_0.status == 403 && r->Err_0.message@ == "자기가 신청한 곡에는 투표할 수 없어요."@
    } else if requested_kind(kind) is None {
        r is Err && r->Err_0.status == 400 && r->Err_0.message@ == "투표 종류는 like · superLike · dislike 중 하나예요."@
    } else {
        r is Ok && r->Ok_0.0 == first_target(items, item_id)->0 && r->Ok_0.1 == requested_kind(kind)->0
    }
}

fn find_target(items: &Vec<VoteTarget>, id: &str) -> (r: Option<usize>)
    ensures
        match r {
            Some(i) => i < items@.len() && first_target(items@, id@) == Some(i as int),
            None => first_target(items@, id@) is None,
        },
{
    let mut i: usize = 0;
    while i < items.len()
        invariant
            i <= items.len(),
            forall|j: int| 0 <= j < i ==> items@[j].item_id@ != id@,
        decreases items.len() - i,
    {
        if str_eq(items[i].item_id.as_str(), id) {
            proof {
                let c = choose|k: int| 0 <= k < items@.len() && items@[k].item_id@ == id@
                    && forall|j: int| 0 <= j < k ==> items@[j].item_id@ != id@;
                if c < i as int {
                } else if c > i as int {
                    assert(items@[i as int].item_id@ == id@);
                }
            }
            return Some(i);
        }
        i = i + 1;
    }
    None
}

/// Runs a vote's checks (see `vote_gate_spec`): `items` are the queued
/// songs followed by the one playing.
pub fn vote_gate(
    ctx: &AuthContext,
    rate_limited: bool,
    items: &Vec<VoteTarget>,
    item_id: &str,
    kind: Option<&str>,
) -> (r: Result<(usize, Option<QueueVoteKind>), Denial>)
    ensures
        vote_gate_spec(ctx, rate_limited, items@, item_id@, match kind { Some(k) => Some(k@), None => None }, r),
{
    match ctx.require("vote", ctx.settings.vote_rule, "투표할 권한이 없어요.") {
        Ok(()) => {},
        Err(d) => { return Err(d); },
    }
    match ctx.require_not_suspended(SuspensionScope::Queue) {
        Ok(()) => {},
        Err(d) => { return Err(d); },
    }
    if rate_limited {
        return Err(Denial { status: 429, message: owned("투표 요청이 너무 빨라요. 잠깐만 쉬었다 해요.") });
    }
    let index = match find_target(items, item_id) {
        Some(i) => i,
        None => { return Err(Denial { status: 404, message: owned("그 곡을 찾지 못했어요.") }); },
    };
    match items[index].requested_by {
        Some(u) => if u == ctx.session.user_id {
            return Err(Denial { status: 403, message: owned("자기가 신청한 곡에는 투표할 수 없어요.") });
        },
        None => {},
    }
    let chosen = match kind {
        None => None,
        Some(k) => if str_eq(k, "") || str_eq(k, "none") {
            None
        } else {
            match parse_vote_kind(k) {
                Some(x) => Some(x),
                None => {
                    return Err(Denial { status: 400, message: owned("투표 종류는 like · superLike · dislike 중 하나예요.") });
                },
            }
        },
    };
    Ok((index, chosen))
}

/// What changing a vote from `previous` to `kind` needs besides storing it.
#[derive(Debug, Clone, Copy, PartialEq, Eq, Structural)]
pub struct VoteBookkeeping {
    /// A new super like: check the cooldown and daily limit first, and
    /// spend one once the vote is stored.
    pub spend_super_like: bool,
    /// A super like taken back or changed: give the use back.
    pub refund_super_like: bool,
    /// Statistics: the kind taken away and the kind given, when the vote changed.
    pub stat_removed: Option<QueueVoteKind>,
    pub stat_added: Option<QueueVoteKind>,
}

/// See `VoteBookkeeping`.
pub open spec fn bookkeeping_spec(previous: Option<QueueVoteKind>, kind: Option<QueueVoteKind>) -> VoteBookkeeping {
    let is_super = kind == Some(QueueVoteKind::SuperLike);
    let was_super = previous == Some(QueueVoteKind::SuperLike);
    VoteBookkeeping {
        spend_super_like: is_super && !was_super,
        refund_super_like: was_super && !is_super,
        stat_removed: if previous != kind { previous } else { None },
        stat_added: if previous != kind { kind } else { None },
    }
}

/// See `bookkeeping_spec`.
pub fn vote_bookkeeping(previous: Option<QueueVoteKind>, kind: Option<QueueVoteKind>) -> (b: VoteBookkeeping)
    ensures
        b == bookkeeping_spec(previous, kind),
{
    let is_super = kind == Some(QueueVoteKind::SuperLike);
    let was_super = previous == Some(QueueVoteKind::SuperLike);
    let changed = previous != kind;
    VoteBookkeeping {
        spend_super_like: is_super && !was_super,
        refund_super_like: was_super && !is_super,
        stat_removed: if changed { previous } else { None },
        stat_added: if changed { kind } else { None },
    }
}

/// The priority that sends a disliked song to the end of the queue.
pub const BOOMTTA_PRIORITY: i64 = -1_000_000;

/// A dislike vote sends a queued song down (or out) when this vote newly
/// added the dislike, the song has not been sent down already, and the
/// dislikes reached the server's threshold (see `boomtta_triggered`).
pub open spec fn boomtta_fires_spec(
    previous: Option<QueueVoteKind>,
    kind: Option<QueueVoteKind>,
    score: QueueScore,
    s: &RemoteGuildSettings,
) -> bool {
    &&& kind == Some(QueueVoteKind::Dislike) && previous != kind
    &&& !(score.manual_priority matches Some(p) && p < 0)
    &&& s.boomtta_enabled && s.boomtta_threshold > 0 && score.dislike_count >= s.boomtta_threshold
}

/// See `boomtta_fires_spec`.
pub fn boomtta_fires(previous: Option<QueueVoteKind>, kind: Option<QueueVoteKind>, score: &QueueScore,
    s: &RemoteGuildSettings) -> (r: bool)
    ensures
        r == boomtta_fires_spec(previous, kind, *score, s),
{
    let just_disliked = kind == Some(QueueVoteKind::Dislike) && previous != kind;
    let already = match score.manual_priority { Some(p) => p < 0, None => false };
    just_disliked && !already && score.boomtta_triggered(s)
}

/// The notice after a song was sent down: `<title> 이 싫어요 <n>개로 대기열에서
/// 빠졌어요` when removed, `... 대기열 맨 뒤로 갔어요` when moved to the end.
pub open spec fn boomtta_notice_spec(title: Seq<char>, dislikes: nat, action: BoomttaAction) -> Seq<char> {
    title + " 이 싫어요 "@ + decimal(dislikes) + "개로 대기열"@
        + (if action == BoomttaAction::Remove { "에서 빠졌어요"@ } else { " 맨 뒤로 갔어요"@ })
}

/// See `boomtta_notice_spec`.
pub fn boomtta_notice(title: &str, dislikes: u32, action: BoomttaAction) -> (m: String)
    ensures
        m@ == boomtta_notice_spec(title@, dislikes as nat, action),
{
    let mut m = owned(title);
    push_str(&mut m, " 이 싫어요 ");
    push_decimal(&mut m, dislikes as u64);
    push_str(&mut m, "개로 대기열");
    match action {
        BoomttaAction::Remove => push_str(&mut m, "에서 빠졌어요"),
        BoomttaAction::Bottom => push_str(&mut m, " 맨 뒤로 갔어요"),
    }
    m
}

/// Sending a song down happens once: a song already sent down, or a vote
/// that repeats the voter's dislike, never fires it again.
pub proof fn law_boomtta_fires_once(previous: Option<QueueVoteKind>, score: QueueScore, s: &RemoteGuildSettings)
    ensures
        (score.manual_priority matches Some(p) && p < 0) ==> !boomtta_fires_spec(previous, Some(QueueVoteKind::Dislike), score, s),
        !boomtta_fires_spec(Some(QueueVoteKind::Dislike), Some(QueueVoteKind::Dislike), score, s),
        !boomtta_fires_spec(previous, None, score, s),
{
}

/// Voting the same way twice needs no bookkeeping; a super like is spent
/// at most once and never both spent and given back.
pub proof fn law_repeated_vote_is_quiet(previous: Option<QueueVoteKind>, kind: Option<QueueVoteKind>)
    ensures
        bookkeeping_spec(kind, kind) == (VoteBookkeeping {
            spend_super_like: false, refund_super_like: false, stat_removed: None, stat_added: None,
        }),
        !(bookkeeping_spec(previous, kind).spend_super_like && bookkeeping_spec(previous, kind).refund_super_like),
{
}

/// 1 for a super like, 0 for anything else.
pub open spec fn super_count(k: Option<QueueVoteKind>) -> int {
    if k == Some(QueueVoteKind::SuperLike) { 1 } else { 0 }
}

/// The day's super-like uses follow the votes: a change spends one when it
/// gives a super like and refunds one when it takes a super like away
/// (withdrawing the vote included), so the uses counted always equal the
/// super likes standing; over two changes in a row likewise.
pub proof fn law_super_like_uses_follow_the_votes(
    first: Option<QueueVoteKind>,
    second: Option<QueueVoteKind>,
    third: Option<QueueVoteKind>,
)
    ensures
        (if bookkeeping_spec(first, second).spend_super_like { 1int } else { 0 })
            - (if bookkeeping_spec(first, second).refund_super_like { 1int } else { 0 })
            == super_count(second) - super_count(first),
        !(bookkeeping_spec(first, second).spend_super_like && bookkeeping_spec(first, second).refund_super_like),
        (if bookkeeping_spec(first, second).spend_super_like { 1int } else { 0 })
            - (if bookkeeping_spec(first, second).refund_super_like { 1int } else { 0 })
            + (if bookkeeping_spec(second, third).spend_super_like { 1int } else { 0 })
            - (if bookkeeping_spec(second, third).refund_super_like { 1int } else { 0 })
            == super_count(third) - super_count(first),
        first == Some(QueueVoteKind::SuperLike) && second != first ==> bookkeeping_spec(first, second).refund_super_like,
{
}

} // verus!
