//! Suspending a member from the remote: who may be suspended by whom, for
//! how long, and why.

use vstd::prelude::*;
use crate::access::{AuthContext, Denial, SuspensionScope};
use crate::audience::{tier_of_member, tier_of_member_spec, GuildSnapshot};
use crate::auth::{tier_rank, AccessTier};
use crate::text::{chars_of, owned, parse_u64, parse_u64_spec, string_of, trim_chars, trim_seq};

verus! {

/// The longest timed suspension, in minutes (a year).
pub const MAX_SUSPENSION_MINUTES: i64 = 525_600;

/// A suspension to store.
#[derive(Debug)]
pub struct SuspensionPlan {
    pub target: u64,
    pub scope: SuspensionScope,
    /// Minutes until it ends; `None` for no end.
    pub minutes: Option<i64>,
    /// The reason, trimmed; `None` when blank.
    pub reason: Option<String>,
}

pub open spec fn scope_named(v: Seq<char>) -> Option<SuspensionScope> {
    if v == "all"@ { Some(SuspensionScope::All) }
    else if v == "chat"@ { Some(SuspensionScope::Chat) }
    else if v == "queue"@ { Some(SuspensionScope::Queue) }
    else { None }
}

/// The checks of a suspension, in order: managers only; a numeric target;
/// a known scope; not oneself; a manager (or the bot's owner) only by the
/// bot's owner; never the bot's owner. The target's tier is read from the
/// server snapshot as `tier_of_member` does.
pub open spec fn suspension_refusal(
    ctx: &AuthContext,
    owner_ids: Seq<u64>,
    snapshot: Option<&GuildSnapshot>,
    user_id: Seq<char>,
    scope: Seq<char>,
) -> Option<(u16, Seq<char>)> {
    if tier_rank(ctx.tier) < 2 {
        Some((403u16, "서버 관리자만 할 수 있어요."@))
    } else if parse_u64_spec(trim_seq(user_id)) is None {
        Some((400u16, "대상 사용자 ID가 올바르지 않아요."@))
    } else if scope_named(scope) is None {
        Some((400u16, "정지 범위는 all / chat / queue 중 하나여야 해요."@))
    } else {
        let target = parse_u64_spec(trim_seq(user_id))->0;
        let tier = tier_of_member_spec(owner_ids, snapshot, target, &ctx.settings);
        if target == ctx.session.user_id {
            Some((400u16, "자기 자신은 정지할 수 없어요."@))
        } else if tier_rank(tier) >= 2 && ctx.tier != AccessTier::Owner {
            Some((403u16, "관리자와 봇 주인은 봇 주인만 정지할 수 있어요."@))
        } else if tier == AccessTier::Owner {
            Some((403u16, "봇 주인은 정지할 수 없어요."@))
        } else {
            None
        }
    }
}

/// The bot's owners are never suspended, and a manager is suspended only
/// by an owner.
pub proof fn law_rank_protects(
    ctx: &AuthContext,
    owner_ids: Seq<u64>,
    snapshot: Option<&GuildSnapshot>,
    user_id: Seq<char>,
    scope: Seq<char>,
)
    requires
        parse_u64_spec(trim_seq(user_id)) is Some,
    ensures
        owner_ids.contains(parse_u64_spec(trim_seq(user_id))->0) ==> suspension_refusal(ctx, owner_ids, snapshot, user_id, scope) is Some,
        tier_rank(tier_of_member_spec(owner_ids, snapshot, parse_u64_spec(trim_seq(user_id))->0, &ctx.settings)) >= 2
            && ctx.tier != AccessTier::Owner ==> suspension_refusal(ctx, owner_ids, snapshot, user_id, scope) is Some,
{
}

/// Decides a suspension (see `suspension_refusal`): a positive duration is
/// capped at a year, none or zero means no end; a blank reason is none.
pub fn plan_suspension(
    ctx: &AuthContext,
    owner_ids: &Vec<u64>,
    snapshot: Option<&GuildSnapshot>,
    user_id: &str,
    scope: &str,
    minutes: Option<i64>,
    reason: Option<&str>,
) -> (r: Result<SuspensionPlan, Denial>)
    requires
        snapshot is Some ==> forall|i: int, j: int|
            0 <= i < j < snapshot->0.members@.len() ==> (#[trigger] snapshot->0.members@[i]).user_id != (#[trigger] snapshot->0.members@[j]).user_id,
    ensures
        match r {
            Err(d) => suspension_refusal(ctx, owner_ids@, snapshot, user_id@, scope@) == Some((d.status, d.message@)),
            Ok(p) => {
                &&& suspension_refusal(ctx, owner_ids@, snapshot, user_id@, scope@) is None
                &&& Some(p.target) == parse_u64_spec(trim_seq(user_id@))
                &&& Some(p.scope) == scope_named(scope@)
                &&& p.minutes == match minutes {
                    Some(m) => if m > 0 { Some(if m < MAX_SUSPENSION_MINUTES { m } else { MAX_SUSPENSION_MINUTES }) } else { None },
                    None => None,
                }
                &&& match reason {
                    Some(t) => if trim_seq(t@).len() > 0 { p.reason is Some && p.reason->0@ == trim_seq(t@) } else { p.reason is None },
                    None => p.reason is None,
                }
            },
        },
{
    if !ctx.tier.is_manager() {
        return Err(Denial { status: 403, message: owned("서버 관리자만 할 수 있어요.") });
    }
    let target = match parse_u64(&trim_chars(&chars_of(user_id))) {
        Some(t) => t,
        None => { return Err(Denial { status: 400, message: owned("대상 사용자 ID가 올바르지 않아요.") }); },
    };
    let parsed_scope = match SuspensionScope::parse(scope) {
        Some(s) => s,
        None => { return Err(Denial { status: 400, message: owned("정지 범위는 all / chat / queue 중 하나여야 해요.") }); },
    };
    if target == ctx.session.user_id {
        return Err(Denial { status: 400, message: owned("자기 자신은 정지할 수 없어요.") });
    }
    let tier = tier_of_member(owner_ids, snapshot, target, &ctx.settings);
    if tier.is_manager() && !ctx.tier.is_owner() {
        return Err(Denial { status: 403, message: owned("관리자와 봇 주인은 봇 주인만 정지할 수 있어요.") });
    }
    if tier.is_owner() {
        return Err(Denial { status: 403, message: owned("봇 주인은 정지할 수 없어요.") });
    }
    let minutes = match minutes {
        Some(m) => if m > 0 { Some(if m < MAX_SUSPENSION_MINUTES { m } else { MAX_SUSPENSION_MINUTES }) } else { None },
        None => None,
    };
    let reason = match reason {
        Some(t) => {
            let v = trim_chars(&chars_of(t));
            if v.len() > 0 { Some(string_of(&v)) } else { None }
        },
        None => None,
    };
    Ok(SuspensionPlan { target, scope: parsed_scope, minutes, reason })
}

} // verus!
