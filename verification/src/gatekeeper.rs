//! The order in which a request is let in: session, CSRF, membership, the
//! bot's presence, server approval; then the member's tier.

use vstd::prelude::*;
use crate::access::Denial;
use crate::auth::{tier_rank, AccessTier, OAuthGuild, ADMINISTRATOR_PERMISSION, MANAGE_GUILD_PERMISSION};
use crate::permissions::{contains_u64, manager_roles_spec, MemberContext, RemoteGuildSettings};
use crate::text::{chars_of, owned, parse_u64, parse_u64_spec};

verus! {

/// What is known about a request before its tier is decided.
#[derive(Debug, Clone)]
pub struct RequestFacts {
    pub has_session: bool,
    /// `None` for reads; for changes, whether the CSRF token matched.
    pub csrf_ok: Option<bool>,
    /// The server is in the session's guild list (after one refresh).
    pub guild_found: bool,
    pub is_developer: bool,
    pub bot_in_guild: bool,
    pub is_bot_owner: bool,
    /// Whether the server is approved for use, and the sentence if it is not.
    pub approval_usable: bool,
    pub approval_reason: String,
}

/// The first check a request fails, with its status and sentence; `None`
/// when it passes them all. The bot owner and local test sessions skip the
/// approval check; test sessions also skip the bot-presence check.
pub open spec fn gate_spec(f: RequestFacts) -> Option<(u16, Seq<char>)> {
    if !f.has_session {
        Some((401, "Discord 로그인이 필요해요."@))
    } else if f.csrf_ok == Some(false) {
        Some((403, "CSRF 검증에 실패했어요."@))
    } else if !f.guild_found {
        Some((403, "이 서버의 멤버가 아니에요. 방금 들어오셨다면 잠시 뒤에 새로고침해 주세요."@))
    } else if !f.is_developer && !f.bot_in_guild {
        Some((403, "봇이 이 Discord 서버에 없어요."@))
    } else if !f.is_developer && !f.is_bot_owner && !f.approval_usable {
        Some((403, f.approval_reason@))
    } else {
        None
    }
}

/// Runs the checks in order (see `gate_spec`).
pub fn gate_request(f: &RequestFacts) -> (r: Result<(), Denial>)
    ensures
        match r {
            Ok(()) => gate_spec(*f) is None,
            Err(d) => gate_spec(*f) == Some((d.status, d.message@)),
        },
{
    if !f.has_session {
        return Err(Denial { status: 401, message: owned("Discord 로그인이 필요해요.") });
    }
    match f.csrf_ok {
        Some(false) => { return Err(Denial { status: 403, message: owned("CSRF 검증에 실패했어요.") }); }
        _ => {}
    }
    if !f.guild_found {
        return Err(Denial {
            status: 403,
            message: owned("이 서버의 멤버가 아니에요. 방금 들어오셨다면 잠시 뒤에 새로고침해 주세요."),
        });
    }
    if !f.is_developer && !f.bot_in_guild {
        return Err(Denial { status: 403, message: owned("봇이 이 Discord 서버에 없어요.") });
    }
    if !f.is_developer && !f.is_bot_owner && !f.approval_usable {
        return Err(Denial { status: 403, message: owned(f.approval_reason.as_str()) });
    }
    Ok(())
}

/// What the member-role lookup came to, after falling back to remembered roles.
#[derive(Debug, Clone)]
pub enum RoleLookup {
    /// The member's roles (fresh or remembered).
    Found(Vec<u64>),
    /// Discord says the user left or was removed.
    NotInGuild,
    /// Neither Discord nor memory could tell.
    Unknown,
}

/// What asking Discord for the member's roles came to.
#[derive(Debug)]
pub enum MemberFetch {
    /// The member's role ids, as Discord writes them.
    Roles(Vec<String>),
    /// Discord refused with this status.
    Status(u16),
    /// No usable answer (no connection, or an answer that could not be read).
    Unreachable,
}

/// The ids among Discord's role texts; texts that are not numbers are skipped.
pub open spec fn role_texts(ts: Seq<String>) -> Seq<u64>
    decreases ts.len(),
{
    if ts.len() == 0 {
        Seq::empty()
    } else {
        let rest = role_texts(ts.drop_last());
        match parse_u64_spec(ts.last()@) { Some(id) => rest.push(id), None => rest }
    }
}

/// The member's roles after a lookup: read from the answer; not a member
/// when Discord answers 404 or 403; otherwise (a passing failure) the
/// roles remembered from before, and unknown when none are.
pub open spec fn role_lookup_spec(fetch: MemberFetch, remembered: Option<Seq<u64>>) -> (bool, bool, Seq<u64>) {
    match fetch {
        MemberFetch::Roles(ts) => (true, false, role_texts(ts@)),
        MemberFetch::Status(code) => if code == 404 || code == 403 {
            (false, true, Seq::empty())
        } else {
            match remembered { Some(r) => (true, false, r), None => (false, false, Seq::empty()) }
        },
        MemberFetch::Unreachable => match remembered { Some(r) => (true, false, r), None => (false, false, Seq::empty()) },
    }
}

/// See `role_lookup_spec`: the result is `Found`, `NotInGuild` or `Unknown`
/// as the first two parts of the spec say, with `Found`'s roles the third.
pub fn role_lookup(fetch: MemberFetch, remembered: Option<Vec<u64>>) -> (r: RoleLookup)
    ensures
        ({
            let (found, gone, roles) = role_lookup_spec(fetch, match remembered { Some(v) => Some(v@), None => None });
            &&& (r is Found) == found
            &&& (r is NotInGuild) == gone
            &&& found ==> lookup_roles(r) == roles
        }),
{
    match fetch {
        MemberFetch::Roles(ts) => {
            let mut ids: Vec<u64> = Vec::new();
            let mut i: usize = 0;
            while i < ts.len()
                invariant
                    i <= ts.len(),
                    ids@ == role_texts(ts@.subrange(0, i as int)),
                decreases ts.len() - i,
            {
                proof { assert(ts@.subrange(0, i + 1).drop_last() =~= ts@.subrange(0, i as int)); }
                match parse_u64(&chars_of(ts[i].as_str())) {
                    Some(id) => { ids.push(id); },
                    None => {},
                }
                i = i + 1;
            }
            proof { assert(ts@.subrange(0, ts@.len() as int) =~= ts@); }
            RoleLookup::Found(ids)
        },
        MemberFetch::Status(code) => if code == 404 || code == 403 {
            RoleLookup::NotInGuild
        } else {
            match remembered { Some(r) => RoleLookup::Found(r), None => RoleLookup::Unknown }
        },
        MemberFetch::Unreachable => match remembered { Some(r) => RoleLookup::Found(r), None => RoleLookup::Unknown },
    }
}

/// How long remembered member roles stay usable when Discord cannot be asked (6 hours).
pub const MEMBER_CACHE_GRACE_SECS: u64 = 21600;

/// The whole hours of that grace, at least one: how far back stored roles
/// may be read from disk.
pub fn member_grace_hours() -> (h: u64)
    ensures
        h == (if MEMBER_CACHE_GRACE_SECS / 3600 >= 1 { MEMBER_CACHE_GRACE_SECS / 3600 } else { 1 }),
{
    let h = MEMBER_CACHE_GRACE_SECS / 3600;
    if h >= 1 { h } else { 1 }
}

/// Roles kept in memory, seen `seen_secs_ago` seconds ago, while they are
/// still within the grace; `None` once they are older (then the stored copy
/// is asked). An empty list that is still fresh stays `Some`: it means "no
/// roles", not "unknown".
pub fn fresh_memory_roles(seen_secs_ago: u64, roles: Vec<u64>) -> (r: Option<Vec<u64>>)
    ensures
        seen_secs_ago < MEMBER_CACHE_GRACE_SECS ==> r == Some(roles),
        seen_secs_ago >= MEMBER_CACHE_GRACE_SECS ==> r is None,
{
    if seen_secs_ago < MEMBER_CACHE_GRACE_SECS { Some(roles) } else { None }
}

/// A member's tier and what the permission checks read.
#[derive(Debug)]
pub struct TierDecision {
    pub tier: AccessTier,
    pub member: MemberContext,
    pub viewer_reason: Option<String>,
    pub roles_known: bool,
}

pub open spec fn guild_admin(g: &OAuthGuild) -> bool {
    g.owner || g.permissions & ADMINISTRATOR_PERMISSION != 0 || g.permissions & MANAGE_GUILD_PERMISSION != 0
}

pub open spec fn lookup_roles(l: RoleLookup) -> Seq<u64> {
    match l { RoleLookup::Found(r) => r@, _ => Seq::empty() }
}

/// The tier before suspensions: test sessions are managers (owners if the
/// user owns the bot); someone who left is a viewer unless they own the bot;
/// otherwise owner, manager (server admin or a manager role) or member.
pub open spec fn base_tier(
    is_developer: bool,
    is_bot_owner: bool,
    g: &OAuthGuild,
    s: &RemoteGuildSettings,
    lookup: RoleLookup,
) -> AccessTier {
    if is_developer {
        if is_bot_owner { AccessTier::Owner } else { AccessTier::Manager }
    } else if lookup is NotInGuild && !is_bot_owner {
        AccessTier::Viewer
    } else if is_bot_owner {
        AccessTier::Owner
    } else if guild_admin(g) || (exists|r: u64| lookup_roles(lookup).contains(r) && manager_roles_spec(s).contains(r)) {
        AccessTier::Manager
    } else {
        AccessTier::Member
    }
}

pub open spec fn tier_reason(is_developer: bool, is_bot_owner: bool, lookup: RoleLookup, all_suspended: bool) -> Option<Seq<char>> {
    if all_suspended {
        Some("전체 정지 중이라 읽기 전용이에요."@)
    } else if !is_developer && lookup is NotInGuild && !is_bot_owner {
        Some("이 서버에서 나갔거나 추방돼서 읽기 전용이에요."@)
    } else {
        None
    }
}

fn any_manager_role(roles: &Vec<u64>, managers: &Vec<u64>) -> (r: bool)
    ensures
        r == exists|x: u64| roles@.contains(x) && managers@.contains(x),
{
    let mut i: usize = 0;
    while i < roles.len()
        invariant
            i <= roles.len(),
            forall|m: int| 0 <= m < i ==> !managers@.contains(#[trigger] roles@[m]),
        decreases roles.len() - i,
    {
        if contains_u64(managers, roles[i]) {
            assert(roles@.contains(roles@[i as int]));
            return true;
        }
        i = i + 1;
    }
    assert forall|x: u64| !(roles@.contains(x) && managers@.contains(x)) by {
        if roles@.contains(x) {
            let m = choose|m: int| 0 <= m < roles@.len() && roles@[m] == x;
        }
    }
    false
}

/// Decides a member's tier and permission facts. A full suspension makes
/// anyone a viewer without the administrator bypass.
pub fn decide_tier(
    is_developer: bool,
    is_bot_owner: bool,
    guild: &OAuthGuild,
    settings: &RemoteGuildSettings,
    same_voice: bool,
    bot_in_voice: bool,
    lookup: RoleLookup,
    all_suspended: bool,
) -> (d: TierDecision)
    ensures
        d.tier == (if all_suspended { AccessTier::Viewer } else { base_tier(is_developer, is_bot_owner, guild, settings, lookup) }),
        d.member.is_admin == (tier_rank(d.tier) >= 2),
        d.member.same_voice_channel == (is_developer || same_voice),
        d.member.bot_in_voice == (is_developer || bot_in_voice),
        d.member.role_ids@ == (if is_developer { Seq::empty() } else { lookup_roles(lookup) }),
        crate::auth::opt_str(d.viewer_reason) == tier_reason(is_developer, is_bot_owner, lookup, all_suspended),
        d.roles_known == (is_developer || !(lookup is Unknown)),
{
    let ghost lk = lookup;
    let mut decision = if is_developer {
        TierDecision {
            tier: if is_bot_owner { AccessTier::Owner } else { AccessTier::Manager },
            member: MemberContext { is_admin: true, same_voice_channel: true, bot_in_voice: true, role_ids: Vec::new() },
            viewer_reason: None,
            roles_known: true,
        }
    } else {
        let (role_ids, left, roles_known) = match lookup {
            RoleLookup::Found(roles) => (roles, false, true),
            RoleLookup::NotInGuild => (Vec::new(), true, true),
            RoleLookup::Unknown => (Vec::new(), false, false),
        };
        if left && !is_bot_owner {
            TierDecision {
                tier: AccessTier::Viewer,
                member: MemberContext { is_admin: false, same_voice_channel: same_voice, bot_in_voice, role_ids },
                viewer_reason: Some(owned("이 서버에서 나갔거나 추방돼서 읽기 전용이에요.")),
                roles_known,
            }
        } else {
            let tier = if is_bot_owner {
                AccessTier::Owner
            } else if guild.is_admin() || any_manager_role(&role_ids, settings.manager_roles()) {
                AccessTier::Manager
            } else {
                AccessTier::Member
            };
            TierDecision {
                tier,
                member: MemberContext { is_admin: tier.is_manager(), same_voice_channel: same_voice, bot_in_voice, role_ids },
                viewer_reason: None,
                roles_known,
            }
        }
    };
    proof {
        if !is_developer {
            assert(decision.member.role_ids@ == lookup_roles(lk));
        }
    }
    if all_suspended {
        decision.tier = AccessTier::Viewer;
        decision.member.is_admin = false;
        decision.viewer_reason = Some(owned("전체 정지 중이라 읽기 전용이에요."));
    }
    decision
}

/// The administrator bypass is given exactly to managers and owners, and a
/// fully suspended member is a viewer without it.
pub proof fn law_bypass_follows_tier(
    is_developer: bool,
    is_bot_owner: bool,
    g: &OAuthGuild,
    s: &RemoteGuildSettings,
    lookup: RoleLookup,
)
    ensures
        tier_rank(base_tier(is_developer, is_bot_owner, g, s, lookup)) >= 0,
        is_bot_owner ==> base_tier(is_developer, is_bot_owner, g, s, lookup) == AccessTier::Owner,
        !is_developer && !is_bot_owner && lookup is NotInGuild
            ==> base_tier(is_developer, is_bot_owner, g, s, lookup) == AccessTier::Viewer,
{
}

} // verus!
