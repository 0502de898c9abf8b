//! Who could use a permission, counted over a snapshot of a server's
//! members, and the tier a member would get.

use vstd::prelude::*;
use crate::auth::AccessTier;
use crate::permissions::{contains_u64, manager_roles_spec, roles_for_spec, PermissionRule, RemoteGuildSettings};
use crate::text::{decimal, decimal_string, owned};

verus! {

/// One member of a server as the bot's cache knows them.
#[derive(Debug)]
pub struct MemberSnapshot {
    pub user_id: u64,
    pub is_bot: bool,
    pub role_ids: Vec<u64>,
    /// The voice channel they are in, if any.
    pub voice_channel: Option<u64>,
}

/// A server as the bot's cache knows it.
#[derive(Debug)]
pub struct GuildSnapshot {
    pub owner_id: u64,
    pub members: Vec<MemberSnapshot>,
    /// Roles that carry Administrator or Manage Server.
    pub admin_role_ids: Vec<u64>,
}

/// `a` and `b` share an element.
pub open spec fn overlaps(a: Seq<u64>, b: Seq<u64>) -> bool {
    exists|r: u64| a.contains(r) && b.contains(r)
}

/// A member counts as an administrator: server owner, bot owner, a manager
/// role, or a role with administrator permissions.
pub open spec fn member_admin(g: &GuildSnapshot, m: &MemberSnapshot, owner_ids: Seq<u64>, s: &RemoteGuildSettings) -> bool {
    ||| g.owner_id == m.user_id
    ||| owner_ids.contains(m.user_id)
    ||| overlaps(m.role_ids@, manager_roles_spec(s))
    ||| overlaps(m.role_ids@, g.admin_role_ids@)
}

fn overlaps_exec(a: &Vec<u64>, b: &Vec<u64>) -> (r: bool)
    ensures
        r == overlaps(a@, b@),
{
    let mut i: usize = 0;
    while i < a.len()
        invariant
            i <= a.len(),
            forall|m: int| 0 <= m < i ==> !b@.contains(#[trigger] a@[m]),
        decreases a.len() - i,
    {
        if contains_u64(b, a[i]) {
            assert(a@.contains(a@[i as int]));
            return true;
        }
        i = i + 1;
    }
    assert forall|r: u64| !(a@.contains(r) && b@.contains(r)) by {
        if a@.contains(r) {
            let m = choose|m: int| 0 <= m < a@.len() && a@[m] == r;
        }
    }
    false
}

/// How many times `r` appears in `roles`.
pub open spec fn occurrences(roles: Seq<u64>, r: u64) -> nat
    decreases roles.len(),
{
    if roles.len() == 0 { 0 } else { occurrences(roles.drop_last(), r) + (if roles.last() == r { 1nat } else { 0nat }) }
}

/// Role holdings of the non-bot members, summed for the roles in `rs`.
pub open spec fn holders(lists: Seq<Seq<u64>>, r: u64) -> nat
    decreases lists.len(),
{
    if lists.len() == 0 { 0 } else { holders(lists.drop_last(), r) + occurrences(lists.last(), r) }
}

pub open spec fn holders_sum(lists: Seq<Seq<u64>>, rs: Seq<u64>) -> nat
    decreases rs.len(),
{
    if rs.len() == 0 { 0 } else { holders_sum(lists, rs.drop_last()) + holders(lists, rs.last()) }
}

/// Counts of people per kind of permission rule, taken once per request.
#[derive(Debug)]
pub struct PermissionAudience {
    /// Whether the server was in the cache at all; unknown counts are not zero.
    pub known: bool,
    pub members: usize,
    pub admins: usize,
    pub same_voice: usize,
    /// The role lists of the non-bot members.
    pub role_lists: Vec<Vec<u64>>,
}

pub open spec fn role_views(v: Seq<Vec<u64>>) -> Seq<Seq<u64>> {
    v.map_values(|x: Vec<u64>| x@)
}

pub open spec fn human(m: MemberSnapshot) -> bool {
    !m.is_bot
}

/// The numbers `PermissionAudience::of` takes from a snapshot.
pub open spec fn audience_counts(
    g: &GuildSnapshot,
    bot_channel: Option<u64>,
    owner_ids: Seq<u64>,
    s: &RemoteGuildSettings,
) -> (nat, nat, nat) {
    let hs = g.members@.filter(|m: MemberSnapshot| human(m));
    (
        hs.len(),
        hs.filter(|m: MemberSnapshot| member_admin(g, &m, owner_ids, s)).len(),
        if bot_channel is Some { hs.filter(|m: MemberSnapshot| m.voice_channel == bot_channel).len() } else { 0 },
    )
}

fn clone_roles(v: &Vec<u64>) -> (r: Vec<u64>)
    ensures
        r@ == v@,
{
    let mut r: Vec<u64> = Vec::new();
    let mut k: usize = 0;
    while k < v.len()
        invariant
            k <= v.len(),
            r@ == v@.subrange(0, k as int),
        decreases v.len() - k,
    {
        r.push(v[k]);
        proof { assert(r@ =~= v@.subrange(0, k + 1)); }
        k = k + 1;
    }
    proof { assert(r@ =~= v@); }
    r
}

impl PermissionAudience {
    /// Counts members, administrators, people in the bot's channel and role
    /// holders of a snapshot; bots are not counted. No snapshot: unknown.
    pub fn of(
        snapshot: Option<&GuildSnapshot>,
        bot_channel: Option<u64>,
        owner_ids: &Vec<u64>,
        settings: &RemoteGuildSettings,
    ) -> (a: PermissionAudience)
        ensures
            a.known == snapshot is Some,
            snapshot is None ==> a.members == 0 && a.admins == 0 && a.same_voice == 0 && a.role_lists@.len() == 0,
            snapshot is Some ==> ({
                let g = snapshot->0;
                let c = audience_counts(g, bot_channel, owner_ids@, settings);
                &&& a.members == c.0
                &&& a.admins == c.1
                &&& a.same_voice == c.2
                &&& role_views(a.role_lists@) == g.members@.filter(|m: MemberSnapshot| human(m))
                    .map_values(|m: MemberSnapshot| m.role_ids@)
            }),
    {
        let g = match snapshot {
            Some(g) => g,
            None => {
                return PermissionAudience { known: false, members: 0, admins: 0, same_voice: 0, role_lists: Vec::new() };
            }
        };
        let ghost ph = |m: MemberSnapshot| human(m);
        let ghost pa = |m: MemberSnapshot| member_admin(g, &m, owner_ids@, settings);
        let ghost pv = |m: MemberSnapshot| m.voice_channel == bot_channel;
        let managers = settings.manager_roles();
        let mut members: usize = 0;
        let mut admins: usize = 0;
        let mut same_voice: usize = 0;
        let mut role_lists: Vec<Vec<u64>> = Vec::new();
        let mut k: usize = 0;
        while k < g.members.len()
            invariant
                k <= g.members.len(),
                ph == (|m: MemberSnapshot| human(m)),
                pa == (|m: MemberSnapshot| member_admin(g, &m, owner_ids@, settings)),
                pv == (|m: MemberSnapshot| m.voice_channel == bot_channel),
                managers@ == manager_roles_spec(settings),
                members == g.members@.take(k as int).filter(ph).len(),
                admins == g.members@.take(k as int).filter(ph).filter(pa).len(),
                same_voice == (if bot_channel is Some { g.members@.take(k as int).filter(ph).filter(pv).len() } else { 0 }),
                role_views(role_lists@) == g.members@.take(k as int).filter(ph).map_values(|m: MemberSnapshot| m.role_ids@),
                members <= k,
                admins <= members,
                same_voice <= members,
            decreases g.members.len() - k,
        {
            let m = &g.members[k];
            let ghost before = g.members@.take(k as int).filter(ph);
            proof {
                assert(g.members@.take(k + 1) =~= g.members@.take(k as int).push(g.members@[k as int]));
                g.members@.take(k as int).lemma_filter_push(g.members@[k as int], ph);
            }
            if !m.is_bot {
                proof {
                    before.lemma_filter_push(*m, pa);
                    before.lemma_filter_push(*m, pv);
                }
                members = members + 1;
                let admin = g.owner_id == m.user_id
                    || contains_u64(owner_ids, m.user_id)
                    || overlaps_exec(&m.role_ids, managers)
                    || overlaps_exec(&m.role_ids, &g.admin_role_ids);
                if admin {
                    admins = admins + 1;
                }
                match bot_channel {
                    Some(b) => {
                        match m.voice_channel {
                            Some(ch) => {
                                if ch == b {
                                    same_voice = same_voice + 1;
                                }
                            }
                            None => {}
                        }
                    }
                    None => {}
                }
                let ghost rl = role_lists@;
                role_lists.push(clone_roles(&m.role_ids));
                proof {
                    assert(role_views(role_lists@) =~= role_views(rl).push(m.role_ids@));
                    assert(before.push(*m).map_values(|m: MemberSnapshot| m.role_ids@)
                        =~= before.map_values(|m: MemberSnapshot| m.role_ids@).push(m.role_ids@));
                }
            }
            k = k + 1;
        }
        proof { assert(g.members@.take(k as int) =~= g.members@); }
        PermissionAudience { known: true, members, admins, same_voice, role_lists }
    }

    fn holders_of(&self, r: u64) -> (n: u128)
        requires
            self.role_lists@.len() <= usize::MAX,
        ensures
            n == holders(role_views(self.role_lists@), r),
            n <= self.role_lists@.len() * 0x1_0000_0000_0000_0000,
    {
        let ghost lists = role_views(self.role_lists@);
        let mut n: u128 = 0;
        let mut i: usize = 0;
        while i < self.role_lists.len()
            invariant
                i <= self.role_lists.len(),
                lists == role_views(self.role_lists@),
                n == holders(lists.subrange(0, i as int), r),
                n <= i * 0x1_0000_0000_0000_0000,
            decreases self.role_lists.len() - i,
        {
            let roles = &self.role_lists[i];
            let mut c: u128 = 0;
            let mut j: usize = 0;
            while j < roles.len()
                invariant
                    j <= roles.len(),
                    c == occurrences(roles@.subrange(0, j as int), r),
                    c <= j,
                decreases roles.len() - j,
            {
                proof { assert(roles@.subrange(0, j + 1).drop_last() =~= roles@.subrange(0, j as int)); }
                if roles[j] == r {
                    c = c + 1;
                }
                j = j + 1;
            }
            proof {
                assert(roles@.subrange(0, j as int) =~= roles@);
                assert(lists.subrange(0, i + 1).drop_last() =~= lists.subrange(0, i as int));
                assert(lists.subrange(0, i + 1).last() == roles@);
            }
            n = n + c;
            i = i + 1;
        }
        proof { assert(lists.subrange(0, i as int) =~= lists); }
        n
    }

    /// How many people pass `rule` for `role_key`; `None` when unknown.
    /// `Disabled` passes nobody; `SameVoiceChannel` at least the
    /// administrators; role counts may overlap, so they are capped at the
    /// number of members.
    pub fn for_rule(&self, rule: PermissionRule, role_key: &str, settings: &RemoteGuildSettings) -> (r: Option<usize>)
        requires
            self.role_lists@.len() <= self.members,
            self.admins <= self.members,
        ensures
            !self.known ==> r is None,
            self.known ==> r == Some(match rule {
                PermissionRule::Disabled => 0usize,
                PermissionRule::GuildMember => self.members,
                PermissionRule::Administrator => self.admins,
                PermissionRule::SameVoiceChannel => if self.same_voice >= self.admins { self.same_voice } else { self.admins },
                PermissionRule::ConfiguredRole => {
                    let total = holders_sum(role_views(self.role_lists@), roles_for_spec(settings, role_key@)) + self.admins;
                    if total <= self.members { total as usize } else { self.members }
                },
            }),
    {
        if !self.known {
            return None;
        }
        let count = match rule {
            PermissionRule::Disabled => 0,
            PermissionRule::GuildMember => self.members,
            PermissionRule::Administrator => self.admins,
            PermissionRule::SameVoiceChannel => if self.same_voice >= self.admins { self.same_voice } else { self.admins },
            PermissionRule::ConfiguredRole => {
                let roles = settings.roles_for(role_key);
                let ghost lists = role_views(self.role_lists@);
                let mut total: u128 = self.admins as u128;
                let mut i: usize = 0;
                let mut capped = false;
                while i < roles.len()
                    invariant
                        i <= roles.len(),
                        roles@ == roles_for_spec(settings, role_key@),
                        lists == role_views(self.role_lists@),
                        self.role_lists@.len() <= self.members,
                        !capped ==> total == holders_sum(lists, roles@.subrange(0, i as int)) + self.admins,
                        !capped ==> total <= self.members,
                        capped ==> holders_sum(lists, roles@.subrange(0, i as int)) + self.admins > self.members,
                    decreases roles.len() - i,
                {
                    proof {
                        assert(roles@.subrange(0, i + 1).drop_last() =~= roles@.subrange(0, i as int));
                        lemma_holders_sum_monotone(lists, roles@.subrange(0, i + 1));
                    }
                    if !capped {
                        let h = self.holders_of(roles[i]);
                        if h > (self.members as u128) - total {
                            capped = true;
                        } else {
                            total = total + h;
                        }
                    }
                    i = i + 1;
                }
                proof { assert(roles@.subrange(0, i as int) =~= roles@); }
                if capped { self.members } else { total as usize }
            }
        };
        Some(count)
    }
}

proof fn lemma_holders_sum_monotone(lists: Seq<Seq<u64>>, rs: Seq<u64>)
    ensures
        rs.len() > 0 ==> holders_sum(lists, rs) >= holders_sum(lists, rs.drop_last()),
{
}

/// The tier the cache suggests for a member (used to protect managers from
/// being suspended by other managers): bot owners are owners; without the
/// server in the cache, or the member in it, a member; the server owner, a
/// holder of an administrator role or a manager role, a manager.
pub open spec fn tier_of_member_spec(
    owner_ids: Seq<u64>,
    snapshot: Option<&GuildSnapshot>,
    user_id: u64,
    s: &RemoteGuildSettings,
) -> AccessTier {
    if owner_ids.contains(user_id) {
        AccessTier::Owner
    } else {
        match snapshot {
            None => AccessTier::Member,
            Some(g) => if g.owner_id == user_id {
                AccessTier::Manager
            } else if exists|i: int| 0 <= i < g.members@.len() && (#[trigger] g.members@[i]).user_id == user_id {
                let m = g.members@[choose|i: int| 0 <= i < g.members@.len() && (#[trigger] g.members@[i]).user_id == user_id];
                if overlaps(m.role_ids@, g.admin_role_ids@) || overlaps(m.role_ids@, manager_roles_spec(s)) {
                    AccessTier::Manager
                } else {
                    AccessTier::Member
                }
            } else {
                AccessTier::Member
            },
        }
    }
}

/// See `tier_of_member_spec`; the member is looked up by id (ids are unique
/// in a server).
pub fn tier_of_member(
    owner_ids: &Vec<u64>,
    snapshot: Option<&GuildSnapshot>,
    user_id: u64,
    settings: &RemoteGuildSettings,
) -> (t: AccessTier)
    requires
        snapshot is Some ==> forall|i: int, j: int|
            0 <= i < j < snapshot->0.members@.len() ==> (#[trigger] snapshot->0.members@[i]).user_id != (#[trigger] snapshot->0.members@[j]).user_id,
    ensures
        t == tier_of_member_spec(owner_ids@, snapshot, user_id, settings),
{
    if contains_u64(owner_ids, user_id) {
        return AccessTier::Owner;
    }
    let g = match snapshot {
        Some(g) => g,
        None => { return AccessTier::Member; }
    };
    if g.owner_id == user_id {
        return AccessTier::Manager;
    }
    let mut i: usize = 0;
    while i < g.members.len()
        invariant
            i <= g.members.len(),
            snapshot == Some(g),
            !owner_ids@.contains(user_id),
            g.owner_id != user_id,
            forall|a: int, b: int|
                0 <= a < b < g.members@.len() ==> (#[trigger] g.members@[a]).user_id != (#[trigger] g.members@[b]).user_id,
            forall|m: int| 0 <= m < i ==> (#[trigger] g.members@[m]).user_id != user_id,
        decreases g.members.len() - i,
    {
        if g.members[i].user_id == user_id {
            let m = &g.members[i];
            proof {
                let c = choose|j: int| 0 <= j < g.members@.len() && (#[trigger] g.members@[j]).user_id == user_id;
                if c != i {
                    if c < i { assert(g.members@[c].user_id != user_id); }
                    else { assert(g.members@[i as int].user_id != g.members@[c].user_id); }
                }
            }
            let admin = overlaps_exec(&m.role_ids, &g.admin_role_ids);
            let manager = overlaps_exec(&m.role_ids, settings.manager_roles());
            return if admin || manager { AccessTier::Manager } else { AccessTier::Member };
        }
        i = i + 1;
    }
    AccessTier::Member
}

/// What the console shows of a participant: listening in the bot's channel,
/// else watching the remote, else their Discord status, else offline.
pub open spec fn participant_status_spec(user: u64, listening: Seq<u64>, viewing: Seq<u64>, online: Option<Seq<char>>) -> Seq<char> {
    if listening.contains(user) {
        "listening"@
    } else if viewing.contains(user) {
        "viewing"@
    } else {
        match online { Some(s) => s, None => "offline"@ }
    }
}

/// See `participant_status_spec`.
pub fn participant_status(user: u64, listening: &Vec<u64>, viewing: &Vec<u64>, online: Option<&str>) -> (s: String)
    ensures
        s@ == participant_status_spec(user, listening@, viewing@, match online { Some(t) => Some(t@), None => None }),
{
    if contains_u64(listening, user) {
        owned("listening")
    } else if contains_u64(viewing, user) {
        owned("viewing")
    } else {
        match online { Some(t) => owned(t), None => owned("offline") }
    }
}

/// A participant's name: the server's display name when the cache knows
/// them, else the stored name, else their id.
pub open spec fn participant_name_spec(cached: Option<Seq<char>>, stored: Seq<char>, user: u64) -> Seq<char> {
    match cached {
        Some(n) => n,
        None => if stored.len() > 0 { stored } else { decimal(user as nat) },
    }
}

/// See `participant_name_spec`.
pub fn participant_name(cached: Option<&str>, stored: &str, user: u64) -> (s: String)
    ensures
        s@ == participant_name_spec(match cached { Some(t) => Some(t@), None => None }, stored@, user),
{
    match cached {
        Some(n) => owned(n),
        None => if stored.unicode_len() > 0 { owned(stored) } else { decimal_string(user) },
    }
}

} // verus!
