//! The admin console's permission preview: a rule tried on every member the
//! bot knows, with role lists the console has not saved yet.

use vstd::prelude::*;
use crate::access::Denial;
use crate::audience::{member_admin, GuildSnapshot, MemberSnapshot};
use crate::permissions::{
    allowed_spec, base_allowed_spec, canonical_permission_key, parse_rule, permission_allowed,
    rule_base_allowed, rule_key_spec, MemberContext, PermissionRule, RemoteGuildSettings,
};
use crate::settings_edit::{canonical_key, permission_key, rule_named};
use crate::text::{chars_of, owned, parse_u64, parse_u64_spec, str_eq, string_of, trim_chars, trim_seq};

verus! {

/// What a member looks like to a permission check in the preview: an
/// administrator as `member_admin` says, in the bot's channel when the bot
/// is in one and so are they.
pub open spec fn preview_member(
    g: &GuildSnapshot,
    m: &MemberSnapshot,
    owner_ids: Seq<u64>,
    s: &RemoteGuildSettings,
    bot_channel: Option<u64>,
) -> MemberContext {
    MemberContext {
        is_admin: member_admin(g, m, owner_ids, s),
        same_voice_channel: bot_channel is Some && m.voice_channel == bot_channel,
        bot_in_voice: bot_channel is Some,
        role_ids: m.role_ids,
    }
}

/// Counts over the first `n` members, bots left out: members, those the
/// rule lets through, those let through only as administrators, and the
/// first twelve let through (their ids, and whether only as administrators).
pub open spec fn preview_upto(
    g: &GuildSnapshot,
    owner_ids: Seq<u64>,
    s: &RemoteGuildSettings,
    bot_channel: Option<u64>,
    key: Seq<char>,
    rule: PermissionRule,
    n: int,
) -> (nat, nat, nat, Seq<(u64, bool)>)
    decreases n,
{
    if n <= 0 {
        (0, 0, 0, Seq::empty())
    } else {
        let (members, passing, bypassing, sample) = preview_upto(g, owner_ids, s, bot_channel, key, rule, n - 1);
        let m = g.members@[n - 1];
        let c = preview_member(g, &m, owner_ids, s, bot_channel);
        if m.is_bot {
            (members, passing, bypassing, sample)
        } else if !allowed_spec(key, rule, s, &c) {
            (members + 1, passing, bypassing, sample)
        } else {
            let bypass = !base_allowed_spec(key, rule, s, &c);
            (
                members + 1,
                passing + 1,
                if bypass { bypassing + 1 } else { bypassing },
                if sample.len() < 12 { sample.push((m.user_id, bypass)) } else { sample },
            )
        }
    }
}

/// The counts of a preview.
#[derive(Debug)]
pub struct PermissionPreview {
    pub members: usize,
    pub passing: usize,
    pub bypassing: usize,
    /// Up to twelve members let through, and whether only as administrators.
    pub sample: Vec<(u64, bool)>,
}

fn copy_ids(v: &Vec<u64>) -> (r: Vec<u64>)
    ensures
        r@ == v@,
{
    let mut r: Vec<u64> = Vec::new();
    let mut k: usize = 0;
    while k < v.len()
        invariant
            k <= v.len(),
            r@ == v@.subrange(0, k as int),
        decreases v.len() - k,
    {
        r.push(v[k]);
        proof { assert(r@ =~= v@.subrange(0, k + 1)); }
        k = k + 1;
    }
    proof { assert(r@ =~= v@); }
    r
}

fn has_any(a: &Vec<u64>, b: &Vec<u64>) -> (r: bool)
    ensures
        r == exists|x: u64| a@.contains(x) && b@.contains(x),
{
    let mut i: usize = 0;
    while i < a.len()
        invariant
            i <= a.len(),
            forall|m: int| 0 <= m < i ==> !b@.contains(#[trigger] a@[m]),
        decreases a.len() - i,
    {
        if crate::permissions::contains_u64(b, a[i]) {
            assert(a@.contains(a@[i as int]));
            return true;
        }
        i = i + 1;
    }
    assert forall|x: u64| !(a@.contains(x) && b@.contains(x)) by {
        if a@.contains(x) {
            let m = choose|m: int| 0 <= m < a@.len() && a@[m] == x;
        }
    }
    false
}

/// Tries `rule` for `key` on every member of `g` (see `preview_upto`).
pub fn preview_permission(
    g: &GuildSnapshot,
    owner_ids: &Vec<u64>,
    s: &RemoteGuildSettings,
    bot_channel: Option<u64>,
    key: &str,
    rule: PermissionRule,
) -> (p: PermissionPreview)
    ensures
        ({
            let (members, passing, bypassing, sample) = preview_upto(g, owner_ids@, s, bot_channel, key@, rule,
                g.members@.len() as int);
            &&& p.members == members
            &&& p.passing == passing
            &&& p.bypassing == bypassing
            &&& p.sample@ == sample
        }),
{
    let managers = s.manager_roles();
    let mut members: usize = 0;
    let mut passing: usize = 0;
    let mut bypassing: usize = 0;
    let mut sample: Vec<(u64, bool)> = Vec::new();
    let mut i: usize = 0;
    while i < g.members.len()
        invariant
            i <= g.members.len(),
            managers@ == crate::permissions::manager_roles_spec(s),
            members <= i, passing <= members, bypassing <= passing,
            ({
                let (m0, p0, b0, s0) = preview_upto(g, owner_ids@, s, bot_channel, key@, rule, i as int);
                members == m0 && passing == p0 && bypassing == b0 && sample@ == s0
            }),
        decreases g.members.len() - i,
    {
        let m = &g.members[i];
        if !m.is_bot {
            let admin = g.owner_id == m.user_id || crate::permissions::contains_u64(owner_ids, m.user_id)
                || has_any(&m.role_ids, managers) || has_any(&m.role_ids, &g.admin_role_ids);
            let in_voice = bot_channel.is_some();
            let same = match bot_channel { Some(c) => match m.voice_channel { Some(v) => v == c, None => false }, None => false };
            let c = MemberContext { is_admin: admin, same_voice_channel: same, bot_in_voice: in_voice, role_ids: copy_ids(&m.role_ids) };
            proof {
                let pc = preview_member(g, &g.members@[i as int], owner_ids@, s, bot_channel);
                assert(c.is_admin == pc.is_admin);
                assert(c.same_voice_channel == pc.same_voice_channel);
                assert(c.role_ids@ == pc.role_ids@);
                assert(allowed_spec(key@, rule, s, &c) == allowed_spec(key@, rule, s, &pc));
                assert(base_allowed_spec(key@, rule, s, &c) == base_allowed_spec(key@, rule, s, &pc));
            }
            members = members + 1;
            if permission_allowed(key, rule, s, &c) {
                passing = passing + 1;
                let bypass = !rule_base_allowed(key, rule, s, &c);
                if bypass {
                    bypassing = bypassing + 1;
                }
                if sample.len() < 12 {
                    sample.push((m.user_id, bypass));
                }
            }
        }
        i = i + 1;
    }
    PermissionPreview { members, passing, bypassing, sample }
}

/// The note shown under a preview, if any: the member list may be partial,
/// not loaded yet, or the rule lets only administrators (or nobody) through.
pub open spec fn preview_note_spec(
    members_intent: bool,
    members: nat,
    rule: PermissionRule,
    bot_channel: Option<u64>,
    roles_for_key: nat,
) -> Seq<char> {
    if !members_intent {
        "Server Members Intent가 꺼져 있어서 캐시에 있는 사람만 셌어요."@
    } else if members == 0 {
        "아직 멤버 캐시가 비어 있어요. 봇이 접속을 마치면 정확해져요."@
    } else if rule == PermissionRule::Disabled {
        "사용 안 함은 관리자와 봇 주인까지 전부 막아요."@
    } else if rule == PermissionRule::SameVoiceChannel && bot_channel is None {
        "봇이 음성 채널에 없어서 지금은 관리자만 통과해요."@
    } else if rule == PermissionRule::ConfiguredRole && roles_for_key == 0 {
        "이 권한에 지정된 역할이 없어서 지금은 관리자만 통과해요."@
    } else {
        Seq::empty()
    }
}

/// See `preview_note_spec`; `roles_for_key` counts the roles assigned to the key.
pub fn preview_note(members_intent: bool, members: usize, rule: PermissionRule, bot_channel: Option<u64>,
    roles_for_key: usize) -> (s: String)
    ensures
        s@ == preview_note_spec(members_intent, members as nat, rule, bot_channel, roles_for_key as nat),
{
    if !members_intent {
        owned("Server Members Intent가 꺼져 있어서 캐시에 있는 사람만 셌어요.")
    } else if members == 0 {
        owned("아직 멤버 캐시가 비어 있어요. 봇이 접속을 마치면 정확해져요.")
    } else if rule == PermissionRule::Disabled {
        owned("사용 안 함은 관리자와 봇 주인까지 전부 막아요.")
    } else if rule == PermissionRule::SameVoiceChannel && bot_channel.is_none() {
        owned("봇이 음성 채널에 없어서 지금은 관리자만 통과해요.")
    } else if rule == PermissionRule::ConfiguredRole && roles_for_key == 0 {
        owned("이 권한에 지정된 역할이 없어서 지금은 관리자만 통과해요.")
    } else {
        String::new()
    }
}

/// The id a comma-separated piece gives: its trimmed text as a number, zero left out.
pub open spec fn piece_id(piece: Seq<char>) -> Seq<u64> {
    match parse_u64_spec(trim_seq(piece)) {
        Some(id) => if id != 0 { seq![id] } else { Seq::empty() },
        None => Seq::empty(),
    }
}

/// Reading the first `n` characters of a comma-separated list: the ids of
/// the finished pieces, and the piece being read.
pub open spec fn csv_state(s: Seq<char>, n: int) -> (Seq<u64>, Seq<char>)
    decreases n,
{
    if n <= 0 {
        (Seq::empty(), Seq::empty())
    } else {
        let (done, cur) = csv_state(s, n - 1);
        if s[n - 1] == ',' { (done + piece_id(cur), Seq::empty()) } else { (done, cur.push(s[n - 1])) }
    }
}

/// The ids of a comma-separated list: every piece that reads as a nonzero number.
pub open spec fn csv_ids(s: Seq<char>) -> Seq<u64> {
    let (done, cur) = csv_state(s, s.len() as int);
    done + piece_id(cur)
}

fn id_of_piece(piece: &Vec<char>) -> (r: Vec<u64>)
    ensures
        r@ == piece_id(piece@),
{
    let t = trim_chars(piece);
    let mut r: Vec<u64> = Vec::new();
    match parse_u64(&t) {
        Some(id) => if id != 0 {
            r.push(id);
            proof { assert(r@ =~= seq![id]); }
        },
        None => {},
    }
    proof { if r@.len() == 0 { assert(r@ =~= Seq::<u64>::empty()); } }
    r
}

fn append_ids(out: &mut Vec<u64>, more: Vec<u64>)
    ensures
        final(out)@ == old(out)@ + more@,
{
    let mut k: usize = 0;
    let ghost start = out@;
    while k < more.len()
        invariant
            k <= more.len(),
            out@ == start + more@.subrange(0, k as int),
        decreases more.len() - k,
    {
        out.push(more[k]);
        proof { assert(out@ =~= start + more@.subrange(0, k + 1)); }
        k = k + 1;
    }
    proof { assert(more@.subrange(0, more@.len() as int) =~= more@); }
}

/// Reads a comma-separated list of role ids (see `csv_ids`).
pub fn parse_role_csv(text: &str) -> (ids: Vec<u64>)
    ensures
        ids@ == csv_ids(text@),
{
    let s = chars_of(text);
    let mut done: Vec<u64> = Vec::new();
    let mut cur: Vec<char> = Vec::new();
    let mut i: usize = 0;
    while i < s.len()
        invariant
            i <= s.len(),
            s@ == text@,
            csv_state(s@, i as int) == (done@, cur@),
        decreases s.len() - i,
    {
        if s[i] == ',' {
            let got = id_of_piece(&cur);
            append_ids(&mut done, got);
            cur = Vec::new();
            proof { assert(cur@ =~= Seq::<char>::empty()); }
        } else {
            cur.push(s[i]);
        }
        i = i + 1;
    }
    let last = id_of_piece(&cur);
    append_ids(&mut done, last);
    done
}

/// What a preview asks: a known rule, and a known key (`search` when none
/// or blank, older names mapped to current ones).
pub open spec fn preview_key(key: Option<Seq<char>>) -> Seq<char> {
    match key {
        Some(k) => if trim_seq(k).len() > 0 { canonical_key(trim_seq(k)) } else { "search"@ },
        None => "search"@,
    }
}

/// Reads a preview request: its rule and key, or the refusal (400).
pub fn read_preview_request(rule: &str, key: Option<&str>) -> (r: Result<(PermissionRule, String), Denial>)
    ensures
        match r {
            Ok((x, k)) => rule_named(rule@) == Some(x) && k@ == preview_key(match key { Some(t) => Some(t@), None => None })
                && permission_key(k@),
            Err(d) => d.status == 400 && if rule_named(rule@) is None {
                d.message@ == "알 수 없는 권한 규칙이에요."@
            } else {
                !permission_key(preview_key(match key { Some(t) => Some(t@), None => None }))
                    && d.message@ == "알 수 없는 권한 키예요."@
            },
        },
{
    proof {
        reveal_strlit("guildMember");
        reveal_strlit("sameVoiceChannel");
        reveal_strlit("configuredRole");
        reveal_strlit("administrator");
        reveal_strlit("disabled");
        assert("guildMember"@.len() == 11);
        assert("sameVoiceChannel"@.len() == 16);
        assert("configuredRole"@.len() == 14);
        assert("administrator"@.len() == 13);
        assert("disabled"@.len() == 8);
    }
    let x = match parse_rule(rule) {
        Some(x) => x,
        None => {
            proof {
                assert(rule_key_spec(PermissionRule::GuildMember) != rule@);
                assert(rule_key_spec(PermissionRule::SameVoiceChannel) != rule@);
                assert(rule_key_spec(PermissionRule::ConfiguredRole) != rule@);
                assert(rule_key_spec(PermissionRule::Administrator) != rule@);
                assert(rule_key_spec(PermissionRule::Disabled) != rule@);
            }
            return Err(Denial { status: 400, message: owned("알 수 없는 권한 규칙이에요.") });
        },
    };
    let trimmed = match key {
        Some(k) => string_of(&trim_chars(&chars_of(k))),
        None => String::new(),
    };
    proof { reveal_strlit("autoplaySeed"); reveal_strlit("playlistEnqueue"); }
    let k = if trimmed.as_str().unicode_len() > 0 { owned(canonical_permission_key(trimmed.as_str())) } else { owned("search") };
    proof { if key is None { assert(trimmed@.len() == 0); } }
    let known = str_eq(k.as_str(), "search") || str_eq(k.as_str(), "vote") || str_eq(k.as_str(), "chat")
        || str_eq(k.as_str(), "playback") || str_eq(k.as_str(), "skip") || str_eq(k.as_str(), "seek")
        || str_eq(k.as_str(), "volume") || str_eq(k.as_str(), "queueEdit") || str_eq(k.as_str(), "autoplay")
        || str_eq(k.as_str(), "bulkEnqueue");
    if !known {
        return Err(Denial { status: 400, message: owned("알 수 없는 권한 키예요.") });
    }
    Ok((x, k))
}

} // verus!
