//! Who may do what on the remote: per-permission rules, the guild settings
//! they live in, and the member facts a decision reads.

use vstd::prelude::*;
use crate::quorum::VoteSkipBasis;
use crate::roles::RuleRoles;
use crate::scoring::{BoomttaAction, VotePoints};
use crate::text::str_eq;

verus! {

/// The rule a server picked for one permission.
#[derive(Debug, Clone, Copy, PartialEq, Eq, Structural)]
pub enum PermissionRule {
    GuildMember,
    SameVoiceChannel,
    ConfiguredRole,
    Administrator,
    Disabled,
}

impl PermissionRule {
    /// Whether deciding this rule needs the member's Discord roles.
    pub fn needs_roles(self) -> (r: bool)
        ensures
            r == (self == PermissionRule::ConfiguredRole || self == PermissionRule::Administrator),
    {
        match self {
            PermissionRule::ConfiguredRole | PermissionRule::Administrator => true,
            _ => false,
        }
    }
}

/// What is known about the member making a request.
#[derive(Debug, Clone)]
pub struct MemberContext {
    /// Administrator bypass applies (tier Manager or above).
    pub is_admin: bool,
    pub same_voice_channel: bool,
    /// The bot is in one of this server's voice channels right now.
    pub bot_in_voice: bool,
    pub role_ids: Vec<u64>,
}

impl Default for MemberContext {
    fn default() -> (m: Self)
        ensures
            !m.is_admin,
            !m.same_voice_channel,
            !m.bot_in_voice,
            m.role_ids@ == Seq::<u64>::empty(),
    {
        MemberContext { is_admin: false, same_voice_channel: false, bot_in_voice: false, role_ids: Vec::new() }
    }
}

/// A server's remote settings, as far as the remote's decisions read them.
#[derive(Debug)]
pub struct RemoteGuildSettings {
    pub search_rule: PermissionRule,
    pub vote_rule: PermissionRule,
    pub playback_rule: PermissionRule,
    pub skip_rule: PermissionRule,
    pub seek_rule: PermissionRule,
    pub volume_rule: PermissionRule,
    pub queue_edit_rule: PermissionRule,
    pub chat_rule: PermissionRule,
    pub autoplay_rule: PermissionRule,
    pub bulk_enqueue_rule: PermissionRule,
    /// Roles used for every key that has no list of its own.
    pub configured_role_ids: Vec<u64>,
    /// Roles per permission key.
    pub rule_role_ids: RuleRoles,
    /// Roles that make a member a manager of the remote.
    pub manager_role_ids: Vec<u64>,
    pub require_voice_for_playback: bool,
    pub web_player_mode: bool,
    pub chat_enabled: bool,
    pub suggestion_enabled: bool,
    pub vote_skip_enabled: bool,
    pub vote_skip_basis: VoteSkipBasis,
    pub vote_skip_ratio: u32,
    pub vote_skip_min: u32,
    pub boomtta_enabled: bool,
    pub boomtta_threshold: u32,
    pub boomtta_action: BoomttaAction,
    /// `0` means unlimited for every limit below.
    pub max_queue_per_guild: i32,
    pub max_queue_per_user: i32,
    pub max_track_seconds: i32,
    pub bulk_enqueue_limit: u32,
    pub audit_retention_days: i32,
    pub chat_retention_days: u32,
    pub min_volume: i32,
    pub max_volume: i32,
    pub default_volume: i32,
    /// Points per vote kind and per wait step.
    pub like_points: i32,
    pub dislike_points: i32,
    pub super_like_points: i32,
    pub wait_points: i32,
    pub super_like_cooldown_sec: u32,
    pub super_like_daily_limit: u32,
    pub autoplay_recent_count: u32,
    pub autoplay_artist_cooldown: u32,
    pub autoplay_recent_decay_hours: u32,
    pub autoplay_seed_max: u32,
    pub autoplay_genres: Vec<String>,
    pub chart_limit: u32,
    pub chart_super_weight: u32,
    pub empty_voice_delay_seconds: u32,
    pub skip_lead_ms: u32,
    pub seek_lockout_ms: u32,
    pub web_sync_offset_ms: i32,
    pub public_now_playing: bool,
    pub visualizer_enabled: bool,
}

impl Default for RemoteGuildSettings {
    fn default() -> (s: Self)
        ensures
            s.search_rule == PermissionRule::GuildMember,
            s.vote_rule == PermissionRule::GuildMember,
            s.chat_rule == PermissionRule::GuildMember,
            s.autoplay_rule == PermissionRule::GuildMember,
            s.playback_rule == PermissionRule::SameVoiceChannel,
            s.skip_rule == PermissionRule::SameVoiceChannel,
            s.seek_rule == PermissionRule::SameVoiceChannel,
            s.volume_rule == PermissionRule::SameVoiceChannel,
            s.queue_edit_rule == PermissionRule::SameVoiceChannel,
            s.bulk_enqueue_rule == PermissionRule::SameVoiceChannel,
            s.configured_role_ids@ == Seq::<u64>::empty(),
            s.rule_role_ids@ == Map::<Seq<char>, Seq<u64>>::empty(),
            s.manager_role_ids@ == Seq::<u64>::empty(),
            s.require_voice_for_playback,
            !s.web_player_mode,
            s.chat_enabled,
            s.suggestion_enabled,
            s.vote_skip_enabled,
            s.vote_skip_basis == VoteSkipBasis::Listeners,
            s.vote_skip_ratio == 50,
            s.vote_skip_min == 2,
            !s.boomtta_enabled,
            s.boomtta_threshold == 5,
            s.max_queue_per_guild == 0,
            s.max_queue_per_user == 0,
            s.max_track_seconds == 0,
            s.bulk_enqueue_limit == 200,
            s.boomtta_action == BoomttaAction::Bottom,
            s.audit_retention_days == 0,
            s.chat_retention_days == 0,
            s.min_volume == 0,
            s.max_volume == 200,
            s.default_volume == 100,
            s.like_points == 1,
            s.dislike_points == -1,
            s.super_like_points == 2,
            s.wait_points == 1,
            s.super_like_cooldown_sec == 0,
            s.super_like_daily_limit == 0,
            s.autoplay_recent_count == 0,
            s.autoplay_artist_cooldown == 0,
            s.autoplay_recent_decay_hours == 0,
            s.autoplay_seed_max == 0,
            s.autoplay_genres@ == Seq::<String>::empty(),
            s.chart_limit == 50,
            s.chart_super_weight == 2,
            s.empty_voice_delay_seconds == 60,
            s.skip_lead_ms == 0,
            s.seek_lockout_ms == 0,
            s.web_sync_offset_ms == 0,
            !s.public_now_playing,
            s.visualizer_enabled,
    {
        RemoteGuildSettings {
            search_rule: PermissionRule::GuildMember,
            vote_rule: PermissionRule::GuildMember,
            playback_rule: PermissionRule::SameVoiceChannel,
            skip_rule: PermissionRule::SameVoiceChannel,
            seek_rule: PermissionRule::SameVoiceChannel,
            volume_rule: PermissionRule::SameVoiceChannel,
            queue_edit_rule: PermissionRule::SameVoiceChannel,
            chat_rule: PermissionRule::GuildMember,
            autoplay_rule: PermissionRule::GuildMember,
            bulk_enqueue_rule: PermissionRule::SameVoiceChannel,
            configured_role_ids: Vec::new(),
            rule_role_ids: RuleRoles::new(),
            manager_role_ids: Vec::new(),
            require_voice_for_playback: true,
            web_player_mode: false,
            chat_enabled: true,
            suggestion_enabled: true,
            vote_skip_enabled: true,
            vote_skip_basis: VoteSkipBasis::Listeners,
            vote_skip_ratio: 50,
            vote_skip_min: 2,
            boomtta_enabled: false,
            boomtta_threshold: 5,
            max_queue_per_guild: 0,
            max_queue_per_user: 0,
            max_track_seconds: 0,
            bulk_enqueue_limit: 200,
            boomtta_action: BoomttaAction::Bottom,
            audit_retention_days: 0,
            chat_retention_days: 0,
            min_volume: 0,
            max_volume: 200,
            default_volume: 100,
            like_points: 1,
            dislike_points: -1,
            super_like_points: 2,
            wait_points: 1,
            super_like_cooldown_sec: 0,
            super_like_daily_limit: 0,
            autoplay_recent_count: 0,
            autoplay_artist_cooldown: 0,
            autoplay_recent_decay_hours: 0,
            autoplay_seed_max: 0,
            autoplay_genres: Vec::new(),
            chart_limit: 50,
            chart_super_weight: 2,
            empty_voice_delay_seconds: 60,
            skip_lead_ms: 0,
            seek_lockout_ms: 0,
            web_sync_offset_ms: 0,
            public_now_playing: false,
            visualizer_enabled: true,
        }
    }
}

/// The roles that open `key`: its own list when it has one (even empty),
/// the server-wide list otherwise.
pub open spec fn roles_for_spec(s: &RemoteGuildSettings, key: Seq<char>) -> Seq<u64> {
    if s.rule_role_ids@.contains_key(key) { s.rule_role_ids@[key] } else { s.configured_role_ids@ }
}

/// The roles that make a manager: the manager list when set, the server-wide list otherwise.
pub open spec fn manager_roles_spec(s: &RemoteGuildSettings) -> Seq<u64> {
    if s.manager_role_ids@.len() > 0 { s.manager_role_ids@ } else { s.configured_role_ids@ }
}

/// The rule stored for a permission key.
pub open spec fn rule_for_spec(s: &RemoteGuildSettings, key: Seq<char>) -> Option<PermissionRule> {
    if key == "search"@ { Some(s.search_rule) }
    else if key == "vote"@ { Some(s.vote_rule) }
    else if key == "chat"@ { Some(s.chat_rule) }
    else if key == "playback"@ { Some(s.playback_rule) }
    else if key == "skip"@ { Some(s.skip_rule) }
    else if key == "seek"@ { Some(s.seek_rule) }
    else if key == "volume"@ { Some(s.volume_rule) }
    else if key == "queueEdit"@ { Some(s.queue_edit_rule) }
    else if key == "autoplay"@ { Some(s.autoplay_rule) }
    else if key == "bulkEnqueue"@ { Some(s.bulk_enqueue_rule) }
    else { None }
}

/// The member holds one of the roles that open `key`.
pub open spec fn has_role_spec(key: Seq<char>, s: &RemoteGuildSettings, m: &MemberContext) -> bool {
    exists|r: u64| m.role_ids@.contains(r) && roles_for_spec(s, key).contains(r)
}

/// `SameVoiceChannel` passes: in the bot's channel; or the bot is in no
/// channel and the server either does not require it or runs the web player.
pub open spec fn same_voice_spec(s: &RemoteGuildSettings, m: &MemberContext) -> bool {
    m.same_voice_channel || (!m.bot_in_voice && (!s.require_voice_for_playback || s.web_player_mode))
}

/// The rule on its own, without the administrator bypass.
pub open spec fn base_allowed_spec(key: Seq<char>, rule: PermissionRule, s: &RemoteGuildSettings, m: &MemberContext) -> bool {
    match rule {
        PermissionRule::GuildMember => true,
        PermissionRule::SameVoiceChannel => same_voice_spec(s, m),
        PermissionRule::ConfiguredRole => has_role_spec(key, s, m),
        PermissionRule::Administrator => m.is_admin,
        PermissionRule::Disabled => false,
    }
}

/// The decision: `Disabled` stops everyone; administrators pass every other
/// rule; everyone else passes by the rule itself.
pub open spec fn allowed_spec(key: Seq<char>, rule: PermissionRule, s: &RemoteGuildSettings, m: &MemberContext) -> bool {
    if rule == PermissionRule::Disabled {
        false
    } else if m.is_admin {
        true
    } else {
        match rule {
            PermissionRule::GuildMember => true,
            PermissionRule::SameVoiceChannel => same_voice_spec(s, m),
            PermissionRule::ConfiguredRole => has_role_spec(key, s, m),
            _ => false,
        }
    }
}

impl RemoteGuildSettings {
    /// The points each vote kind is worth here.
    pub fn vote_points(&self) -> (p: VotePoints)
        ensures
            p == (VotePoints { like: self.like_points, dislike: self.dislike_points,
                super_like: self.super_like_points, wait: self.wait_points }),
    {
        VotePoints { like: self.like_points, dislike: self.dislike_points, super_like: self.super_like_points, wait: self.wait_points }
    }

    /// The roles that open `key` (see `roles_for_spec`).
    pub fn roles_for(&self, key: &str) -> (r: &Vec<u64>)
        ensures
            r@ == roles_for_spec(self, key@),
    {
        match self.rule_role_ids.get(key) {
            Some(list) => list,
            None => &self.configured_role_ids,
        }
    }

    /// The roles that make a manager (see `manager_roles_spec`).
    pub fn manager_roles(&self) -> (r: &Vec<u64>)
        ensures
            r@ == manager_roles_spec(self),
    {
        if self.manager_role_ids.len() > 0 { &self.manager_role_ids } else { &self.configured_role_ids }
    }

    /// The rule stored for one of the ten permission keys.
    pub fn rule_for(&self, key: &str) -> (r: Option<PermissionRule>)
        ensures
            r == rule_for_spec(self, key@),
    {
        if str_eq(key, "search") { Some(self.search_rule) }
        else if str_eq(key, "vote") { Some(self.vote_rule) }
        else if str_eq(key, "chat") { Some(self.chat_rule) }
        else if str_eq(key, "playback") { Some(self.playback_rule) }
        else if str_eq(key, "skip") { Some(self.skip_rule) }
        else if str_eq(key, "seek") { Some(self.seek_rule) }
        else if str_eq(key, "volume") { Some(self.volume_rule) }
        else if str_eq(key, "queueEdit") { Some(self.queue_edit_rule) }
        else if str_eq(key, "autoplay") { Some(self.autoplay_rule) }
        else if str_eq(key, "bulkEnqueue") { Some(self.bulk_enqueue_rule) }
        else { None }
    }
}

/// Whether `list` holds `x`.
pub fn contains_u64(list: &Vec<u64>, x: u64) -> (r: bool)
    ensures
        r == list@.contains(x),
{
    let mut i: usize = 0;
    while i < list.len()
        invariant
            i <= list.len(),
            forall|m: int| 0 <= m < i ==> list@[m] != x,
        decreases list.len() - i,
    {
        if list[i] == x {
            return true;
        }
        i = i + 1;
    }
    false
}

/// The member holds one of the roles that open `key`.
pub fn has_configured_role(key: &str, settings: &RemoteGuildSettings, member: &MemberContext) -> (r: bool)
    ensures
        r == has_role_spec(key@, settings, member),
{
    let allowed = settings.roles_for(key);
    let mut i: usize = 0;
    while i < member.role_ids.len()
        invariant
            i <= member.role_ids.len(),
            allowed@ == roles_for_spec(settings, key@),
            forall|m: int| 0 <= m < i ==> !allowed@.contains(#[trigger] member.role_ids@[m]),
        decreases member.role_ids.len() - i,
    {
        if contains_u64(allowed, member.role_ids[i]) {
            assert(member.role_ids@.contains(member.role_ids@[i as int]));
            return true;
        }
        i = i + 1;
    }
    assert forall|r: u64| !(member.role_ids@.contains(r) && roles_for_spec(settings, key@).contains(r)) by {
        if member.role_ids@.contains(r) {
            let m = choose|m: int| 0 <= m < member.role_ids@.len() && member.role_ids@[m] == r;
        }
    }
    false
}

/// Whether `SameVoiceChannel` passes for this member (see `same_voice_spec`).
pub fn same_voice_satisfied(settings: &RemoteGuildSettings, member: &MemberContext) -> (r: bool)
    ensures
        r == same_voice_spec(settings, member),
{
    if member.same_voice_channel {
        return true;
    }
    if member.bot_in_voice {
        return false;
    }
    !settings.require_voice_for_playback || settings.web_player_mode
}

/// Only the autoplay switch escapes the "bot must be in voice" requirement.
pub fn action_requires_voice(action: &str) -> (r: bool)
    ensures
        r == (action@ != "autoplay"@),
{
    !str_eq(action, "autoplay")
}

/// The final decision for permission `key` under `rule` (see `allowed_spec`).
pub fn permission_allowed(
    key: &str,
    rule: PermissionRule,
    settings: &RemoteGuildSettings,
    member: &MemberContext,
) -> (r: bool)
    ensures
        r == allowed_spec(key@, rule, settings, member),
{
    if rule == PermissionRule::Disabled {
        return false;
    }
    if member.is_admin {
        return true;
    }
    match rule {
        PermissionRule::GuildMember => true,
        PermissionRule::SameVoiceChannel => same_voice_satisfied(settings, member),
        PermissionRule::ConfiguredRole => has_configured_role(key, settings, member),
        PermissionRule::Administrator | PermissionRule::Disabled => false,
    }
}

/// The rule on its own, ignoring the administrator bypass; tells the screen
/// when a pass came only from being an administrator.
pub fn rule_base_allowed(
    key: &str,
    rule: PermissionRule,
    settings: &RemoteGuildSettings,
    member: &MemberContext,
) -> (r: bool)
    ensures
        r == base_allowed_spec(key@, rule, settings, member),
{
    match rule {
        PermissionRule::GuildMember => true,
        PermissionRule::SameVoiceChannel => same_voice_satisfied(settings, member),
        PermissionRule::ConfiguredRole => has_configured_role(key, settings, member),
        PermissionRule::Administrator => member.is_admin,
        PermissionRule::Disabled => false,
    }
}

/// `Disabled` stops everyone, administrators and the bot owner included.
pub proof fn law_disabled_blocks_everyone(key: Seq<char>, s: &RemoteGuildSettings, m: &MemberContext)
    ensures
        !allowed_spec(key, PermissionRule::Disabled, s, m),
{
}

/// An administrator passes every rule except `Disabled`.
pub proof fn law_admin_bypasses_every_rule_except_disabled(
    key: Seq<char>,
    rule: PermissionRule,
    s: &RemoteGuildSettings,
    m: &MemberContext,
)
    requires
        m.is_admin,
        rule != PermissionRule::Disabled,
    ensures
        allowed_spec(key, rule, s, m),
{
}

/// The decision is the rule itself or the administrator bypass, never
/// anything else; so a pass the rule alone would refuse came from the bypass.
pub proof fn law_allowed_is_rule_or_bypass(
    key: Seq<char>,
    rule: PermissionRule,
    s: &RemoteGuildSettings,
    m: &MemberContext,
)
    ensures
        allowed_spec(key, rule, s, m)
            == (rule != PermissionRule::Disabled && (m.is_admin || base_allowed_spec(key, rule, s, m))),
        allowed_spec(key, rule, s, m) && !base_allowed_spec(key, rule, s, m) ==> m.is_admin,
        base_allowed_spec(key, rule, s, m) ==> allowed_spec(key, rule, s, m),
{
}

/// A key with its own role list is decided by that list alone: other keys'
/// lists and the server-wide list do not open it, and an empty list opens it
/// to nobody but administrators.
pub proof fn law_roles_are_scoped_to_their_key(key: Seq<char>, s: &RemoteGuildSettings, m: &MemberContext)
    requires
        s.rule_role_ids@.contains_key(key),
        !m.is_admin,
    ensures
        allowed_spec(key, PermissionRule::ConfiguredRole, s, m)
            == exists|r: u64| m.role_ids@.contains(r) && s.rule_role_ids@[key].contains(r),
        s.rule_role_ids@[key].len() == 0 ==> !allowed_spec(key, PermissionRule::ConfiguredRole, s, m),
{
}

/// Being in the bot's channel always satisfies `SameVoiceChannel`; being
/// elsewhere while the bot is in voice never does; with the bot absent it
/// opens only when the server dropped the voice requirement or runs the web player.
pub proof fn law_same_voice(s: &RemoteGuildSettings, m: &MemberContext)
    ensures
        m.same_voice_channel ==> same_voice_spec(s, m),
        !m.same_voice_channel && m.bot_in_voice ==> !same_voice_spec(s, m),
        !m.same_voice_channel && !m.bot_in_voice ==> (same_voice_spec(s, m)
            == (!s.require_voice_for_playback || s.web_player_mode)),
{
}

pub open spec fn rule_key_spec(rule: PermissionRule) -> Seq<char> {
    match rule {
        PermissionRule::GuildMember => "guildMember"@,
        PermissionRule::SameVoiceChannel => "sameVoiceChannel"@,
        PermissionRule::ConfiguredRole => "configuredRole"@,
        PermissionRule::Administrator => "administrator"@,
        PermissionRule::Disabled => "disabled"@,
    }
}

/// The wire name of a rule.
pub fn rule_key(rule: PermissionRule) -> (s: &'static str)
    ensures
        s@ == rule_key_spec(rule),
{
    match rule {
        PermissionRule::GuildMember => "guildMember",
        PermissionRule::SameVoiceChannel => "sameVoiceChannel",
        PermissionRule::ConfiguredRole => "configuredRole",
        PermissionRule::Administrator => "administrator",
        PermissionRule::Disabled => "disabled",
    }
}

pub open spec fn rule_label_spec(rule: PermissionRule) -> Seq<char> {
    match rule {
        PermissionRule::GuildMember => "모든 멤버"@,
        PermissionRule::SameVoiceChannel => "같은 음성채널"@,
        PermissionRule::ConfiguredRole => "지정 역할"@,
        PermissionRule::Administrator => "관리자"@,
        PermissionRule::Disabled => "사용 안 함"@,
    }
}

/// The label the console shows for a rule.
pub fn rule_label(rule: PermissionRule) -> (s: &'static str)
    ensures
        s@ == rule_label_spec(rule),
{
    match rule {
        PermissionRule::GuildMember => "모든 멤버",
        PermissionRule::SameVoiceChannel => "같은 음성채널",
        PermissionRule::ConfiguredRole => "지정 역할",
        PermissionRule::Administrator => "관리자",
        PermissionRule::Disabled => "사용 안 함",
    }
}

/// Reads a rule's wire name; the inverse of `rule_key`.
pub fn parse_rule(value: &str) -> (r: Option<PermissionRule>)
    ensures
        r is Some ==> rule_key_spec(r->0) == value@,
        r is None ==> forall|rule: PermissionRule| rule_key_spec(rule) != value@,
{
    if str_eq(value, "guildMember") { Some(PermissionRule::GuildMember) }
    else if str_eq(value, "sameVoiceChannel") { Some(PermissionRule::SameVoiceChannel) }
    else if str_eq(value, "configuredRole") { Some(PermissionRule::ConfiguredRole) }
    else if str_eq(value, "administrator") { Some(PermissionRule::Administrator) }
    else if str_eq(value, "disabled") { Some(PermissionRule::Disabled) }
    else { None }
}

/// Renamed permission keys mapped to their current names.
pub fn canonical_permission_key<'a>(key: &'a str) -> (r: &'a str)
    ensures
        key@ == "autoplaySeed"@ ==> r@ == "autoplay"@,
        key@ == "playlistEnqueue"@ ==> r@ == "bulkEnqueue"@,
        key@ != "autoplaySeed"@ && key@ != "playlistEnqueue"@ ==> r@ == key@,
{
    proof {
        reveal_strlit("autoplaySeed");
        reveal_strlit("playlistEnqueue");
        assert("autoplaySeed"@[0] != "playlistEnqueue"@[0]);
    }
    if str_eq(key, "autoplaySeed") {
        "autoplay"
    } else if str_eq(key, "playlistEnqueue") {
        "bulkEnqueue"
    } else {
        key
    }
}

} // verus!
