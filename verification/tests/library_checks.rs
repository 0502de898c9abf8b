use musicbot_remote::access::{autoplay_gate, chat_gate, permission_entry, AuthContext, Suspension, SuspensionScope};
use musicbot_remote::audience::{tier_of_member, GuildSnapshot, MemberSnapshot, PermissionAudience};
use musicbot_remote::auth::{
    is_owner_user, guild_from_session, parse_owner_ids, to_oauth_guilds, AccessTier, DiscordGuildResponse,
    OAuthGuild, RemoteAuthConfig, RemoteSession,
};
use musicbot_remote::catalog::{
    audit_hidden_count, event_targets, parse_role_ids, rate_limited, resolve_entry_index, web_listener_count,
    AuditKind, ChartWindow, RoleIdValue,
};
use musicbot_remote::lyrics::parse_lrc;
use musicbot_remote::mention::{lower_chars, match_prefixed};
use musicbot_remote::pages::{denied, guild_selector, html_escape, login, plain, public_now, script_json, shell};
use musicbot_remote::permissions::{
    canonical_permission_key, parse_rule, rule_key, rule_label, MemberContext, PermissionRule, RemoteGuildSettings,
};
use musicbot_remote::presence::PresenceRegistry;
use musicbot_remote::public_feed::{public_feed, PublicFeed, PUBLIC_UPCOMING_MAX, UNTITLED};
use musicbot_remote::queue::{bulk_cap, plan_bulk, provider_named, BulkOutcome, BulkStep, ProviderKind, TrackRef};
use musicbot_remote::quorum::{count_common, VoteSkipBasis};
use musicbot_remote::roles::RuleRoles;
use musicbot_remote::scoring::{parse_vote_kind, QueueVoteKind, VotePoints, VOTE_POINT_MIN};
use musicbot_remote::skipvote::{resolve_skip, resolve_skip_at, skip_vote_cancel, SkipDecision, SkipVoteState};
use musicbot_remote::sorting::{sort_strings, sort_u64};
use musicbot_remote::text::{decimal_string, str_eq, trim};
use musicbot_remote::web::{etag_check, host_of, percent_encode, percent_encode_path, safe_next};
use std::collections::HashSet;
use std::time::Instant;

fn set(values: &[u64]) -> HashSet<u64> {
    values.iter().copied().collect()
}

fn session(user_id: u64, guilds: Vec<OAuthGuild>) -> RemoteSession {
    RemoteSession {
        user_id,
        username: "minsu".into(),
        display_name: "민수 <DJ>".into(),
        avatar_url: None,
        guilds,
        access_token: "token".into(),
        refresh_token: None,
        csrf_token: "csrf\"1".into(),
        created: Instant::now(),
        token_expires: Instant::now(),
        is_developer: false,
    }
}

fn guild(id: u64, icon: Option<&str>) -> OAuthGuild {
    OAuthGuild { id, name: "Music & Chill".into(), icon: icon.map(String::from), owner: false, permissions: 0 }
}

fn context(tier: AccessTier, member: MemberContext, settings: RemoteGuildSettings) -> AuthContext {
    AuthContext {
        session: session(5, Vec::new()),
        guild: guild(9, None),
        settings,
        member,
        tier,
        suspensions: Vec::new(),
        viewer_reason: None,
        roles_known: true,
    }
}

#[test]
fn a_second_press_withdraws_the_vote() {
    let mut slot: Option<SkipVoteState> = None;
    let listeners = set(&[1, 2, 3]);
    let viewers = HashSet::new();
    let first = resolve_skip(&mut slot, true, Some("item-a"), Some(99), false, 1, &listeners, &viewers,
        VoteSkipBasis::Listeners, 50, 2);
    match first {
        SkipDecision::Pending { quorum, mine } => {
            assert!(mine);
            assert_eq!((quorum.have, quorum.need, quorum.pool), (1, 2, 3));
        }
        other => panic!("expected a pending vote, got {other:?}"),
    }
    assert_eq!(slot.as_ref().unwrap().voters(), &set(&[1]));
    let second = resolve_skip(&mut slot, true, Some("item-a"), Some(99), false, 1, &listeners, &viewers,
        VoteSkipBasis::Listeners, 50, 2);
    assert!(matches!(second, SkipDecision::Pending { mine: false, .. }));
    assert!(slot.as_ref().unwrap().voters().is_empty());
}

#[test]
fn a_vote_that_reaches_its_quorum_skips_and_closes() {
    let mut slot = None;
    let listeners = set(&[1, 2, 3]);
    let viewers = HashSet::new();
    resolve_skip(&mut slot, true, Some("item-a"), None, false, 1, &listeners, &viewers, VoteSkipBasis::Listeners, 50, 2);
    let done = resolve_skip(&mut slot, true, Some("item-a"), None, false, 2, &listeners, &viewers,
        VoteSkipBasis::Listeners, 50, 2);
    assert_eq!(done, SkipDecision::Immediate { by_votes: Some(2) });
    assert!(slot.is_none());
}

#[test]
fn managers_requesters_and_empty_rooms_skip_at_once() {
    let listeners = set(&[1, 2, 3]);
    let none = HashSet::new();
    let mut slot = None;
    assert_eq!(resolve_skip(&mut slot, true, Some("i"), None, true, 1, &listeners, &none, VoteSkipBasis::Both, 50, 2),
        SkipDecision::Immediate { by_votes: None });
    assert_eq!(resolve_skip(&mut slot, true, Some("i"), Some(1), false, 1, &listeners, &none, VoteSkipBasis::Both, 50, 2),
        SkipDecision::Immediate { by_votes: None });
    assert_eq!(resolve_skip(&mut slot, true, Some("i"), None, false, 1, &none, &none, VoteSkipBasis::Both, 50, 2),
        SkipDecision::Immediate { by_votes: None });
    assert_eq!(resolve_skip(&mut slot, false, Some("i"), None, false, 1, &listeners, &none, VoteSkipBasis::Both, 50, 2),
        SkipDecision::Immediate { by_votes: None });
    assert_eq!(resolve_skip(&mut slot, true, None, None, false, 1, &listeners, &none, VoteSkipBasis::Both, 50, 2),
        SkipDecision::Immediate { by_votes: None });
    assert!(slot.is_none());
}

#[test]
fn votes_do_not_carry_over_to_the_next_song_or_past_expiry() {
    let listeners = set(&[1, 2, 3, 4]);
    let none = HashSet::new();
    let mut slot = None;
    resolve_skip(&mut slot, true, Some("a"), None, false, 1, &listeners, &none, VoteSkipBasis::Listeners, 50, 3);
    resolve_skip(&mut slot, true, Some("b"), None, false, 2, &listeners, &none, VoteSkipBasis::Listeners, 50, 3);
    let open = slot.as_ref().unwrap();
    assert_eq!(open.item_id(), "b");
    assert_eq!(open.voters(), &set(&[2]));
    assert!(!open.is_expired());
    resolve_skip_at(&mut slot, true, true, Some("b"), None, false, 3, &listeners, &none, VoteSkipBasis::Listeners, 50, 3);
    assert_eq!(slot.as_ref().unwrap().voters(), &set(&[3]));
}

#[test]
fn cancelling_the_last_vote_closes_it() {
    let listeners = set(&[1, 2, 3, 4]);
    let none = HashSet::new();
    let mut slot = None;
    resolve_skip(&mut slot, true, Some("a"), None, false, 1, &listeners, &none, VoteSkipBasis::Listeners, 50, 3);
    resolve_skip(&mut slot, true, Some("a"), None, false, 2, &listeners, &none, VoteSkipBasis::Listeners, 50, 3);
    skip_vote_cancel(&mut slot, 1);
    assert_eq!(slot.as_ref().unwrap().voters(), &set(&[2]));
    skip_vote_cancel(&mut slot, 2);
    assert!(slot.is_none());
    skip_vote_cancel(&mut slot, 2);
    assert!(slot.is_none());
}

#[test]
fn votes_needed_rounds_up_and_counts_common_members() {
    assert_eq!(VoteSkipBasis::votes_needed(5, 50, 1), 3);
    assert_eq!(VoteSkipBasis::votes_needed(10, 0, 0), 0);
    assert_eq!(VoteSkipBasis::votes_needed(4, 150, 1), 4);
    assert_eq!(count_common(&set(&[1, 2, 3]), &set(&[2, 3, 4])), 2);
    assert_eq!(VoteSkipBasis::parse("either"), Some(VoteSkipBasis::Either));
    assert_eq!(VoteSkipBasis::parse("Either"), None);
    assert_eq!(VoteSkipBasis::Both.as_str(), "both");
}

#[test]
fn presence_counts_sockets_and_lists_viewers_in_order() {
    let mut registry = PresenceRegistry::new();
    registry.add(1, 30);
    registry.add(1, 10);
    registry.add(1, 30);
    registry.add(2, 20);
    assert_eq!(registry.viewers_of(1), vec![10, 30]);
    assert_eq!(registry.viewer_count(1), 2);
    assert_eq!(registry.count(1, 30), 2);
    assert!(!registry.remove(1, 30));
    assert_eq!(registry.viewers_of(1), vec![10, 30]);
    assert!(registry.remove(1, 30));
    assert_eq!(registry.viewers_of(1), vec![10]);
    assert!(!registry.remove(1, 30));
    assert_eq!(registry.viewers_of(2), vec![20]);
    assert_eq!(registry.viewers_of(3), Vec::<u64>::new());
}

fn track(id: &str, duration_ms: Option<u64>) -> TrackRef {
    TrackRef {
        provider: ProviderKind::YouTube,
        content_id: id.into(),
        source_url: format!("https://youtu.be/{id}"),
        title: None,
        artist: None,
        duration_ms,
        variant_key: None,
    }
}

#[test]
fn bulk_enqueue_skips_duplicates_and_stops_at_the_cap() {
    assert_eq!(bulk_cap(10, 7, 0, 0, 200), 3);
    assert_eq!(bulk_cap(0, 7, 5, 1, 200), 4);
    assert_eq!(bulk_cap(0, 7, 0, 1, 0), usize::MAX);
    assert_eq!(bulk_cap(3, 9, 0, 0, 0), 0);
    let tracks = vec![
        track("a", Some(1000)),
        track("b", Some(999_000)),
        track("a", Some(1000)),
        track("c", None),
        track("d", None),
        track("e", None),
        track("q", None),
    ];
    let usable = vec![true, true, true, false, true, true, true];
    let existing = vec!["youtube:q".to_string()];
    let steps = plan_bulk(&tracks, &usable, &existing, 600, 2);
    assert_eq!(steps, vec![
        BulkStep::Add, BulkStep::Skip, BulkStep::Skip, BulkStep::Skip, BulkStep::Add, BulkStep::Limit, BulkStep::Skip,
    ]);
    let outcome = BulkOutcome::tally("재생목록".to_string(), &steps);
    assert_eq!((outcome.added, outcome.skipped, outcome.limited), (2, 4, 1));
    assert_eq!(outcome.message(),
        "재생목록 에서 2곡을 담았어요. 대기열 한도 때문에 1곡은 못 담았어요. 차단·길이 제한·중복으로 4곡은 건너뛰었어요.");
    let nothing = BulkOutcome { source: "차트".into(), added: 0, skipped: 0, limited: 3 };
    assert_eq!(nothing.message(), "차트 에서 담을 수 있는 곡이 없었어요. 대기열이 꽉 찼어요.");
    assert_eq!(track("abc", None).cache_key(), "youtube:abc");
}

#[test]
fn oauth_values_keep_or_clear_the_secret() {
    let config = RemoteAuthConfig::new(Some("1".into()), Some("secret".into()), "https://a.example".into(), true,
        vec![42, 43], Some("AIzaKEY".into()));
    assert!(config.configured());
    let kept = config.updated("2".into(), None, false, "https://b.example///".into());
    assert!(kept.has_client_secret());
    assert_eq!(kept.client_secret(), Some("secret"));
    assert_eq!(kept.public_base_url, "https://b.example");
    assert_eq!(kept.owner_user_ids, vec![42, 43]);
    assert_eq!(kept.redirect_uri(), "https://b.example/music/oauth/callback");
    let cleared = kept.updated("2".into(), Some("new".into()), true, "https://b.example".into());
    assert!(!cleared.has_client_secret());
    assert!(!cleared.configured());
    let replaced = kept.updated("2".into(), Some("new".into()), false, "https://b.example".into());
    assert_eq!(replaced.client_secret(), Some("new"));
    let blank = kept.updated("2".into(), Some(String::new()), false, "https://b.example".into());
    assert_eq!(blank.client_secret(), Some("secret"));
    assert!(blank.has_client_secret());
    let spaces = kept.updated("2".into(), Some("  ".into()), false, "https://b.example".into());
    assert_eq!(spaces.client_secret(), Some("secret"));
    assert_eq!(config.masked_youtube_api_key().as_deref(), Some("•••••••"));
    let short = config.with_youtube_api_key(Some(" ab ".into()), false);
    assert_eq!(short.youtube_api_key(), Some("ab"));
    assert_eq!(short.masked_youtube_api_key().as_deref(), Some("••••"));
    assert_eq!(config.with_owner_user_ids(vec![7]).owner_user_ids, vec![7]);
}

#[test]
fn owner_id_lists_accept_every_separator() {
    assert_eq!(parse_owner_ids("+5;6\n7 \t8\t,18446744073709551616,18446744073709551615"),
        vec![5, 6, 7, 8, 18446744073709551615]);
    assert!(is_owner_user(&vec![5, 6], 6));
    assert!(!is_owner_user(&vec![5, 6], 7));
}

#[test]
fn discord_guilds_become_session_guilds() {
    let rows = vec![
        DiscordGuildResponse { id: "11".into(), name: "a".into(), icon: Some("ic".into()), owner: true, permissions: "8".into() },
        DiscordGuildResponse { id: "x".into(), name: "b".into(), icon: None, owner: false, permissions: "0".into() },
        DiscordGuildResponse { id: "12".into(), name: "c".into(), icon: None, owner: false, permissions: "".into() },
    ];
    let guilds = to_oauth_guilds(rows);
    assert_eq!(guilds.len(), 2);
    assert_eq!((guilds[0].id, guilds[0].permissions), (11, 8));
    assert_eq!((guilds[1].id, guilds[1].permissions), (12, 0));
    assert_eq!(guilds[0].icon_url().as_deref(), Some("https://cdn.discordapp.com/icons/11/ic.png?size=128"));
    assert_eq!(guilds[1].icon_url(), None);
    assert!(guilds[0].is_admin());
    let manager = OAuthGuild { permissions: 32, ..guild(3, None) };
    assert!(manager.is_admin());
    assert!(!guild(3, None).is_admin());
    let s = session(1, guilds);
    assert_eq!(guild_from_session(&s, 12).map(|g| g.name), Some("c".to_string()));
    assert!(guild_from_session(&s, 13).is_none());
}

#[test]
fn refusals_say_why() {
    let mut settings = RemoteGuildSettings::default();
    settings.search_rule = PermissionRule::ConfiguredRole;
    settings.configured_role_ids = vec![1, 2];
    let mut viewer = context(AccessTier::Viewer, MemberContext::default(), RemoteGuildSettings::default());
    let refused = viewer.require("chat", PermissionRule::GuildMember, "채팅할 권한이 없어요.").unwrap_err();
    assert_eq!((refused.status, refused.message.as_str()), (403, "읽기 전용이라 아무것도 조작할 수 없어요."));
    viewer.viewer_reason = Some("정지 중".into());
    assert_eq!(viewer.require("chat", PermissionRule::GuildMember, "x").unwrap_err().message, "정지 중");

    let mut member = context(AccessTier::Member, MemberContext::default(), settings);
    let refused = member.require("search", PermissionRule::ConfiguredRole, "신청할 권한이 없어요.").unwrap_err();
    assert_eq!(refused.status, 403);
    assert_eq!(refused.message,
        "신청할 권한이 없어요. 지정된 역할(2개) 중 하나를 가진 사람과 서버 관리자만 할 수 있어요. 관리자에게 역할을 요청해 보세요.");
    member.roles_known = false;
    assert_eq!(member.require("search", PermissionRule::ConfiguredRole, "x").unwrap_err().status, 503);
    assert!(member.require("search", PermissionRule::GuildMember, "x").is_ok());
    assert_eq!(member.require_manager().unwrap_err().message, "서버 관리자만 할 수 있어요.");
    assert!(context(AccessTier::Owner, MemberContext::default(), RemoteGuildSettings::default()).require_manager().is_ok());
    assert_eq!(member.who_has("search", PermissionRule::Disabled),
        "이 기능은 서버 설정에서 꺼져 있어요. 관리자도 못 쓰고, 설정에서 켜야 열려요.");
}

#[test]
fn suspensions_block_their_scope_and_everything_under_all() {
    let mut ctx = context(AccessTier::Member, MemberContext::default(), RemoteGuildSettings::default());
    ctx.suspensions = vec![Suspension { scope: SuspensionScope::Chat, reason: Some("도배".into()), expires_utc: None, by_user_id: 1 }];
    assert!(ctx.require_not_suspended(SuspensionScope::Queue).is_ok());
    let refused = ctx.require_not_suspended(SuspensionScope::Chat).unwrap_err();
    assert_eq!(refused.message, "채팅 정지 중이에요. 사유: 도배");
    assert!(chat_gate(&ctx).is_err());
    assert!(autoplay_gate(&ctx).is_ok());
    ctx.suspensions = vec![Suspension { scope: SuspensionScope::All, reason: None, expires_utc: None, by_user_id: 1 }];
    assert_eq!(ctx.require_not_suspended(SuspensionScope::Queue).unwrap_err().message, "전체 정지 중이에요.");
    ctx.suspensions = Vec::new();
    ctx.settings.chat_enabled = false;
    assert_eq!(chat_gate(&ctx).unwrap_err().message, "관리자가 채팅을 꺼 뒀어요.");
    assert_eq!(SuspensionScope::parse("queue"), Some(SuspensionScope::Queue));
    assert_eq!(SuspensionScope::parse("bogus"), None);
}

#[test]
fn permission_lines_explain_refusals_and_admin_passes() {
    let admin = context(AccessTier::Manager,
        MemberContext { is_admin: true, ..Default::default() }, RemoteGuildSettings::default());
    let entry = permission_entry(&admin, true, "playback", PermissionRule::SameVoiceChannel, &Vec::new());
    assert!(entry.allowed && entry.via_admin && entry.reason.is_none());
    let member = context(AccessTier::Member, MemberContext::default(), RemoteGuildSettings::default());
    let names = vec!["DJ".to_string(), "VIP".to_string()];
    let entry = permission_entry(&member, true, "search", PermissionRule::ConfiguredRole, &names);
    assert!(!entry.allowed);
    assert_eq!(entry.reason.as_deref(), Some("@DJ · @VIP 역할이 있어야 눌러요."));
    let off = permission_entry(&member, false, "chat", PermissionRule::GuildMember, &Vec::new());
    assert_eq!(off.reason.as_deref(), Some("이 기능은 서버에서 꺼 뒀어요."));
}

fn snapshot() -> GuildSnapshot {
    GuildSnapshot {
        owner_id: 1,
        admin_role_ids: vec![900],
        members: vec![
            MemberSnapshot { user_id: 1, is_bot: false, role_ids: vec![], voice_channel: Some(50) },
            MemberSnapshot { user_id: 2, is_bot: false, role_ids: vec![900, 10], voice_channel: None },
            MemberSnapshot { user_id: 3, is_bot: false, role_ids: vec![10], voice_channel: Some(50) },
            MemberSnapshot { user_id: 4, is_bot: false, role_ids: vec![20], voice_channel: Some(60) },
            MemberSnapshot { user_id: 5, is_bot: true, role_ids: vec![10], voice_channel: Some(50) },
        ],
    }
}

#[test]
fn audience_counts_people_not_bots() {
    let mut settings = RemoteGuildSettings::default();
    settings.configured_role_ids = vec![10, 20];
    settings.manager_role_ids = vec![999];
    let g = snapshot();
    let audience = PermissionAudience::of(Some(&g), Some(50), &vec![], &settings);
    assert_eq!((audience.members, audience.admins, audience.same_voice), (4, 2, 2));
    assert_eq!(audience.for_rule(PermissionRule::Disabled, "search", &settings), Some(0));
    assert_eq!(audience.for_rule(PermissionRule::GuildMember, "search", &settings), Some(4));
    assert_eq!(audience.for_rule(PermissionRule::SameVoiceChannel, "search", &settings), Some(2));
    assert_eq!(audience.for_rule(PermissionRule::ConfiguredRole, "search", &settings), Some(4));
    settings.rule_role_ids.insert("search".into(), vec![20]);
    assert_eq!(audience.for_rule(PermissionRule::ConfiguredRole, "search", &settings), Some(3));
    settings.manager_role_ids = Vec::new();
    let fallback = PermissionAudience::of(Some(&g), Some(50), &vec![], &settings);
    assert_eq!(fallback.admins, 4);
    let unknown = PermissionAudience::of(None, Some(50), &vec![], &settings);
    assert_eq!(unknown.for_rule(PermissionRule::GuildMember, "search", &settings), None);
}

#[test]
fn member_tiers_follow_ownership_and_roles() {
    let mut settings = RemoteGuildSettings::default();
    settings.manager_role_ids = vec![20];
    let g = snapshot();
    assert_eq!(tier_of_member(&vec![3], Some(&g), 3, &settings), AccessTier::Owner);
    assert_eq!(tier_of_member(&vec![], Some(&g), 1, &settings), AccessTier::Manager);
    assert_eq!(tier_of_member(&vec![], Some(&g), 2, &settings), AccessTier::Manager);
    assert_eq!(tier_of_member(&vec![], Some(&g), 4, &settings), AccessTier::Manager);
    assert_eq!(tier_of_member(&vec![], Some(&g), 3, &settings), AccessTier::Member);
    assert_eq!(tier_of_member(&vec![], Some(&g), 77, &settings), AccessTier::Member);
    assert_eq!(tier_of_member(&vec![], None, 1, &settings), AccessTier::Member);
}

#[test]
fn urls_are_encoded_byte_by_byte() {
    assert_eq!(percent_encode("a b/ü~"), "a%20b%2F%C3%BC~");
    assert_eq!(percent_encode_path("/music/guilds/1?x"), "/music/guilds/1%3Fx");
    assert_eq!(host_of("http://x.example/a://B.Example/c"), "b.example");
    assert_eq!(host_of("  Music.Example.com  "), "music.example.com");
    assert_eq!(safe_next(Some("  /music/guilds/1  ")).as_deref(), Some("/music/guilds/1"));
}

#[test]
fn etags_hash_the_body() {
    let empty = etag_check("", None);
    assert_eq!(empty.etag, "\"e3b0c44298fc1c14\"");
    assert!(!empty.not_modified);
    let again = etag_check("", Some("\"zzz\", \"e3b0c44298fc1c14\""));
    assert!(again.not_modified);
    let other = etag_check("{}", Some("\"e3b0c44298fc1c14\""));
    assert!(!other.not_modified);
    assert_ne!(other.etag, empty.etag);
}

#[test]
fn pages_escape_what_they_embed() {
    assert_eq!(html_escape("<a href=\"x\">Tom & Jerry's</a>"),
        "&lt;a href=&quot;x&quot;&gt;Tom &amp; Jerry&#39;s&lt;/a&gt;");
    let page = login(true, true, Some("<b>다시</b>"), Some("/music/guilds/1 x"), "v1");
    assert!(page.contains("href=\"/music/oauth/start?next=/music/guilds/1%20x\""));
    assert!(page.contains("value=\"/music/guilds/1 x\""));
    assert!(page.contains("&lt;b&gt;다시&lt;/b&gt;"));
    assert!(page.contains("tokens.css?v=v1"));
    let unconfigured = login(false, false, None, None, "v1");
    assert!(unconfigured.contains("OAuth 설정이 아직 없어요."));
    assert!(!unconfigured.contains("dev-login"));
    let s = session(1, Vec::new());
    let empty = guild_selector(&s, &[], "v1");
    assert!(empty.contains("봇이 들어가 있는 서버가 없어요."));
    assert!(empty.contains("민수 &lt;DJ&gt;"));
    assert!(empty.contains("value=\"csrf&quot;1\""));
    let one = guild_selector(&s, &[guild(42, Some("ic"))], "v1");
    assert!(one.contains("href=\"/music/guilds/42\""));
    assert!(one.contains("Music &amp; Chill"));
    assert!(one.contains("https://cdn.discordapp.com/icons/42/ic.png?size=128"));
    assert!(public_now(77, "b9", "v1").contains("data-guild=\"77\""));
    assert!(denied("<no>", 5, "v1").contains("&lt;no&gt;"));
    assert!(plain("제목", "v2", "<p>x</p>").contains("<title>제목 · 마참뮤직</title>"));
}

#[test]
fn playlist_removal_prefers_the_position_unless_the_key_disagrees() {
    let keys = vec![Some("youtube:a".to_string()), None, Some("youtube:c".to_string())];
    assert_eq!(resolve_entry_index(&keys, Some(1), None, None), Some(1));
    assert_eq!(resolve_entry_index(&keys, None, Some(0), Some("youtube:a")), Some(0));
    assert_eq!(resolve_entry_index(&keys, Some(0), None, Some("youtube:c")), Some(2));
    assert_eq!(resolve_entry_index(&keys, Some(0), None, Some("youtube:z")), Some(0));
    assert_eq!(resolve_entry_index(&keys, Some(9), None, Some("youtube:c")), Some(2));
    assert_eq!(resolve_entry_index(&keys, None, None, None), None);
    assert_eq!(resolve_entry_index(&keys, Some(9), None, None), None);
}

#[test]
fn role_id_lists_are_checked() {
    let items = vec![
        RoleIdValue::Text(" 12 ".into()),
        RoleIdValue::Number(Some(12)),
        RoleIdValue::Number(Some(0)),
        RoleIdValue::Number(Some(13)),
    ];
    assert_eq!(parse_role_ids(Some(&items)), Ok(vec![12, 13]));
    assert_eq!(parse_role_ids(None), Err("역할 목록은 배열이어야 해요.".to_string()));
    let bad = vec![RoleIdValue::Text("x".into())];
    assert_eq!(parse_role_ids(Some(&bad)), Err("역할 ID가 숫자가 아니에요.".to_string()));
    let other = vec![RoleIdValue::Other];
    assert!(parse_role_ids(Some(&other)).is_err());
    let many: Vec<RoleIdValue> = (1..=51).map(|n| RoleIdValue::Number(Some(n))).collect();
    assert_eq!(parse_role_ids(Some(&many)), Err("지정 역할은 최대 50개까지예요.".to_string()));
}

#[test]
fn small_readers_behave() {
    let entries = [(AuditKind::Chat, true), (AuditKind::Song, true), (AuditKind::Chat, false), (AuditKind::Settings, true)];
    assert_eq!(audit_hidden_count(&[AuditKind::Song], &entries), 2);
    assert_eq!(audit_hidden_count(&[], &entries), 0);
    assert_eq!(web_listener_count(&[(1, 2), (1, 3), (2, 2)], 1), 2);
    assert!(rate_limited(Some(100), 350));
    assert!(!rate_limited(Some(350), 350));
    assert!(!rate_limited(None, 350));
    assert!(event_targets(7, None, 7, 22));
    assert!(event_targets(7, Some(11), 7, 11));
    assert!(!event_targets(7, Some(11), 7, 22));
    assert!(!event_targets(8, Some(11), 7, 11));
    assert_eq!(ChartWindow::parse("year"), ChartWindow::Month);
    assert_eq!(AuditKind::parse("moderation"), Some(AuditKind::Moderation));
}

#[test]
fn permission_names_round_trip() {
    for rule in [PermissionRule::GuildMember, PermissionRule::SameVoiceChannel, PermissionRule::ConfiguredRole,
        PermissionRule::Administrator, PermissionRule::Disabled] {
        assert_eq!(parse_rule(rule_key(rule)), Some(rule));
    }
    assert_eq!(parse_rule("everyone"), None);
    assert_eq!(rule_label(PermissionRule::Disabled), "사용 안 함");
    assert_eq!(canonical_permission_key("autoplaySeed"), "autoplay");
    assert_eq!(canonical_permission_key("playlistEnqueue"), "bulkEnqueue");
    assert_eq!(canonical_permission_key("search"), "search");
    let mut settings = RemoteGuildSettings::default();
    settings.configured_role_ids = vec![1];
    assert_eq!(settings.manager_roles(), &vec![1]);
    settings.manager_role_ids = vec![2];
    assert_eq!(settings.manager_roles(), &vec![2]);
    assert_eq!(settings.rule_for("library"), None);
}

#[test]
fn role_lists_replace_per_key() {
    let mut roles = RuleRoles::new();
    roles.insert("search".into(), vec![1]);
    roles.insert("volume".into(), vec![2]);
    roles.insert("search".into(), vec![3, 4]);
    assert_eq!(roles.get("search"), Some(&vec![3, 4]));
    assert_eq!(roles.get("volume"), Some(&vec![2]));
    assert_eq!(roles.get("chat"), None);
}

#[test]
fn vote_points_are_clamped() {
    let wild = VotePoints { like: 100, dislike: -100, super_like: 3, wait: 0 }.clamped();
    assert_eq!(wild.dislike, VOTE_POINT_MIN);
    assert_eq!(wild.super_like, 3);
    assert_eq!(parse_vote_kind("superlike"), Some(QueueVoteKind::SuperLike));
    assert_eq!(parse_vote_kind(""), None);
}

#[test]
fn text_helpers_follow_std() {
    assert_eq!(decimal_string(0), "0");
    assert_eq!(decimal_string(18446744073709551615), "18446744073709551615");
    assert_eq!(trim("\u{3000}\t a b \u{a0}\n"), "a b");
    assert!(str_eq("같다", "같다"));
    assert!(!str_eq("같다", "다르다"));
    assert_eq!(lower_chars("ÀBC"), vec!['à', 'b', 'c']);
    assert_eq!(match_prefixed("@ÀB", '@', &["àb".to_string()]), vec![0]);
}

#[test]
fn sorting_uses_string_order() {
    let v = vec!["2".to_string(), "100".to_string(), "11".to_string(), "100".to_string()];
    assert_eq!(sort_strings(&v), vec!["100".to_string(), "100".to_string(), "11".to_string(), "2".to_string()]);
    assert_eq!(sort_u64(&vec![5, 1, 3, 1]), vec![1, 1, 3, 5]);
}

#[test]
fn lrc_lines_without_a_timestamp_are_skipped() {
    let lines = parse_lrc("[ti:Song]\r\n  [01:02] 가사 \r\n[1:2.5]x\n[00:00.0009]\nplain\n[00:05.]bad");
    let times: Vec<u64> = lines.iter().map(|l| l.start_ms).collect();
    assert_eq!(times, vec![62_000, 62_500, 1]);
    assert_eq!(lines[0].text, "가사");
    assert_eq!(lines[1].text, "x");
    assert_eq!(lines[2].text, "");
    assert!(parse_lrc("").is_empty());
}

#[test]
fn targeted_events_never_leak_to_other_sockets() {
    // An event addressed to user 42 on guild 1.
    assert!(event_targets(1, Some(42), 1, 42));
    assert!(!event_targets(1, Some(42), 1, 43));
    // A broadcast on guild 1.
    assert!(event_targets(1, None, 1, 42));
    assert!(event_targets(1, None, 1, 43));
}

#[test]
fn bootstrap_json_cannot_close_its_script() {
    assert_eq!(script_json(r#"{"name":"</script><b>"}"#), r#"{"name":"<\/script><b>"}"#);
    assert_eq!(script_json("<</"), r"<<\/");
    assert_eq!(script_json("a/<b"), "a/<b");
    assert_eq!(script_json(""), "");
    let page = shell("A&B", "v9", "portal.css", "portal.js", r#"{"t":"</x>"}"#, "<div id=\"app\"></div>");
    assert!(page.starts_with("<!doctype html><html lang=\"ko\"><head>"));
    assert!(page.contains("<title>A&amp;B · 마참뮤직</title>"));
    assert!(page.contains("<meta name=\"theme-color\" id=\"theme-color\" content=\"#07090f\">"));
    assert!(page.contains("<link rel=\"stylesheet\" href=\"/music/assets/portal.css?v=v9\">\n</head><body>\n<div id=\"app\"></div>\n"));
    assert!(page.contains(r#"<script>window.MACHAM={"t":"<\/x>"};</script>"#));
    assert!(page.contains("<script type=\"module\" src=\"/music/assets/portal.js?v=v9\"></script>"));
    assert!(page.contains("register('/music/sw.js?v=v9')"));
    assert!(page.ends_with("</script>\n</body></html>"));
    assert!(!page.contains("</x>"));
}

#[test]
fn public_feed_shows_titles_only_when_published() {
    let upcoming: Vec<Option<String>> = vec![
        Some("a".into()), None, Some("c".into()), Some("d".into()), Some("e".into()), Some("f".into()), Some("g".into()),
    ];
    let current = Some((None, Some("Artist".to_string())));
    let feed = public_feed(true, true, true, &current, &upcoming).unwrap();
    assert_eq!(feed.current_title.as_deref(), Some(UNTITLED));
    assert_eq!(feed.current_artist.as_deref(), Some("Artist"));
    assert_eq!(feed.upcoming_titles, vec!["a", "제목 없음", "c", "d", "e"]);
    assert_eq!(feed.upcoming_titles.len(), PUBLIC_UPCOMING_MAX);
    assert_eq!(feed.queue_total, 7);
    let idle = public_feed(true, true, true, &None, &vec![]).unwrap();
    assert_eq!(idle, PublicFeed { current_title: None, current_artist: None, upcoming_titles: vec![], queue_total: 0 });
    for (approved, published, present) in [(false, true, true), (true, false, true), (true, true, false)] {
        let refused = public_feed(approved, published, present, &current, &upcoming).unwrap_err();
        assert_eq!(refused.status, 404);
        assert_eq!(refused.message, "여기서는 볼 수 없어요.");
    }
}

#[test]
fn stored_settings_are_cleaned_on_load() {
    let config = RemoteAuthConfig::from_settings(
        Some("  123 ".into()),
        Some("   ".into()),
        None,
        " 42, 0;42\n7 ",
        Some(" AIzaKEY ".into()),
        Some("1".into()),
    );
    assert_eq!(config.client_id.as_deref(), Some("123"));
    assert!(!config.has_client_secret());
    assert_eq!(config.public_base_url, "http://localhost:8693");
    assert_eq!(config.owner_user_ids, vec![42, 7]);
    assert_eq!(config.youtube_api_key(), Some("AIzaKEY"));
    assert!(config.dev_login);
    let other = RemoteAuthConfig::from_settings(None, Some(" s ".into()), Some(" https://x.example// ".into()), "", None,
        Some("true".into()));
    assert_eq!(other.client_id, None);
    assert_eq!(other.client_secret(), Some("s"));
    assert_eq!(other.public_base_url, "https://x.example");
    assert!(other.owner_user_ids.is_empty());
    assert!(!other.dev_login);
}

#[test]
fn providers_are_read_by_name() {
    assert_eq!(provider_named(Some("SoundCloud")), ProviderKind::SoundCloud);
    assert_eq!(provider_named(Some("YouTubeMusic")), ProviderKind::YouTubeMusic);
    assert_eq!(provider_named(Some("YouTube")), ProviderKind::YouTube);
    assert_eq!(provider_named(Some("soundcloud")), ProviderKind::YouTube);
    assert_eq!(provider_named(None), ProviderKind::YouTube);
    let sc = TrackRef {
        provider: ProviderKind::SoundCloud,
        content_id: "xyz".into(),
        source_url: "https://soundcloud.com/a/xyz".into(),
        title: None,
        artist: None,
        duration_ms: None,
        variant_key: None,
    };
    assert_eq!(sc.cache_key(), "soundcloud:xyz");
}

#[test]
fn pages_show_what_they_promise() {
    let refused = denied("<b>관리자</b>만", 42, "v1");
    assert!(refused.contains("<p class=\"gate__lead\">&lt;b&gt;관리자&lt;/b&gt;만</p>"));
    assert!(refused.contains("href=\"/music/guilds/42\""));
    let public = public_now(42, "b7", "v1");
    assert!(public.contains("data-guild=\"42\""));
    assert!(public.contains("href=\"/music/guilds/42\""));
    let page = login(true, false, Some("<다시>"), Some("/music/guilds/7"), "v1");
    assert!(page.contains("href=\"/music/oauth/start?next=/music/guilds/7\""));
    assert!(page.contains("<div class=\"gate__note\">&lt;다시&gt;</div>"));
    assert!(!login(false, false, None, None, "v1").contains("/music/oauth/start"));
    let s = session(1, vec![]);
    let chooser = guild_selector(&s, &[guild(42, None), guild(43, Some("ic"))], "v1");
    assert!(chooser.contains("href=\"/music/guilds/42\""));
    assert!(chooser.contains("href=\"/music/guilds/43\""));
    assert!(chooser.contains("name=\"csrf\" value=\"csrf&quot;1\""));
}

#[test]
fn mentions_need_a_marker() {
    let names = vec!["민수".to_string(), "DJ Kim".to_string(), String::new()];
    assert!(match_prefixed("민수 DJ Kim 안녕", '@', &names).is_empty());
    assert_eq!(match_prefixed("@dj kim @민수 @DJ KIM", '@', &names), vec![1, 0]);
    assert!(match_prefixed("@ 누구", '@', &names).is_empty());
}

#[test]
fn owner_ids_read_back_from_their_own_text() {
    let ids = parse_owner_ids(" 42;0, 7\n42 x 9 ");
    assert_eq!(ids, vec![42, 7, 9]);
    let text = ids.iter().map(|id| id.to_string()).collect::<Vec<_>>().join(",");
    assert_eq!(parse_owner_ids(&text), ids);
}
