use musicbot_remote::auth::{parse_owner_ids, AccessTier, RemoteAuthConfig};
use musicbot_remote::catalog::{chart_window_key, parse_audit_kinds, AuditKind, ChartWindow, ChartWindowQuery};
use musicbot_remote::mention::match_prefixed;
use musicbot_remote::pages::apidoc;
use musicbot_remote::permissions::{
    action_requires_voice, permission_allowed, rule_base_allowed, same_voice_satisfied, MemberContext,
    PermissionRule, RemoteGuildSettings,
};
use musicbot_remote::queue::{limit_blocks, queue_sort_interval_secs, track_too_long, unlimited_or, ProviderKind, TrackRef};
use musicbot_remote::quorum::{skip_quorum, VoteSkipBasis};
use musicbot_remote::scoring::{
    parse_repeat, parse_vote_kind, repeat_key, ModeQuery, QueueScore, QueueVoteKind, RepeatMode, VotePoints,
    VOTE_POINT_MAX,
};
use musicbot_remote::voice::{authoritative_voice_channel, split_voice_members, BotVoiceStatus};
use musicbot_remote::web::{constant_time_eq, cookie_should_be_secure, host_of, safe_next};
use std::collections::HashSet;

#[test]
fn safe_next_only_accepts_internal_remote_paths() {
    assert_eq!(safe_next(Some("/music/guilds/123")).as_deref(), Some("/music/guilds/123"));
    assert_eq!(safe_next(Some("/music/guilds/123/admin")).as_deref(), Some("/music/guilds/123/admin"));

    assert_eq!(safe_next(Some("//evil.example")), None);
    assert_eq!(safe_next(Some("https://evil.example")), None);
    assert_eq!(safe_next(Some("http://evil.example/music/x")), None);
    assert_eq!(safe_next(Some("javascript:alert(1)")), None);
    assert_eq!(safe_next(Some("/music/\\evil.example")), None);
    assert_eq!(safe_next(Some("/music/a\r\nSet-Cookie: x=1")), None);

    assert_eq!(safe_next(Some("/botsettings")), None);
    assert_eq!(safe_next(Some("/")), None);
    assert_eq!(safe_next(Some("/music")), None);

    assert_eq!(safe_next(None), None);
    assert_eq!(safe_next(Some("   ")), None);
}

fn settings_with(rule: PermissionRule) -> RemoteGuildSettings {
    let mut settings = RemoteGuildSettings::default();
    settings.search_rule = rule;
    settings.configured_role_ids = vec![777];
    settings
}

fn member_with_roles(role_ids: Vec<u64>) -> MemberContext {
    MemberContext { is_admin: false, same_voice_channel: false, bot_in_voice: true, role_ids }
}

#[test]
fn configured_roles_are_scoped_to_their_permission_key() {
    let mut settings = RemoteGuildSettings::default();
    settings.search_rule = PermissionRule::ConfiguredRole;
    settings.volume_rule = PermissionRule::ConfiguredRole;
    settings.rule_role_ids.insert("search".into(), vec![100]);
    settings.rule_role_ids.insert("volume".into(), vec![200]);

    let dj = member_with_roles(vec![100]);
    assert!(permission_allowed("search", settings.search_rule, &settings, &dj));
    assert!(!permission_allowed("volume", settings.volume_rule, &settings, &dj));

    let mixer = member_with_roles(vec![200]);
    assert!(!permission_allowed("search", settings.search_rule, &settings, &mixer));
    assert!(permission_allowed("volume", settings.volume_rule, &settings, &mixer));
}

#[test]
fn legacy_configured_roles_still_open_every_key() {
    let mut settings = RemoteGuildSettings::default();
    settings.configured_role_ids = vec![777];
    settings.search_rule = PermissionRule::ConfiguredRole;
    settings.queue_edit_rule = PermissionRule::ConfiguredRole;
    let member = member_with_roles(vec![777]);
    for key in ["search", "queueEdit"] {
        let rule = settings.rule_for(key).unwrap();
        assert!(permission_allowed(key, rule, &settings, &member), "{key} 폴백 실패");
    }
}

#[test]
fn empty_role_list_does_not_fall_back_to_legacy() {
    let mut settings = RemoteGuildSettings::default();
    settings.configured_role_ids = vec![777];
    settings.search_rule = PermissionRule::ConfiguredRole;
    settings.rule_role_ids.insert("search".into(), Vec::new());
    let member = member_with_roles(vec![777]);
    assert!(!permission_allowed("search", settings.search_rule, &settings, &member));
}

#[test]
fn autoplay_rule_defaults_to_every_member() {
    let mut settings = RemoteGuildSettings::default();
    assert_eq!(settings.autoplay_rule, PermissionRule::GuildMember);
    let member = MemberContext::default();
    assert!(permission_allowed("autoplay", settings.autoplay_rule, &settings, &member));

    settings.autoplay_rule = PermissionRule::Administrator;
    assert!(!permission_allowed("autoplay", settings.autoplay_rule, &settings, &member));
    let admin = MemberContext { is_admin: true, ..Default::default() };
    assert!(permission_allowed("autoplay", settings.autoplay_rule, &settings, &admin));
}

#[test]
fn listening_counts_only_the_bot_channel() {
    let members = [(11, Some(500)), (12, Some(500)), (13, Some(900)), (14, None)];
    let (listening, other) = split_voice_members(Some(500), &members);
    assert_eq!(listening, vec!["11".to_string(), "12".to_string()]);
    assert_eq!(other, vec!["13".to_string()]);
}

#[test]
fn listening_is_empty_when_the_bot_is_not_in_voice() {
    let members = [(11, Some(500)), (12, Some(900))];
    let (listening, other) = split_voice_members(None, &members);
    assert!(listening.is_empty());
    assert_eq!(other, vec!["11".to_string(), "12".to_string()]);
}

#[test]
fn countdown_period_follows_the_sort_loop() {
    assert_eq!(queue_sort_interval_secs(0), 5);
    assert_eq!(queue_sort_interval_secs(500), 5);
    assert_eq!(queue_sort_interval_secs(501), 15);
}

#[test]
fn youtube_api_key_is_kept_when_the_form_field_is_blank() {
    let base = RemoteAuthConfig::new(
        None,
        None,
        "https://music.example.com".into(),
        false,
        Vec::new(),
        Some("AIzaKEEPME0123456789".into()),
    );
    assert_eq!(base.with_youtube_api_key(None, false).youtube_api_key(), Some("AIzaKEEPME0123456789"));
    assert_eq!(
        base.with_youtube_api_key(Some("   ".into()), false).youtube_api_key(),
        Some("AIzaKEEPME0123456789")
    );
    assert_eq!(
        base.with_youtube_api_key(Some("AIzaNEW9876543210".into()), false).youtube_api_key(),
        Some("AIzaNEW9876543210")
    );
    assert_eq!(base.with_youtube_api_key(None, true).youtube_api_key(), None);
    let masked = base.masked_youtube_api_key().unwrap();
    assert!(masked.starts_with("AIza") && masked.ends_with("6789"));
    assert!(!masked.contains("KEEPME"));
}

#[test]
fn disabled_rule_blocks_everyone_including_admins() {
    let settings = settings_with(PermissionRule::Disabled);
    for is_admin in [false, true] {
        let member = MemberContext { is_admin, same_voice_channel: true, bot_in_voice: true, role_ids: vec![777] };
        assert!(
            !permission_allowed("search", PermissionRule::Disabled, &settings, &member),
            "is_admin={is_admin} 인데 Disabled를 통과했다"
        );
    }
}

#[test]
fn disabled_preview_pass_count_is_zero() {
    let settings = settings_with(PermissionRule::Disabled);
    let members = [
        MemberContext { is_admin: true, same_voice_channel: true, bot_in_voice: true, role_ids: vec![777] },
        MemberContext { is_admin: false, same_voice_channel: true, bot_in_voice: true, role_ids: vec![777] },
        MemberContext::default(),
    ];
    let passed = members
        .iter()
        .filter(|member| permission_allowed("search", PermissionRule::Disabled, &settings, member))
        .count();
    assert_eq!(passed, 0);
}

#[test]
fn admin_bypasses_every_rule_except_disabled() {
    let settings = RemoteGuildSettings::default();
    let admin = MemberContext { is_admin: true, same_voice_channel: false, bot_in_voice: true, role_ids: Vec::new() };
    for rule in [
        PermissionRule::GuildMember,
        PermissionRule::SameVoiceChannel,
        PermissionRule::ConfiguredRole,
        PermissionRule::Administrator,
    ] {
        assert!(permission_allowed("search", rule, &settings, &admin), "{rule:?}");
    }
    assert!(!permission_allowed("search", PermissionRule::Disabled, &settings, &admin));
}

#[test]
fn web_player_mode_only_opens_when_the_bot_is_absent() {
    let outsider = MemberContext { same_voice_channel: false, bot_in_voice: false, ..Default::default() };
    let bot_elsewhere = MemberContext { same_voice_channel: false, bot_in_voice: true, ..Default::default() };

    let off = RemoteGuildSettings::default();
    assert!(off.require_voice_for_playback);
    assert!(!off.web_player_mode);
    assert!(!same_voice_satisfied(&off, &outsider), "모드 Off 면 예전 그대로 막힌다");
    assert!(!same_voice_satisfied(&off, &bot_elsewhere));

    let mut on = RemoteGuildSettings::default();
    on.web_player_mode = true;
    assert!(same_voice_satisfied(&on, &outsider), "웹 재생기 모드면 봇이 없어도 조작할 시각표가 있다");
    assert!(!same_voice_satisfied(&on, &bot_elsewhere), "봇이 남의 채널에서 틀고 있으면 밖에서 흔들면 안 된다");

    let together = MemberContext { same_voice_channel: true, bot_in_voice: true, ..Default::default() };
    assert!(same_voice_satisfied(&off, &together));
    assert!(same_voice_satisfied(&on, &together));
}

#[test]
fn turning_off_the_voice_requirement_actually_opens_the_controls() {
    let mut settings = RemoteGuildSettings::default();
    let outsider = MemberContext { same_voice_channel: false, bot_in_voice: false, ..Default::default() };

    assert!(settings.require_voice_for_playback);
    assert!(!permission_allowed("playback", settings.playback_rule, &settings, &outsider));
    assert!(!permission_allowed("skip", settings.skip_rule, &settings, &outsider));

    settings.require_voice_for_playback = false;
    for (key, rule) in [
        ("playback", settings.playback_rule),
        ("seek", settings.seek_rule),
        ("skip", settings.skip_rule),
        ("volume", settings.volume_rule),
    ] {
        assert!(
            permission_allowed(key, rule, &settings, &outsider),
            "{key} 는 봇이 음성에 없고 요구를 껐으면 열려야 한다"
        );
    }

    let bot_elsewhere = MemberContext { same_voice_channel: false, bot_in_voice: true, ..Default::default() };
    assert!(
        !permission_allowed("skip", settings.skip_rule, &settings, &bot_elsewhere),
        "봇이 남의 채널에서 틀고 있으면 밖에서 넘기면 안 된다"
    );
}

#[test]
fn only_autoplay_escapes_the_voice_requirement() {
    assert!(!action_requires_voice("autoplay"));
    for action in ["pause", "resume", "seek", "skip", "volume", "shuffle", "repeat"] {
        assert!(action_requires_voice(action), "{action} 은 봇이 음성에 있어야 하는 조작이다");
    }
}

#[test]
fn permission_defaults_match_remote_contract() {
    let settings = RemoteGuildSettings::default();
    let member = MemberContext::default();
    for (key, rule) in [
        ("playback", settings.playback_rule),
        ("seek", settings.seek_rule),
        ("volume", settings.volume_rule),
        ("skip", settings.skip_rule),
        ("bulkEnqueue", settings.bulk_enqueue_rule),
    ] {
        assert!(!permission_allowed(key, rule, &settings, &member), "{key} 는 음성 밖에서 막혀야 한다");
    }
    for (key, rule) in [
        ("search", settings.search_rule),
        ("vote", settings.vote_rule),
        ("chat", settings.chat_rule),
        ("autoplay", settings.autoplay_rule),
    ] {
        assert!(permission_allowed(key, rule, &settings, &member), "{key} 는 음성 밖에서도 돼야 한다");
    }
    let same_voice = MemberContext { same_voice_channel: true, bot_in_voice: true, ..Default::default() };
    for (key, rule) in [
        ("playback", settings.playback_rule),
        ("seek", settings.seek_rule),
        ("skip", settings.skip_rule),
        ("bulkEnqueue", settings.bulk_enqueue_rule),
    ] {
        assert!(permission_allowed(key, rule, &settings, &same_voice), "{key} 는 같은 음성 채널이면 열려야 한다");
    }
}

#[test]
fn via_admin_is_detected_by_base_rule() {
    let settings = RemoteGuildSettings::default();
    let admin_outside_voice =
        MemberContext { is_admin: true, same_voice_channel: false, bot_in_voice: true, role_ids: Vec::new() };
    assert!(permission_allowed("playback", PermissionRule::SameVoiceChannel, &settings, &admin_outside_voice));
    assert!(!rule_base_allowed("playback", PermissionRule::SameVoiceChannel, &settings, &admin_outside_voice));
}

#[test]
fn access_tier_ordering_matches_privilege() {
    assert!(AccessTier::Owner > AccessTier::Manager);
    assert!(AccessTier::Manager > AccessTier::Member);
    assert!(AccessTier::Member > AccessTier::Viewer);
    assert!(AccessTier::Manager.is_manager());
    assert!(!AccessTier::Member.is_manager());
    assert!(AccessTier::Viewer.is_viewer());
    assert_eq!(AccessTier::Owner.as_str(), "owner");
}

#[test]
fn viewer_cannot_write_even_when_rule_is_permissive() {
    let settings = RemoteGuildSettings::default();
    let member = MemberContext { is_admin: false, same_voice_channel: true, bot_in_voice: true, role_ids: Vec::new() };
    assert!(permission_allowed("chat", PermissionRule::GuildMember, &settings, &member));
    let viewer_allows =
        !AccessTier::Viewer.is_viewer() && permission_allowed("chat", PermissionRule::GuildMember, &settings, &member);
    assert!(!viewer_allows);
}

#[test]
fn mention_parser_matches_longest_name_with_spaces() {
    let candidates = vec!["민수".to_string(), "민수 형".to_string(), "지훈".to_string()];
    let hits = match_prefixed("@민수 형 이거 들어봐 @지훈", '@', &candidates);
    assert_eq!(hits, vec![1, 2]);
}

#[test]
fn mention_parser_is_case_insensitive_and_dedupes() {
    let candidates = vec!["MinSu".to_string()];
    let hits = match_prefixed("@minsu @MINSU @minsu", '@', &candidates);
    assert_eq!(hits, vec![0]);
}

#[test]
fn song_tag_parser_handles_titles_with_spaces() {
    let titles = vec!["City".to_string(), "City Lights".to_string(), "Soft Focus".to_string()];
    let hits = match_prefixed("#City Lights 좋다 #Soft Focus 도", '#', &titles);
    assert_eq!(hits, vec![1, 2]);
}

#[test]
fn parser_ignores_unknown_tokens() {
    let candidates = vec!["민수".to_string()];
    assert!(match_prefixed("@없는사람 안녕", '@', &candidates).is_empty());
    assert!(match_prefixed("이메일 a@b.com", '@', &candidates).is_empty());
}

#[test]
fn constant_time_compare_still_compares_correctly() {
    assert!(constant_time_eq("abcdef", "abcdef"));
    assert!(!constant_time_eq("abcdef", "abcdeg"));
    assert!(!constant_time_eq("abc", "abcdef"));
    assert!(constant_time_eq("", ""));
}

#[test]
fn owner_ids_are_parsed_and_deduped() {
    assert_eq!(parse_owner_ids("1, 2 ,2,0,x,3"), vec![1, 2, 3]);
    assert!(parse_owner_ids("").is_empty());
}

#[test]
fn repeat_mode_is_camel_case_lowercase() {
    assert_eq!(repeat_key(RepeatMode::Off), "off");
    assert_eq!(repeat_key(RepeatMode::Track), "track");
    assert_eq!(repeat_key(RepeatMode::Queue), "queue");
    assert_eq!(parse_repeat("queue"), Some(RepeatMode::Queue));
    assert_eq!(parse_repeat("Queue"), None);
}

#[test]
fn origin_host_extraction_ignores_scheme_and_path() {
    assert_eq!(host_of("https://music.example.com/music"), "music.example.com");
    assert_eq!(host_of("http://localhost:8693"), "localhost:8693");
    assert_eq!(host_of(""), "");
}

#[test]
fn cookie_secure_prefers_the_safe_side() {
    let auth = RemoteAuthConfig::new(None, None, "https://music.example.com".into(), false, Vec::new(), None);
    assert!(cookie_should_be_secure(&auth, None));
    let auth = RemoteAuthConfig::new(None, None, "http://localhost:8693".into(), false, Vec::new(), None);
    assert!(!cookie_should_be_secure(&auth, None));
    assert!(cookie_should_be_secure(&auth, Some("https")));
    let auth = RemoteAuthConfig::new(None, None, "http://music.example.test".into(), false, Vec::new(), None);
    assert!(cookie_should_be_secure(&auth, None));
}

#[test]
fn stored_voice_channel_never_revives_a_bot_that_left() {
    assert_eq!(authoritative_voice_channel(None, Some(123)), None);
    assert_eq!(authoritative_voice_channel(Some(777), Some(123)), Some(777));
    assert_eq!(authoritative_voice_channel(Some(777), None), Some(777));

    let stale = BotVoiceStatus {
        in_guild: true,
        channel_id: authoritative_voice_channel(None, Some(123)),
        channel_name: None,
    };
    assert!(!stale.in_voice(), "저장값만으로 inVoice 가 켜지면 B1 재발이다");
}

#[test]
fn nobody_is_listening_when_the_bot_is_not_in_voice() {
    let members = vec![(10u64, Some(500u64)), (11, Some(500)), (12, None)];
    let (listening, other) = split_voice_members(None, &members);
    assert!(listening.is_empty());
    assert_eq!(other, vec!["10".to_string(), "11".to_string()]);

    let members = vec![(10u64, Some(500u64)), (11, Some(600))];
    let (listening, other) = split_voice_members(Some(500), &members);
    assert_eq!(listening, vec!["10".to_string()]);
    assert_eq!(other, vec!["11".to_string()]);
}

fn ids(values: &[u64]) -> HashSet<u64> {
    values.iter().copied().collect()
}

#[test]
fn a_single_listener_can_always_skip() {
    assert_eq!(VoteSkipBasis::votes_needed(1, 50, 2), 1);
    let quorum = skip_quorum(&ids(&[10]), &HashSet::new(), &ids(&[10]), VoteSkipBasis::Listeners, 50, 2);
    assert!(quorum.passed);
    assert_eq!((quorum.have, quorum.need), (1, 1));
}

#[test]
fn listener_quorum_needs_a_majority() {
    assert_eq!(VoteSkipBasis::votes_needed(3, 50, 2), 2);
    let listeners = ids(&[10, 11, 12]);
    let one = skip_quorum(&listeners, &HashSet::new(), &ids(&[10]), VoteSkipBasis::Listeners, 50, 2);
    assert!(!one.passed);
    assert_eq!((one.have, one.need), (1, 2));

    let two = skip_quorum(&listeners, &HashSet::new(), &ids(&[10, 11]), VoteSkipBasis::Listeners, 50, 2);
    assert!(two.passed);
}

#[test]
fn viewers_do_not_count_towards_the_listener_basis() {
    let quorum = skip_quorum(&ids(&[10, 11]), &ids(&[90, 91]), &ids(&[90, 91]), VoteSkipBasis::Listeners, 50, 1);
    assert_eq!(quorum.have, 0);
    assert!(!quorum.passed);
}

#[test]
fn either_and_both_bases_behave_differently() {
    let listeners = ids(&[10, 11]);
    let viewers = ids(&[90, 91, 92, 93]);
    let voters = ids(&[10, 11]);

    let either = skip_quorum(&listeners, &viewers, &voters, VoteSkipBasis::Either, 50, 1);
    assert!(either.passed, "한쪽만 넘어도 통과해야 한다");

    let both = skip_quorum(&listeners, &viewers, &voters, VoteSkipBasis::Both, 50, 1);
    assert!(!both.passed, "보는 사람 쪽이 모자라면 통과하면 안 된다");
}

#[test]
fn an_empty_room_never_passes_by_vote() {
    assert_eq!(VoteSkipBasis::votes_needed(0, 50, 2), 0);
    let quorum =
        skip_quorum(&HashSet::new(), &HashSet::new(), &HashSet::new(), VoteSkipBasis::Listeners, 50, 2);
    assert!(!quorum.passed);
}

#[test]
fn minimum_votes_never_exceed_the_population() {
    assert_eq!(VoteSkipBasis::votes_needed(2, 50, 20), 2);
}

fn score_with_dislikes(dislikes: i32) -> QueueScore {
    QueueScore { dislike_count: dislikes, ..Default::default() }
}

#[test]
fn boomtta_stays_off_by_default() {
    let settings = RemoteGuildSettings::default();
    assert!(!settings.boomtta_enabled);
    assert!(!score_with_dislikes(99).boomtta_triggered(&settings));
}

#[test]
fn boomtta_fires_exactly_at_the_threshold() {
    let settings = RemoteGuildSettings { boomtta_enabled: true, boomtta_threshold: 3, ..Default::default() };
    assert!(!score_with_dislikes(2).boomtta_triggered(&settings));
    assert!(score_with_dislikes(3).boomtta_triggered(&settings));
    assert!(score_with_dislikes(4).boomtta_triggered(&settings));
}

#[test]
fn boomtta_threshold_zero_means_never() {
    let settings = RemoteGuildSettings { boomtta_enabled: true, boomtta_threshold: 0, ..Default::default() };
    assert!(!score_with_dislikes(1000).boomtta_triggered(&settings));
}

#[test]
fn zero_limits_block_nothing() {
    assert!(!limit_blocks(0, 1));
    assert!(!limit_blocks(0, 10_000));
    assert!(!limit_blocks(-1, 10_000));
}

#[test]
fn positive_limits_stop_at_the_configured_number() {
    assert!(!limit_blocks(5, 5), "5번째 곡은 들어가야 한다");
    assert!(limit_blocks(5, 6), "6번째 곡은 막혀야 한다");
}

#[test]
fn zero_track_length_limit_allows_anything() {
    let long = TrackRef {
        provider: ProviderKind::YouTube,
        content_id: "x".into(),
        source_url: "https://example.test/x".into(),
        title: Some("10시간 백색소음".into()),
        artist: None,
        duration_ms: Some(36_000 * 1000),
        variant_key: None,
    };
    assert!(!track_too_long(0, &long));
    assert!(track_too_long(3600, &long));
    assert!(!track_too_long(40_000, &long));
}

#[test]
fn settings_validation_accepts_unlimited_and_the_new_maxima() {
    assert!(unlimited_or(0, 1, 1_000));
    assert!(unlimited_or(1_000, 1, 1_000));
    assert!(!unlimited_or(1_001, 1, 1_000));
    assert!(unlimited_or(10_000, 1, 10_000));
    assert!(!unlimited_or(10_001, 1, 10_000));
}

#[test]
fn total_score_follows_the_configured_points() {
    let score = QueueScore { wait_score: 2, like_count: 3, super_like_count: 1, dislike_count: 0, ..Default::default() };
    let default_points = VotePoints::default();
    assert_eq!(score.total_score(&default_points), 2 + 3 + 2);

    let doubled = VotePoints { like: 2, ..VotePoints::default() };
    assert_eq!(score.total_score(&doubled), 2 + 6 + 2);
}

#[test]
fn audit_kind_filter_parses_only_known_kinds() {
    assert_eq!(parse_audit_kinds(Some("song,playlist")), vec![AuditKind::Song, AuditKind::Playlist]);
    assert_eq!(parse_audit_kinds(Some("song,nope")), vec![AuditKind::Song]);
    assert!(parse_audit_kinds(None).is_empty());
    assert!(parse_audit_kinds(Some("")).is_empty());
}

#[test]
fn audit_default_filter_is_quiet() {
    assert_eq!(AuditKind::default_filter(), [AuditKind::Song, AuditKind::Playlist]);
}

#[test]
fn vote_kinds_round_trip_through_the_api_key() {
    for kind in [QueueVoteKind::Like, QueueVoteKind::SuperLike, QueueVoteKind::Dislike] {
        assert_eq!(parse_vote_kind(kind.api_key()), Some(kind));
    }
    assert_eq!(parse_vote_kind("nope"), None);
}

#[test]
fn skip_quorum_reports_the_real_population() {
    let listeners = ids(&[1, 2, 3, 4, 5]);
    let viewers = ids(&[1, 2]);
    let voters = ids(&[1]);
    let quorum = skip_quorum(&listeners, &viewers, &voters, VoteSkipBasis::Listeners, 50, 1);
    assert_eq!(quorum.pool, 5);
    assert_eq!(quorum.need, 3);
    assert_eq!(quorum.have, 1);
    assert!(!quorum.passed);

    let viewers_only = skip_quorum(&listeners, &viewers, &voters, VoteSkipBasis::Viewers, 50, 1);
    assert_eq!(viewers_only.pool, 2);
}

#[test]
fn chart_window_accepts_the_period_alias() {
    let by_period = ChartWindowQuery { window: None, period: Some("week".into()) };
    assert_eq!(by_period.resolve(), ChartWindow::Week);

    let by_window = ChartWindowQuery { window: Some("all".into()), period: None };
    assert_eq!(by_window.resolve(), ChartWindow::All);

    let empty = ChartWindowQuery { window: None, period: None };
    assert_eq!(empty.resolve(), ChartWindow::Month);

    let both = ChartWindowQuery { window: Some("".into()), period: Some("week".into()) };
    assert_eq!(both.resolve(), ChartWindow::Week);

    assert_ne!(chart_window_key(ChartWindow::Week), chart_window_key(ChartWindow::Month));
}

#[test]
fn queue_preview_uses_the_points_the_console_sent() {
    let query = ModeQuery {
        mode: Some("score".into()),
        like_points: Some(10),
        dislike_points: None,
        super_like_points: None,
        wait_points: Some(0),
    };
    let base = VotePoints { like: 1, dislike: -1, super_like: 2, wait: 1 };
    let merged = query.points_over(base);
    assert_eq!(merged.like, 10, "보낸 값이 반영돼야 한다");
    assert_eq!(merged.wait, 0);
    assert_eq!(merged.dislike, -1);
    assert_eq!(merged.super_like, 2);

    let wild = ModeQuery { mode: None, like_points: Some(999), dislike_points: None, super_like_points: None, wait_points: None };
    assert_eq!(wild.points_over(base).like, VOTE_POINT_MAX);
}

#[test]
fn apidoc_links_tokens_then_only_its_own_stylesheet() {
    let html = apidoc("test-build", "<main><h1>API</h1></main>");
    let tokens = html.find("tokens.css").expect("tokens.css 링크가 없다");
    let own = html.find("apidoc.css").expect("apidoc.css 링크가 없다");
    assert!(tokens < own, "tokens.css 가 화면 CSS 보다 먼저 와야 한다");
    assert!(!html.contains("portal.css"));
    assert!(!html.contains("console.css"));
}

#[test]
fn lrc_parser_supports_fractional_seconds() {
    let lines = musicbot_remote::lyrics::parse_lrc("[00:17.12] first\n[03:20.310] second");
    assert_eq!(lines[0].start_ms, 17_120);
    assert_eq!(lines[1].start_ms, 200_310);
    assert_eq!(lines[1].text, "second");
}

#[test]
fn an_empty_group_counts_as_met_under_both() {
    let listeners = ids(&[1, 2, 3]);
    let voters = ids(&[1, 2]);
    let both = skip_quorum(&listeners, &HashSet::new(), &voters, VoteSkipBasis::Both, 50, 1);
    let alone = skip_quorum(&listeners, &HashSet::new(), &voters, VoteSkipBasis::Listeners, 50, 1);
    assert!(both.passed && alone.passed);
    assert_eq!((both.have, both.need, both.pool), (2, 2, 3));
    let viewers = ids(&[7, 8]);
    let watched = skip_quorum(&HashSet::new(), &viewers, &ids(&[7]), VoteSkipBasis::Both, 50, 1);
    let seen = skip_quorum(&HashSet::new(), &viewers, &ids(&[7]), VoteSkipBasis::Viewers, 50, 1);
    assert_eq!(watched.passed, seen.passed);
    assert!(watched.passed);
    // Both groups are at no shortfall, so the (empty) listener group is the one shown.
    assert_eq!((watched.have, watched.need, watched.pool), (0, 0, 0));
}
