use musicbot_remote::locks::{attempted_locked_keys, override_lock_refusal, LockedKey};
use musicbot_remote::catalog::RoleIdValue;
use musicbot_remote::permissions::{PermissionRule, RemoteGuildSettings};
use musicbot_remote::quorum::VoteSkipBasis;
use musicbot_remote::scoring::{BoomttaAction, RepeatMode};
use musicbot_remote::settings_edit::{
    apply_chat, apply_legacy_settings, apply_limits, apply_order, apply_perms, apply_settings_section,
    LegacySettings, SettingsPatch,
};

fn order(p: &SettingsPatch) -> musicbot_remote::settings_edit::SettingsEdit {
    apply_order(RemoteGuildSettings::default(), p, true, None)
}

#[test]
fn order_section_stores_what_was_sent() {
    let p = SettingsPatch {
        default_volume: Some(80),
        like_points: Some(3),
        boomtta_enabled: Some(true),
        boomtta_threshold: Some(7),
        boomtta_action: Some("remove".into()),
        vote_skip_basis: Some("either".into()),
        vote_skip_ratio: Some(60),
        vote_skip_min: Some(0),
        chart_limit: Some(30),
        web_sync_offset_ms: Some(-1200),
        public_now_playing: Some(true),
        ..Default::default()
    };
    let out = order(&p);
    let s = out.result.unwrap();
    assert_eq!(s.default_volume, 80);
    assert_eq!(s.like_points, 3);
    assert_eq!(s.dislike_points, -1);
    assert!(s.boomtta_enabled);
    assert_eq!(s.boomtta_threshold, 7);
    assert_eq!(s.boomtta_action, BoomttaAction::Remove);
    assert_eq!(s.vote_skip_basis, VoteSkipBasis::Either);
    assert_eq!(s.vote_skip_ratio, 60);
    assert_eq!(s.vote_skip_min, 0);
    assert_eq!(s.chart_limit, 30);
    assert_eq!(s.web_sync_offset_ms, -1200);
    assert!(s.public_now_playing);
    assert_eq!(s.vote_points().like, 3);
}

#[test]
fn order_section_refuses_the_first_bad_value() {
    let p = SettingsPatch { default_volume: Some(250), like_points: Some(99), ..Default::default() };
    let d = order(&p).result.unwrap_err();
    assert_eq!(d.status, 400);
    assert_eq!(d.message, "기본 볼륨이 최소/최대 범위를 벗어났어요.");

    let p = SettingsPatch { like_points: Some(11), ..Default::default() };
    assert_eq!(order(&p).result.unwrap_err().message, "likePoints: 점수는 -10~10 사이여야 해요.");

    let p = SettingsPatch { wait_points: Some(-11), ..Default::default() };
    assert_eq!(order(&p).result.unwrap_err().message, "waitPoints: 점수는 -10~10 사이여야 해요.");

    let p = SettingsPatch { vote_skip_ratio: Some(5), ..Default::default() };
    assert_eq!(order(&p).result.unwrap_err().message, "투표 스킵 비율은 10~100%예요.");

    let p = SettingsPatch { boomtta_action: Some("top".into()), ..Default::default() };
    assert_eq!(order(&p).result.unwrap_err().message, "붐따 동작은 bottom(맨 뒤로) 또는 remove(빼기)예요.");

    let p = SettingsPatch { vote_skip_basis: Some("all".into()), ..Default::default() };
    assert!(order(&p).result.unwrap_err().message.starts_with("투표 스킵 기준은"));

    let p = SettingsPatch { super_like_daily_limit: Some(101), ..Default::default() };
    assert_eq!(order(&p).result.unwrap_err().message, "하루 횟수는 0(무제한)~100이에요.");

    let p = SettingsPatch { web_sync_offset_ms: Some(5001), ..Default::default() };
    assert_eq!(order(&p).result.unwrap_err().message, "전역 싱크 보정은 -5000~5000ms 사이여야 해요.");
}

#[test]
fn player_changes_happen_before_a_later_refusal() {
    let p = SettingsPatch {
        auto_bgm_enabled: Some(true),
        repeat_mode: Some("queue".into()),
        chart_limit: Some(5),
        ..Default::default()
    };
    let out = order(&p);
    assert_eq!(out.result.unwrap_err().message, "차트 곡 수는 10~100곡이에요.");
    assert_eq!(out.autoplay_default, Some(true));
    assert_eq!(out.repeat, Some(RepeatMode::Queue));

    let p = SettingsPatch { default_volume: Some(-1), auto_bgm_enabled: Some(true), ..Default::default() };
    let out = order(&p);
    assert!(out.result.is_err());
    assert_eq!(out.autoplay_default, None);

    let p = SettingsPatch { repeat_mode: Some("loop".into()), ..Default::default() };
    let out = order(&p);
    assert_eq!(out.result.unwrap_err().message, "알 수 없는 반복 모드예요.");
    assert_eq!(out.repeat, None);
}

#[test]
fn genres_are_trimmed_and_limited() {
    let p = SettingsPatch {
        autoplay_genres: Some(vec![Some(" k-pop ".into()), None, Some("  ".into()), Some("jazz".into())]),
        ..Default::default()
    };
    let s = order(&p).result.unwrap();
    assert_eq!(s.autoplay_genres, vec!["k-pop".to_string(), "jazz".to_string()]);

    let p = SettingsPatch { autoplay_genres: Some(vec![Some("a".into()); 21]), ..Default::default() };
    assert_eq!(order(&p).result.unwrap_err().message, "장르는 20개까지 고를 수 있어요.");
}

#[test]
fn locked_empty_channel_rule_is_refused() {
    let p = SettingsPatch { empty_voice_delay_seconds: Some(30), ..Default::default() };
    let d = apply_order(RemoteGuildSettings::default(), &p, false, Some("봇 주인이 잠갔어요.")).result.unwrap_err();
    assert_eq!(d.status, 403);
    assert_eq!(d.message, "봇 주인이 잠갔어요.");

    let p = SettingsPatch { empty_voice_policy_sent: true, ..Default::default() };
    let d = apply_order(RemoteGuildSettings::default(), &p, false, None).result.unwrap_err();
    assert_eq!(d.message, "지금은 바꿀 수 없어요.");

    let p = SettingsPatch { empty_voice_delay_seconds: Some(4), ..Default::default() };
    assert_eq!(
        order(&p).result.unwrap_err().message,
        "빈 채널 대기 시간은 5초에서 1시간 사이여야 해요."
    );
}

#[test]
fn perms_section_reads_rules_and_role_lists() {
    let mut s = RemoteGuildSettings::default();
    s.rule_role_ids.insert("chat".into(), vec![9]);
    let p = SettingsPatch {
        vote_rule: Some("administrator".into()),
        autoplay_rule: Some("disabled".into()),
        autoplay_seed_rule: Some("configuredRole".into()),
        rule_role_ids: Some(vec![(
            "autoplaySeed".into(),
            Some(vec![RoleIdValue::Text(" 12 ".into()), RoleIdValue::Number(Some(12)), RoleIdValue::Number(Some(0))]),
        )]),
        manager_role_ids: Some(Some(vec![RoleIdValue::Number(Some(7))])),
        ..Default::default()
    };
    let n = apply_perms(s, &p).unwrap();
    assert_eq!(n.vote_rule, PermissionRule::Administrator);
    assert_eq!(n.autoplay_rule, PermissionRule::ConfiguredRole);
    assert_eq!(n.search_rule, PermissionRule::GuildMember);
    assert_eq!(n.roles_for("autoplay"), &vec![12]);
    assert_eq!(n.roles_for("chat"), &vec![9]);
    assert_eq!(n.manager_role_ids, vec![7]);
}

#[test]
fn perms_section_refusals_name_the_key() {
    let p = SettingsPatch { vote_rule: Some("everyone".into()), ..Default::default() };
    assert_eq!(
        apply_perms(RemoteGuildSettings::default(), &p).unwrap_err().message,
        "voteRule: 알 수 없는 권한 규칙이에요."
    );
    let p = SettingsPatch { rule_role_ids: Some(vec![("dj".into(), Some(Vec::new()))]), ..Default::default() };
    assert_eq!(apply_perms(RemoteGuildSettings::default(), &p).unwrap_err().message, "dj: 알 수 없는 권한 키예요.");
    let p = SettingsPatch { manager_role_ids: Some(None), ..Default::default() };
    assert_eq!(
        apply_perms(RemoteGuildSettings::default(), &p).unwrap_err().message,
        "역할 목록은 배열이어야 해요."
    );
}

#[test]
fn limits_section_checks_the_result_as_a_whole() {
    let p = SettingsPatch { min_volume: Some(50), max_volume: Some(80), chat_retention_days: Some(-3), ..Default::default() };
    let n = apply_limits(RemoteGuildSettings::default(), &p).unwrap();
    assert_eq!((n.min_volume, n.max_volume, n.default_volume), (50, 80, 80));
    assert_eq!(n.chat_retention_days, 0);

    let p = SettingsPatch { min_volume: Some(90), max_volume: Some(80), ..Default::default() };
    assert_eq!(apply_limits(RemoteGuildSettings::default(), &p).unwrap_err().message, "허용 범위를 벗어난 값이 있어요.");

    let p = SettingsPatch { bulk_enqueue_limit: Some(10_001), ..Default::default() };
    assert_eq!(
        apply_limits(RemoteGuildSettings::default(), &p).unwrap_err().message,
        "한 번에 담기 상한은 0(무제한)~10000이에요."
    );

    let p = SettingsPatch { max_track_seconds: Some(30), ..Default::default() };
    assert!(apply_limits(RemoteGuildSettings::default(), &p).is_err());

    let p = SettingsPatch {
        max_queue_per_user: Some(0),
        max_queue_per_guild: Some(0),
        max_track_seconds: Some(0),
        audit_retention_days: Some(0),
        bulk_enqueue_limit: Some(0),
        chat_retention_days: Some(0),
        ..Default::default()
    };
    let n = apply_limits(RemoteGuildSettings::default(), &p).unwrap();
    assert_eq!(n.bulk_enqueue_limit, 0);
}

#[test]
fn chat_section_and_unknown_sections() {
    let p = SettingsPatch { chat_enabled: Some(false), visualizer_enabled: Some(false), ..Default::default() };
    let n = apply_chat(RemoteGuildSettings::default(), &p);
    assert!(!n.chat_enabled && !n.visualizer_enabled && n.suggestion_enabled);

    let e = apply_settings_section(RemoteGuildSettings::default(), "theme", &p, true, None);
    let d = e.result.unwrap_err();
    assert_eq!(d.status, 404);
    assert_eq!(d.message, "알 수 없는 설정 섹션이에요.");

    let e = apply_settings_section(RemoteGuildSettings::default(), "chat", &p, true, None);
    assert!(!e.result.unwrap().chat_enabled);
}

fn legacy(min: i32, max: i32, default: i32, roles: Vec<u64>) -> LegacySettings {
    LegacySettings {
        min_volume: min,
        max_volume: max,
        default_volume: default,
        chat_enabled: false,
        search_rule: PermissionRule::GuildMember,
        vote_rule: PermissionRule::ConfiguredRole,
        chat_rule: PermissionRule::GuildMember,
        playback_rule: PermissionRule::SameVoiceChannel,
        seek_rule: PermissionRule::SameVoiceChannel,
        volume_rule: PermissionRule::Administrator,
        queue_edit_rule: PermissionRule::Administrator,
        configured_role_ids: roles,
        max_queue_per_user: 10,
        max_queue_per_guild: 0,
        max_track_seconds: 600,
        audit_retention_days: 30,
    }
}

#[test]
fn older_whole_settings_form_replaces_role_lists() {
    let mut s = RemoteGuildSettings::default();
    s.rule_role_ids.insert("vote".into(), vec![1]);
    s.manager_role_ids = vec![2];
    let n = apply_legacy_settings(s, legacy(10, 150, 70, vec![3, 4])).unwrap();
    assert_eq!(n.vote_rule, PermissionRule::ConfiguredRole);
    assert_eq!(n.roles_for("vote"), &vec![3, 4]);
    assert_eq!(n.manager_roles(), &vec![3, 4]);
    assert!(!n.chat_enabled);
    assert_eq!(n.max_track_seconds, 600);

    let d = apply_legacy_settings(RemoteGuildSettings::default(), legacy(10, 150, 5, Vec::new())).unwrap_err();
    assert_eq!(d.status, 400);
    assert_eq!(d.message, "설정 값이 허용 범위를 벗어났어요.");
    assert!(apply_legacy_settings(RemoteGuildSettings::default(), legacy(0, 200, 100, vec![1; 51])).is_err());
}


fn locked_key(key: &str, value: &str) -> LockedKey {
    LockedKey { key: key.into(), label: key.into(), value: Some(value.into()) }
}

fn body(pairs: &[(&str, &str)]) -> Vec<(String, String)> {
    pairs.iter().map(|(k, v)| (k.to_string(), v.to_string())).collect()
}

#[test]
fn nothing_is_blocked_when_the_owner_forced_nothing() {
    let overrides: Vec<LockedKey> = Vec::new();
    let sent = body(&[("maxQueuePerUser", "9"), ("chatEnabled", "true")]);
    assert!(attempted_locked_keys(&overrides, &sent).is_empty());
    assert!(override_lock_refusal(&overrides, &sent, "잠겨 있어요.").is_none());
}

#[test]
fn changing_a_locked_setting_is_refused_but_resending_the_same_value_is_not() {
    let overrides = vec![locked_key("maxQueuePerUser", "3"), locked_key("chatEnabled", "false")];
    let changing = body(&[("maxQueuePerUser", "9")]);
    assert_eq!(attempted_locked_keys(&overrides, &changing), vec!["maxQueuePerUser"]);
    assert!(override_lock_refusal(&overrides, &changing, "잠겨 있어요.").is_some());
    let unchanged = body(&[("maxQueuePerUser", "3"), ("chatEnabled", "false"), ("maxQueuePerGuild", "500")]);
    assert!(attempted_locked_keys(&overrides, &unchanged).is_empty());
    assert!(override_lock_refusal(&overrides, &unchanged, "잠겨 있어요.").is_none());
    let elsewhere = body(&[("maxTrackSeconds", "600")]);
    assert!(attempted_locked_keys(&overrides, &elsewhere).is_empty());
}

#[test]
fn a_lock_refusal_names_the_labels() {
    let locked = vec![
        LockedKey { key: "autoplayMode".into(), label: "자동추천 방식".into(), value: Some("\"off\"".into()) },
        LockedKey { key: "maxVolume".into(), label: "최대 볼륨".into(), value: Some("100".into()) },
    ];
    let changed = body(&[("maxVolume", "150"), ("autoplayMode", "\"on\"")]);
    assert_eq!(attempted_locked_keys(&locked, &changed), vec!["autoplayMode", "maxVolume"]);
    let refused = override_lock_refusal(&locked, &changed, "잠겨 있어요.").unwrap();
    assert_eq!(refused.status, 403);
    assert_eq!(refused.message, "자동추천 방식, 최대 볼륨 — 잠겨 있어요.");
    let one = body(&[("maxVolume", "150")]);
    assert_eq!(override_lock_refusal(&locked, &one, "r").unwrap().message, "최대 볼륨 — r");
    let no_value = vec![LockedKey { key: "maxVolume".into(), label: "최대 볼륨".into(), value: None }];
    assert!(override_lock_refusal(&no_value, &one, "r").is_some());
}
