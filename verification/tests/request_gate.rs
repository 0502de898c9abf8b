use musicbot_remote::auth::{AccessTier, OAuthGuild, RemoteSession};
use musicbot_remote::gatekeeper::{
    decide_tier, fresh_memory_roles, gate_request, member_grace_hours, role_lookup, MemberFetch, RequestFacts, RoleLookup,
    MEMBER_CACHE_GRACE_SECS,
};
use musicbot_remote::permissions::RemoteGuildSettings;
use musicbot_remote::web::{origin_allowed, verify_csrf};
use std::time::Instant;

fn facts() -> RequestFacts {
    RequestFacts {
        has_session: true,
        csrf_ok: None,
        guild_found: true,
        is_developer: false,
        bot_in_guild: true,
        is_bot_owner: false,
        approval_usable: true,
        approval_reason: "승인 대기 중인 서버예요.".into(),
    }
}

fn plain_guild() -> OAuthGuild {
    OAuthGuild { id: 77, name: "Lounge".into(), icon: None, owner: false, permissions: 0 }
}

fn session_with_token(token: &str) -> RemoteSession {
    RemoteSession {
        user_id: 1,
        username: "u".into(),
        display_name: "U".into(),
        avatar_url: None,
        guilds: Vec::new(),
        access_token: "a".into(),
        refresh_token: None,
        csrf_token: token.into(),
        created: Instant::now(),
        token_expires: Instant::now(),
        is_developer: false,
    }
}

#[test]
fn gate_lets_a_complete_request_through() {
    assert!(gate_request(&facts()).is_ok());
}

#[test]
fn gate_refuses_in_order() {
    let mut f = facts();
    f.has_session = false;
    f.csrf_ok = Some(false);
    let d = gate_request(&f).unwrap_err();
    assert_eq!(d.status, 401);
    assert_eq!(d.message, "Discord 로그인이 필요해요.");

    let mut f = facts();
    f.csrf_ok = Some(false);
    f.guild_found = false;
    let d = gate_request(&f).unwrap_err();
    assert_eq!(d.status, 403);
    assert_eq!(d.message, "CSRF 검증에 실패했어요.");

    let mut f = facts();
    f.guild_found = false;
    let d = gate_request(&f).unwrap_err();
    assert_eq!(d.status, 403);
    assert!(d.message.starts_with("이 서버의 멤버가 아니에요."));

    let mut f = facts();
    f.bot_in_guild = false;
    assert_eq!(gate_request(&f).unwrap_err().message, "봇이 이 Discord 서버에 없어요.");

    let mut f = facts();
    f.approval_usable = false;
    assert_eq!(gate_request(&f).unwrap_err().message, "승인 대기 중인 서버예요.");
}

#[test]
fn gate_lets_owner_past_approval_and_test_sessions_past_the_bot_check() {
    let mut f = facts();
    f.approval_usable = false;
    f.is_bot_owner = true;
    assert!(gate_request(&f).is_ok());

    let mut f = facts();
    f.bot_in_guild = false;
    f.approval_usable = false;
    f.is_developer = true;
    assert!(gate_request(&f).is_ok());

    let mut f = facts();
    f.csrf_ok = Some(true);
    assert!(gate_request(&f).is_ok());
}

#[test]
fn tier_follows_roles_and_ownership() {
    let mut settings = RemoteGuildSettings::default();
    settings.manager_role_ids = vec![500];
    let g = plain_guild();

    let d = decide_tier(false, false, &g, &settings, true, true, RoleLookup::Found(vec![1, 2]), false);
    assert_eq!(d.tier, AccessTier::Member);
    assert!(!d.member.is_admin);
    assert_eq!(d.member.role_ids, vec![1, 2]);
    assert!(d.roles_known);

    let d = decide_tier(false, false, &g, &settings, false, true, RoleLookup::Found(vec![500]), false);
    assert_eq!(d.tier, AccessTier::Manager);
    assert!(d.member.is_admin);
    assert!(!d.member.same_voice_channel);

    let d = decide_tier(false, true, &g, &settings, true, true, RoleLookup::Unknown, false);
    assert_eq!(d.tier, AccessTier::Owner);
    assert!(!d.roles_known);

    let mut admin = plain_guild();
    admin.permissions = 0x20;
    let d = decide_tier(false, false, &admin, &settings, true, true, RoleLookup::Found(Vec::new()), false);
    assert_eq!(d.tier, AccessTier::Manager);
}

#[test]
fn tier_of_someone_who_left_or_is_suspended_is_viewer() {
    let settings = RemoteGuildSettings::default();
    let g = plain_guild();
    let d = decide_tier(false, false, &g, &settings, true, true, RoleLookup::NotInGuild, false);
    assert_eq!(d.tier, AccessTier::Viewer);
    assert_eq!(d.viewer_reason.as_deref(), Some("이 서버에서 나갔거나 추방돼서 읽기 전용이에요."));
    assert!(d.member.role_ids.is_empty());

    let d = decide_tier(false, true, &g, &settings, true, true, RoleLookup::Found(vec![3]), true);
    assert_eq!(d.tier, AccessTier::Viewer);
    assert!(!d.member.is_admin);
    assert_eq!(d.viewer_reason.as_deref(), Some("전체 정지 중이라 읽기 전용이에요."));
}

#[test]
fn test_sessions_are_managers_in_the_channel() {
    let settings = RemoteGuildSettings::default();
    let g = plain_guild();
    let d = decide_tier(true, false, &g, &settings, false, false, RoleLookup::Unknown, false);
    assert_eq!(d.tier, AccessTier::Manager);
    assert!(d.member.is_admin && d.member.same_voice_channel && d.member.bot_in_voice);
    assert!(d.roles_known);
    let d = decide_tier(true, true, &g, &settings, false, false, RoleLookup::Unknown, false);
    assert_eq!(d.tier, AccessTier::Owner);
}

#[test]
fn websocket_origin_must_match_a_known_host() {
    let base = "https://remote.example.org/music";
    assert!(!origin_allowed(None, Some("remote.example.org"), base));
    assert!(!origin_allowed(Some("https://"), Some(""), base));
    assert!(origin_allowed(Some("https://Box.Local:8080"), Some("box.local:8080"), base));
    assert!(origin_allowed(Some("https://remote.example.org"), None, base));
    assert!(origin_allowed(Some("https://music.example.com/x"), Some("elsewhere"), base));
    assert!(!origin_allowed(Some("https://evil.example.net"), Some("box.local"), base));
}

#[test]
fn csrf_header_must_equal_the_session_token() {
    let s = session_with_token("tok-1");
    assert!(verify_csrf(&s, Some("tok-1")));
    assert!(!verify_csrf(&s, Some("tok-2")));
    assert!(!verify_csrf(&s, None));
    let empty = session_with_token("");
    assert!(verify_csrf(&empty, None));
}

#[test]
fn role_lookups_fall_back_to_remembered_roles() {
    match role_lookup(MemberFetch::Roles(vec!["12".into(), "x".into(), "0".into()]), None) {
        RoleLookup::Found(r) => assert_eq!(r, vec![12, 0]),
        other => panic!("unexpected {other:?}"),
    }
    assert!(matches!(role_lookup(MemberFetch::Status(404), Some(vec![1])), RoleLookup::NotInGuild));
    assert!(matches!(role_lookup(MemberFetch::Status(403), None), RoleLookup::NotInGuild));
    match role_lookup(MemberFetch::Status(429), Some(vec![7])) {
        RoleLookup::Found(r) => assert_eq!(r, vec![7]),
        other => panic!("unexpected {other:?}"),
    }
    assert!(matches!(role_lookup(MemberFetch::Unreachable, None), RoleLookup::Unknown));
}

#[test]
fn remembered_roles_expire_after_the_grace() {
    assert_eq!(MEMBER_CACHE_GRACE_SECS, 6 * 60 * 60);
    assert_eq!(member_grace_hours(), 6);
    assert_eq!(fresh_memory_roles(0, vec![4, 5]), Some(vec![4, 5]));
    assert_eq!(fresh_memory_roles(21_599, vec![]), Some(vec![]));
    assert_eq!(fresh_memory_roles(21_600, vec![4]), None);
    // A fresh empty list means "no roles", which the lookup keeps apart from "unknown".
    assert!(matches!(role_lookup(MemberFetch::Unreachable, fresh_memory_roles(10, vec![])), RoleLookup::Found(r) if r.is_empty()));
    assert!(matches!(role_lookup(MemberFetch::Unreachable, fresh_memory_roles(30_000, vec![])), RoleLookup::Unknown));
}
