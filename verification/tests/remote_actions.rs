use musicbot_remote::access::{AuthContext, Suspension, SuspensionScope};
use musicbot_remote::auth::{AccessTier, OAuthGuild, RemoteSession};
use musicbot_remote::control::{after_text, control_audit, control_gate, control_rule, plan_control, ControlGate, ControlOp};
use musicbot_remote::enqueue::{admit_track, plan_search, EnqueueFacts};
use musicbot_remote::lyrics::lyrics_terms;
use musicbot_remote::permissions::{MemberContext, PermissionRule, RemoteGuildSettings};
use musicbot_remote::playlists::{plan_playlist_step, playlist_gate, PlaylistFacts, PlaylistScope, PlaylistStep};
use musicbot_remote::queue::{ProviderKind, TrackRef};
use musicbot_remote::scoring::{QueueVoteKind, RepeatMode};
use musicbot_remote::voting::{boomtta_fires, boomtta_notice, vote_bookkeeping, vote_gate, VoteTarget, BOOMTTA_PRIORITY};
use musicbot_remote::scoring::{BoomttaAction, QueueScore};
use musicbot_remote::capabilities::capability_rows;
use musicbot_remote::moderation::plan_suspension;
use musicbot_remote::chat::{check_chat_delete, check_reaction, plan_chat_report, plan_suggestion, ReportStep};
use musicbot_remote::voice::{listener_ids, voice_members, VoiceEntry};
use musicbot_remote::watcher::{playback_signature, PlaybackSample, WatchMemory};
use musicbot_remote::catalog::{audit_needle, audit_row_matches};
use std::time::Instant;
use musicbot_remote::preview::parse_role_csv;
use musicbot_remote::preview::read_preview_request;
use musicbot_remote::audience::{participant_name, participant_status, GuildSnapshot, MemberSnapshot};
use musicbot_remote::preview::{preview_note, preview_permission};
use musicbot_remote::queue_edit::{cleared_notice, plan_queue_step, QueueStep, PIN_PRIORITY};

const USER: u64 = 5;
const GUILD: u64 = 9;

fn ctx(tier: AccessTier, settings: RemoteGuildSettings) -> AuthContext {
    AuthContext {
        session: RemoteSession {
            user_id: USER,
            username: "minsu".into(),
            display_name: "민수".into(),
            avatar_url: None,
            guilds: Vec::new(),
            access_token: "t".into(),
            refresh_token: None,
            csrf_token: "c".into(),
            created: Instant::now(),
            token_expires: Instant::now(),
            is_developer: false,
        },
        guild: OAuthGuild { id: GUILD, name: "g".into(), icon: None, owner: false, permissions: 0 },
        settings,
        member: MemberContext {
            is_admin: matches!(tier, AccessTier::Manager | AccessTier::Owner),
            same_voice_channel: true,
            bot_in_voice: true,
            role_ids: Vec::new(),
        },
        tier,
        suspensions: Vec::new(),
        viewer_reason: None,
        roles_known: true,
    }
}

fn track(id: &str, seconds: u64) -> TrackRef {
    TrackRef {
        provider: ProviderKind::YouTube,
        content_id: id.into(),
        source_url: format!("https://www.youtube.com/watch?v={id}"),
        title: Some("노래".into()),
        artist: None,
        duration_ms: Some(seconds * 1000),
        variant_key: None,
    }
}

fn own(scope: PlaylistScope, owner: u64, guild: Option<u64>) -> Option<PlaylistFacts> {
    Some(PlaylistFacts { scope, owner_user_id: owner, guild_id: guild })
}

#[test]
fn playlist_gate_decides_personal_and_server_playlists() {
    let member = ctx(AccessTier::Member, RemoteGuildSettings::default());
    assert_eq!(playlist_gate(&member, false, None, Some("USER"), "create").unwrap(), true);
    assert_eq!(
        playlist_gate(&member, false, None, Some("guild"), "create").unwrap_err().message,
        "서버 관리자만 할 수 있어요."
    );
    assert_eq!(
        playlist_gate(&member, false, own(PlaylistScope::User, 77, None), None, "rename").unwrap_err().status,
        404
    );
    assert!(playlist_gate(&member, false, own(PlaylistScope::User, USER, None), None, "rename").unwrap());
    assert_eq!(
        playlist_gate(&member, false, own(PlaylistScope::Guild, 1, Some(GUILD)), None, "delete").unwrap_err().message,
        "서버 재생목록은 서버 관리자만 고칠 수 있어요."
    );
    assert_eq!(playlist_gate(&member, false, own(PlaylistScope::Guild, 1, Some(GUILD)), None, "enqueue").unwrap(), false);
    assert_eq!(
        playlist_gate(&member, false, own(PlaylistScope::Guild, 1, Some(3)), None, "enqueue").unwrap_err().message,
        "이 서버의 재생목록이 아니에요."
    );
    let manager = ctx(AccessTier::Manager, RemoteGuildSettings::default());
    assert_eq!(
        playlist_gate(&manager, false, own(PlaylistScope::Global, 1, None), None, "enqueue").unwrap_err().status,
        403
    );
    assert!(!playlist_gate(&manager, false, own(PlaylistScope::Guild, 1, Some(GUILD)), None, "delete").unwrap());
    assert_eq!(playlist_gate(&member, true, None, Some("user"), "create").unwrap_err().status, 429);
}

#[test]
fn playlist_gate_puts_suspension_and_read_only_first() {
    let mut viewer = ctx(AccessTier::Viewer, RemoteGuildSettings::default());
    viewer.viewer_reason = Some("나갔어요".into());
    assert_eq!(playlist_gate(&viewer, true, None, Some("user"), "create").unwrap_err().message, "나갔어요");
    let mut suspended = ctx(AccessTier::Member, RemoteGuildSettings::default());
    suspended.suspensions.push(Suspension {
        scope: SuspensionScope::Queue,
        reason: Some("도배".into()),
        expires_utc: None,
        by_user_id: 1,
    });
    let d = playlist_gate(&suspended, false, None, Some("user"), "create").unwrap_err();
    assert_eq!(d.status, 403);
    assert_eq!(d.message, "곡 신청 정지 중이에요. 사유: 도배");
}

#[test]
fn playlist_steps_check_names_targets_and_tracks() {
    assert_eq!(plan_playlist_step("create", "", false, None, false, 0).unwrap_err().message, "이름은 1~80자로 입력해요.");
    let long: String = "가".repeat(81);
    assert!(plan_playlist_step("rename", &long, true, None, false, 0).is_err());
    assert!(matches!(plan_playlist_step("rename", &"가".repeat(80), true, None, false, 0), Ok(PlaylistStep::Rename)));
    assert_eq!(plan_playlist_step("delete", "", false, None, false, 0).unwrap_err().status, 404);
    assert!(matches!(plan_playlist_step("removeTrack", "", true, None, false, 0), Ok(PlaylistStep::RemoveEntry)));
    assert_eq!(plan_playlist_step("addTrack", "", true, None, false, 0).unwrap_err().message, "추가할 곡이 없어요.");
    let t = track("abc", 600);
    assert!(plan_playlist_step("addTrack", "", true, Some(&t), false, 300).is_err());
    assert!(plan_playlist_step("addTrack", "", true, Some(&t), true, 0).is_err());
    assert!(matches!(plan_playlist_step("addTrack", "", true, Some(&t), false, 0), Ok(PlaylistStep::AddTrack)));
    match plan_playlist_step("create", "새 목록", false, Some(&t), true, 0).unwrap() {
        PlaylistStep::Create { add_track, track_refusal } => {
            assert!(!add_track);
            assert_eq!(track_refusal.unwrap().message, "재생목록은 만들었는데, 곡 길이나 차단 규칙 때문에 그 곡은 담지 못했어요.");
        }
        other => panic!("unexpected {other:?}"),
    }
    assert_eq!(plan_playlist_step("share", "x", true, None, false, 0).unwrap_err().message, "지원하지 않는 재생목록 작업이에요.");
}

#[test]
fn each_control_has_its_own_permission() {
    let s = RemoteGuildSettings::default();
    assert_eq!(control_rule(&s, "shuffle").0, "queueEdit");
    assert_eq!(control_rule(&s, "skipVoteCancel").0, "skip");
    assert_eq!(control_rule(&s, "pause").0, "playback");
    assert_eq!(control_rule(&s, "autoplay").1, PermissionRule::GuildMember);
}

#[test]
fn control_gate_checks_voice_and_the_playing_song() {
    let mut settings = RemoteGuildSettings::default();
    settings.skip_rule = PermissionRule::GuildMember;
    settings.playback_rule = PermissionRule::GuildMember;
    let member = ctx(AccessTier::Member, settings);
    assert_eq!(control_gate(&member, "pause", true, true, None, None).unwrap_err().status, 429);
    assert_eq!(control_gate(&member, "pause", false, false, None, None).unwrap_err().status, 409);
    assert_eq!(control_gate(&member, "autoplay", false, false, None, None).unwrap(), ControlGate::Proceed);
    assert_eq!(control_gate(&member, "skipVoteCancel", false, false, None, None).unwrap(), ControlGate::CancelVote);
    assert_eq!(
        control_gate(&member, "skip", false, true, Some("a"), Some("b")).unwrap_err().message,
        "재생 상태가 그새 바뀌었어요. 화면을 새로 받아 볼게요."
    );
    assert_eq!(control_gate(&member, "skip", false, true, Some("a"), Some("a")).unwrap(), ControlGate::Proceed);

    let mut web = RemoteGuildSettings::default();
    web.playback_rule = PermissionRule::GuildMember;
    web.web_player_mode = true;
    let member = ctx(AccessTier::Member, web);
    assert_eq!(control_gate(&member, "pause", false, false, None, None).unwrap(), ControlGate::Proceed);

    let mut locked = RemoteGuildSettings::default();
    locked.volume_rule = PermissionRule::Disabled;
    let member = ctx(AccessTier::Member, locked);
    assert!(control_gate(&member, "volume", false, true, None, None).unwrap_err().message.starts_with("볼륨을 바꿀 권한이 없어요."));
}

#[test]
fn controls_read_their_values() {
    assert_eq!(plan_control("volume", 150, false, None, 0, 200).unwrap(), ControlOp::Volume(150));
    assert_eq!(plan_control("volume", 250, false, None, 10, 200).unwrap_err(), "볼륨은 10~200 사이여야 해요.");
    assert_eq!(plan_control("repeat", 0, false, Some("track"), 0, 200).unwrap(), ControlOp::Repeat(RepeatMode::Track));
    assert_eq!(
        plan_control("repeat", 0, false, Some("all"), 0, 200).unwrap_err(),
        "반복 모드는 off / track / queue 중 하나여야 해요."
    );
    assert_eq!(plan_control("jump", 0, false, None, 0, 200).unwrap_err(), "지원하지 않는 재생 제어예요.");
    assert_eq!(after_text(ControlOp::Volume(150)), "150%");
    assert_eq!(after_text(ControlOp::Repeat(RepeatMode::Queue)), "repeat:queue");
    assert_eq!(after_text(ControlOp::Shuffle(true)), "shuffle:true");
    assert_eq!(after_text(ControlOp::Autoplay(false)), "off");
    assert_eq!(control_audit("autoplay", None), ("autoplay.toggle".to_string(), None));
    assert_eq!(control_audit("pause", None), ("playback.pause".to_string(), None));
    assert_eq!(control_audit("skip", Some(0)), ("playback.skip.vote".to_string(), Some(1)));
    assert_eq!(control_audit("skip", Some(3)), ("playback.skip.vote".to_string(), Some(3)));
}

fn targets() -> Vec<VoteTarget> {
    vec![
        VoteTarget { item_id: "q1".into(), requested_by: Some(USER) },
        VoteTarget { item_id: "q2".into(), requested_by: Some(8) },
        VoteTarget { item_id: "now".into(), requested_by: None },
    ]
}

#[test]
fn votes_land_on_queued_or_playing_songs() {
    let member = ctx(AccessTier::Member, RemoteGuildSettings::default());
    assert_eq!(vote_gate(&member, false, &targets(), "q2", Some("superlike")).unwrap(), (1, Some(QueueVoteKind::SuperLike)));
    assert_eq!(vote_gate(&member, false, &targets(), "now", Some("none")).unwrap(), (2, None));
    assert_eq!(vote_gate(&member, false, &targets(), "now", None).unwrap(), (2, None));
    assert_eq!(vote_gate(&member, false, &targets(), "q1", Some("like")).unwrap_err().message, "자기가 신청한 곡에는 투표할 수 없어요.");
    assert_eq!(vote_gate(&member, false, &targets(), "gone", Some("like")).unwrap_err().status, 404);
    assert_eq!(vote_gate(&member, false, &targets(), "q2", Some("love")).unwrap_err().status, 400);
    assert_eq!(vote_gate(&member, true, &targets(), "q2", Some("like")).unwrap_err().status, 429);
}

#[test]
fn changing_a_vote_keeps_the_books() {
    let b = vote_bookkeeping(None, Some(QueueVoteKind::SuperLike));
    assert!(b.spend_super_like && !b.refund_super_like);
    assert_eq!((b.stat_removed, b.stat_added), (None, Some(QueueVoteKind::SuperLike)));
    let b = vote_bookkeeping(Some(QueueVoteKind::SuperLike), Some(QueueVoteKind::Like));
    assert!(!b.spend_super_like && b.refund_super_like);
    assert_eq!((b.stat_removed, b.stat_added), (Some(QueueVoteKind::SuperLike), Some(QueueVoteKind::Like)));
    let b = vote_bookkeeping(Some(QueueVoteKind::Like), Some(QueueVoteKind::Like));
    assert_eq!((b.spend_super_like, b.refund_super_like, b.stat_removed, b.stat_added), (false, false, None, None));
}

fn facts(keys: &[&str], queued: usize, own: usize) -> EnqueueFacts {
    EnqueueFacts {
        rate_limited: false,
        resolvable: true,
        blocked_by: None,
        queued_keys: keys.iter().map(|k| k.to_string()).collect(),
        queued,
        own_queued: own,
    }
}

#[test]
fn a_song_passes_its_checks_in_order() {
    let mut settings = RemoteGuildSettings::default();
    settings.max_track_seconds = 300;
    settings.max_queue_per_user = 2;
    settings.max_queue_per_guild = 3;
    let member = ctx(AccessTier::Member, settings);
    assert!(admit_track(&member, &facts(&[], 0, 0), &track("a", 200)).is_ok());

    let r = admit_track(&member, &facts(&[], 0, 0), &track("a", 301)).unwrap_err();
    assert_eq!(r.denial.message, "허용 곡 길이(300초)를 넘었어요.");
    assert_eq!(r.logged_reason, Some("track_too_long"));

    let r = admit_track(&member, &facts(&["youtube:a"], 1, 0), &track("a", 10)).unwrap_err();
    assert_eq!((r.denial.status, r.logged_reason), (409, Some("duplicate")));

    let r = admit_track(&member, &facts(&[], 2, 2), &track("a", 10)).unwrap_err();
    assert_eq!(r.denial.message, "한 사람이 담을 수 있는 2곡을 다 채웠어요.");
    let r = admit_track(&member, &facts(&[], 3, 0), &track("a", 10)).unwrap_err();
    assert_eq!(r.denial.message, "서버 대기열 3곡이 꽉 찼어요.");

    let mut f = facts(&[], 0, 0);
    f.blocked_by = Some("제목에 '광고'".into());
    let r = admit_track(&member, &f, &track("a", 400)).unwrap_err();
    assert_eq!(r.denial.message, "차단 규칙 때문에 담을 수 없어요: 제목에 '광고'");
    assert_eq!(r.logged_reason, Some("blacklisted"));

    let mut f = facts(&[], 0, 0);
    f.resolvable = false;
    f.rate_limited = true;
    let r = admit_track(&member, &f, &track("a", 10)).unwrap_err();
    assert_eq!((r.denial.status, r.logged_reason), (429, None));
}

#[test]
fn role_id_lists_from_the_console_are_read_leniently() {
    assert_eq!(parse_role_csv("12, 34,,x,0, +56 "), vec![12, 34, 56]);
    assert_eq!(parse_role_csv(""), Vec::<u64>::new());
    assert_eq!(parse_role_csv("99999999999999999999,7"), vec![7]);
}

#[test]
fn preview_requests_name_a_rule_and_a_key() {
    let (rule, key) = read_preview_request("configuredRole", Some("  ")).unwrap();
    assert_eq!((rule, key.as_str()), (PermissionRule::ConfiguredRole, "search"));
    let (_, key) = read_preview_request("disabled", Some(" playlistEnqueue ")).unwrap();
    assert_eq!(key, "bulkEnqueue");
    assert_eq!(read_preview_request("nobody", None).unwrap_err().message, "알 수 없는 권한 규칙이에요.");
    assert_eq!(read_preview_request("administrator", Some("dj")).unwrap_err().message, "알 수 없는 권한 키예요.");
}

#[test]
fn preview_counts_members_and_bypasses() {
    let member = |user_id: u64, is_bot: bool, role_ids: Vec<u64>, voice: Option<u64>| MemberSnapshot {
        user_id,
        is_bot,
        role_ids,
        voice_channel: voice,
    };
    let g = GuildSnapshot {
        owner_id: 1,
        members: vec![
            member(1, false, vec![], None),
            member(2, false, vec![50], Some(700)),
            member(3, true, vec![50], Some(700)),
            member(4, false, vec![], Some(700)),
            member(5, false, vec![], None),
        ],
        admin_role_ids: vec![],
    };
    let mut s = RemoteGuildSettings::default();
    s.rule_role_ids.insert("vote".into(), vec![50]);
    let p = preview_permission(&g, &Vec::new(), &s, Some(700), "vote", PermissionRule::ConfiguredRole);
    assert_eq!((p.members, p.passing, p.bypassing), (4, 2, 1));
    assert_eq!(p.sample, vec![(1, true), (2, false)]);
    let p = preview_permission(&g, &Vec::new(), &s, Some(700), "vote", PermissionRule::SameVoiceChannel);
    assert_eq!((p.passing, p.bypassing), (3, 1));
    let p = preview_permission(&g, &vec![5], &s, None, "vote", PermissionRule::Disabled);
    assert_eq!(p.passing, 0);
    assert_eq!(preview_note(true, 4, PermissionRule::Disabled, None, 1), "사용 안 함은 관리자와 봇 주인까지 전부 막아요.");
    assert_eq!(preview_note(false, 0, PermissionRule::Disabled, None, 1), "Server Members Intent가 꺼져 있어서 캐시에 있는 사람만 셌어요.");
    assert_eq!(preview_note(true, 4, PermissionRule::ConfiguredRole, None, 0), "이 권한에 지정된 역할이 없어서 지금은 관리자만 통과해요.");
    assert_eq!(preview_note(true, 4, PermissionRule::GuildMember, Some(1), 0), "");
}

fn queued(id: &str, by: Option<u64>, priority: Option<i64>) -> musicbot_remote::queue_edit::QueuedFacts {
    musicbot_remote::queue_edit::QueuedFacts { item_id: id.into(), requested_by: by, manual_priority: priority }
}

#[test]
fn queue_requests_clear_remove_and_pin() {
    let items = vec![queued("a", Some(USER), None), queued("b", Some(8), Some(-1_000_000)), queued("c", None, Some(PIN_PRIORITY))];
    let mut settings = RemoteGuildSettings::default();
    settings.queue_edit_rule = PermissionRule::Administrator;
    let member = ctx(AccessTier::Member, settings);
    assert_eq!(plan_queue_step(&member, "remove", Some("a"), &items).unwrap(), QueueStep::Remove { index: 0 });
    assert_eq!(plan_queue_step(&member, "remove", Some("b"), &items).unwrap_err().message, "이 곡을 뺄 권한이 없어요.");
    assert_eq!(plan_queue_step(&member, "clear", None, &items).unwrap_err().message, "서버 관리자만 할 수 있어요.");
    assert_eq!(plan_queue_step(&member, "remove", Some(""), &items).unwrap_err().status, 400);
    assert_eq!(plan_queue_step(&member, "remove", Some("zz"), &items).unwrap_err().status, 404);

    let manager = ctx(AccessTier::Manager, RemoteGuildSettings::default());
    assert_eq!(plan_queue_step(&manager, "clear", None, &items).unwrap(), QueueStep::Clear { removed: 3 });
    assert_eq!(plan_queue_step(&manager, "clear", None, &Vec::new()).unwrap_err().status, 409);
    assert_eq!(
        plan_queue_step(&manager, "togglePin", Some("b"), &items).unwrap(),
        QueueStep::SetPriority { index: 1, priority: Some(PIN_PRIORITY) }
    );
    assert_eq!(
        plan_queue_step(&manager, "togglePin", Some("c"), &items).unwrap(),
        QueueStep::SetPriority { index: 2, priority: None }
    );
    assert_eq!(plan_queue_step(&manager, "shuffle", Some("c"), &items).unwrap_err().message, "지원하지 않는 대기열 작업이에요.");
    let viewer = ctx(AccessTier::Viewer, RemoteGuildSettings::default());
    assert_eq!(plan_queue_step(&viewer, "clear", None, &items).unwrap_err().message, "지금은 읽기 전용이에요.");
    assert_eq!(cleared_notice(12), "대기열 12곡을 비웠어요.");
}

#[test]
fn capabilities_follow_their_rules_and_switches() {
    let mut s = RemoteGuildSettings::default();
    s.chat_enabled = false;
    s.bulk_enqueue_rule = PermissionRule::Disabled;
    let rows = capability_rows(&s);
    assert_eq!(rows.len(), 22);
    let find = |key: &str| rows.iter().find(|r| r.key == key).copied().unwrap();
    assert!(!find("chat").gate);
    assert!(find("suggest").gate);
    assert_eq!(find("playlistEnqueue").rule, PermissionRule::Disabled);
    assert_eq!(find("playlistEnqueue").role_key, "bulkEnqueue");
    assert_eq!(find("playlistEdit").rule, PermissionRule::Administrator);
    assert_eq!(find("library").rule, PermissionRule::GuildMember);
    assert_eq!(rows[0].label, "곡 검색·신청");
}

#[test]
fn suspensions_respect_rank() {
    let manager = ctx(AccessTier::Manager, RemoteGuildSettings::default());
    let g = GuildSnapshot {
        owner_id: 1,
        members: vec![
            MemberSnapshot { user_id: 20, is_bot: false, role_ids: vec![], voice_channel: None },
            MemberSnapshot { user_id: 21, is_bot: false, role_ids: vec![99], voice_channel: None },
        ],
        admin_role_ids: vec![99],
    };
    let owners = vec![7u64];
    let p = plan_suspension(&manager, &owners, Some(&g), " 20 ", "chat", Some(9_999_999), Some("  도배  ")).unwrap();
    assert_eq!((p.target, p.scope, p.minutes), (20, SuspensionScope::Chat, Some(525_600)));
    assert_eq!(p.reason.as_deref(), Some("도배"));
    let p = plan_suspension(&manager, &owners, Some(&g), "20", "all", Some(0), Some("   ")).unwrap();
    assert_eq!((p.minutes, p.reason), (None, None));
    let refuse = |who: &str, scope: &str| plan_suspension(&manager, &owners, Some(&g), who, scope, None, None).unwrap_err();
    assert_eq!(refuse("abc", "chat").message, "대상 사용자 ID가 올바르지 않아요.");
    assert_eq!(refuse("20", "voice").message, "정지 범위는 all / chat / queue 중 하나여야 해요.");
    assert_eq!(refuse("5", "chat").message, "자기 자신은 정지할 수 없어요.");
    assert_eq!(refuse("21", "chat").message, "관리자와 봇 주인은 봇 주인만 정지할 수 있어요.");
    assert_eq!(refuse("1", "chat").status, 403);
    let owner = ctx(AccessTier::Owner, RemoteGuildSettings::default());
    assert!(plan_suspension(&owner, &owners, Some(&g), "21", "queue", None, None).is_ok());
    assert_eq!(plan_suspension(&owner, &owners, Some(&g), "7", "queue", None, None).unwrap_err().message, "봇 주인은 정지할 수 없어요.");
    let member = ctx(AccessTier::Member, RemoteGuildSettings::default());
    assert_eq!(plan_suspension(&member, &owners, None, "20", "chat", None, None).unwrap_err().message, "서버 관리자만 할 수 있어요.");
}

#[test]
fn chat_reports_and_suggestions() {
    let mut settings = RemoteGuildSettings::default();
    settings.chat_rule = PermissionRule::GuildMember;
    let member = ctx(AccessTier::Member, settings);
    assert!(matches!(plan_chat_report(&member, false, None, "  욕설  ", Some(8)), Ok(ReportStep::Report(ref t)) if t == "욕설"));
    assert_eq!(plan_chat_report(&member, false, None, "   ", Some(8)).unwrap_err().message, "신고 사유는 1~300자로 입력해요.");
    assert_eq!(plan_chat_report(&member, false, None, "스팸", Some(USER)).unwrap_err().message, "자기 메시지는 신고할 수 없어요.");
    assert_eq!(plan_chat_report(&member, true, Some(3), "", None).unwrap_err().message, "서버 관리자만 할 수 있어요.");
    let manager = ctx(AccessTier::Manager, RemoteGuildSettings::default());
    assert!(matches!(plan_chat_report(&manager, true, Some(3), "", None), Ok(ReportStep::Resolve(3))));
    assert_eq!(plan_chat_report(&manager, true, None, "", None).unwrap_err().message, "신고 ID가 없어요.");

    let (t, b) = plan_suggestion(&member, " 새 기능 ", " 내용 ", false).unwrap();
    assert_eq!((t.as_str(), b.as_str()), ("새 기능", "내용"));
    assert_eq!(plan_suggestion(&member, &"x".repeat(121), "b", false).unwrap_err().message, "제목은 1~120자로 입력해요.");
    assert_eq!(plan_suggestion(&member, "t", "", false).unwrap_err().message, "내용은 1~4000자로 입력해요.");
    assert_eq!(plan_suggestion(&member, "t", "b", true).unwrap_err().status, 429);
    let mut off = RemoteGuildSettings::default();
    off.suggestion_enabled = false;
    let member = ctx(AccessTier::Member, off);
    assert_eq!(plan_suggestion(&member, "t", "b", false).unwrap_err().message, "관리자가 제안 게시판을 꺼 뒀어요.");
}

#[test]
fn searches_are_gated_and_trimmed() {
    let member = ctx(AccessTier::Member, RemoteGuildSettings::default());
    assert_eq!(plan_search(&member, false, "  아이유 밤편지 ").unwrap(), "아이유 밤편지");
    assert_eq!(plan_search(&member, false, " ").unwrap_err().message, "검색어는 1~200자로 입력해요.");
    assert_eq!(plan_search(&member, true, "x").unwrap_err().status, 429);
    let mut off = RemoteGuildSettings::default();
    off.search_rule = PermissionRule::Disabled;
    let member = ctx(AccessTier::Member, off);
    assert!(plan_search(&member, false, "x").unwrap_err().message.starts_with("검색 권한이 없어요."));
}

#[test]
fn lyrics_are_looked_up_by_artist_and_name() {
    assert_eq!(lyrics_terms(Some("IU - 밤편지 - Live"), "id", None), ("IU".to_string(), "밤편지 - Live".to_string()));
    assert_eq!(lyrics_terms(Some("밤편지"), "id", Some("  ")), (String::new(), "밤편지".to_string()));
    assert_eq!(lyrics_terms(Some("A - B"), "id", Some("아이유")), ("아이유".to_string(), "A - B".to_string()));
    assert_eq!(lyrics_terms(None, "dQw4w9WgXcQ", None), (String::new(), "dQw4w9WgXcQ".to_string()));
}

#[test]
fn queue_pages_are_bounded() {
    use_page();
}

fn use_page() {
    let p = musicbot_remote::queue_edit::queue_page(450, None, None);
    assert_eq!((p.offset, p.limit, p.count, p.has_more), (0, 200, 200, true));
    let p = musicbot_remote::queue_edit::queue_page(450, Some(400), Some(500));
    assert_eq!((p.limit, p.count, p.has_more), (200, 50, false));
    let p = musicbot_remote::queue_edit::queue_page(10, Some(3), Some(0));
    assert_eq!((p.limit, p.count, p.has_more), (1, 1, true));
    let p = musicbot_remote::queue_edit::queue_page(10, Some(usize::MAX), Some(5));
    assert_eq!((p.count, p.has_more), (0, false));
}

#[test]
fn reactions_and_deletions() {
    let mut settings = RemoteGuildSettings::default();
    settings.chat_rule = PermissionRule::GuildMember;
    let member = ctx(AccessTier::Member, settings);
    assert!(check_reaction(&member, "👍").is_ok());
    assert_eq!(check_reaction(&member, "").unwrap_err().message, "이모지가 올바르지 않아요.");
    assert!(check_reaction(&member, "123456789").is_err());
    assert!(check_chat_delete(&member, Some(USER)).is_ok());
    assert_eq!(check_chat_delete(&member, Some(8)).unwrap_err().message, "이 메시지를 지울 권한이 없어요.");
    assert!(check_chat_delete(&member, None).is_err());
    let manager = ctx(AccessTier::Manager, RemoteGuildSettings::default());
    assert!(check_chat_delete(&manager, Some(8)).is_ok());
}

#[test]
fn bots_are_never_listeners() {
    let states = vec![
        VoiceEntry { user_id: 100, channel: Some(7), is_bot: true },
        VoiceEntry { user_id: 1, channel: Some(7), is_bot: false },
        VoiceEntry { user_id: 2, channel: Some(8), is_bot: false },
        VoiceEntry { user_id: 3, channel: Some(7), is_bot: true },
        VoiceEntry { user_id: 4, channel: None, is_bot: false },
    ];
    assert_eq!(voice_members(&states, 100), vec![(1, Some(7)), (2, Some(8)), (4, None)]);
    assert_eq!(listener_ids(&states, 100, Some(7)), vec![1]);
    assert_eq!(listener_ids(&states, 100, None), Vec::<u64>::new());
}

fn sample(current: Option<&str>, queue: &[&str]) -> PlaybackSample {
    PlaybackSample {
        schedule_start: "1700000000000".into(),
        current_id: current.map(String::from),
        paused: false,
        volume: -3,
        repeat: RepeatMode::Track,
        voice_connected: true,
        next_id: None,
        queue_ids: queue.iter().map(|q| q.to_string()).collect(),
    }
}

#[test]
fn the_watcher_sends_only_changes() {
    assert_eq!(playback_signature(&sample(Some("a"), &["b", "c"])), "1700000000000|a|false|-3|track|true||b,c");
    let mut m = WatchMemory::new();
    let a = m.step("p1".into(), playback_signature(&sample(Some("a"), &["b"])));
    assert!(a.send_presence && a.send_playback && a.queue_changed);
    let a = m.step("p1".into(), playback_signature(&sample(Some("a"), &["b"])));
    assert!(!a.send_presence && !a.send_playback && !a.queue_changed);
    let mut paused = sample(Some("a"), &["b"]);
    paused.paused = true;
    let a = m.step("p2".into(), playback_signature(&paused));
    assert!(a.send_presence && a.send_playback && !a.queue_changed);
    let a = m.step("p2".into(), playback_signature(&sample(Some("a"), &["b", "d"])));
    assert!(a.send_playback && a.queue_changed);
}

#[test]
fn dislikes_send_a_song_down_once() {
    let mut s = RemoteGuildSettings::default();
    s.boomtta_enabled = true;
    s.boomtta_threshold = 3;
    let score = QueueScore { dislike_count: 3, ..Default::default() };
    assert!(boomtta_fires(None, Some(QueueVoteKind::Dislike), &score, &s));
    assert!(boomtta_fires(Some(QueueVoteKind::Like), Some(QueueVoteKind::Dislike), &score, &s));
    assert!(!boomtta_fires(Some(QueueVoteKind::Dislike), Some(QueueVoteKind::Dislike), &score, &s));
    let down = QueueScore { dislike_count: 5, manual_priority: Some(BOOMTTA_PRIORITY), ..Default::default() };
    assert!(!boomtta_fires(None, Some(QueueVoteKind::Dislike), &down, &s));
    let low = QueueScore { dislike_count: 2, ..Default::default() };
    assert!(!boomtta_fires(None, Some(QueueVoteKind::Dislike), &low, &s));
    assert_eq!(boomtta_notice("노래", 3, BoomttaAction::Remove), "노래 이 싫어요 3개로 대기열에서 빠졌어요");
    assert_eq!(boomtta_notice("노래", 4, BoomttaAction::Bottom), "노래 이 싫어요 4개로 대기열 맨 뒤로 갔어요");
}

#[test]
fn participants_are_shown_by_presence_and_name() {
    let listening = vec![1u64];
    let viewing = vec![1u64, 2];
    assert_eq!(participant_status(1, &listening, &viewing, Some("dnd")), "listening");
    assert_eq!(participant_status(2, &listening, &viewing, None), "viewing");
    assert_eq!(participant_status(3, &listening, &viewing, Some("idle")), "idle");
    assert_eq!(participant_status(4, &listening, &viewing, None), "offline");
    assert_eq!(participant_name(Some("민수"), "old", 4), "민수");
    assert_eq!(participant_name(None, "old", 4), "old");
    assert_eq!(participant_name(None, "", 42), "42");
}

#[test]
fn the_activity_log_search_ignores_case() {
    assert_eq!(audit_needle(Some("  Queue.ADD ")).as_deref(), Some("queue.add"));
    assert_eq!(audit_needle(Some("   ")), None);
    assert_eq!(audit_needle(None), None);
    let needle = audit_needle(Some("MINSU")).unwrap();
    assert!(audit_row_matches(Some(&needle), "Minsu", "queue.add", "", "queued", ""));
    assert!(audit_row_matches(Some(&needle), "Jay", "queue.add", "MINSU's song", "", ""));
    assert!(audit_row_matches(Some("add  queued"), "Minsu", "queue.add", "", "queued", ""));
    assert!(!audit_row_matches(Some("add queued"), "Minsu", "queue.add", "", "queued", ""));
    assert!(!audit_row_matches(Some("skip"), "Minsu", "queue.add", "", "queued", ""));
    assert!(audit_row_matches(None, "", "", "", "", ""));
}
