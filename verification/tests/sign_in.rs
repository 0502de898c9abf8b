use musicbot_remote::auth::RemoteAuthConfig;
use musicbot_remote::chat::{chat_content, mentioned_users};
use musicbot_remote::oauth::{
    after_login_path, authorize_url, callback_start, login_error_path, read_identity, state_outcome, token_lifetime_secs,
    dev_guilds, dev_user_id, CallbackStart,
};

#[test]
fn the_authorize_address_is_encoded() {
    let auth = RemoteAuthConfig::new(Some("123".into()), None, "https://bot.example".into(), false, Vec::new(), None);
    assert_eq!(
        authorize_url(&auth, "123", "st ate"),
        "https://discord.com/oauth2/authorize?response_type=code&client_id=123&scope=identify%20guilds%20guilds.members.read&state=st%20ate&redirect_uri=https%3A%2F%2Fbot.example%2Fmusic%2Foauth%2Fcallback&prompt=consent"
    );
}

#[test]
fn the_callback_reads_its_query() {
    match callback_start(Some("access_denied"), Some("c"), Some("s")) {
        CallbackStart::Cancelled(m) => assert_eq!(m, "Discord 로그인이 취소됐어요: access_denied"),
        other => panic!("unexpected {other:?}"),
    }
    match callback_start(None, Some("c"), None) {
        CallbackStart::Redirect(p) => assert_eq!(p, "/music/login?error=OAuth%20응답이%20올바르지%20않습니다"),
        other => panic!("unexpected {other:?}"),
    }
    match callback_start(None, Some("c"), Some("s")) {
        CallbackStart::Proceed { code, state } => assert_eq!((code.as_str(), state.as_str()), ("c", "s")),
        other => panic!("unexpected {other:?}"),
    }
}

#[test]
fn sign_in_states_expire_after_ten_minutes() {
    assert_eq!(state_outcome(Some((599, Some("/music/guild/1".into())))).unwrap(), Some("/music/guild/1".to_string()));
    assert!(state_outcome(Some((600, None))).is_err());
    assert!(state_outcome(None).is_err());
}

#[test]
fn token_lifetime_keeps_a_minute_of_margin() {
    assert_eq!(token_lifetime_secs(604_800), 604_740);
    assert_eq!(token_lifetime_secs(90), 60);
    assert_eq!(token_lifetime_secs(0), 60);
}

#[test]
fn identities_come_from_discord_answers() {
    let who = read_identity("42", "minsu".into(), None, Some("abc")).unwrap();
    assert_eq!(who.user_id, 42);
    assert_eq!(who.display_name, "minsu");
    assert_eq!(who.avatar_url.as_deref(), Some("https://cdn.discordapp.com/avatars/42/abc.png?size=128"));
    let who = read_identity("42", "minsu".into(), Some("민수".into()), None).unwrap();
    assert_eq!(who.display_name, "민수");
    assert!(who.avatar_url.is_none());
    assert_eq!(
        read_identity("x42", "m".into(), None, None).unwrap_err(),
        "/music/login?error=Discord%20사용자%20ID가%20올바르지%20않습니다"
    );
    assert_eq!(login_error_path("Discord API 연결 실패"), "/music/login?error=Discord%20API%20%EC%97%B0%EA%B2%B0%20%EC%8B%A4%ED%8C%A8");
    assert_eq!(after_login_path(None), "/music");
    assert_eq!(after_login_path(Some("/music/guild/3".into())), "/music/guild/3");
}

#[test]
fn chat_messages_are_trimmed_and_bounded() {
    assert_eq!(chat_content("  안녕하세요 \n").unwrap(), "안녕하세요");
    assert_eq!(chat_content("   ").unwrap_err().message, "메시지는 1~2000자로 입력해요.");
    assert!(chat_content(&"가".repeat(2000)).is_ok());
    assert_eq!(chat_content(&"가".repeat(2001)).unwrap_err().status, 400);
}

#[test]
fn mentions_name_other_people_once() {
    let candidates = vec![(1u64, "민수".to_string()), (2, "Jay".to_string()), (3, "jay kim".to_string())];
    assert_eq!(mentioned_users("@jay kim 안녕 @민수 @민수", &candidates, 9), vec![3, 1]);
    assert_eq!(mentioned_users("@민수 hi", &candidates, 1), Vec::<u64>::new());
    assert_eq!(mentioned_users("no mentions", &candidates, 9), Vec::<u64>::new());
}


#[test]
fn local_test_sign_in() {
    let gs = dev_guilds(vec![(5, "A".into()), (6, "B".into())], Some(9));
    assert_eq!(gs.iter().map(|g| g.id).collect::<Vec<_>>(), vec![5, 6]);
    assert!(gs.iter().all(|g| g.owner && g.permissions == 0x8));
    let gs = dev_guilds(Vec::new(), None);
    assert_eq!((gs[0].id, gs[0].name.as_str()), (1, "마참뮤직 UI 검증 서버"));
    assert_eq!(dev_guilds(Vec::new(), Some(77))[0].id, 77);
    assert_eq!(dev_user_id(Some("42"), 7), 42);
    assert_eq!(dev_user_id(Some("0"), 7), 7);
    assert_eq!(dev_user_id(Some(" 42"), 0), 1);
    assert_eq!(dev_user_id(None, 0), 1);
}
