//! What the pages promise to show: the refusal's message and way back, the
//! public page's server, the sign-in page's link and notice, and the server
//! choice's cards and sign-out token.

use vstd::prelude::*;
use crate::auth::{OAuthGuild, RemoteSession};
use crate::pages::{
    cards_spec, card_spec, denied_body, escape_seq, login_action_spec, login_body, login_dev_spec, login_notice_spec,
    plain_spec, public_now_body, selector_body, CARD_CLOSE, CARD_MID, CARD_OPEN, DENIED_CLOSE, DENIED_MID, DENIED_OPEN,
    DENIED_TITLE, DEV_FORM_CLOSE, DEV_FORM_OPEN, DEV_HIDDEN_CLOSE, DEV_HIDDEN_OPEN, DOC_CLOSE, GATE_BODY_OPEN, HEAD_OPEN,
    ICON_FALLBACK, ICON_OPEN, IMG_CLOSE, IMG_OPEN, LOGIN_BODY_CLOSE, LOGIN_BODY_OPEN, LOGIN_BUTTON_CLOSE,
    LOGIN_BUTTON_OPEN, LOGIN_TITLE, LOGOUT_CLOSE, LOGOUT_OPEN, NAME_OPEN, NEXT_QUERY, NOTE_CLOSE, NOTE_OPEN,
    NOT_CONFIGURED, NOW_MID, NOW_OPEN, NOW_SCRIPT_CLOSE, NOW_SCRIPT_OPEN, NOW_TITLE, PORTAL_OPEN, SELECT_CARDS_CLOSE,
    SELECT_LEAD, SELECT_OPEN, SELECT_TITLE, THEME_BOOT, TITLE_CLOSE, TOKENS_OPEN, NO_GUILDS,
};
use crate::text::decimal;
use crate::web::encode_bytes;

verus! {

/// `part` occurs in `s`.
pub open spec fn contains_text(s: Seq<char>, part: Seq<char>) -> bool {
    exists|i: int| 0 <= i && i + part.len() <= s.len() && #[trigger] s.subrange(i, i + part.len()) == part
}

pub const LEAD_OPEN: &'static str = "<p class=\"gate__lead\">";
pub const LEAD_CLOSE: &'static str = "</p>";
pub const GUILD_LINK_OPEN: &'static str = "href=\"/music/guilds/";
pub const GUILD_DATA_OPEN: &'static str = "data-guild=\"";
pub const QUOTE: &'static str = "\"";
pub const SIGN_IN_LINK_OPEN: &'static str = "href=\"/music/oauth/start";
pub const CSRF_FIELD_OPEN: &'static str = "name=\"csrf\" value=\"";

/// `a` ends with `x`.
pub open spec fn ends_with(a: Seq<char>, x: Seq<char>) -> bool {
    a.len() >= x.len() && a.subrange(a.len() - x.len(), a.len() as int) == x
}

/// `b` starts with `y`.
pub open spec fn starts_with(b: Seq<char>, y: Seq<char>) -> bool {
    b.len() >= y.len() && b.subrange(0, y.len() as int) == y
}

/// Text framed by the end of `a` and the start of `b` occurs in any text
/// holding `a + m + b`.
proof fn lemma_framed(pre: Seq<char>, a: Seq<char>, m: Seq<char>, b: Seq<char>, post: Seq<char>, x: Seq<char>, y: Seq<char>)
    requires
        ends_with(a, x),
        starts_with(b, y),
    ensures
        contains_text(pre + a + m + b + post, x + m + y),
{
    let s = pre + a + m + b + post;
    let part = x + m + y;
    let i = pre.len() + a.len() - x.len();
    assert(s.subrange(i, i + part.len()) =~= part) by {
        assert forall|k: int| 0 <= k < part.len() implies s.subrange(i, i + part.len())[k] == part[k] by {
            if k < x.len() {
                assert(a[a.len() - x.len() + k] == x[k]);
            } else if k < x.len() + m.len() {
            } else {
                assert(b[k - x.len() - m.len()] == y[k - x.len() - m.len()]);
            }
        }
    }
}

proof fn lemma_denied_frame()
    ensures
        ends_with(DENIED_OPEN@, LEAD_OPEN@),
        starts_with(DENIED_MID@, LEAD_CLOSE@),
        ends_with(DENIED_MID@, GUILD_LINK_OPEN@),
        starts_with(DENIED_CLOSE@, QUOTE@),
{
    reveal_strlit("<main class=\"gate__wrap\"><section class=\"gate__card\">\n<div class=\"gate__logo\" aria-hidden=\"true\">🔒</div>\n<h1>여기는 못 들어가요</h1>\n<p class=\"gate__lead\">");
    reveal_strlit("</p>\n<a class=\"btn btn--primary btn--wide\" href=\"/music/guilds/");
    reveal_strlit("\">← 리모컨으로 돌아가기</a>\n</section></main>");
    reveal_strlit("<p class=\"gate__lead\">");
    reveal_strlit("</p>");
    reveal_strlit("href=\"/music/guilds/");
    reveal_strlit("\"");
    assert(DENIED_OPEN@.subrange(DENIED_OPEN@.len() - LEAD_OPEN@.len(), DENIED_OPEN@.len() as int) =~= LEAD_OPEN@);
    assert(ends_with(DENIED_OPEN@, LEAD_OPEN@));
    assert(DENIED_MID@.subrange(0, LEAD_CLOSE@.len() as int) =~= LEAD_CLOSE@);
    assert(starts_with(DENIED_MID@, LEAD_CLOSE@));
    assert(DENIED_MID@.subrange(DENIED_MID@.len() - GUILD_LINK_OPEN@.len(), DENIED_MID@.len() as int) =~= GUILD_LINK_OPEN@);
    assert(ends_with(DENIED_MID@, GUILD_LINK_OPEN@));
    assert(DENIED_CLOSE@.subrange(0, QUOTE@.len() as int) =~= QUOTE@);
    assert(starts_with(DENIED_CLOSE@, QUOTE@));
}

/// The refusal page shows the message, escaped, as its lead line, and links
/// back to that server's remote.
pub proof fn law_denied_shows_message_and_way_back(message: Seq<char>, guild_id: u64, version: Seq<char>)
    ensures
        contains_text(plain_spec(DENIED_TITLE@, version, denied_body(message, guild_id)),
            LEAD_OPEN@ + escape_seq(message) + LEAD_CLOSE@),
        contains_text(plain_spec(DENIED_TITLE@, version, denied_body(message, guild_id)),
            GUILD_LINK_OPEN@ + decimal(guild_id as nat) + QUOTE@),
{
    lemma_denied_frame();
    let head = HEAD_OPEN@ + escape_seq(DENIED_TITLE@) + TITLE_CLOSE@ + THEME_BOOT@ + ICON_OPEN@ + version + TOKENS_OPEN@
        + version + PORTAL_OPEN@ + version + GATE_BODY_OPEN@;
    let e = escape_seq(message);
    let d = decimal(guild_id as nat);
    let page = plain_spec(DENIED_TITLE@, version, denied_body(message, guild_id));
    assert(page =~= head + DENIED_OPEN@ + e + DENIED_MID@ + (d + DENIED_CLOSE@ + DOC_CLOSE@));
    lemma_framed(head, DENIED_OPEN@, e, DENIED_MID@, d + DENIED_CLOSE@ + DOC_CLOSE@, LEAD_OPEN@, LEAD_CLOSE@);
    assert(page =~= (head + DENIED_OPEN@ + e) + DENIED_MID@ + d + DENIED_CLOSE@ + DOC_CLOSE@);
    lemma_framed(head + DENIED_OPEN@ + e, DENIED_MID@, d, DENIED_CLOSE@, DOC_CLOSE@, GUILD_LINK_OPEN@, QUOTE@);
}

proof fn lemma_now_frame()
    ensures
        ends_with(NOW_OPEN@, GUILD_DATA_OPEN@),
        starts_with(NOW_MID@, QUOTE@),
        ends_with(NOW_MID@, GUILD_LINK_OPEN@),
        starts_with(NOW_SCRIPT_OPEN@, QUOTE@),
{
    reveal_strlit("<main class=\"gate__wrap\"><section class=\"gate__card\" id=\"pub\" data-guild=\"");
    reveal_strlit("\">\n<div class=\"gate__logo\" aria-hidden=\"true\">🎵</div>\n<h1 id=\"pub-title\">불러오는 중…</h1>\n<p class=\"gate__lead\" id=\"pub-artist\"></p>\n<p class=\"gate__lead\" id=\"pub-queue\"></p>\n<p class=\"gate__lead\" style=\"opacity:.7;font-size:.85em\">보기만 할 수 있어요. 조작하려면 로그인해야 해요.</p>\n<a class=\"btn btn--primary btn--wide\" href=\"/music/guilds/");
    reveal_strlit("\">Discord로 로그인하고 조작하기</a>\n</section></main>\n<script>\n// 5초마다 갱신한다. WebSocket 을 안 쓰는 이유: 로그인 안 한 사람에게 소켓을 열어 주면\n// 그 자체가 붙잡아 둘 자원이 된다. 이 화면은 가볍게 폴링만 한다.\n(function () {\n  var box = document.getElementById('pub');\n  var url = '/music/api/guilds/' + box.dataset.guild + '/public?v=");
    reveal_strlit("data-guild=\"");
    reveal_strlit("href=\"/music/guilds/");
    reveal_strlit("\"");
    assert(NOW_OPEN@.subrange(NOW_OPEN@.len() - GUILD_DATA_OPEN@.len(), NOW_OPEN@.len() as int) =~= GUILD_DATA_OPEN@);
    assert(ends_with(NOW_OPEN@, GUILD_DATA_OPEN@));
    assert(NOW_MID@.subrange(0, QUOTE@.len() as int) =~= QUOTE@);
    assert(starts_with(NOW_MID@, QUOTE@));
    assert(NOW_MID@.subrange(NOW_MID@.len() - GUILD_LINK_OPEN@.len(), NOW_MID@.len() as int) =~= GUILD_LINK_OPEN@);
    assert(ends_with(NOW_MID@, GUILD_LINK_OPEN@));
    assert(NOW_SCRIPT_OPEN@.subrange(0, QUOTE@.len() as int) =~= QUOTE@);
    assert(starts_with(NOW_SCRIPT_OPEN@, QUOTE@));
}

/// The public page names its server for the script and links to that
/// server's remote for signing in.
pub proof fn law_public_page_names_its_server(guild_id: u64, build_id: Seq<char>, version: Seq<char>)
    ensures
        contains_text(plain_spec(NOW_TITLE@, version, public_now_body(guild_id, build_id)),
            GUILD_DATA_OPEN@ + decimal(guild_id as nat) + QUOTE@),
        contains_text(plain_spec(NOW_TITLE@, version, public_now_body(guild_id, build_id)),
            GUILD_LINK_OPEN@ + decimal(guild_id as nat) + QUOTE@),
{
    lemma_now_frame();
    let head = HEAD_OPEN@ + escape_seq(NOW_TITLE@) + TITLE_CLOSE@ + THEME_BOOT@ + ICON_OPEN@ + version + TOKENS_OPEN@
        + version + PORTAL_OPEN@ + version + GATE_BODY_OPEN@;
    let d = decimal(guild_id as nat);
    let tail = build_id + NOW_SCRIPT_CLOSE@ + DOC_CLOSE@;
    let page = plain_spec(NOW_TITLE@, version, public_now_body(guild_id, build_id));
    assert(page =~= head + NOW_OPEN@ + d + NOW_MID@ + (d + NOW_SCRIPT_OPEN@ + tail));
    lemma_framed(head, NOW_OPEN@, d, NOW_MID@, d + NOW_SCRIPT_OPEN@ + tail, GUILD_DATA_OPEN@, QUOTE@);
    assert(page =~= (head + NOW_OPEN@ + d) + NOW_MID@ + d + NOW_SCRIPT_OPEN@ + tail);
    lemma_framed(head + NOW_OPEN@ + d, NOW_MID@, d, NOW_SCRIPT_OPEN@, tail, GUILD_LINK_OPEN@, QUOTE@);
}

/// A part of a page body occurs in the page around it.
proof fn lemma_in_plain(title: Seq<char>, version: Seq<char>, pre: Seq<char>, part: Seq<char>, post: Seq<char>)
    ensures
        contains_text(plain_spec(title, version, pre + part + post), part),
{
    let head = HEAD_OPEN@ + escape_seq(title) + TITLE_CLOSE@ + THEME_BOOT@ + ICON_OPEN@ + version + TOKENS_OPEN@
        + version + PORTAL_OPEN@ + version + GATE_BODY_OPEN@ + pre;
    let page = plain_spec(title, version, pre + part + post);
    assert(page =~= head + part + (post + DOC_CLOSE@));
    let i = head.len() as int;
    assert(page.subrange(i, i + part.len()) =~= part);
}

proof fn lemma_sign_in_frame()
    ensures
        ends_with(LOGIN_BUTTON_OPEN@, SIGN_IN_LINK_OPEN@),
        starts_with(LOGIN_BUTTON_CLOSE@, QUOTE@),
{
    reveal_strlit("<a class=\"btn btn--primary btn--wide\" data-testid=\"discord-login\" href=\"/music/oauth/start");
    reveal_strlit("\">Discord로 계속하기</a>");
    reveal_strlit("href=\"/music/oauth/start");
    reveal_strlit("\"");
    assert(LOGIN_BUTTON_OPEN@.subrange(LOGIN_BUTTON_OPEN@.len() - SIGN_IN_LINK_OPEN@.len(), LOGIN_BUTTON_OPEN@.len() as int) =~= SIGN_IN_LINK_OPEN@);
    assert(LOGIN_BUTTON_CLOSE@.subrange(0, QUOTE@.len() as int) =~= QUOTE@);
}

proof fn lemma_card_frame()
    ensures
        ends_with(CARD_OPEN@, GUILD_LINK_OPEN@),
        starts_with(CARD_MID@, QUOTE@),
{
    reveal_strlit("<a class=\"gate__guild\" data-testid=\"guild-card\" href=\"/music/guilds/");
    reveal_strlit("\">");
    reveal_strlit("href=\"/music/guilds/");
    reveal_strlit("\"");
    assert(CARD_OPEN@.subrange(CARD_OPEN@.len() - GUILD_LINK_OPEN@.len(), CARD_OPEN@.len() as int) =~= GUILD_LINK_OPEN@);
    assert(CARD_MID@.subrange(0, QUOTE@.len() as int) =~= QUOTE@);
}

proof fn lemma_logout_frame()
    ensures
        ends_with(LOGOUT_OPEN@, CSRF_FIELD_OPEN@),
        starts_with(LOGOUT_CLOSE@, QUOTE@),
{
    reveal_strlit("\n<form method=\"post\" action=\"/music/logout\" class=\"gate__dev\"><input type=\"hidden\" name=\"csrf\" value=\"");
    reveal_strlit("\"><button class=\"btn btn--ghost\" type=\"submit\">로그아웃</button></form>\n</section></main>");
    reveal_strlit("name=\"csrf\" value=\"");
    reveal_strlit("\"");
    assert(LOGOUT_OPEN@.subrange(LOGOUT_OPEN@.len() - CSRF_FIELD_OPEN@.len(), LOGOUT_OPEN@.len() as int) =~= CSRF_FIELD_OPEN@);
    assert(LOGOUT_CLOSE@.subrange(0, QUOTE@.len() as int) =~= QUOTE@);
}

/// The head of a plain page, up to its body.
pub open spec fn plain_head(title: Seq<char>, version: Seq<char>) -> Seq<char> {
    HEAD_OPEN@ + escape_seq(title) + TITLE_CLOSE@ + THEME_BOOT@ + ICON_OPEN@ + version + TOKENS_OPEN@ + version
        + PORTAL_OPEN@ + version + GATE_BODY_OPEN@
}

proof fn lemma_plain_parts(title: Seq<char>, version: Seq<char>, body: Seq<char>)
    ensures
        plain_spec(title, version, body) == plain_head(title, version) + body + DOC_CLOSE@,
{
    assert(plain_spec(title, version, body) =~= plain_head(title, version) + body + DOC_CLOSE@);
}

proof fn lemma_sign_in_link(configured: bool, dev_login: bool, message: Option<Seq<char>>, next: Option<Seq<char>>,
    next_bytes: Option<Seq<u8>>, version: Seq<char>)
    requires
        configured,
    ensures
        contains_text(
            plain_spec(LOGIN_TITLE@, version, login_body(configured, dev_login, message, next, next_bytes)),
            SIGN_IN_LINK_OPEN@ + (match next_bytes { Some(b) => NEXT_QUERY@ + encode_bytes(b, true), None => Seq::empty() })
                + QUOTE@),
{
    lemma_sign_in_frame();
    let q = match next_bytes { Some(b) => NEXT_QUERY@ + encode_bytes(b, true), None => Seq::<char>::empty() };
    let dev = login_dev_spec(dev_login, next);
    let body = login_body(configured, dev_login, message, next, next_bytes);
    let head = plain_head(LOGIN_TITLE@, version) + LOGIN_BODY_OPEN@ + login_notice_spec(message);
    lemma_plain_parts(LOGIN_TITLE@, version, body);
    assert(plain_spec(LOGIN_TITLE@, version, body)
        =~= head + LOGIN_BUTTON_OPEN@ + q + LOGIN_BUTTON_CLOSE@ + (dev + LOGIN_BODY_CLOSE@ + DOC_CLOSE@));
    lemma_framed(head, LOGIN_BUTTON_OPEN@, q, LOGIN_BUTTON_CLOSE@, dev + LOGIN_BODY_CLOSE@ + DOC_CLOSE@,
        SIGN_IN_LINK_OPEN@, QUOTE@);
}

/// The sign-in page: when sign-in is set up, it links to the sign-in start
/// (carrying `next`, percent-encoded); when it is not, the note that it is
/// not set up takes the link's place; a notice, when there is one, is shown
/// escaped; the local test form appears when local test sign-in is on.
pub proof fn law_sign_in_page_shows_link_and_notice(
    configured: bool,
    dev_login: bool,
    message: Option<Seq<char>>,
    next: Option<Seq<char>>,
    next_bytes: Option<Seq<u8>>,
    version: Seq<char>,
)
    ensures
        configured ==> contains_text(
            plain_spec(LOGIN_TITLE@, version, login_body(configured, dev_login, message, next, next_bytes)),
            SIGN_IN_LINK_OPEN@ + (match next_bytes { Some(b) => NEXT_QUERY@ + encode_bytes(b, true), None => Seq::empty() })
                + QUOTE@),
        !configured ==> login_action_spec(configured, next_bytes) == NOT_CONFIGURED@,
        message matches Some(m) ==> contains_text(
            plain_spec(LOGIN_TITLE@, version, login_body(configured, dev_login, message, next, next_bytes)),
            NOTE_OPEN@ + escape_seq(m) + NOTE_CLOSE@),
        dev_login ==> contains_text(
            plain_spec(LOGIN_TITLE@, version, login_body(configured, dev_login, message, next, next_bytes)),
            DEV_FORM_OPEN@),
{
    let notice = login_notice_spec(message);
    let action = login_action_spec(configured, next_bytes);
    let dev = login_dev_spec(dev_login, next);
    if configured {
        lemma_sign_in_link(configured, dev_login, message, next, next_bytes, version);
    }
    if let Some(m) = message {
        let body = login_body(configured, dev_login, message, next, next_bytes);
        assert(body =~= LOGIN_BODY_OPEN@ + (NOTE_OPEN@ + escape_seq(m) + NOTE_CLOSE@) + (action + dev + LOGIN_BODY_CLOSE@));
        lemma_in_plain(LOGIN_TITLE@, version, LOGIN_BODY_OPEN@, NOTE_OPEN@ + escape_seq(m) + NOTE_CLOSE@,
            action + dev + LOGIN_BODY_CLOSE@);
    }
    if dev_login {
        let hidden = match next { Some(p) => DEV_HIDDEN_OPEN@ + escape_seq(p) + DEV_HIDDEN_CLOSE@, None => Seq::<char>::empty() };
        let body = login_body(configured, dev_login, message, next, next_bytes);
        assert(body =~= (LOGIN_BODY_OPEN@ + notice + action) + DEV_FORM_OPEN@ + (hidden + DEV_FORM_CLOSE@ + LOGIN_BODY_CLOSE@));
        lemma_in_plain(LOGIN_TITLE@, version, LOGIN_BODY_OPEN@ + notice + action, DEV_FORM_OPEN@,
            hidden + DEV_FORM_CLOSE@ + LOGIN_BODY_CLOSE@);
    }
}

proof fn lemma_card_in_cards(gs: Seq<OAuthGuild>, k: int)
    requires
        0 <= k < gs.len(),
    ensures
        exists|pre: Seq<char>, post: Seq<char>| cards_spec(gs) == pre + card_spec(gs[k]) + post,
    decreases gs.len(),
{
    if k == gs.len() - 1 {
        assert(cards_spec(gs) =~= cards_spec(gs.drop_last()) + card_spec(gs[k]) + Seq::<char>::empty());
    } else {
        lemma_card_in_cards(gs.drop_last(), k);
        let (pre, post) = choose|pre: Seq<char>, post: Seq<char>|
            cards_spec(gs.drop_last()) == pre + card_spec(gs.drop_last()[k]) + post;
        assert(cards_spec(gs) =~= pre + card_spec(gs[k]) + (post + card_spec(gs.last())));
    }
}

/// A card's parts occur in any text that holds the card.
proof fn lemma_card_parts(pre: Seq<char>, g: OAuthGuild, post: Seq<char>)
    ensures
        contains_text(pre + card_spec(g) + post, GUILD_LINK_OPEN@ + decimal(g.id as nat) + QUOTE@),
        contains_text(pre + card_spec(g) + post, NAME_OPEN@ + escape_seq(g.name@) + CARD_CLOSE@),
{
    lemma_card_frame();
    let icon = match g.icon {
        Some(i) => IMG_OPEN@ + escape_seq(crate::auth::icon_url_spec(g.id, i@)) + IMG_CLOSE@,
        None => ICON_FALLBACK@,
    };
    let d = decimal(g.id as nat);
    let name = NAME_OPEN@ + escape_seq(g.name@) + CARD_CLOSE@;
    let all = pre + card_spec(g) + post;
    assert(all =~= pre + CARD_OPEN@ + d + CARD_MID@ + (icon + name + post));
    lemma_framed(pre, CARD_OPEN@, d, CARD_MID@, icon + name + post, GUILD_LINK_OPEN@, QUOTE@);
    let before = pre + CARD_OPEN@ + d + CARD_MID@ + icon;
    assert(all =~= before + name + post);
    assert(all.subrange(before.len() as int, (before.len() + name.len()) as int) =~= name);
}

/// The server choice page holds a card for every server, linking to its
/// remote and showing its name escaped, and carries the session's CSRF
/// token, escaped, in the sign-out form.
pub proof fn law_server_choice_lists_every_server(session: &RemoteSession, guilds: Seq<OAuthGuild>, version: Seq<char>, k: int)
    requires
        0 <= k < guilds.len(),
    ensures
        contains_text(plain_spec(SELECT_TITLE@, version, selector_body(session, guilds)),
            GUILD_LINK_OPEN@ + decimal(guilds[k].id as nat) + QUOTE@),
        contains_text(plain_spec(SELECT_TITLE@, version, selector_body(session, guilds)),
            NAME_OPEN@ + escape_seq(guilds[k].name@) + CARD_CLOSE@),
        contains_text(plain_spec(SELECT_TITLE@, version, selector_body(session, guilds)),
            CSRF_FIELD_OPEN@ + escape_seq(session.csrf_token@) + QUOTE@),
{
    let g = guilds[k];
    lemma_card_in_cards(guilds, k);
    let (cpre, cpost) = choose|pre: Seq<char>, post: Seq<char>| cards_spec(guilds) == pre + card_spec(g) + post;
    let note = if guilds.len() == 0 { NO_GUILDS@ } else { Seq::<char>::empty() };
    let body = selector_body(session, guilds);
    let csrf = escape_seq(session.csrf_token@);
    let head = plain_head(SELECT_TITLE@, version) + SELECT_OPEN@ + escape_seq(session.display_name@) + SELECT_LEAD@ + cpre;
    let rest = cpost + SELECT_CARDS_CLOSE@ + note + LOGOUT_OPEN@ + csrf + LOGOUT_CLOSE@ + DOC_CLOSE@;
    lemma_plain_parts(SELECT_TITLE@, version, body);
    assert(plain_spec(SELECT_TITLE@, version, body) =~= head + card_spec(g) + rest);
    lemma_card_parts(head, g, rest);
    lemma_logout_frame();
    let before_form = head + card_spec(g) + cpost + SELECT_CARDS_CLOSE@ + note;
    assert(plain_spec(SELECT_TITLE@, version, body) =~= before_form + LOGOUT_OPEN@ + csrf + LOGOUT_CLOSE@ + DOC_CLOSE@);
    lemma_framed(before_form, LOGOUT_OPEN@, csrf, LOGOUT_CLOSE@, DOC_CLOSE@, CSRF_FIELD_OPEN@, QUOTE@);
}

/// With no servers to choose from, the page says so.
pub proof fn law_empty_server_choice_says_so(session: &RemoteSession, version: Seq<char>)
    ensures
        contains_text(plain_spec(SELECT_TITLE@, version, selector_body(session, Seq::empty())), NO_GUILDS@),
{
    let guilds = Seq::<OAuthGuild>::empty();
    let pre = SELECT_OPEN@ + escape_seq(session.display_name@) + SELECT_LEAD@ + cards_spec(guilds) + SELECT_CARDS_CLOSE@;
    let post = LOGOUT_OPEN@ + escape_seq(session.csrf_token@) + LOGOUT_CLOSE@;
    assert(selector_body(session, guilds) =~= pre + NO_GUILDS@ + post);
    lemma_in_plain(SELECT_TITLE@, version, pre, NO_GUILDS@, post);
}

} // verus!
