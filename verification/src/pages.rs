//! Page shells served without client-side rendering: sign-in, server
//! choice, the public "now playing" page, the API guide and refusals.

use vstd::prelude::*;
use crate::auth::{icon_url_spec, OAuthGuild, RemoteSession};
use crate::text::{decimal, push_char, push_decimal, push_str};
use crate::web::{encode_bytes, percent_encode_path};
use vstd::string::StringSliceAdditionalSpecFns;

verus! {

// ───────── escaping ─────────

/// One character made safe for HTML text and attribute values.
pub open spec fn escape_char(c: char) -> Seq<char> {
    if c == '&' { "&amp;"@ }
    else if c == '<' { "&lt;"@ }
    else if c == '>' { "&gt;"@ }
    else if c == '"' { "&quot;"@ }
    else if c == '\'' { "&#39;"@ }
    else { seq![c] }
}

/// `s` with `& < > " '` replaced by entities.
pub open spec fn escape_seq(s: Seq<char>) -> Seq<char>
    decreases s.len(),
{
    if s.len() == 0 { Seq::empty() } else { escape_seq(s.drop_last()) + escape_char(s.last()) }
}

/// Appends `s`, HTML-escaped, to `out`.
pub fn push_escaped(out: &mut String, s: &str)
    ensures
        final(out)@ == old(out)@ + escape_seq(s@),
{
    let chars = crate::text::chars_of(s);
    let ghost start = out@;
    let mut k: usize = 0;
    while k < chars.len()
        invariant
            k <= chars.len(),
            chars@ == s@,
            out@ == start + escape_seq(chars@.subrange(0, k as int)),
        decreases chars.len() - k,
    {
        let c = chars[k];
        if c == '&' { push_str(out, "&amp;"); }
        else if c == '<' { push_str(out, "&lt;"); }
        else if c == '>' { push_str(out, "&gt;"); }
        else if c == '"' { push_str(out, "&quot;"); }
        else if c == '\'' { push_str(out, "&#39;"); }
        else { push_char(out, c); }
        proof {
            assert(chars@.subrange(0, k + 1).drop_last() =~= chars@.subrange(0, k as int));
            assert(out@ =~= start + escape_seq(chars@.subrange(0, k + 1)));
        }
        k = k + 1;
    }
    proof { assert(chars@.subrange(0, k as int) =~= chars@); }
}

/// HTML-escapes `s`.
pub fn html_escape(s: &str) -> (r: String)
    ensures
        r@ == escape_seq(s@),
{
    let mut r = String::new();
    push_escaped(&mut r, s);
    assert(r@ =~= escape_seq(s@));
    r
}

// ───────── the shell ─────────

/// Runs before the stylesheets so the saved theme applies without a flash.
pub const THEME_BOOT: &'static str = "<script>try{\nvar t=localStorage.getItem('macham.theme')||'dark';\nif(t==='auto')t=matchMedia('(prefers-color-scheme: light)').matches?'light':'dark';\ndocument.documentElement.dataset.theme=t;\nvar light=t==='light'||t==='sepia';\ndocument.documentElement.style.colorScheme=light?'light':'dark';\n}catch(e){}</script>";

pub const HEAD_OPEN: &'static str = "<!doctype html><html lang=\"ko\"><head><meta charset=\"utf-8\">\n<meta name=\"viewport\" content=\"width=device-width,initial-scale=1,viewport-fit=cover\">\n<meta name=\"color-scheme\" content=\"dark light\">\n<title>";
pub const TITLE_CLOSE: &'static str = " · 마참뮤직</title>\n";
pub const ICON_OPEN: &'static str = "\n<link rel=\"icon\" href=\"/music/assets/favicon.svg?v=";
pub const TOKENS_OPEN: &'static str = "\">\n<link rel=\"stylesheet\" href=\"/music/assets/tokens.css?v=";
pub const PORTAL_OPEN: &'static str = "\">\n<link rel=\"stylesheet\" href=\"/music/assets/portal.css?v=";
pub const APIDOC_CSS_OPEN: &'static str = "\">\n<link rel=\"stylesheet\" href=\"/music/assets/apidoc.css?v=";
pub const GATE_BODY_OPEN: &'static str = "\">\n</head><body class=\"gate\">";
pub const PLAIN_BODY_OPEN: &'static str = "\">\n</head><body>";
pub const DOC_CLOSE: &'static str = "</body></html>";

/// A minimal page: head with the theme script, icon and the two stylesheets
/// (tokens, then the portal's), and `body` in a gate-styled body.
pub open spec fn plain_spec(title: Seq<char>, version: Seq<char>, body: Seq<char>) -> Seq<char> {
    HEAD_OPEN@ + escape_seq(title) + TITLE_CLOSE@ + THEME_BOOT@ + ICON_OPEN@ + version + TOKENS_OPEN@ + version
        + PORTAL_OPEN@ + version + GATE_BODY_OPEN@ + body + DOC_CLOSE@
}

/// A script-free page around `body` (see `plain_spec`); `asset_version`
/// is the cache-busting value of the asset links.
pub fn plain(title: &str, asset_version: &str, body: &str) -> (page: String)
    ensures
        page@ == plain_spec(title@, asset_version@, body@),
{
    let mut page = String::new();
    push_str(&mut page, HEAD_OPEN);
    push_escaped(&mut page, title);
    push_str(&mut page, TITLE_CLOSE);
    push_str(&mut page, THEME_BOOT);
    push_str(&mut page, ICON_OPEN);
    push_str(&mut page, asset_version);
    push_str(&mut page, TOKENS_OPEN);
    push_str(&mut page, asset_version);
    push_str(&mut page, PORTAL_OPEN);
    push_str(&mut page, asset_version);
    push_str(&mut page, GATE_BODY_OPEN);
    push_str(&mut page, body);
    push_str(&mut page, DOC_CLOSE);
    proof { assert(page@ =~= plain_spec(title@, asset_version@, body@)); }
    page
}

// ───────── the script shell ─────────

/// JSON text made safe inside `<script>`: every `</` becomes `<\/`, read
/// from the left, so the text can never close the script element.
pub open spec fn script_safe(s: Seq<char>) -> Seq<char>
    decreases s.len(),
{
    if s.len() == 0 {
        Seq::empty()
    } else if s.len() >= 2 && s[0] == '<' && s[1] == '/' {
        seq!['<', '\\', '/'] + script_safe(s.subrange(2, s.len() as int))
    } else {
        seq![s[0]] + script_safe(s.drop_first())
    }
}

/// Whether `</` occurs in `s`.
pub open spec fn closes_script(s: Seq<char>) -> bool {
    exists|i: int| 0 <= i && i + 1 < s.len() && #[trigger] s[i] == '<' && s[i + 1] == '/'
}

proof fn lemma_script_safe_first(s: Seq<char>)
    requires
        s.len() > 0,
    ensures
        script_safe(s).len() > 0,
        script_safe(s)[0] == s[0],
{
}

/// Escaped JSON never holds `</`, so a bootstrap value cannot end the
/// script that carries it.
pub proof fn law_script_json_never_closes_the_script(s: Seq<char>)
    ensures
        !closes_script(script_safe(s)),
    decreases s.len(),
{
    if s.len() == 0 {
        assert(script_safe(s) =~= Seq::<char>::empty());
    } else if s.len() >= 2 && s[0] == '<' && s[1] == '/' {
        let t = s.subrange(2, s.len() as int);
        law_script_json_never_closes_the_script(t);
        let head = seq!['<', '\\', '/'];
        let r = head + script_safe(t);
        assert(script_safe(s) == r);
        assert forall|i: int| 0 <= i && i + 1 < r.len() && #[trigger] r[i] == '<' implies r[i + 1] != '/' by {
            if i >= 3 {
                assert(r[i] == script_safe(t)[i - 3]);
                assert(r[i + 1] == script_safe(t)[i - 2]);
            }
        }
    } else {
        let t = s.drop_first();
        law_script_json_never_closes_the_script(t);
        let r = seq![s[0]] + script_safe(t);
        assert(script_safe(s) == r);
        assert forall|i: int| 0 <= i && i + 1 < r.len() && #[trigger] r[i] == '<' implies r[i + 1] != '/' by {
            if i == 0 {
                lemma_script_safe_first(t);
                assert(r[1] == script_safe(t)[0]);
                assert(t[0] == s[1]);
            } else {
                assert(r[i] == script_safe(t)[i - 1]);
                assert(r[i + 1] == script_safe(t)[i]);
            }
        }
    }
}

/// `json` (already serialised) escaped for a `<script>` element (see `script_safe`).
pub fn script_json(json: &str) -> (r: String)
    ensures
        r@ == script_safe(json@),
{
    let chars = crate::text::chars_of(json);
    let mut out = String::new();
    let mut k: usize = 0;
    proof {
        assert(chars@.subrange(0, chars@.len() as int) =~= chars@);
        assert(out@ + script_safe(chars@) =~= script_safe(chars@));
    }
    while k < chars.len()
        invariant
            k <= chars.len(),
            chars@ == json@,
            out@ + script_safe(chars@.subrange(k as int, chars@.len() as int)) == script_safe(chars@),
        decreases chars.len() - k,
    {
        let ghost rest = chars@.subrange(k as int, chars@.len() as int);
        if k + 1 < chars.len() && chars[k] == '<' && chars[k + 1] == '/' {
            push_str(&mut out, "<\\/");
            proof {
                reveal_strlit("<\\/");
                assert(rest.subrange(2, rest.len() as int) =~= chars@.subrange(k + 2, chars@.len() as int));
                assert(script_safe(rest) == seq!['<', '\\', '/'] + script_safe(rest.subrange(2, rest.len() as int)));
                assert("<\\/"@ =~= seq!['<', '\\', '/']);
            }
            k = k + 2;
        } else {
            push_char(&mut out, chars[k]);
            proof {
                assert(rest.drop_first() =~= chars@.subrange(k + 1, chars@.len() as int));
                assert(script_safe(rest) == seq![chars@[k as int]] + script_safe(rest.drop_first()));
            }
            k = k + 1;
        }
    }
    proof { assert(chars@.subrange(k as int, chars@.len() as int) =~= Seq::<char>::empty()); }
    out
}

pub const SHELL_HEAD_OPEN: &'static str = "<!doctype html><html lang=\"ko\"><head><meta charset=\"utf-8\">\n<meta name=\"viewport\" content=\"width=device-width,initial-scale=1,viewport-fit=cover\">\n<meta name=\"color-scheme\" content=\"dark light\">\n<meta name=\"theme-color\" id=\"theme-color\" content=\"#07090f\">\n<title>";
pub const APPLE_ICON_OPEN: &'static str = "\">\n<link rel=\"apple-touch-icon\" href=\"/music/assets/icon-180.png?v=";
pub const MANIFEST_OPEN: &'static str = "\">\n<link rel=\"manifest\" href=\"/music/manifest.webmanifest?v=";
pub const SHEET_OPEN: &'static str = "\">\n<link rel=\"stylesheet\" href=\"/music/assets/";
pub const VERSION_QUERY: &'static str = "?v=";
pub const SHELL_BODY_OPEN: &'static str = "\">\n</head><body>\n";
pub const BOOT_OPEN: &'static str = "\n<script>window.MACHAM=";
pub const BOOT_CLOSE: &'static str = ";</script>\n<script type=\"module\" src=\"/music/assets/";
pub const WORKER_OPEN: &'static str = "\"></script>\n<script>if('serviceWorker' in navigator)window.addEventListener('load',function(){navigator.serviceWorker.register('/music/sw.js?v=";
pub const WORKER_CLOSE: &'static str = "').catch(function(){})});</script>\n</body></html>";

/// The page that boots a script screen: head with theme script, icons,
/// manifest, the token stylesheet and `stylesheet`; then `body`, the
/// bootstrap JSON (escaped by `script_safe`), the module `entry` and the
/// service worker registration.
pub open spec fn shell_spec(
    title: Seq<char>,
    version: Seq<char>,
    stylesheet: Seq<char>,
    entry: Seq<char>,
    bootstrap: Seq<char>,
    body: Seq<char>,
) -> Seq<char> {
    SHELL_HEAD_OPEN@ + escape_seq(title) + TITLE_CLOSE@ + THEME_BOOT@ + ICON_OPEN@ + version
        + APPLE_ICON_OPEN@ + version + MANIFEST_OPEN@ + version + TOKENS_OPEN@ + version
        + SHEET_OPEN@ + stylesheet + VERSION_QUERY@ + version + SHELL_BODY_OPEN@ + body
        + BOOT_OPEN@ + script_safe(bootstrap) + BOOT_CLOSE@ + entry + VERSION_QUERY@ + version
        + WORKER_OPEN@ + version + WORKER_CLOSE@
}

/// The script screen's page (see `shell_spec`); `bootstrap_json` is the
/// serialised bootstrap value and `asset_version` the cache-busting value.
pub fn shell(
    title: &str,
    asset_version: &str,
    stylesheet: &str,
    entry: &str,
    bootstrap_json: &str,
    body: &str,
) -> (page: String)
    ensures
        page@ == shell_spec(title@, asset_version@, stylesheet@, entry@, bootstrap_json@, body@),
{
    let mut page = String::new();
    push_str(&mut page, SHELL_HEAD_OPEN);
    push_escaped(&mut page, title);
    push_str(&mut page, TITLE_CLOSE);
    push_str(&mut page, THEME_BOOT);
    push_str(&mut page, ICON_OPEN);
    push_str(&mut page, asset_version);
    push_str(&mut page, APPLE_ICON_OPEN);
    push_str(&mut page, asset_version);
    push_str(&mut page, MANIFEST_OPEN);
    push_str(&mut page, asset_version);
    push_str(&mut page, TOKENS_OPEN);
    push_str(&mut page, asset_version);
    push_str(&mut page, SHEET_OPEN);
    push_str(&mut page, stylesheet);
    push_str(&mut page, VERSION_QUERY);
    push_str(&mut page, asset_version);
    push_str(&mut page, SHELL_BODY_OPEN);
    push_str(&mut page, body);
    push_str(&mut page, BOOT_OPEN);
    let safe = script_json(bootstrap_json);
    push_str(&mut page, safe.as_str());
    push_str(&mut page, BOOT_CLOSE);
    push_str(&mut page, entry);
    push_str(&mut page, VERSION_QUERY);
    push_str(&mut page, asset_version);
    push_str(&mut page, WORKER_OPEN);
    push_str(&mut page, asset_version);
    push_str(&mut page, WORKER_CLOSE);
    proof {
        assert(page@ =~= shell_spec(title@, asset_version@, stylesheet@, entry@, bootstrap_json@, body@));
    }
    page
}

// ───────── sign-in ─────────

pub const LOGIN_BUTTON_OPEN: &'static str = "<a class=\"btn btn--primary btn--wide\" data-testid=\"discord-login\" href=\"/music/oauth/start";
pub const LOGIN_BUTTON_CLOSE: &'static str = "\">Discord로 계속하기</a>";
pub const NOT_CONFIGURED: &'static str = "<div class=\"gate__note\"><strong>OAuth 설정이 아직 없어요.</strong><br>운영 패널 → 봇 설정에서 Discord Client ID / Secret / 공개 URL을 넣어 주세요.</div>";
pub const DEV_FORM_OPEN: &'static str = "<form method=\"post\" action=\"/music/dev-login\" class=\"gate__dev\">";
pub const DEV_HIDDEN_OPEN: &'static str = "<input type=\"hidden\" name=\"next\" value=\"";
pub const DEV_HIDDEN_CLOSE: &'static str = "\">";
pub const DEV_FORM_CLOSE: &'static str = "<button class=\"btn btn--ghost btn--wide\" data-testid=\"dev-login\" type=\"submit\">로컬 검증 계정으로 입장</button></form>";
pub const NOTE_OPEN: &'static str = "<div class=\"gate__note\">";
pub const NOTE_CLOSE: &'static str = "</div>";
pub const LOGIN_BODY_OPEN: &'static str = "<main class=\"gate__wrap\"><section class=\"gate__card\">\n<div class=\"gate__logo\" aria-hidden=\"true\">♫</div>\n<h1>마참뮤직</h1>\n<p class=\"gate__lead\">서버 음악을 같이 고르고, 투표하고, 한 화면에서 조작해요.</p>\n";
pub const LOGIN_BODY_CLOSE: &'static str = "\n<p class=\"gate__foot\">로그인하면 Discord 서버 멤버십과 권한을 확인해요.</p>\n</section></main>";
pub const LOGIN_TITLE: &'static str = "로그인";
pub const NEXT_QUERY: &'static str = "?next=";

pub open spec fn opt_seq(o: Option<&str>) -> Option<Seq<char>> {
    match o { Some(s) => Some(s@), None => None }
}

pub open spec fn opt_bytes(o: Option<&str>) -> Option<Seq<u8>> {
    match o { Some(s) => Some(s.spec_bytes()), None => None }
}

pub open spec fn login_action_spec(configured: bool, next_bytes: Option<Seq<u8>>) -> Seq<char> {
    let next_query = match next_bytes { Some(b) => NEXT_QUERY@ + encode_bytes(b, true), None => Seq::empty() };
    if configured { LOGIN_BUTTON_OPEN@ + next_query + LOGIN_BUTTON_CLOSE@ } else { NOT_CONFIGURED@ }
}

pub open spec fn login_dev_spec(dev_login: bool, next: Option<Seq<char>>) -> Seq<char> {
    let hidden = match next { Some(p) => DEV_HIDDEN_OPEN@ + escape_seq(p) + DEV_HIDDEN_CLOSE@, None => Seq::empty() };
    if dev_login { DEV_FORM_OPEN@ + hidden + DEV_FORM_CLOSE@ } else { Seq::empty() }
}

pub open spec fn login_notice_spec(message: Option<Seq<char>>) -> Seq<char> {
    match message { Some(m) => NOTE_OPEN@ + escape_seq(m) + NOTE_CLOSE@, None => Seq::empty() }
}

/// The body of the sign-in page: an optional notice, the Discord button
/// (carrying `next`, percent-encoded) or a note that sign-in is not set up,
/// and for local testing a form carrying `next` (escaped).
pub open spec fn login_body(
    configured: bool,
    dev_login: bool,
    message: Option<Seq<char>>,
    next: Option<Seq<char>>,
    next_bytes: Option<Seq<u8>>,
) -> Seq<char> {
    LOGIN_BODY_OPEN@ + login_notice_spec(message) + login_action_spec(configured, next_bytes)
        + login_dev_spec(dev_login, next) + LOGIN_BODY_CLOSE@
}

fn login_action(configured: bool, next: Option<&str>) -> (s: String)
    ensures
        s@ == login_action_spec(configured, opt_bytes(next)),
{
    let mut s = String::new();
    if configured {
        push_str(&mut s, LOGIN_BUTTON_OPEN);
        match next {
            Some(p) => {
                push_str(&mut s, NEXT_QUERY);
                let encoded = percent_encode_path(p);
                push_str(&mut s, encoded.as_str());
            }
            None => {}
        }
        push_str(&mut s, LOGIN_BUTTON_CLOSE);
    } else {
        push_str(&mut s, NOT_CONFIGURED);
    }
    proof { assert(s@ =~= login_action_spec(configured, opt_bytes(next))); }
    s
}

fn login_dev(dev_login: bool, next: Option<&str>) -> (s: String)
    ensures
        s@ == login_dev_spec(dev_login, opt_seq(next)),
{
    let mut s = String::new();
    if dev_login {
        push_str(&mut s, DEV_FORM_OPEN);
        match next {
            Some(p) => {
                push_str(&mut s, DEV_HIDDEN_OPEN);
                push_escaped(&mut s, p);
                push_str(&mut s, DEV_HIDDEN_CLOSE);
            }
            None => {}
        }
        push_str(&mut s, DEV_FORM_CLOSE);
    }
    proof { assert(s@ =~= login_dev_spec(dev_login, opt_seq(next))); }
    s
}

fn login_notice(message: Option<&str>) -> (s: String)
    ensures
        s@ == login_notice_spec(opt_seq(message)),
{
    let mut s = String::new();
    match message {
        Some(m) => {
            push_str(&mut s, NOTE_OPEN);
            push_escaped(&mut s, m);
            push_str(&mut s, NOTE_CLOSE);
        }
        None => {}
    }
    proof { assert(s@ =~= login_notice_spec(opt_seq(message))); }
    s
}

/// `GET /music/login`: the sign-in page (see `login_body`).
pub fn login(
    configured: bool,
    dev_login: bool,
    message: Option<&str>,
    next: Option<&str>,
    asset_version: &str,
) -> (page: String)
    ensures
        page@ == plain_spec(LOGIN_TITLE@, asset_version@,
            login_body(configured, dev_login, opt_seq(message), opt_seq(next), opt_bytes(next))),
{
    let notice = login_notice(message);
    let action = login_action(configured, next);
    let dev = login_dev(dev_login, next);
    let mut body = String::new();
    push_str(&mut body, LOGIN_BODY_OPEN);
    push_str(&mut body, notice.as_str());
    push_str(&mut body, action.as_str());
    push_str(&mut body, dev.as_str());
    push_str(&mut body, LOGIN_BODY_CLOSE);
    proof {
        assert(body@ =~= login_body(configured, dev_login, opt_seq(message), opt_seq(next), opt_bytes(next)));
    }
    plain(LOGIN_TITLE, asset_version, body.as_str())
}

// ───────── server choice ─────────

pub const CARD_OPEN: &'static str = "<a class=\"gate__guild\" data-testid=\"guild-card\" href=\"/music/guilds/";
pub const CARD_MID: &'static str = "\">";
pub const IMG_OPEN: &'static str = "<img class=\"ava\" src=\"";
pub const IMG_CLOSE: &'static str = "\" alt=\"\">";
pub const ICON_FALLBACK: &'static str = "<span class=\"ava ava--fallback\">🎵</span>";
pub const NAME_OPEN: &'static str = "<span>";
pub const CARD_CLOSE: &'static str = "</span></a>";
pub const NO_GUILDS: &'static str = "<p class=\"gate__foot\">봇이 들어가 있는 서버가 없어요. 먼저 봇을 서버에 초대해 주세요.</p>";
pub const SELECT_OPEN: &'static str = "<main class=\"gate__wrap\"><section class=\"gate__card gate__card--wide\">\n<div class=\"gate__logo\" aria-hidden=\"true\">♫</div>\n<h1>어서 오세요, ";
pub const SELECT_LEAD: &'static str = "</h1>\n<p class=\"gate__lead\">리모컨을 열 서버를 골라 주세요. 좋아요와 보관함은 서버마다 따로 관리돼요.</p>\n<div class=\"gate__guilds\">";
pub const SELECT_CARDS_CLOSE: &'static str = "</div>";
pub const LOGOUT_OPEN: &'static str = "\n<form method=\"post\" action=\"/music/logout\" class=\"gate__dev\"><input type=\"hidden\" name=\"csrf\" value=\"";
pub const LOGOUT_CLOSE: &'static str = "\"><button class=\"btn btn--ghost\" type=\"submit\">로그아웃</button></form>\n</section></main>";
pub const SELECT_TITLE: &'static str = "서버 선택";

/// One server card.
pub open spec fn card_spec(g: OAuthGuild) -> Seq<char> {
    let icon = match g.icon {
        Some(i) => IMG_OPEN@ + escape_seq(icon_url_spec(g.id, i@)) + IMG_CLOSE@,
        None => ICON_FALLBACK@,
    };
    CARD_OPEN@ + decimal(g.id as nat) + CARD_MID@ + icon + NAME_OPEN@ + escape_seq(g.name@) + CARD_CLOSE@
}

pub open spec fn cards_spec(gs: Seq<OAuthGuild>) -> Seq<char>
    decreases gs.len(),
{
    if gs.len() == 0 { Seq::empty() } else { cards_spec(gs.drop_last()) + card_spec(gs.last()) }
}

/// The server choice body: a greeting, a card per server (or a note that
/// there are none) and the sign-out form carrying the CSRF token.
pub open spec fn selector_body(session: &RemoteSession, guilds: Seq<OAuthGuild>) -> Seq<char> {
    SELECT_OPEN@ + escape_seq(session.display_name@) + SELECT_LEAD@ + cards_spec(guilds) + SELECT_CARDS_CLOSE@
        + (if guilds.len() == 0 { NO_GUILDS@ } else { Seq::empty() })
        + LOGOUT_OPEN@ + escape_seq(session.csrf_token@) + LOGOUT_CLOSE@
}

/// `GET /music`: the servers the user can open (see `selector_body`).
#[verifier::spinoff_prover]
#[verifier::rlimit(40)]
pub fn guild_selector(session: &RemoteSession, guilds: &[OAuthGuild], asset_version: &str) -> (page: String)
    ensures
        page@ == plain_spec(SELECT_TITLE@, asset_version@, selector_body(session, guilds@)),
{
    let mut body = String::new();
    push_str(&mut body, SELECT_OPEN);
    push_escaped(&mut body, session.display_name.as_str());
    push_str(&mut body, SELECT_LEAD);
    let ghost start = body@;
    let mut k: usize = 0;
    while k < guilds.len()
        invariant
            k <= guilds.len(),
            body@ == start + cards_spec(guilds@.subrange(0, k as int)),
        decreases guilds.len() - k,
    {
        let g = &guilds[k];
        let ghost before = body@;
        push_str(&mut body, CARD_OPEN);
        push_decimal(&mut body, g.id);
        push_str(&mut body, CARD_MID);
        match g.icon_url() {
            Some(url) => {
                push_str(&mut body, IMG_OPEN);
                push_escaped(&mut body, url.as_str());
                push_str(&mut body, IMG_CLOSE);
            }
            None => {
                push_str(&mut body, ICON_FALLBACK);
            }
        }
        push_str(&mut body, NAME_OPEN);
        push_escaped(&mut body, g.name.as_str());
        push_str(&mut body, CARD_CLOSE);
        proof {
            assert(body@ =~= before + card_spec(*g));
            assert(guilds@.subrange(0, k + 1).drop_last() =~= guilds@.subrange(0, k as int));
            assert(body@ =~= start + cards_spec(guilds@.subrange(0, k + 1)));
        }
        k = k + 1;
    }
    proof { assert(guilds@.subrange(0, k as int) =~= guilds@); }
    push_str(&mut body, SELECT_CARDS_CLOSE);
    if guilds.len() == 0 {
        push_str(&mut body, NO_GUILDS);
    }
    push_str(&mut body, LOGOUT_OPEN);
    push_escaped(&mut body, session.csrf_token.as_str());
    push_str(&mut body, LOGOUT_CLOSE);
    proof { assert(body@ =~= selector_body(session, guilds@)); }
    plain(SELECT_TITLE, asset_version, body.as_str())
}

// ───────── public "now playing" ─────────

pub const NOW_TITLE: &'static str = "지금 이 곡";
pub const NOW_OPEN: &'static str = "<main class=\"gate__wrap\"><section class=\"gate__card\" id=\"pub\" data-guild=\"";
pub const NOW_MID: &'static str = "\">\n<div class=\"gate__logo\" aria-hidden=\"true\">🎵</div>\n<h1 id=\"pub-title\">불러오는 중…</h1>\n<p class=\"gate__lead\" id=\"pub-artist\"></p>\n<p class=\"gate__lead\" id=\"pub-queue\"></p>\n<p class=\"gate__lead\" style=\"opacity:.7;font-size:.85em\">보기만 할 수 있어요. 조작하려면 로그인해야 해요.</p>\n<a class=\"btn btn--primary btn--wide\" href=\"/music/guilds/";
pub const NOW_SCRIPT_OPEN: &'static str = "\">Discord로 로그인하고 조작하기</a>\n</section></main>\n<script>\n// 5초마다 갱신한다. WebSocket 을 안 쓰는 이유: 로그인 안 한 사람에게 소켓을 열어 주면\n// 그 자체가 붙잡아 둘 자원이 된다. 이 화면은 가볍게 폴링만 한다.\n(function () {\n  var box = document.getElementById('pub');\n  var url = '/music/api/guilds/' + box.dataset.guild + '/public?v=";
pub const NOW_SCRIPT_CLOSE: &'static str = "';\n  var tag = null;\n  function paint(d) {\n    var t = document.getElementById('pub-title');\n    var a = document.getElementById('pub-artist');\n    var q = document.getElementById('pub-queue');\n    if (!d || !d.current) { t.textContent = '지금은 아무 곡도 안 나와요'; a.textContent = ''; q.textContent = ''; return; }\n    t.textContent = d.current.title;\n    a.textContent = (d.current.artist || '') + (d.isPaused ? ' · 일시정지' : '');\n    q.textContent = d.queueTotal ? ('대기열 ' + d.queueTotal + '곡') : '';\n  }\n  function tick() {\n    var opt = { headers: {} };\n    if (tag) opt.headers['If-None-Match'] = tag;\n    fetch(url, opt).then(function (r) {\n      if (r.status === 304) return null;      // 안 바뀌었으면 아무것도 안 한다\n      if (!r.ok) throw new Error(String(r.status));\n      tag = r.headers.get('ETag');\n      return r.json();\n    }).then(function (d) { if (d) paint(d); }).catch(function () {\n      document.getElementById('pub-title').textContent = '지금은 볼 수 없어요';\n    });\n  }\n  tick();\n  setInterval(tick, 5000);\n})();\n</script>";

/// The public page's body: a read-only card for the server that polls the
/// public endpoint (with `build_id` as its cache key).
pub open spec fn public_now_body(guild_id: u64, build_id: Seq<char>) -> Seq<char> {
    NOW_OPEN@ + decimal(guild_id as nat) + NOW_MID@ + decimal(guild_id as nat) + NOW_SCRIPT_OPEN@ + build_id
        + NOW_SCRIPT_CLOSE@
}

/// The "now playing" page anyone may see (see `public_now_body`).
pub fn public_now(guild_id: u64, build_id: &str, asset_version: &str) -> (page: String)
    ensures
        page@ == plain_spec(NOW_TITLE@, asset_version@, public_now_body(guild_id, build_id@)),
{
    let mut body = String::new();
    push_str(&mut body, NOW_OPEN);
    push_decimal(&mut body, guild_id);
    push_str(&mut body, NOW_MID);
    push_decimal(&mut body, guild_id);
    push_str(&mut body, NOW_SCRIPT_OPEN);
    push_str(&mut body, build_id);
    push_str(&mut body, NOW_SCRIPT_CLOSE);
    proof { assert(body@ =~= public_now_body(guild_id, build_id@)); }
    plain(NOW_TITLE, asset_version, body.as_str())
}

// ───────── API guide ─────────

pub const APIDOC_TITLE_LINE: &'static str = "API 가이드";

/// The API guide page: its own stylesheet after the tokens, no portal
/// stylesheet, no script but the theme one.
pub open spec fn apidoc_spec(version: Seq<char>, body: Seq<char>) -> Seq<char> {
    HEAD_OPEN@ + APIDOC_TITLE_LINE@ + TITLE_CLOSE@ + THEME_BOOT@ + ICON_OPEN@ + version + TOKENS_OPEN@ + version
        + APIDOC_CSS_OPEN@ + version + PLAIN_BODY_OPEN@ + body + DOC_CLOSE@
}

/// `GET /music/apidoc`: the API guide around its `body` markup.
pub fn apidoc(asset_version: &str, body: &str) -> (page: String)
    ensures
        page@ == apidoc_spec(asset_version@, body@),
{
    let mut page = String::new();
    push_str(&mut page, HEAD_OPEN);
    push_str(&mut page, APIDOC_TITLE_LINE);
    push_str(&mut page, TITLE_CLOSE);
    push_str(&mut page, THEME_BOOT);
    push_str(&mut page, ICON_OPEN);
    push_str(&mut page, asset_version);
    push_str(&mut page, TOKENS_OPEN);
    push_str(&mut page, asset_version);
    push_str(&mut page, APIDOC_CSS_OPEN);
    push_str(&mut page, asset_version);
    push_str(&mut page, PLAIN_BODY_OPEN);
    push_str(&mut page, body);
    push_str(&mut page, DOC_CLOSE);
    proof { assert(page@ =~= apidoc_spec(asset_version@, body@)); }
    page
}

// ───────── refusal ─────────

pub const DENIED_TITLE: &'static str = "권한 없음";
pub const DENIED_OPEN: &'static str = "<main class=\"gate__wrap\"><section class=\"gate__card\">\n<div class=\"gate__logo\" aria-hidden=\"true\">🔒</div>\n<h1>여기는 못 들어가요</h1>\n<p class=\"gate__lead\">";
pub const DENIED_MID: &'static str = "</p>\n<a class=\"btn btn--primary btn--wide\" href=\"/music/guilds/";
pub const DENIED_CLOSE: &'static str = "\">← 리모컨으로 돌아가기</a>\n</section></main>";

pub open spec fn denied_body(message: Seq<char>, guild_id: u64) -> Seq<char> {
    DENIED_OPEN@ + escape_seq(message) + DENIED_MID@ + decimal(guild_id as nat) + DENIED_CLOSE@
}

/// The page shown when the management console is refused: the reason and a
/// way back to the server's remote.
pub fn denied(message: &str, guild_id: u64, asset_version: &str) -> (page: String)
    ensures
        page@ == plain_spec(DENIED_TITLE@, asset_version@, denied_body(message@, guild_id)),
{
    let mut body = String::new();
    push_str(&mut body, DENIED_OPEN);
    push_escaped(&mut body, message);
    push_str(&mut body, DENIED_MID);
    push_decimal(&mut body, guild_id);
    push_str(&mut body, DENIED_CLOSE);
    proof { assert(body@ =~= denied_body(message@, guild_id)); }
    plain(DENIED_TITLE, asset_version, body.as_str())
}

} // verus!
