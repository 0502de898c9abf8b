//! Discord sign-in: the address people are sent to, what the callback
//! accepts, and the session details taken from Discord's answers. The calls
//! to Discord themselves are made around these steps.

use vstd::prelude::*;
use crate::auth::{OAuthGuild, RemoteAuthConfig, ADMINISTRATOR_PERMISSION};
use crate::text::{chars_of, decimal, owned, parse_u64, parse_u64_spec, push_decimal, push_str};
use crate::web::{encode_bytes, percent_encode};
use vstd::string::StringSliceAdditionalSpecFns;

verus! {

/// How long an issued sign-in state stays usable, in seconds.
pub const OAUTH_STATE_TTL_SECS: u64 = 600;

/// The scopes asked of Discord.
pub const OAUTH_SCOPES: &'static str = "identify guilds guilds.members.read";

/// Discord's authorization address for `client_id`, the issued `state` and
/// the callback address, each percent-encoded.
pub open spec fn authorize_url_spec(client_id: Seq<char>, scopes: Seq<char>, state: Seq<char>, redirect: Seq<char>) -> Seq<char> {
    "https://discord.com/oauth2/authorize?response_type=code&client_id="@
        + encode_bytes(vstd::utf8::encode_utf8(client_id), false)
        + "&scope="@ + encode_bytes(vstd::utf8::encode_utf8(scopes), false)
        + "&state="@ + encode_bytes(vstd::utf8::encode_utf8(state), false)
        + "&redirect_uri="@ + encode_bytes(vstd::utf8::encode_utf8(redirect), false)
        + "&prompt=consent"@
}

/// See `authorize_url_spec`.
pub fn authorize_url(auth: &RemoteAuthConfig, client_id: &str, state: &str) -> (url: String)
    ensures
        url@ == authorize_url_spec(client_id@, OAUTH_SCOPES@, state@, auth.url_view() + "/music/oauth/callback"@),
{
    let mut url = owned("https://discord.com/oauth2/authorize?response_type=code&client_id=");
    push_str(&mut url, percent_encode(client_id).as_str());
    push_str(&mut url, "&scope=");
    push_str(&mut url, percent_encode(OAUTH_SCOPES).as_str());
    push_str(&mut url, "&state=");
    push_str(&mut url, percent_encode(state).as_str());
    push_str(&mut url, "&redirect_uri=");
    let redirect = auth.redirect_uri();
    push_str(&mut url, percent_encode(redirect.as_str()).as_str());
    push_str(&mut url, "&prompt=consent");
    url
}

/// What the callback does with Discord's query.
#[derive(Debug)]
pub enum CallbackStart {
    /// Discord reported an error (the person cancelled): show the sign-in
    /// page with this sentence.
    Cancelled(String),
    /// Send the person back to sign in with this address.
    Redirect(&'static str),
    /// Go on with the code and the returned state.
    Proceed { code: String, state: String },
}

/// A reported error cancels; a missing code or state is a malformed answer.
pub fn callback_start(error: Option<&str>, code: Option<&str>, state: Option<&str>) -> (r: CallbackStart)
    ensures
        match error {
            Some(e) => r matches CallbackStart::Cancelled(m) && m@ == "Discord 로그인이 취소됐어요: "@ + e@,
            None => match (code, state) {
                (Some(c), Some(s)) => r matches CallbackStart::Proceed { code, state } && code@ == c@ && state@ == s@,
                _ => r matches CallbackStart::Redirect(p)
                    && p@ == "/music/login?error=OAuth%20응답이%20올바르지%20않습니다"@,
            },
        },
{
    match error {
        Some(e) => {
            let mut m = owned("Discord 로그인이 취소됐어요: ");
            push_str(&mut m, e);
            CallbackStart::Cancelled(m)
        },
        None => match (code, state) {
            (Some(c), Some(s)) => CallbackStart::Proceed { code: owned(c), state: owned(s) },
            _ => CallbackStart::Redirect("/music/login?error=OAuth%20응답이%20올바르지%20않습니다"),
        },
    }
}

/// Where a returned state leads: the page to open after sign-in, or back
/// to sign-in when the state was never issued (or already used) or is
/// older than `OAUTH_STATE_TTL_SECS`.
pub fn state_outcome(issued: Option<(u64, Option<String>)>) -> (r: Result<Option<String>, &'static str>)
    ensures
        match issued {
            Some((age, next)) => if age < OAUTH_STATE_TTL_SECS { r == Ok::<Option<String>, &'static str>(next) }
                else { r is Err && r->Err_0@ == "/music/login?error=OAuth%20state가%20만료되었습니다"@ },
            None => r is Err && r->Err_0@ == "/music/login?error=OAuth%20state가%20만료되었습니다"@,
        },
{
    match issued {
        Some((age, next)) => if age < OAUTH_STATE_TTL_SECS { Ok(next) } else {
            Err("/music/login?error=OAuth%20state가%20만료되었습니다")
        },
        None => Err("/music/login?error=OAuth%20state가%20만료되었습니다"),
    }
}

/// How long Discord's access token is treated as valid: a minute less than
/// it says, and at least a minute.
pub fn token_lifetime_secs(expires_in: u64) -> (s: u64)
    ensures
        s == (if expires_in >= 120 { (expires_in - 60) as u64 } else { 60u64 }),
{
    let margin = if expires_in >= 60 { expires_in - 60 } else { 0 };
    if margin >= 60 { margin } else { 60 }
}

/// Who signed in, from Discord's user answer.
#[derive(Debug)]
pub struct DiscordIdentity {
    pub user_id: u64,
    pub username: String,
    /// The global display name, or the user name when there is none.
    pub display_name: String,
    pub avatar_url: Option<String>,
}

/// The avatar address of a user with avatar hash `hash`, at 128 pixels.
pub open spec fn avatar_url_spec(user_id: u64, hash: Seq<char>) -> Seq<char> {
    "https://cdn.discordapp.com/avatars/"@ + decimal(user_id as nat) + "/"@ + hash + ".png?size=128"@
}

/// Reads Discord's user answer; an id that is not a number sends the
/// person back to sign in.
pub fn read_identity(id: &str, username: String, global_name: Option<String>, avatar: Option<&str>)
    -> (r: Result<DiscordIdentity, &'static str>)
    ensures
        match r {
            Ok(who) => {
                &&& parse_u64_spec(id@) == Some(who.user_id)
                &&& who.username@ == username@
                &&& who.display_name@ == match global_name { Some(g) => g@, None => username@ }
                &&& match avatar {
                    Some(h) => who.avatar_url is Some && who.avatar_url->0@ == avatar_url_spec(who.user_id, h@),
                    None => who.avatar_url is None,
                }
            },
            Err(p) => parse_u64_spec(id@) is None
                && p@ == "/music/login?error=Discord%20사용자%20ID가%20올바르지%20않습니다"@,
        },
{
    let user_id = match parse_u64(&chars_of(id)) {
        Some(v) => v,
        None => { return Err("/music/login?error=Discord%20사용자%20ID가%20올바르지%20않습니다"); },
    };
    let avatar_url = match avatar {
        Some(h) => {
            let mut u = owned("https://cdn.discordapp.com/avatars/");
            push_decimal(&mut u, user_id);
            push_str(&mut u, "/");
            push_str(&mut u, h);
            push_str(&mut u, ".png?size=128");
            Some(u)
        },
        None => None,
    };
    let display_name = match global_name {
        Some(g) => g,
        None => owned(username.as_str()),
    };
    Ok(DiscordIdentity { user_id, username, display_name, avatar_url })
}

/// Back to sign-in with `reason` shown (percent-encoded).
pub fn login_error_path(reason: &str) -> (p: String)
    ensures
        p@ == "/music/login?error="@ + encode_bytes(reason.spec_bytes(), false),
{
    let mut p = owned("/music/login?error=");
    push_str(&mut p, percent_encode(reason).as_str());
    p
}

/// Where a finished sign-in goes: the page it started from, else `/music`.
pub fn after_login_path(next: Option<String>) -> (p: String)
    ensures
        p@ == match next { Some(n) => n@, None => "/music"@ },
{
    match next {
        Some(n) => n,
        None => owned("/music"),
    }
}

/// The servers a local test sign-in sees: every server the bot has stored
/// (as their owner, with administrator rights), or, with none stored, one
/// test server (the registration server's id, else 1).
pub open spec fn dev_guild_ids(stored: Seq<(u64, String)>, register_guild: Option<u64>) -> Seq<u64> {
    if stored.len() > 0 {
        stored.map_values(|g: (u64, String)| g.0)
    } else {
        seq![match register_guild { Some(g) => g, None => 1u64 }]
    }
}

/// See `dev_guild_ids`.
pub fn dev_guilds(stored: Vec<(u64, String)>, register_guild: Option<u64>) -> (gs: Vec<OAuthGuild>)
    ensures
        gs@.map_values(|g: OAuthGuild| g.id) == dev_guild_ids(stored@, register_guild),
        forall|i: int| 0 <= i < gs@.len() ==> (#[trigger] gs@[i]).owner && gs@[i].permissions == ADMINISTRATOR_PERMISSION,
        forall|i: int| 0 <= i < gs@.len() && stored@.len() > 0 ==> (#[trigger] gs@[i]).name@ == stored@[i].1@,
{
    let mut gs: Vec<OAuthGuild> = Vec::new();
    if stored.len() == 0 {
        let id = match register_guild { Some(g) => g, None => 1u64 };
        gs.push(OAuthGuild { id, name: owned("마참뮤직 UI 검증 서버"), icon: None, owner: true, permissions: ADMINISTRATOR_PERMISSION });
        proof { assert(gs@.map_values(|g: OAuthGuild| g.id) =~= dev_guild_ids(stored@, register_guild)); }
        return gs;
    }
    let mut i: usize = 0;
    while i < stored.len()
        invariant
            i <= stored.len(),
            gs@.len() == i,
            forall|k: int| 0 <= k < i ==> (#[trigger] gs@[k]).id == stored@[k].0 && gs@[k].name@ == stored@[k].1@
                && gs@[k].owner && gs@[k].permissions == ADMINISTRATOR_PERMISSION,
        decreases stored.len() - i,
    {
        gs.push(OAuthGuild {
            id: stored[i].0,
            name: owned(stored[i].1.as_str()),
            icon: None,
            owner: true,
            permissions: ADMINISTRATOR_PERMISSION,
        });
        i = i + 1;
    }
    proof { assert(gs@.map_values(|g: OAuthGuild| g.id) =~= dev_guild_ids(stored@, register_guild)); }
    gs
}

/// The user a local test sign-in acts as: the configured id when it reads
/// as a nonzero number, else the bot's owner (at least 1).
pub fn dev_user_id(configured: Option<&str>, bot_owner: u64) -> (id: u64)
    ensures
        id == match configured {
            Some(t) => match parse_u64_spec(t@) {
                Some(v) => if v != 0 { v } else { if bot_owner > 1 { bot_owner } else { 1u64 } },
                None => if bot_owner > 1 { bot_owner } else { 1u64 },
            },
            None => if bot_owner > 1 { bot_owner } else { 1u64 },
        },
{
    let fallback = if bot_owner > 1 { bot_owner } else { 1u64 };
    match configured {
        Some(t) => match parse_u64(&chars_of(t)) {
            Some(v) => if v != 0 { v } else { fallback },
            None => fallback,
        },
        None => fallback,
    }
}

} // verus!
