//! Playlists from the remote: whose playlist a request may touch, and what
//! each kind of playlist request needs before anything is stored.

use vstd::prelude::*;
use crate::access::{suspension_denial, unsuspended, viewer_message, AuthContext, Denial, SuspensionScope};
use crate::auth::{tier_rank, AccessTier};
use crate::queue::{too_long_spec, track_too_long, TrackRef};
use crate::text::{ascii_lower_chars, ascii_lower_seq, chars_of, owned, str_eq};

verus! {

/// Whose playlist it is.
#[derive(Debug, Clone, Copy, PartialEq, Eq, Structural)]
pub enum PlaylistScope {
    /// One user's own, seen in every server.
    User,
    /// One server's.
    Guild,
    /// The bot's, for every server.
    Global,
}

/// What deciding access reads of a stored playlist.
#[derive(Debug, Clone, Copy)]
pub struct PlaylistFacts {
    pub scope: PlaylistScope,
    pub owner_user_id: u64,
    pub guild_id: Option<u64>,
}

/// The request asks for a personal playlist (`scope` is `user`, in any case).
pub open spec fn asks_personal(scope: Option<Seq<char>>) -> bool {
    match scope { Some(s) => ascii_lower_seq(s) == "user"@, None => false }
}

/// Whether the request works on a personal playlist: the target's own kind,
/// or, with no target, what the request asked for.
pub open spec fn personal_spec(target: Option<PlaylistFacts>, scope: Option<Seq<char>>) -> bool {
    match target { Some(t) => t.scope == PlaylistScope::User, None => asks_personal(scope) }
}

/// Why the target itself is out of reach: someone else's personal playlist
/// (not even shown to exist), another server's, a server playlist changed
/// by a non-manager (enqueueing is open), or the bot's own.
pub open spec fn target_refusal(target: Option<PlaylistFacts>, action: Seq<char>, user_id: u64, guild_id: u64, tier: AccessTier)
    -> Option<(u16, Seq<char>)>
{
    match target {
        None => None,
        Some(t) => match t.scope {
            PlaylistScope::User => if t.owner_user_id != user_id {
                Some((404u16, "그 재생목록을 찾지 못했어요."@))
            } else {
                None
            },
            PlaylistScope::Guild => if t.guild_id != Some(guild_id) {
                Some((404u16, "이 서버의 재생목록이 아니에요."@))
            } else if action != "enqueue"@ && tier_rank(tier) < 2 {
                Some((403u16, "서버 재생목록은 서버 관리자만 고칠 수 있어요."@))
            } else {
                None
            },
            PlaylistScope::Global => Some((403u16, "봇 전체 재생목록은 여기서 고칠 수 없어요."@)),
        },
    }
}

/// The checks on a playlist request, in order: a queue suspension, read-only
/// access, the rate limit, the target, and managers only for server
/// playlists other than enqueueing them. Passing gives whether the
/// playlist is personal.
pub open spec fn playlist_gate_spec(
    ctx: &AuthContext,
    rate_limited: bool,
    target: Option<PlaylistFacts>,
    scope: Option<Seq<char>>,
    action: Seq<char>,
    r: Result<bool, Denial>,
) -> bool {
    if !unsuspended(ctx, SuspensionScope::Queue) {
        r is Err && suspension_denial(ctx, SuspensionScope::Queue, r->Err_0)
    } else if ctx.tier == AccessTier::Viewer {
        r is Err && r->Err_0.status == 403 && r->Err_0.message@ == viewer_message(ctx.viewer_reason)
    } else if rate_limited {
        r is Err && r->Err_0.status == 429 && r->Err_0.message@ == "재생목록 요청이 너무 빨라요. 잠깐만 쉬었다 해요."@
    } else if target_refusal(target, action, ctx.session.user_id, ctx.guild.id, ctx.tier) is Some {
        r is Err && target_refusal(target, action, ctx.session.user_id, ctx.guild.id, ctx.tier)
            == Some((r->Err_0.status, r->Err_0.message@))
    } else if !personal_spec(target, scope) && action != "enqueue"@ && tier_rank(ctx.tier) < 2 {
        r is Err && r->Err_0.status == 403 && r->Err_0.message@ == "서버 관리자만 할 수 있어요."@
    } else {
        r is Ok && r->Ok_0 == personal_spec(target, scope)
    }
}

/// A member's own personal playlist needs no manager: past a suspension,
/// read-only access and the rate limit, every request on it passes and is
/// personal.
pub proof fn law_own_playlists_are_open(ctx: &AuthContext, target: PlaylistFacts, action: Seq<char>, r: Result<bool, Denial>)
    requires
        target.scope == PlaylistScope::User,
        target.owner_user_id == ctx.session.user_id,
        unsuspended(ctx, SuspensionScope::Queue),
        ctx.tier != AccessTier::Viewer,
        playlist_gate_spec(ctx, false, Some(target), None, action, r),
    ensures
        r is Ok && r->Ok_0,
{
}

fn refusal(status: u16, m: &str) -> (d: Denial)
    ensures
        d.status == status,
        d.message@ == m@,
{
    Denial { status, message: owned(m) }
}

/// Runs the checks on a playlist request (see `playlist_gate_spec`);
/// `rate_limited` is whether this member's last playlist request was too recent.
pub fn playlist_gate(
    ctx: &AuthContext,
    rate_limited: bool,
    target: Option<PlaylistFacts>,
    scope: Option<&str>,
    action: &str,
) -> (r: Result<bool, Denial>)
    ensures
        playlist_gate_spec(ctx, rate_limited, target, match scope { Some(s) => Some(s@), None => None }, action@, r),
{
    match ctx.require_not_suspended(SuspensionScope::Queue) {
        Ok(()) => {},
        Err(d) => { return Err(d); },
    }
    if ctx.tier.is_viewer() {
        let message = match &ctx.viewer_reason {
            Some(reason) => owned(reason.as_str()),
            None => owned("읽기 전용이라 아무것도 조작할 수 없어요."),
        };
        return Err(Denial { status: 403, message });
    }
    if rate_limited {
        return Err(refusal(429, "재생목록 요청이 너무 빨라요. 잠깐만 쉬었다 해요."));
    }
    let enqueue = str_eq(action, "enqueue");
    let asked = match scope {
        Some(s) => str_eq(crate::text::string_of(&ascii_lower_chars(&chars_of(s))).as_str(), "user"),
        None => false,
    };
    let personal = match target {
        Some(t) => t.scope == PlaylistScope::User,
        None => asked,
    };
    match target {
        Some(t) => match t.scope {
            PlaylistScope::User => {
                if t.owner_user_id != ctx.session.user_id {
                    return Err(refusal(404, "그 재생목록을 찾지 못했어요."));
                }
            },
            PlaylistScope::Guild => {
                let same = match t.guild_id { Some(g) => g == ctx.guild.id, None => false };
                if !same {
                    return Err(refusal(404, "이 서버의 재생목록이 아니에요."));
                }
                if !enqueue && !ctx.tier.is_manager() {
                    return Err(refusal(403, "서버 재생목록은 서버 관리자만 고칠 수 있어요."));
                }
            },
            PlaylistScope::Global => {
                return Err(refusal(403, "봇 전체 재생목록은 여기서 고칠 수 없어요."));
            },
        },
        None => {},
    }
    if !personal && !enqueue {
        match ctx.require_manager() {
            Ok(()) => {},
            Err(d) => { return Err(d); },
        }
    }
    Ok(personal)
}

/// What a playlist request does once it has passed its checks.
#[derive(Debug)]
pub enum PlaylistStep {
    /// Create the playlist; `track_refusal` is the answer to give after
    /// creating it when the sent track may not be added.
    Create { add_track: bool, track_refusal: Option<Denial> },
    Rename,
    Delete,
    AddTrack,
    /// Remove an entry (chosen as `resolve_entry_index` says).
    RemoveEntry,
    /// Enqueue the whole playlist (under the bulk-enqueue permission).
    Enqueue,
}

/// A playlist name: 1 to 80 characters once trimmed.
pub open spec fn name_ok(name: Seq<char>) -> bool {
    0 < name.len() <= 80
}

/// A track may go into a playlist: not too long, not blocked.
pub open spec fn admissible(max_track_seconds: i32, track: &TrackRef, blocked: bool) -> bool {
    !too_long_spec(max_track_seconds, track) && !blocked
}

/// The refusal of a playlist request before anything is stored: a bad name,
/// a missing target, a missing or refused track, or an unknown action.
pub open spec fn step_refusal(
    action: Seq<char>,
    name: Seq<char>,
    has_target: bool,
    track: Option<TrackRef>,
    blocked: bool,
    max_track_seconds: i32,
) -> Option<(u16, Seq<char>)> {
    let missing = Some((404u16, "그 재생목록을 찾지 못했어요."@));
    if action == "create"@ {
        if !name_ok(name) { Some((400u16, "이름은 1~80자로 입력해요."@)) } else { None }
    } else if action == "rename"@ {
        if !has_target { missing } else if !name_ok(name) { Some((400u16, "이름은 1~80자로 입력해요."@)) } else { None }
    } else if action == "delete"@ || action == "removeEntry"@ || action == "removeTrack"@ || action == "enqueue"@ {
        if !has_target { missing } else { None }
    } else if action == "addTrack"@ {
        if !has_target { missing }
        else { match track {
            None => Some((400u16, "추가할 곡이 없어요."@)),
            Some(t) => if !admissible(max_track_seconds, &t, blocked) {
                Some((400u16, "곡 길이나 차단 규칙 때문에 추가할 수 없어요."@))
            } else {
                None
            },
        } }
    } else {
        Some((400u16, "지원하지 않는 재생목록 작업이에요."@))
    }
}

/// Decides what a playlist request does (see `step_refusal`). `name` is
/// the sent name, trimmed; `blocked` whether a blocking rule covers the
/// sent track.
pub fn plan_playlist_step(
    action: &str,
    name: &str,
    has_target: bool,
    track: Option<&TrackRef>,
    blocked: bool,
    max_track_seconds: i32,
) -> (r: Result<PlaylistStep, Denial>)
    ensures
        match r {
            Err(d) => step_refusal(action@, name@, has_target, match track { Some(t) => Some(*t), None => None },
                blocked, max_track_seconds) == Some((d.status, d.message@)),
            Ok(step) => {
                &&& step_refusal(action@, name@, has_target, match track { Some(t) => Some(*t), None => None },
                    blocked, max_track_seconds) is None
                &&& match step {
                    PlaylistStep::Create { add_track, track_refusal } => {
                        &&& action@ == "create"@
                        &&& add_track == (track is Some && admissible(max_track_seconds, track->0, blocked))
                        &&& track_refusal is Some == (track is Some && !admissible(max_track_seconds, track->0, blocked))
                        &&& track_refusal is Some ==> track_refusal->0.status == 400
                            && track_refusal->0.message@
                                == "재생목록은 만들었는데, 곡 길이나 차단 규칙 때문에 그 곡은 담지 못했어요."@
                    },
                    PlaylistStep::Rename => action@ == "rename"@,
                    PlaylistStep::Delete => action@ == "delete"@,
                    PlaylistStep::AddTrack => action@ == "addTrack"@,
                    PlaylistStep::RemoveEntry => action@ == "removeEntry"@ || action@ == "removeTrack"@,
                    PlaylistStep::Enqueue => action@ == "enqueue"@,
                }
            },
        },
{
    let name_len = name.unicode_len();
    let good_name = 0 < name_len && name_len <= 80;
    if str_eq(action, "create") {
        if !good_name {
            return Err(refusal(400, "이름은 1~80자로 입력해요."));
        }
        return match track {
            Some(t) => if !track_too_long(max_track_seconds, t) && !blocked {
                Ok(PlaylistStep::Create { add_track: true, track_refusal: None })
            } else {
                Ok(PlaylistStep::Create {
                    add_track: false,
                    track_refusal: Some(refusal(400,
                        "재생목록은 만들었는데, 곡 길이나 차단 규칙 때문에 그 곡은 담지 못했어요.")),
                })
            },
            None => Ok(PlaylistStep::Create { add_track: false, track_refusal: None }),
        };
    }
    let rename = str_eq(action, "rename");
    let delete = str_eq(action, "delete");
    let remove = str_eq(action, "removeEntry") || str_eq(action, "removeTrack");
    let enqueue = str_eq(action, "enqueue");
    let add = str_eq(action, "addTrack");
    if !rename && !delete && !remove && !enqueue && !add {
        return Err(refusal(400, "지원하지 않는 재생목록 작업이에요."));
    }
    if !has_target {
        return Err(refusal(404, "그 재생목록을 찾지 못했어요."));
    }
    if rename {
        if !good_name {
            return Err(refusal(400, "이름은 1~80자로 입력해요."));
        }
        return Ok(PlaylistStep::Rename);
    }
    if delete {
        return Ok(PlaylistStep::Delete);
    }
    if remove {
        return Ok(PlaylistStep::RemoveEntry);
    }
    if enqueue {
        return Ok(PlaylistStep::Enqueue);
    }
    match track {
        None => Err(refusal(400, "추가할 곡이 없어요.")),
        Some(t) => if track_too_long(max_track_seconds, t) || blocked {
            Err(refusal(400, "곡 길이나 차단 규칙 때문에 추가할 수 없어요."))
        } else {
            Ok(PlaylistStep::AddTrack)
        },
    }
}

} // verus!
