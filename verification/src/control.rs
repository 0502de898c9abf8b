//! Playback controls from the remote: which permission each control needs,
//! the checks a control passes before it runs, what it changes, and how it
//! is written in the activity log.

use vstd::prelude::*;
use crate::access::{require_denial, suspension_denial, unsuspended, ctx_allows, AuthContext, Denial, SuspensionScope};
use crate::permissions::{action_requires_voice, PermissionRule, RemoteGuildSettings};
use crate::scoring::{repeat_key, repeat_key_spec, RepeatMode};
use crate::settings_edit::{read_repeat, repeat_named};
use crate::text::{decimal, owned, push_decimal, push_str, str_eq};

verus! {

/// The permission key, the rule and the refusal sentence of a control.
pub open spec fn control_rule_spec(s: &RemoteGuildSettings, action: Seq<char>) -> (Seq<char>, PermissionRule, Seq<char>) {
    if action == "seek"@ {
        ("seek"@, s.seek_rule, "재생 위치를 옮길 권한이 없어요."@)
    } else if action == "volume"@ {
        ("volume"@, s.volume_rule, "볼륨을 바꿀 권한이 없어요."@)
    } else if action == "shuffle"@ {
        ("queueEdit"@, s.queue_edit_rule, "대기열을 섞을 권한이 없어요."@)
    } else if action == "skip"@ || action == "skipVoteCancel"@ {
        ("skip"@, s.skip_rule, "곡을 넘길 권한이 없어요."@)
    } else if action == "autoplay"@ {
        ("autoplay"@, s.autoplay_rule, "자동 재생을 바꿀 권한이 없어요."@)
    } else {
        ("playback"@, s.playback_rule, "재생을 조작할 권한이 없어요."@)
    }
}

/// Which permission a control needs (see `control_rule_spec`): seeking,
/// volume, shuffling the queue, skipping (and withdrawing a skip vote) and
/// the autoplay switch each have their own; the rest is playback.
pub fn control_rule(s: &RemoteGuildSettings, action: &str) -> (r: (&'static str, PermissionRule, &'static str))
    ensures
        (r.0@, r.1, r.2@) == control_rule_spec(s, action@),
{
    if str_eq(action, "seek") {
        ("seek", s.seek_rule, "재생 위치를 옮길 권한이 없어요.")
    } else if str_eq(action, "volume") {
        ("volume", s.volume_rule, "볼륨을 바꿀 권한이 없어요.")
    } else if str_eq(action, "shuffle") {
        ("queueEdit", s.queue_edit_rule, "대기열을 섞을 권한이 없어요.")
    } else if str_eq(action, "skip") || str_eq(action, "skipVoteCancel") {
        ("skip", s.skip_rule, "곡을 넘길 권한이 없어요.")
    } else if str_eq(action, "autoplay") {
        ("autoplay", s.autoplay_rule, "자동 재생을 바꿀 권한이 없어요.")
    } else {
        ("playback", s.playback_rule, "재생을 조작할 권한이 없어요.")
    }
}

/// What a control does once past its checks.
#[derive(Debug, Clone, Copy, PartialEq, Eq, Structural)]
pub enum ControlGate {
    /// Only withdraw the member's own skip vote (works with the bot gone).
    CancelVote,
    /// Carry the control out.
    Proceed,
}

pub open spec fn opt_seq(o: Option<&str>) -> Option<Seq<char>> {
    match o { Some(t) => Some(t@), None => None }
}

/// The checks of a control, in order: the rate limit, its permission, a
/// queue suspension; a skip-vote withdrawal stops there; then the bot must
/// be in voice (unless the server does not ask for it, or plays in the web
/// player while the bot is away; the autoplay switch never needs it); and
/// a skip or seek must name the song that is playing.
pub open spec fn control_gate_spec(
    ctx: &AuthContext,
    action: Seq<char>,
    rate_limited: bool,
    bot_in_voice: bool,
    expected_item: Option<Seq<char>>,
    current_item: Option<Seq<char>>,
    r: Result<ControlGate, Denial>,
) -> bool {
    let (key, rule, message) = control_rule_spec(&ctx.settings, action);
    let virtual_playing = ctx.settings.web_player_mode && !bot_in_voice;
    if rate_limited {
        r is Err && r->Err_0.status == 429 && r->Err_0.message@ == "재생 제어 요청이 너무 빨라요. 잠깐만 쉬었다 해요."@
    } else if !ctx_allows(ctx, key, rule) {
        r is Err && require_denial(ctx, key, rule, message, r->Err_0)
    } else if !unsuspended(ctx, SuspensionScope::Queue) {
        r is Err && suspension_denial(ctx, SuspensionScope::Queue, r->Err_0)
    } else if action == "skipVoteCancel"@ {
        r == Ok::<ControlGate, Denial>(ControlGate::CancelVote)
    } else if action != "autoplay"@ && ctx.settings.require_voice_for_playback && !virtual_playing && !bot_in_voice {
        r is Err && r->Err_0.status == 409 && r->Err_0.message@
            == "봇이 음성 채널에 안 들어가 있어요. `/참여` 로 부르거나, 서버 설정에서 이 제한을 끌 수 있어요."@
    } else if (action == "skip"@ || action == "seek"@) && expected_item != current_item {
        r is Err && r->Err_0.status == 409 && r->Err_0.message@ == "재생 상태가 그새 바뀌었어요. 화면을 새로 받아 볼게요."@
    } else {
        r == Ok::<ControlGate, Denial>(ControlGate::Proceed)
    }
}

fn same_item(a: Option<&str>, b: Option<&str>) -> (r: bool)
    ensures
        r == (opt_seq(a) == opt_seq(b)),
{
    match (a, b) {
        (Some(x), Some(y)) => str_eq(x, y),
        (None, None) => true,
        _ => false,
    }
}

/// Runs a control's checks (see `control_gate_spec`). `rate_limited` is
/// whether the member's last control was too recent; `bot_in_voice` what
/// the voice cache says; the items are the one the screen showed and the
/// one playing.
pub fn control_gate(
    ctx: &AuthContext,
    action: &str,
    rate_limited: bool,
    bot_in_voice: bool,
    expected_item: Option<&str>,
    current_item: Option<&str>,
) -> (r: Result<ControlGate, Denial>)
    ensures
        control_gate_spec(ctx, action@, rate_limited, bot_in_voice, opt_seq(expected_item), opt_seq(current_item), r),
{
    if rate_limited {
        return Err(Denial { status: 429, message: owned("재생 제어 요청이 너무 빨라요. 잠깐만 쉬었다 해요.") });
    }
    let (key, rule, message) = control_rule(&ctx.settings, action);
    match ctx.require(key, rule, message) {
        Ok(()) => {},
        Err(d) => { return Err(d); },
    }
    match ctx.require_not_suspended(SuspensionScope::Queue) {
        Ok(()) => {},
        Err(d) => { return Err(d); },
    }
    if str_eq(action, "skipVoteCancel") {
        return Ok(ControlGate::CancelVote);
    }
    let virtual_playing = ctx.settings.web_player_mode && !bot_in_voice;
    if action_requires_voice(action) && ctx.settings.require_voice_for_playback && !virtual_playing && !bot_in_voice {
        return Err(Denial {
            status: 409,
            message: owned("봇이 음성 채널에 안 들어가 있어요. `/참여` 로 부르거나, 서버 설정에서 이 제한을 끌 수 있어요."),
        });
    }
    if (str_eq(action, "skip") || str_eq(action, "seek")) && !same_item(expected_item, current_item) {
        return Err(Denial { status: 409, message: owned("재생 상태가 그새 바뀌었어요. 화면을 새로 받아 볼게요.") });
    }
    Ok(ControlGate::Proceed)
}

/// Withdrawing one's own skip vote, and the autoplay switch, never need the
/// bot in a voice channel: with the permission, no suspension and no rate
/// limit, they pass whatever the voice state.
pub proof fn law_no_voice_needed(
    ctx: &AuthContext,
    bot_in_voice: bool,
    expected_item: Option<Seq<char>>,
    current_item: Option<Seq<char>>,
    r: Result<ControlGate, Denial>,
)
    requires
        ctx_allows(ctx, "skip"@, ctx.settings.skip_rule),
        ctx_allows(ctx, "autoplay"@, ctx.settings.autoplay_rule),
        unsuspended(ctx, SuspensionScope::Queue),
    ensures
        control_gate_spec(ctx, "skipVoteCancel"@, false, bot_in_voice, expected_item, current_item, r)
            ==> r == Ok::<ControlGate, Denial>(ControlGate::CancelVote),
        control_gate_spec(ctx, "autoplay"@, false, bot_in_voice, expected_item, current_item, r)
            ==> r == Ok::<ControlGate, Denial>(ControlGate::Proceed),
{
    reveal_strlit("skipVoteCancel");
    reveal_strlit("autoplay");
    reveal_strlit("seek");
    reveal_strlit("volume");
    reveal_strlit("shuffle");
    reveal_strlit("skip");
    assert("skipVoteCancel"@.len() == 14);
    assert("autoplay"@.len() == 8);
    assert("skip"@.len() == 4);
    assert("seek"@.len() == 4);
    assert("volume"@.len() == 6);
    assert("shuffle"@.len() == 7);
    assert("autoplay"@[0] != "skipVoteCancel"@[0]);
}

/// Each control that has its own setting is judged by that setting, under
/// its own permission key, whatever the general playback rule says: seeking
/// by the seek rule, volume by the volume rule, shuffling by the queue-edit
/// rule, skipping (and withdrawing a skip vote) by the skip rule, the
/// autoplay switch by the autoplay rule; pausing, resuming and repeat by the
/// playback rule.
pub proof fn law_controls_use_their_own_rule(s: &RemoteGuildSettings)
    ensures
        control_rule_spec(s, "seek"@).0 == "seek"@ && control_rule_spec(s, "seek"@).1 == s.seek_rule,
        control_rule_spec(s, "volume"@).0 == "volume"@ && control_rule_spec(s, "volume"@).1 == s.volume_rule,
        control_rule_spec(s, "shuffle"@).0 == "queueEdit"@ && control_rule_spec(s, "shuffle"@).1 == s.queue_edit_rule,
        control_rule_spec(s, "skip"@).0 == "skip"@ && control_rule_spec(s, "skip"@).1 == s.skip_rule,
        control_rule_spec(s, "skipVoteCancel"@).0 == "skip"@ && control_rule_spec(s, "skipVoteCancel"@).1 == s.skip_rule,
        control_rule_spec(s, "autoplay"@).0 == "autoplay"@ && control_rule_spec(s, "autoplay"@).1 == s.autoplay_rule,
        control_rule_spec(s, "pause"@).0 == "playback"@ && control_rule_spec(s, "pause"@).1 == s.playback_rule,
        control_rule_spec(s, "resume"@).0 == "playback"@ && control_rule_spec(s, "resume"@).1 == s.playback_rule,
        control_rule_spec(s, "repeat"@).0 == "playback"@ && control_rule_spec(s, "repeat"@).1 == s.playback_rule,
{
    reveal_strlit("seek");
    reveal_strlit("volume");
    reveal_strlit("shuffle");
    reveal_strlit("skip");
    reveal_strlit("skipVoteCancel");
    reveal_strlit("autoplay");
    reveal_strlit("pause");
    reveal_strlit("resume");
    reveal_strlit("repeat");
    assert("seek"@[1] != "skip"@[1]);
    assert("pause"@.len() != "seek"@.len() && "pause"@[0] != "shuffle"@[0] && "pause"@[0] != "skip"@[0]);
    assert("pause"@[0] != "autoplay"@[0] && "pause"@[0] != "volume"@[0] && "pause"@.len() != "skipVoteCancel"@.len());
    assert("resume"@[0] != "seek"@[0] && "resume"@[0] != "volume"@[0] && "resume"@[0] != "shuffle"@[0]);
    assert("resume"@[0] != "skip"@[0] && "resume"@[0] != "autoplay"@[0]);
    assert("repeat"@[0] != "seek"@[0] && "repeat"@[0] != "volume"@[0] && "repeat"@[0] != "shuffle"@[0]);
    assert("repeat"@[0] != "skip"@[0] && "repeat"@[0] != "autoplay"@[0]);
    assert("volume"@[0] != "seek"@[0]);
    assert("shuffle"@[1] != "seek"@[1] && "shuffle"@.len() != "volume"@.len());
    assert("skipVoteCancel"@.len() != "seek"@.len() && "skipVoteCancel"@.len() != "volume"@.len());
    assert("skipVoteCancel"@.len() != "shuffle"@.len() && "skipVoteCancel"@.len() != "skip"@.len());
    assert("autoplay"@[0] != "seek"@[0] && "autoplay"@[0] != "volume"@[0] && "autoplay"@[0] != "shuffle"@[0]);
    assert("autoplay"@[0] != "skip"@[0] && "autoplay"@.len() != "skipVoteCancel"@.len());
}

/// A seek is judged by the seek rule alone: a member the seek rule does not
/// let through is refused whatever the playback rule allows, and one it lets
/// through (not suspended, not rate limited, with the bot in voice and the
/// song on screen the one playing) seeks, whatever the playback rule forbids.
pub proof fn law_seek_follows_the_seek_rule(
    ctx: &AuthContext,
    bot_in_voice: bool,
    expected_item: Option<Seq<char>>,
    current_item: Option<Seq<char>>,
    r: Result<ControlGate, Denial>,
)
    requires
        control_gate_spec(ctx, "seek"@, false, bot_in_voice, expected_item, current_item, r),
    ensures
        !ctx_allows(ctx, "seek"@, ctx.settings.seek_rule) ==> r is Err && require_denial(ctx, "seek"@,
            ctx.settings.seek_rule, "재생 위치를 옮길 권한이 없어요."@, r->Err_0),
        ctx_allows(ctx, "seek"@, ctx.settings.seek_rule) && unsuspended(ctx, SuspensionScope::Queue) && bot_in_voice
            && expected_item == current_item ==> r == Ok::<ControlGate, Denial>(ControlGate::Proceed),
{
    law_controls_use_their_own_rule(&ctx.settings);
    reveal_strlit("seek");
    reveal_strlit("skipVoteCancel");
    reveal_strlit("autoplay");
    assert("seek"@.len() != "skipVoteCancel"@.len());
    assert("seek"@.len() != "autoplay"@.len());
}

/// A control to carry out, with its value.
#[derive(Debug, Clone, Copy, PartialEq, Eq, Structural)]
pub enum ControlOp {
    Pause,
    Resume,
    Skip,
    /// Its position is checked against the song where it is carried out.
    Seek,
    Volume(i32),
    Repeat(RepeatMode),
    Shuffle(bool),
    Autoplay(bool),
}

/// The control an action names. `volume` is the sent value rounded, `on`
/// whether the sent value counts as switched on, `mode` the sent repeat
/// mode. A volume outside the server's range, an unknown repeat mode and an
/// unknown action are refused with their sentences.
pub open spec fn control_op_spec(action: Seq<char>, volume: i32, on: bool, mode: Option<Seq<char>>, min_volume: i32,
    max_volume: i32) -> Result<ControlOp, Seq<char>>
{
    if action == "pause"@ { Ok(ControlOp::Pause) }
    else if action == "resume"@ { Ok(ControlOp::Resume) }
    else if action == "skip"@ { Ok(ControlOp::Skip) }
    else if action == "seek"@ { Ok(ControlOp::Seek) }
    else if action == "volume"@ {
        if volume < min_volume || volume > max_volume {
            Err("볼륨은 "@ + signed_decimal(min_volume as int) + "~"@ + signed_decimal(max_volume as int) + " 사이여야 해요."@)
        } else {
            Ok(ControlOp::Volume(volume))
        }
    }
    else if action == "repeat"@ {
        match mode {
            Some(m) => match repeat_named(m) {
                Some(x) => Ok(ControlOp::Repeat(x)),
                None => Err("반복 모드는 off / track / queue 중 하나여야 해요."@),
            },
            None => Err("반복 모드는 off / track / queue 중 하나여야 해요."@),
        }
    }
    else if action == "shuffle"@ { Ok(ControlOp::Shuffle(on)) }
    else if action == "autoplay"@ { Ok(ControlOp::Autoplay(on)) }
    else { Err("지원하지 않는 재생 제어예요."@) }
}

/// An integer in decimal, with a minus sign when negative.
pub open spec fn signed_decimal(v: int) -> Seq<char> {
    if v < 0 { "-"@ + decimal((-v) as nat) } else { decimal(v as nat) }
}

pub(crate) fn push_signed(out: &mut String, v: i32)
    ensures
        final(out)@ == old(out)@ + signed_decimal(v as int),
{
    if v < 0 {
        push_str(out, "-");
        let m: u64 = if v == i32::MIN { 2147483648u64 } else { (-v) as u64 };
        push_decimal(out, m);
    } else {
        push_decimal(out, v as u64);
    }
}

/// Reads a control (see `control_op_spec`).
pub fn plan_control(action: &str, volume: i32, on: bool, mode: Option<&str>, min_volume: i32, max_volume: i32)
    -> (r: Result<ControlOp, String>)
    ensures
        match r {
            Ok(op) => control_op_spec(action@, volume, on, opt_seq(mode), min_volume, max_volume) == Ok::<ControlOp, Seq<char>>(op),
            Err(m) => control_op_spec(action@, volume, on, opt_seq(mode), min_volume, max_volume) == Err::<ControlOp, Seq<char>>(m@),
        },
{
    if str_eq(action, "pause") { return Ok(ControlOp::Pause); }
    if str_eq(action, "resume") { return Ok(ControlOp::Resume); }
    if str_eq(action, "skip") { return Ok(ControlOp::Skip); }
    if str_eq(action, "seek") { return Ok(ControlOp::Seek); }
    if str_eq(action, "volume") {
        if volume < min_volume || volume > max_volume {
            let mut m = owned("볼륨은 ");
            push_signed(&mut m, min_volume);
            push_str(&mut m, "~");
            push_signed(&mut m, max_volume);
            push_str(&mut m, " 사이여야 해요.");
            return Err(m);
        }
        return Ok(ControlOp::Volume(volume));
    }
    if str_eq(action, "repeat") {
        return match mode {
            Some(m) => match read_repeat(m) {
                Some(x) => Ok(ControlOp::Repeat(x)),
                None => Err(owned("반복 모드는 off / track / queue 중 하나여야 해요.")),
            },
            None => Err(owned("반복 모드는 off / track / queue 중 하나여야 해요.")),
        };
    }
    if str_eq(action, "shuffle") { return Ok(ControlOp::Shuffle(on)); }
    if str_eq(action, "autoplay") { return Ok(ControlOp::Autoplay(on)); }
    Err(owned("지원하지 않는 재생 제어예요."))
}

/// What a carried-out control records as its new value: `paused`,
/// `resumed`, `skipped`, the volume with `%`, `repeat:<mode>`,
/// `shuffle:<true|false>`, `on`/`off` for autoplay. A seek records its
/// position where it is carried out.
pub open spec fn after_text_spec(op: ControlOp) -> Seq<char> {
    match op {
        ControlOp::Pause => "paused"@,
        ControlOp::Resume => "resumed"@,
        ControlOp::Skip => "skipped"@,
        ControlOp::Seek => Seq::empty(),
        ControlOp::Volume(v) => signed_decimal(v as int) + "%"@,
        ControlOp::Repeat(m) => "repeat:"@ + repeat_key_spec(m),
        ControlOp::Shuffle(b) => if b { "shuffle:true"@ } else { "shuffle:false"@ },
        ControlOp::Autoplay(b) => if b { "on"@ } else { "off"@ },
    }
}

/// See `after_text_spec`.
pub fn after_text(op: ControlOp) -> (s: String)
    ensures
        s@ == after_text_spec(op),
{
    match op {
        ControlOp::Pause => owned("paused"),
        ControlOp::Resume => owned("resumed"),
        ControlOp::Skip => owned("skipped"),
        ControlOp::Seek => String::new(),
        ControlOp::Volume(v) => {
            let mut s = String::new();
            push_signed(&mut s, v);
            push_str(&mut s, "%");
            s
        },
        ControlOp::Repeat(m) => {
            let mut s = owned("repeat:");
            push_str(&mut s, repeat_key(m));
            s
        },
        ControlOp::Shuffle(b) => if b { owned("shuffle:true") } else { owned("shuffle:false") },
        ControlOp::Autoplay(b) => if b { owned("on") } else { owned("off") },
    }
}

/// The log name of a carried-out control and, for a skip that a vote
/// carried, the number of members who agreed (at least one): the autoplay
/// switch is `autoplay.toggle`, anything else `playback.<action>`.
pub open spec fn control_audit_spec(action: Seq<char>, skip_votes: Option<u64>) -> (Seq<char>, Option<u64>) {
    match skip_votes {
        Some(n) if action == "skip"@ => ("playback.skip.vote"@, Some(if n == 0 { 1u64 } else { n })),
        _ => if action == "autoplay"@ { ("autoplay.toggle"@, None) } else { ("playback."@ + action, None) },
    }
}

/// See `control_audit_spec`.
pub fn control_audit(action: &str, skip_votes: Option<u64>) -> (r: (String, Option<u64>))
    ensures
        (r.0@, r.1) == control_audit_spec(action@, skip_votes),
{
    match skip_votes {
        Some(n) => if str_eq(action, "skip") {
            return (owned("playback.skip.vote"), Some(if n == 0 { 1u64 } else { n }));
        },
        None => {},
    }
    if str_eq(action, "autoplay") {
        (owned("autoplay.toggle"), None)
    } else {
        let mut s = owned("playback.");
        push_str(&mut s, action);
        (s, None)
    }
}

} // verus!
