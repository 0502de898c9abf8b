//! Editing a server's remote settings from the admin console: the values a
//! request sent, checked one section at a time in a fixed order, and the
//! settings that result.

use vstd::prelude::*;
use crate::access::Denial;
use crate::catalog::{parse_role_ids, role_ids_error, role_ids_upto, RoleIdValue};
use crate::permissions::{canonical_permission_key, parse_rule, rule_key_spec, PermissionRule, RemoteGuildSettings};
use crate::quorum::{parse_basis_spec, VoteSkipBasis};
use crate::roles::RuleRoles;
use crate::scoring::{parse_repeat, repeat_key_spec, BoomttaAction, RepeatMode};
use crate::sorting::views;
use crate::text::{owned, push_str, str_eq, trim, trim_seq};

verus! {

/// The values one settings request sent; `None` where a key was absent (or
/// not of the expected kind). A section reads only its own keys.
#[derive(Debug, Clone, Default)]
pub struct SettingsPatch {
    pub default_volume: Option<i32>,
    pub auto_bgm_enabled: Option<bool>,
    pub repeat_mode: Option<String>,
    pub like_points: Option<i32>,
    pub dislike_points: Option<i32>,
    pub super_like_points: Option<i32>,
    pub wait_points: Option<i32>,
    pub boomtta_enabled: Option<bool>,
    pub boomtta_threshold: Option<i32>,
    pub boomtta_action: Option<String>,
    pub vote_skip_enabled: Option<bool>,
    pub vote_skip_basis: Option<String>,
    pub vote_skip_ratio: Option<i32>,
    pub vote_skip_min: Option<i32>,
    pub super_like_cooldown_sec: Option<i32>,
    pub super_like_daily_limit: Option<i32>,
    pub autoplay_recent_count: Option<i32>,
    pub autoplay_artist_cooldown: Option<i32>,
    pub autoplay_recent_decay_hours: Option<i32>,
    pub autoplay_seed_max: Option<i32>,
    /// The items of the genre list: each one's text, `None` for an item that is not text.
    pub autoplay_genres: Option<Vec<Option<String>>>,
    pub chart_limit: Option<i32>,
    pub chart_super_weight: Option<i32>,
    /// Whether the empty-channel policy was sent at all.
    pub empty_voice_policy_sent: bool,
    pub empty_voice_delay_seconds: Option<i32>,
    pub skip_lead_ms: Option<i32>,
    pub seek_lockout_ms: Option<i32>,
    pub web_sync_offset_ms: Option<i32>,
    pub require_voice_for_playback: Option<bool>,
    pub web_player_mode: Option<bool>,
    pub public_now_playing: Option<bool>,
    /// Permission rules by their keys (`searchRule` .. `bulkEnqueueRule`).
    pub search_rule: Option<String>,
    pub vote_rule: Option<String>,
    pub chat_rule: Option<String>,
    pub playback_rule: Option<String>,
    pub skip_rule: Option<String>,
    pub seek_rule: Option<String>,
    pub volume_rule: Option<String>,
    pub queue_edit_rule: Option<String>,
    pub autoplay_rule: Option<String>,
    pub bulk_enqueue_rule: Option<String>,
    /// Older names of the autoplay and bulk-enqueue rules.
    pub autoplay_seed_rule: Option<String>,
    pub playlist_enqueue_rule: Option<String>,
    /// `ruleRoleIds`, entry by entry in the order sent: the key, and its
    /// items (`None` when the value is not a list).
    pub rule_role_ids: Option<Vec<(String, Option<Vec<RoleIdValue>>)>>,
    /// `managerRoleIds`, when sent: its items, `None` when not a list.
    pub manager_role_ids: Option<Option<Vec<RoleIdValue>>>,
    pub min_volume: Option<i32>,
    pub max_volume: Option<i32>,
    pub max_queue_per_user: Option<i32>,
    pub max_queue_per_guild: Option<i32>,
    pub max_track_seconds: Option<i32>,
    pub audit_retention_days: Option<i32>,
    pub bulk_enqueue_limit: Option<i32>,
    pub chat_retention_days: Option<i32>,
    pub chat_enabled: Option<bool>,
    pub suggestion_enabled: Option<bool>,
    pub visualizer_enabled: Option<bool>,
}

/// A sent number outside `lo..=hi`.
pub open spec fn out_of(o: Option<i32>, lo: int, hi: int) -> bool {
    match o {
        Some(v) => !(lo <= v && v <= hi),
        None => false,
    }
}

/// A sent number that is neither `0` (unlimited) nor inside `lo..=hi`.
pub open spec fn out_of_unlimited(o: Option<i32>, lo: int, hi: int) -> bool {
    match o {
        Some(v) => v != 0 && !(lo <= v && v <= hi),
        None => false,
    }
}

pub open spec fn repeat_named(v: Seq<char>) -> Option<RepeatMode> {
    if v == "off"@ { Some(RepeatMode::Off) }
    else if v == "track"@ { Some(RepeatMode::Track) }
    else if v == "queue"@ { Some(RepeatMode::Queue) }
    else { None }
}

pub open spec fn boomtta_named(v: Seq<char>) -> Option<BoomttaAction> {
    if v == "bottom"@ { Some(BoomttaAction::Bottom) }
    else if v == "remove"@ { Some(BoomttaAction::Remove) }
    else { None }
}

/// A sent name that names nothing.
pub open spec fn unnamed_repeat(o: Option<String>) -> bool {
    match o { Some(v) => repeat_named(v@) is None, None => false }
}

pub open spec fn unnamed_boomtta(o: Option<String>) -> bool {
    match o { Some(v) => boomtta_named(v@) is None, None => false }
}

pub open spec fn unnamed_basis(o: Option<String>) -> bool {
    match o { Some(v) => parse_basis_spec(v@) is None, None => false }
}

pub open spec fn too_many_genres(o: Option<Vec<Option<String>>>) -> bool {
    match o { Some(items) => items@.len() > 20, None => false }
}

/// The genres kept from a sent list: the text items, trimmed, without empty ones.
pub open spec fn genre_names(items: Seq<Option<String>>) -> Seq<Seq<char>>
    decreases items.len(),
{
    if items.len() == 0 {
        Seq::empty()
    } else {
        let rest = genre_names(items.drop_last());
        match items.last() {
            Some(t) => if trim_seq(t@).len() > 0 { rest.push(trim_seq(t@)) } else { rest },
            None => rest,
        }
    }
}

pub open spec fn bad(m: Seq<char>) -> Option<(u16, Seq<char>)> {
    Some((400u16, m))
}

/// The first refusal of the playback-and-order section: the checks run in
/// this order, and the empty-channel values are refused (403) while that
/// rule is locked.
pub open spec fn order_refusal(s: RemoteGuildSettings, p: SettingsPatch, editable: bool, lock_reason: Option<Seq<char>>)
    -> Option<(u16, Seq<char>)>
{
    if out_of(p.default_volume, s.min_volume as int, s.max_volume as int) {
        bad("기본 볼륨이 최소/최대 범위를 벗어났어요."@)
    } else {
        order_rest_refusal(p, editable, lock_reason)
    }
}

/// The checks of that section after the default volume.
pub open spec fn order_rest_refusal(p: SettingsPatch, editable: bool, lock_reason: Option<Seq<char>>)
    -> Option<(u16, Seq<char>)>
{
    if unnamed_repeat(p.repeat_mode) { bad("알 수 없는 반복 모드예요."@) }
    else if out_of(p.like_points, -10, 10) { bad("likePoints: 점수는 -10~10 사이여야 해요."@) }
    else if out_of(p.dislike_points, -10, 10) { bad("dislikePoints: 점수는 -10~10 사이여야 해요."@) }
    else if out_of(p.super_like_points, -10, 10) { bad("superLikePoints: 점수는 -10~10 사이여야 해요."@) }
    else if out_of(p.wait_points, -10, 10) { bad("waitPoints: 점수는 -10~10 사이여야 해요."@) }
    else if out_of(p.boomtta_threshold, 0, 1000) { bad("붐따 기준 수는 0~1000이에요."@) }
    else if unnamed_boomtta(p.boomtta_action) { bad("붐따 동작은 bottom(맨 뒤로) 또는 remove(빼기)예요."@) }
    else if unnamed_basis(p.vote_skip_basis) { bad("투표 스킵 기준은 listeners · viewers · either · both 중 하나예요."@) }
    else if out_of(p.vote_skip_ratio, 10, 100) { bad("투표 스킵 비율은 10~100%예요."@) }
    else if out_of_unlimited(p.vote_skip_min, 1, 20) { bad("최소 표 수는 0(없음)~20이에요."@) }
    else if out_of_unlimited(p.super_like_cooldown_sec, 1, 3600) { bad("쿨타임은 0(없음)~3600초예요."@) }
    else if out_of_unlimited(p.super_like_daily_limit, 1, 100) { bad("하루 횟수는 0(무제한)~100이에요."@) }
    else if out_of(p.autoplay_recent_count, 0, 20) { bad("최근 N곡은 20까지예요. 0을 넣으면 전부 참고해요."@) }
    else if out_of_unlimited(p.autoplay_artist_cooldown, 1, 20) { bad("아티스트 쿨다운은 0(없음)~20곡이에요."@) }
    else if out_of_unlimited(p.autoplay_recent_decay_hours, 1, 168) { bad("재생 이력 감쇠는 0(끔)~168시간이에요."@) }
    else if out_of_unlimited(p.autoplay_seed_max, 1, 100) { bad("기준 곡 상한은 0(무제한)~100이에요."@) }
    else if too_many_genres(p.autoplay_genres) { bad("장르는 20개까지 고를 수 있어요."@) }
    else if out_of(p.chart_limit, 10, 100) { bad("차트 곡 수는 10~100곡이에요."@) }
    else if out_of(p.chart_super_weight, 0, 5) { bad("슈퍼 좋아요 가중치는 0~5예요. 0이면 아예 안 세요."@) }
    else if (p.empty_voice_policy_sent || p.empty_voice_delay_seconds is Some) && !editable {
        Some((403u16, match lock_reason { Some(r) => r, None => "지금은 바꿀 수 없어요."@ }))
    }
    else if out_of(p.empty_voice_delay_seconds, 5, 3600) { bad("빈 채널 대기 시간은 5초에서 1시간 사이여야 해요."@) }
    else if out_of(p.skip_lead_ms, 0, 5000) { bad("스킵 여유 시간은 0~5000ms 사이여야 해요."@) }
    else if out_of(p.seek_lockout_ms, 0, 10000) { bad("진행바 잠금 구간은 0~10000ms 사이여야 해요."@) }
    else if out_of(p.web_sync_offset_ms, -5000, 5000) { bad("전역 싱크 보정은 -5000~5000ms 사이여야 해요."@) }
    else { None }
}

pub open spec fn or_i32(o: Option<i32>, d: i32) -> i32 {
    match o { Some(v) => v, None => d }
}

pub open spec fn or_u32(o: Option<i32>, d: u32) -> u32 {
    match o { Some(v) => v as u32, None => d }
}

pub open spec fn or_bool(o: Option<bool>, d: bool) -> bool {
    match o { Some(v) => v, None => d }
}

/// The section's settings once every sent value is stored (the genre list
/// aside), group by group.
pub open spec fn order_applied(s: RemoteGuildSettings, p: SettingsPatch) -> RemoteGuildSettings {
    playback_applied(autoplay_applied(vote_applied(boomtta_applied(points_applied(s, p), p), p), p), p)
}

pub open spec fn points_applied(s: RemoteGuildSettings, p: SettingsPatch) -> RemoteGuildSettings {
    RemoteGuildSettings {
        default_volume: or_i32(p.default_volume, s.default_volume),
        like_points: or_i32(p.like_points, s.like_points),
        dislike_points: or_i32(p.dislike_points, s.dislike_points),
        super_like_points: or_i32(p.super_like_points, s.super_like_points),
        wait_points: or_i32(p.wait_points, s.wait_points),
        ..s
    }
}

pub open spec fn boomtta_applied(s: RemoteGuildSettings, p: SettingsPatch) -> RemoteGuildSettings {
    RemoteGuildSettings {
        boomtta_enabled: or_bool(p.boomtta_enabled, s.boomtta_enabled),
        boomtta_threshold: or_u32(p.boomtta_threshold, s.boomtta_threshold),
        boomtta_action: match p.boomtta_action {
            Some(a) => match boomtta_named(a@) { Some(x) => x, None => s.boomtta_action },
            None => s.boomtta_action,
        },
        ..s
    }
}

pub open spec fn vote_applied(s: RemoteGuildSettings, p: SettingsPatch) -> RemoteGuildSettings {
    RemoteGuildSettings {
        vote_skip_enabled: or_bool(p.vote_skip_enabled, s.vote_skip_enabled),
        vote_skip_basis: match p.vote_skip_basis {
            Some(b) => match parse_basis_spec(b@) { Some(x) => x, None => s.vote_skip_basis },
            None => s.vote_skip_basis,
        },
        vote_skip_ratio: or_u32(p.vote_skip_ratio, s.vote_skip_ratio),
        vote_skip_min: or_u32(p.vote_skip_min, s.vote_skip_min),
        super_like_cooldown_sec: or_u32(p.super_like_cooldown_sec, s.super_like_cooldown_sec),
        super_like_daily_limit: or_u32(p.super_like_daily_limit, s.super_like_daily_limit),
        ..s
    }
}

pub open spec fn autoplay_applied(s: RemoteGuildSettings, p: SettingsPatch) -> RemoteGuildSettings {
    RemoteGuildSettings {
        autoplay_recent_count: or_u32(p.autoplay_recent_count, s.autoplay_recent_count),
        autoplay_artist_cooldown: or_u32(p.autoplay_artist_cooldown, s.autoplay_artist_cooldown),
        autoplay_recent_decay_hours: or_u32(p.autoplay_recent_decay_hours, s.autoplay_recent_decay_hours),
        autoplay_seed_max: or_u32(p.autoplay_seed_max, s.autoplay_seed_max),
        chart_limit: or_u32(p.chart_limit, s.chart_limit),
        chart_super_weight: or_u32(p.chart_super_weight, s.chart_super_weight),
        ..s
    }
}

pub open spec fn playback_applied(s: RemoteGuildSettings, p: SettingsPatch) -> RemoteGuildSettings {
    RemoteGuildSettings {
        empty_voice_delay_seconds: or_u32(p.empty_voice_delay_seconds, s.empty_voice_delay_seconds),
        skip_lead_ms: or_u32(p.skip_lead_ms, s.skip_lead_ms),
        seek_lockout_ms: or_u32(p.seek_lockout_ms, s.seek_lockout_ms),
        web_sync_offset_ms: or_i32(p.web_sync_offset_ms, s.web_sync_offset_ms),
        require_voice_for_playback: or_bool(p.require_voice_for_playback, s.require_voice_for_playback),
        web_player_mode: or_bool(p.web_player_mode, s.web_player_mode),
        public_now_playing: or_bool(p.public_now_playing, s.public_now_playing),
        ..s
    }
}

/// `n` holds the section's values over `s`, its genre list aside.
pub open spec fn order_stored(s: RemoteGuildSettings, p: SettingsPatch, n: RemoteGuildSettings) -> bool {
    n == RemoteGuildSettings { autoplay_genres: n.autoplay_genres, ..order_applied(s, p) }
}

/// What a settings request did: the new settings or the refusal, and the
/// player changes made on the way (they are made as their keys are reached,
/// so a later refusal does not undo them).
#[derive(Debug)]
pub struct SettingsEdit {
    pub result: Result<RemoteGuildSettings, Denial>,
    /// The autoplay default to store, when sent and reached.
    pub autoplay_default: Option<bool>,
    /// The repeat mode to set, when sent, valid and reached.
    pub repeat: Option<RepeatMode>,
}

proof fn lemma_repeat_names()
    ensures
        "off"@ != "track"@, "off"@ != "queue"@, "track"@ != "queue"@,
        "bottom"@ != "remove"@,
{
    reveal_strlit("off");
    reveal_strlit("track");
    reveal_strlit("queue");
    reveal_strlit("bottom");
    reveal_strlit("remove");
    assert("off"@.len() != "track"@.len());
    assert("off"@.len() != "queue"@.len());
    assert("track"@[0] != "queue"@[0]);
    assert("bottom"@[0] != "remove"@[0]);
}

pub(crate) fn read_repeat(v: &str) -> (r: Option<RepeatMode>)
    ensures
        r == repeat_named(v@),
{
    proof { lemma_repeat_names(); }
    let r = parse_repeat(v);
    proof {
        if r is None {
            assert(repeat_key_spec(RepeatMode::Off) != v@);
            assert(repeat_key_spec(RepeatMode::Track) != v@);
            assert(repeat_key_spec(RepeatMode::Queue) != v@);
        }
    }
    r
}

fn refuse(m: &str) -> (d: Denial)
    ensures
        d.status == 400,
        d.message@ == m@,
{
    Denial { status: 400, message: owned(m) }
}

fn check_range(o: Option<i32>, lo: i32, hi: i32, m: &str) -> (r: Option<Denial>)
    ensures
        r is Some <==> out_of(o, lo as int, hi as int),
        r is Some ==> r->0.status == 400 && r->0.message@ == m@,
{
    match o {
        Some(v) => if lo <= v && v <= hi { None } else { Some(refuse(m)) },
        None => None,
    }
}

fn check_unlimited(o: Option<i32>, lo: i32, hi: i32, m: &str) -> (r: Option<Denial>)
    ensures
        r is Some <==> out_of_unlimited(o, lo as int, hi as int),
        r is Some ==> r->0.status == 400 && r->0.message@ == m@,
{
    match o {
        Some(v) => if v == 0 || (lo <= v && v <= hi) { None } else { Some(refuse(m)) },
        None => None,
    }
}

/// The checks of the section after the default volume (see `order_rest_refusal`).
fn order_rest_checks(p: &SettingsPatch, editable: bool, lock_reason: Option<&str>) -> (r: Option<Denial>)
    ensures
        match r {
            Some(d) => order_rest_refusal(*p, editable, match lock_reason { Some(t) => Some(t@), None => None })
                == Some((d.status, d.message@)),
            None => order_rest_refusal(*p, editable, match lock_reason { Some(t) => Some(t@), None => None }) is None,
        },
{
    proof { lemma_repeat_names(); }
    match &p.repeat_mode {
        Some(m) => if read_repeat(m.as_str()).is_none() { return Some(refuse("알 수 없는 반복 모드예요.")); },
        None => {},
    }
    if let Some(d) = check_range(p.like_points, -10, 10, "likePoints: 점수는 -10~10 사이여야 해요.") { return Some(d); }
    if let Some(d) = check_range(p.dislike_points, -10, 10, "dislikePoints: 점수는 -10~10 사이여야 해요.") { return Some(d); }
    if let Some(d) = check_range(p.super_like_points, -10, 10, "superLikePoints: 점수는 -10~10 사이여야 해요.") { return Some(d); }
    if let Some(d) = check_range(p.wait_points, -10, 10, "waitPoints: 점수는 -10~10 사이여야 해요.") { return Some(d); }
    if let Some(d) = check_range(p.boomtta_threshold, 0, 1000, "붐따 기준 수는 0~1000이에요.") { return Some(d); }
    match &p.boomtta_action {
        Some(a) => if BoomttaAction::parse(a.as_str()).is_none() {
            return Some(refuse("붐따 동작은 bottom(맨 뒤로) 또는 remove(빼기)예요."));
        },
        None => {},
    }
    match &p.vote_skip_basis {
        Some(b) => if VoteSkipBasis::parse(b.as_str()).is_none() {
            return Some(refuse("투표 스킵 기준은 listeners · viewers · either · both 중 하나예요."));
        },
        None => {},
    }
    if let Some(d) = check_range(p.vote_skip_ratio, 10, 100, "투표 스킵 비율은 10~100%예요.") { return Some(d); }
    if let Some(d) = check_unlimited(p.vote_skip_min, 1, 20, "최소 표 수는 0(없음)~20이에요.") { return Some(d); }
    if let Some(d) = check_unlimited(p.super_like_cooldown_sec, 1, 3600, "쿨타임은 0(없음)~3600초예요.") { return Some(d); }
    if let Some(d) = check_unlimited(p.super_like_daily_limit, 1, 100, "하루 횟수는 0(무제한)~100이에요.") { return Some(d); }
    if let Some(d) = check_range(p.autoplay_recent_count, 0, 20, "최근 N곡은 20까지예요. 0을 넣으면 전부 참고해요.") { return Some(d); }
    if let Some(d) = check_unlimited(p.autoplay_artist_cooldown, 1, 20, "아티스트 쿨다운은 0(없음)~20곡이에요.") { return Some(d); }
    if let Some(d) = check_unlimited(p.autoplay_recent_decay_hours, 1, 168, "재생 이력 감쇠는 0(끔)~168시간이에요.") { return Some(d); }
    if let Some(d) = check_unlimited(p.autoplay_seed_max, 1, 100, "기준 곡 상한은 0(무제한)~100이에요.") { return Some(d); }
    match &p.autoplay_genres {
        Some(items) => if items.len() > 20 { return Some(refuse("장르는 20개까지 고를 수 있어요.")); },
        None => {},
    }
    if let Some(d) = check_range(p.chart_limit, 10, 100, "차트 곡 수는 10~100곡이에요.") { return Some(d); }
    if let Some(d) = check_range(p.chart_super_weight, 0, 5, "슈퍼 좋아요 가중치는 0~5예요. 0이면 아예 안 세요.") { return Some(d); }
    if (p.empty_voice_policy_sent || p.empty_voice_delay_seconds.is_some()) && !editable {
        let message = match lock_reason { Some(r) => owned(r), None => owned("지금은 바꿀 수 없어요.") };
        return Some(Denial { status: 403, message });
    }
    if let Some(d) = check_range(p.empty_voice_delay_seconds, 5, 3600, "빈 채널 대기 시간은 5초에서 1시간 사이여야 해요.") { return Some(d); }
    if let Some(d) = check_range(p.skip_lead_ms, 0, 5000, "스킵 여유 시간은 0~5000ms 사이여야 해요.") { return Some(d); }
    if let Some(d) = check_range(p.seek_lockout_ms, 0, 10000, "진행바 잠금 구간은 0~10000ms 사이여야 해요.") { return Some(d); }
    if let Some(d) = check_range(p.web_sync_offset_ms, -5000, 5000, "전역 싱크 보정은 -5000~5000ms 사이여야 해요.") { return Some(d); }
    None
}

/// The genres kept from a sent list (see `genre_names`).
fn collect_genres(items: &Vec<Option<String>>) -> (out: Vec<String>)
    ensures
        views(out@) == genre_names(items@),
{
    let mut out: Vec<String> = Vec::new();
    let mut i: usize = 0;
    while i < items.len()
        invariant
            i <= items.len(),
            views(out@) == genre_names(items@.take(i as int)),
        decreases items.len() - i,
    {
        proof { assert(items@.take(i as int + 1).drop_last() =~= items@.take(i as int)); }
        match &items[i] {
            Some(t) => {
                let g = trim(t.as_str());
                if g.as_str().unicode_len() > 0 {
                    out.push(g);
                    proof { assert(views(out@) =~= genre_names(items@.take(i as int)).push(trim_seq(t@))); }
                }
            },
            None => {},
        }
        i = i + 1;
    }
    proof { assert(items@.take(items@.len() as int) =~= items@); }
    out
}

fn pick_i32(o: Option<i32>, d: i32) -> (r: i32)
    ensures
        r == or_i32(o, d),
{
    match o { Some(v) => v, None => d }
}

fn pick_u32(o: Option<i32>, d: u32) -> (r: u32)
    ensures
        r == or_u32(o, d),
{
    match o { Some(v) => v as u32, None => d }
}

fn pick_bool(o: Option<bool>, d: bool) -> (r: bool)
    ensures
        r == or_bool(o, d),
{
    match o { Some(v) => v, None => d }
}

fn set_points(s: RemoteGuildSettings, p: &SettingsPatch) -> (n: RemoteGuildSettings)
    ensures
        n == points_applied(s, *p),
{
    RemoteGuildSettings {
        default_volume: pick_i32(p.default_volume, s.default_volume),
        like_points: pick_i32(p.like_points, s.like_points),
        dislike_points: pick_i32(p.dislike_points, s.dislike_points),
        super_like_points: pick_i32(p.super_like_points, s.super_like_points),
        wait_points: pick_i32(p.wait_points, s.wait_points),
        ..s
    }
}

fn set_boomtta(s: RemoteGuildSettings, p: &SettingsPatch) -> (n: RemoteGuildSettings)
    ensures
        n == boomtta_applied(s, *p),
{
    let boomtta_action = match &p.boomtta_action {
        Some(a) => match BoomttaAction::parse(a.as_str()) { Some(x) => x, None => s.boomtta_action },
        None => s.boomtta_action,
    };
    RemoteGuildSettings {
        boomtta_enabled: pick_bool(p.boomtta_enabled, s.boomtta_enabled),
        boomtta_threshold: pick_u32(p.boomtta_threshold, s.boomtta_threshold),
        boomtta_action,
        ..s
    }
}

fn set_vote(s: RemoteGuildSettings, p: &SettingsPatch) -> (n: RemoteGuildSettings)
    ensures
        n == vote_applied(s, *p),
{
    let vote_skip_basis = match &p.vote_skip_basis {
        Some(b) => match VoteSkipBasis::parse(b.as_str()) { Some(x) => x, None => s.vote_skip_basis },
        None => s.vote_skip_basis,
    };
    RemoteGuildSettings {
        vote_skip_enabled: pick_bool(p.vote_skip_enabled, s.vote_skip_enabled),
        vote_skip_basis,
        vote_skip_ratio: pick_u32(p.vote_skip_ratio, s.vote_skip_ratio),
        vote_skip_min: pick_u32(p.vote_skip_min, s.vote_skip_min),
        super_like_cooldown_sec: pick_u32(p.super_like_cooldown_sec, s.super_like_cooldown_sec),
        super_like_daily_limit: pick_u32(p.super_like_daily_limit, s.super_like_daily_limit),
        ..s
    }
}

fn set_autoplay(s: RemoteGuildSettings, p: &SettingsPatch) -> (n: RemoteGuildSettings)
    ensures
        n == autoplay_applied(s, *p),
{
    RemoteGuildSettings {
        autoplay_recent_count: pick_u32(p.autoplay_recent_count, s.autoplay_recent_count),
        autoplay_artist_cooldown: pick_u32(p.autoplay_artist_cooldown, s.autoplay_artist_cooldown),
        autoplay_recent_decay_hours: pick_u32(p.autoplay_recent_decay_hours, s.autoplay_recent_decay_hours),
        autoplay_seed_max: pick_u32(p.autoplay_seed_max, s.autoplay_seed_max),
        chart_limit: pick_u32(p.chart_limit, s.chart_limit),
        chart_super_weight: pick_u32(p.chart_super_weight, s.chart_super_weight),
        ..s
    }
}

fn set_playback(s: RemoteGuildSettings, p: &SettingsPatch) -> (n: RemoteGuildSettings)
    ensures
        n == playback_applied(s, *p),
{
    RemoteGuildSettings {
        empty_voice_delay_seconds: pick_u32(p.empty_voice_delay_seconds, s.empty_voice_delay_seconds),
        skip_lead_ms: pick_u32(p.skip_lead_ms, s.skip_lead_ms),
        seek_lockout_ms: pick_u32(p.seek_lockout_ms, s.seek_lockout_ms),
        web_sync_offset_ms: pick_i32(p.web_sync_offset_ms, s.web_sync_offset_ms),
        require_voice_for_playback: pick_bool(p.require_voice_for_playback, s.require_voice_for_playback),
        web_player_mode: pick_bool(p.web_player_mode, s.web_player_mode),
        public_now_playing: pick_bool(p.public_now_playing, s.public_now_playing),
        ..s
    }
}

/// The section's values stored over `s` (see `order_applied`).
fn build_order(s: RemoteGuildSettings, p: &SettingsPatch) -> (n: RemoteGuildSettings)
    ensures
        order_stored(s, *p, n),
        match p.autoplay_genres {
            Some(items) => views(n.autoplay_genres@) == genre_names(items@),
            None => n.autoplay_genres == s.autoplay_genres,
        },
{
    let n = set_playback(set_autoplay(set_vote(set_boomtta(set_points(s, p), p), p), p), p);
    match &p.autoplay_genres {
        Some(items) => {
            let g = collect_genres(items);
            RemoteGuildSettings { autoplay_genres: g, ..n }
        },
        None => n,
    }
}

/// What the playback-and-order section gives: the refusal or the stored
/// values (genres trimmed, empty ones dropped), and the player changes
/// reached before any refusal.
pub open spec fn order_outcome(s: RemoteGuildSettings, p: SettingsPatch, editable: bool, lock_reason: Option<Seq<char>>,
    o: SettingsEdit) -> bool
{
    &&& o.autoplay_default == (if out_of(p.default_volume, s.min_volume as int, s.max_volume as int) { None }
        else { p.auto_bgm_enabled })
    &&& o.repeat == (if out_of(p.default_volume, s.min_volume as int, s.max_volume as int) { None }
        else { match p.repeat_mode { Some(m) => repeat_named(m@), None => None } })
    &&& match o.result {
        Err(d) => order_refusal(s, p, editable, lock_reason) == Some((d.status, d.message@)),
        Ok(n) => {
            &&& order_refusal(s, p, editable, lock_reason) is None
            &&& order_stored(s, p, n)
            &&& match p.autoplay_genres {
                Some(items) => views(n.autoplay_genres@) == genre_names(items@),
                None => n.autoplay_genres == s.autoplay_genres,
            }
        },
    }
}

/// Applies the playback-and-order section of a settings request.
pub fn apply_order(s: RemoteGuildSettings, p: &SettingsPatch, editable: bool, lock_reason: Option<&str>) -> (o: SettingsEdit)
    ensures
        order_outcome(s, *p, editable, match lock_reason { Some(t) => Some(t@), None => None }, o),
{
    if let Some(d) = check_range(p.default_volume, s.min_volume, s.max_volume, "기본 볼륨이 최소/최대 범위를 벗어났어요.") {
        return SettingsEdit { result: Err(d), autoplay_default: None, repeat: None };
    }
    let autoplay_default = p.auto_bgm_enabled;
    let repeat = match &p.repeat_mode { Some(m) => read_repeat(m.as_str()), None => None };
    if let Some(d) = order_rest_checks(p, editable, lock_reason) {
        return SettingsEdit { result: Err(d), autoplay_default, repeat };
    }
    let n = build_order(s, p);
    SettingsEdit { result: Ok(n), autoplay_default, repeat }
}

// ───────── permissions ─────────

pub open spec fn rule_named(v: Seq<char>) -> Option<PermissionRule> {
    if v == "guildMember"@ { Some(PermissionRule::GuildMember) }
    else if v == "sameVoiceChannel"@ { Some(PermissionRule::SameVoiceChannel) }
    else if v == "configuredRole"@ { Some(PermissionRule::ConfiguredRole) }
    else if v == "administrator"@ { Some(PermissionRule::Administrator) }
    else if v == "disabled"@ { Some(PermissionRule::Disabled) }
    else { None }
}

pub open spec fn unnamed_rule(o: Option<String>) -> bool {
    match o { Some(v) => rule_named(v@) is None, None => false }
}

pub open spec fn or_rule(o: Option<String>, d: PermissionRule) -> PermissionRule {
    match o {
        Some(v) => match rule_named(v@) { Some(r) => r, None => d },
        None => d,
    }
}

/// The keys a permission rule is stored under.
pub open spec fn permission_key(k: Seq<char>) -> bool {
    k == "search"@ || k == "vote"@ || k == "chat"@ || k == "playback"@ || k == "skip"@
        || k == "seek"@ || k == "volume"@ || k == "queueEdit"@ || k == "autoplay"@ || k == "bulkEnqueue"@
}

/// Renamed keys mapped to their current names.
pub open spec fn canonical_key(k: Seq<char>) -> Seq<char> {
    if k == "autoplaySeed"@ { "autoplay"@ } else if k == "playlistEnqueue"@ { "bulkEnqueue"@ } else { k }
}

pub open spec fn opt_items(o: Option<Vec<RoleIdValue>>) -> Option<Seq<RoleIdValue>> {
    match o { Some(v) => Some(v@), None => None }
}

/// Why one `ruleRoleIds` entry is refused: an unknown key (named by its
/// current name), or the list's own fault.
pub open spec fn role_entry_refusal(e: (String, Option<Vec<RoleIdValue>>)) -> Option<(u16, Seq<char>)> {
    let k = canonical_key(e.0@);
    if !permission_key(k) {
        bad(k + ": 알 수 없는 권한 키예요."@)
    } else {
        match role_ids_error(opt_items(e.1)) {
            Some(m) => bad(m),
            None => None,
        }
    }
}

/// The first refusal among the first `n` entries.
pub open spec fn entries_refusal(es: Seq<(String, Option<Vec<RoleIdValue>>)>, n: int) -> Option<(u16, Seq<char>)>
    decreases n,
{
    if n <= 0 {
        None
    } else {
        let r = entries_refusal(es, n - 1);
        if r is Some { r } else { role_entry_refusal(es[n - 1]) }
    }
}

/// The lists by key after storing the first `n` entries over `m`.
pub open spec fn roles_after(m: Map<Seq<char>, Seq<u64>>, es: Seq<(String, Option<Vec<RoleIdValue>>)>, n: int)
    -> Map<Seq<char>, Seq<u64>>
    decreases n,
{
    if n <= 0 {
        m
    } else {
        let items = match es[n - 1].1 { Some(v) => v@, None => Seq::empty() };
        roles_after(m, es, n - 1).insert(canonical_key(es[n - 1].0@), role_ids_upto(items, items.len() as int))
    }
}

pub open spec fn rule_refusal(o: Option<String>, key: Seq<char>) -> Option<(u16, Seq<char>)> {
    if unnamed_rule(o) { bad(key + ": 알 수 없는 권한 규칙이에요."@) } else { None }
}

/// The first refusal of the permissions section: the rules in key order,
/// the two older rule names, the role lists by key, the manager roles.
pub open spec fn perms_refusal(p: SettingsPatch) -> Option<(u16, Seq<char>)> {
    if unnamed_rule(p.search_rule) { rule_refusal(p.search_rule, "searchRule"@) }
    else if unnamed_rule(p.vote_rule) { rule_refusal(p.vote_rule, "voteRule"@) }
    else if unnamed_rule(p.chat_rule) { rule_refusal(p.chat_rule, "chatRule"@) }
    else if unnamed_rule(p.playback_rule) { rule_refusal(p.playback_rule, "playbackRule"@) }
    else if unnamed_rule(p.skip_rule) { rule_refusal(p.skip_rule, "skipRule"@) }
    else if unnamed_rule(p.seek_rule) { rule_refusal(p.seek_rule, "seekRule"@) }
    else if unnamed_rule(p.volume_rule) { rule_refusal(p.volume_rule, "volumeRule"@) }
    else if unnamed_rule(p.queue_edit_rule) { rule_refusal(p.queue_edit_rule, "queueEditRule"@) }
    else if unnamed_rule(p.autoplay_rule) { rule_refusal(p.autoplay_rule, "autoplayRule"@) }
    else if unnamed_rule(p.bulk_enqueue_rule) { rule_refusal(p.bulk_enqueue_rule, "bulkEnqueueRule"@) }
    else if unnamed_rule(p.autoplay_seed_rule) { rule_refusal(p.autoplay_seed_rule, "autoplaySeedRule"@) }
    else if unnamed_rule(p.playlist_enqueue_rule) { rule_refusal(p.playlist_enqueue_rule, "playlistEnqueueRule"@) }
    else {
        let entries = match p.rule_role_ids { Some(es) => entries_refusal(es@, es@.len() as int), None => None };
        if entries is Some {
            entries
        } else {
            match p.manager_role_ids {
                Some(v) => match role_ids_error(opt_items(v)) { Some(m) => bad(m), None => None },
                None => None,
            }
        }
    }
}

/// The rules once stored; an older name, when sent, wins over the current one.
pub open spec fn rules_applied(s: RemoteGuildSettings, p: SettingsPatch) -> RemoteGuildSettings {
    RemoteGuildSettings {
        search_rule: or_rule(p.search_rule, s.search_rule),
        vote_rule: or_rule(p.vote_rule, s.vote_rule),
        chat_rule: or_rule(p.chat_rule, s.chat_rule),
        playback_rule: or_rule(p.playback_rule, s.playback_rule),
        skip_rule: or_rule(p.skip_rule, s.skip_rule),
        seek_rule: or_rule(p.seek_rule, s.seek_rule),
        volume_rule: or_rule(p.volume_rule, s.volume_rule),
        queue_edit_rule: or_rule(p.queue_edit_rule, s.queue_edit_rule),
        autoplay_rule: or_rule(p.autoplay_seed_rule, or_rule(p.autoplay_rule, s.autoplay_rule)),
        bulk_enqueue_rule: or_rule(p.playlist_enqueue_rule, or_rule(p.bulk_enqueue_rule, s.bulk_enqueue_rule)),
        ..s
    }
}

/// `n` holds the stored rules over `s`, its role lists aside.
pub open spec fn perms_stored(s: RemoteGuildSettings, p: SettingsPatch, n: RemoteGuildSettings) -> bool {
    n == RemoteGuildSettings {
        rule_role_ids: n.rule_role_ids,
        manager_role_ids: n.manager_role_ids,
        ..rules_applied(s, p)
    }
}

proof fn lemma_rule_names()
    ensures
        "guildMember"@ != "sameVoiceChannel"@, "guildMember"@ != "configuredRole"@,
        "guildMember"@ != "administrator"@, "guildMember"@ != "disabled"@,
        "sameVoiceChannel"@ != "configuredRole"@, "sameVoiceChannel"@ != "administrator"@,
        "sameVoiceChannel"@ != "disabled"@, "configuredRole"@ != "administrator"@,
        "configuredRole"@ != "disabled"@, "administrator"@ != "disabled"@,
{
    reveal_strlit("guildMember");
    reveal_strlit("sameVoiceChannel");
    reveal_strlit("configuredRole");
    reveal_strlit("administrator");
    reveal_strlit("disabled");
    assert("guildMember"@.len() == 11);
    assert("sameVoiceChannel"@.len() == 16);
    assert("configuredRole"@.len() == 14);
    assert("administrator"@.len() == 13);
    assert("disabled"@.len() == 8);
}

fn named_rule(v: &str) -> (r: Option<PermissionRule>)
    ensures
        r == rule_named(v@),
{
    proof { lemma_rule_names(); }
    let r = parse_rule(v);
    proof {
        if r is None {
            assert(rule_key_spec(PermissionRule::GuildMember) != v@);
            assert(rule_key_spec(PermissionRule::SameVoiceChannel) != v@);
            assert(rule_key_spec(PermissionRule::ConfiguredRole) != v@);
            assert(rule_key_spec(PermissionRule::Administrator) != v@);
            assert(rule_key_spec(PermissionRule::Disabled) != v@);
        }
    }
    r
}

/// The rule sent under `key` over `d`, or its refusal.
fn pick_rule(o: &Option<String>, d: PermissionRule, key: &str) -> (r: Result<PermissionRule, Denial>)
    ensures
        match r {
            Ok(rule) => !unnamed_rule(*o) && rule == or_rule(*o, d),
            Err(e) => unnamed_rule(*o) && rule_refusal(*o, key@) == Some((e.status, e.message@)),
        },
{
    match o {
        Some(v) => match named_rule(v.as_str()) {
            Some(rule) => Ok(rule),
            None => {
                let mut m = owned(key);
                push_str(&mut m, ": 알 수 없는 권한 규칙이에요.");
                Err(Denial { status: 400, message: m })
            },
        },
        None => Ok(d),
    }
}

fn is_permission_key(k: &str) -> (r: bool)
    ensures
        r == permission_key(k@),
{
    str_eq(k, "search") || str_eq(k, "vote") || str_eq(k, "chat") || str_eq(k, "playback") || str_eq(k, "skip")
        || str_eq(k, "seek") || str_eq(k, "volume") || str_eq(k, "queueEdit") || str_eq(k, "autoplay")
        || str_eq(k, "bulkEnqueue")
}

proof fn lemma_refusal_sticks(es: Seq<(String, Option<Vec<RoleIdValue>>)>, i: int, n: int)
    requires
        0 <= i <= n,
        entries_refusal(es, i) is Some,
    ensures
        entries_refusal(es, n) == entries_refusal(es, i),
    decreases n - i,
{
    if n > i {
        lemma_refusal_sticks(es, i, n - 1);
    }
}

/// Stores every `ruleRoleIds` entry into `roles` under its current key, or
/// gives the first refusal (the lists are then of no use).
fn store_role_entries(es: &Vec<(String, Option<Vec<RoleIdValue>>)>, roles: &mut RuleRoles) -> (r: Option<Denial>)
    ensures
        match r {
            Some(d) => entries_refusal(es@, es@.len() as int) == Some((d.status, d.message@)),
            None => entries_refusal(es@, es@.len() as int) is None
                && final(roles)@ == roles_after(old(roles)@, es@, es@.len() as int),
        },
{
    let ghost start = roles@;
    let mut i: usize = 0;
    while i < es.len()
        invariant
            i <= es.len(),
            entries_refusal(es@, i as int) is None,
            roles@ == roles_after(start, es@, i as int),
        decreases es.len() - i,
    {
        let key = canonical_permission_key(es[i].0.as_str());
        proof { reveal_strlit("autoplaySeed"); reveal_strlit("playlistEnqueue"); }
        assert(key@ == canonical_key(es@[i as int].0@));
        if !is_permission_key(key) {
            let mut m = owned(key);
            push_str(&mut m, ": 알 수 없는 권한 키예요.");
            proof { lemma_refusal_sticks(es@, i as int + 1, es@.len() as int); }
            return Some(Denial { status: 400, message: m });
        }
        let ids = match parse_role_ids(es[i].1.as_ref()) {
            Ok(ids) => ids,
            Err(e) => {
                proof { lemma_refusal_sticks(es@, i as int + 1, es@.len() as int); }
                return Some(Denial { status: 400, message: e });
            },
        };
        roles.insert(owned(key), ids);
        i = i + 1;
    }
    None
}

fn set_rules(s: RemoteGuildSettings, rules: [PermissionRule; 10]) -> (n: RemoteGuildSettings)
    ensures
        n == (RemoteGuildSettings {
            search_rule: rules[0], vote_rule: rules[1], chat_rule: rules[2], playback_rule: rules[3],
            skip_rule: rules[4], seek_rule: rules[5], volume_rule: rules[6], queue_edit_rule: rules[7],
            autoplay_rule: rules[8], bulk_enqueue_rule: rules[9], ..s
        }),
{
    RemoteGuildSettings {
        search_rule: rules[0], vote_rule: rules[1], chat_rule: rules[2], playback_rule: rules[3],
        skip_rule: rules[4], seek_rule: rules[5], volume_rule: rules[6], queue_edit_rule: rules[7],
        autoplay_rule: rules[8], bulk_enqueue_rule: rules[9], ..s
    }
}

/// What the permissions section gives: the refusal, or the rules stored,
/// each key's list replaced by the one sent, and the manager roles.
pub open spec fn perms_outcome(s: RemoteGuildSettings, p: SettingsPatch, r: Result<RemoteGuildSettings, Denial>) -> bool {
    match r {
        Err(d) => perms_refusal(p) == Some((d.status, d.message@)),
        Ok(n) => {
            &&& perms_refusal(p) is None
            &&& perms_stored(s, p, n)
            &&& n.rule_role_ids@ == match p.rule_role_ids {
                Some(es) => roles_after(s.rule_role_ids@, es@, es@.len() as int),
                None => s.rule_role_ids@,
            }
            &&& n.manager_role_ids@ == match p.manager_role_ids {
                Some(Some(v)) => role_ids_upto(v@, v@.len() as int),
                _ => s.manager_role_ids@,
            }
        },
    }
}

/// Applies the permissions section: the rules, then the role list of each
/// key sent (keys not sent keep theirs), then the manager roles.
pub fn apply_perms(s: RemoteGuildSettings, p: &SettingsPatch) -> (r: Result<RemoteGuildSettings, Denial>)
    ensures
        perms_outcome(s, *p, r),
{
    let search = match pick_rule(&p.search_rule, s.search_rule, "searchRule") { Ok(x) => x, Err(d) => { return Err(d); } };
    let vote = match pick_rule(&p.vote_rule, s.vote_rule, "voteRule") { Ok(x) => x, Err(d) => { return Err(d); } };
    let chat = match pick_rule(&p.chat_rule, s.chat_rule, "chatRule") { Ok(x) => x, Err(d) => { return Err(d); } };
    let playback = match pick_rule(&p.playback_rule, s.playback_rule, "playbackRule") { Ok(x) => x, Err(d) => { return Err(d); } };
    let skip = match pick_rule(&p.skip_rule, s.skip_rule, "skipRule") { Ok(x) => x, Err(d) => { return Err(d); } };
    let seek = match pick_rule(&p.seek_rule, s.seek_rule, "seekRule") { Ok(x) => x, Err(d) => { return Err(d); } };
    let volume = match pick_rule(&p.volume_rule, s.volume_rule, "volumeRule") { Ok(x) => x, Err(d) => { return Err(d); } };
    let queue_edit = match pick_rule(&p.queue_edit_rule, s.queue_edit_rule, "queueEditRule") { Ok(x) => x, Err(d) => { return Err(d); } };
    let autoplay = match pick_rule(&p.autoplay_rule, s.autoplay_rule, "autoplayRule") { Ok(x) => x, Err(d) => { return Err(d); } };
    let bulk = match pick_rule(&p.bulk_enqueue_rule, s.bulk_enqueue_rule, "bulkEnqueueRule") { Ok(x) => x, Err(d) => { return Err(d); } };
    let autoplay = match pick_rule(&p.autoplay_seed_rule, autoplay, "autoplaySeedRule") { Ok(x) => x, Err(d) => { return Err(d); } };
    let bulk = match pick_rule(&p.playlist_enqueue_rule, bulk, "playlistEnqueueRule") { Ok(x) => x, Err(d) => { return Err(d); } };
    let mut n = set_rules(s, [search, vote, chat, playback, skip, seek, volume, queue_edit, autoplay, bulk]);
    proof { assert(perms_stored(s, *p, n)); }
    match &p.rule_role_ids {
        Some(es) => {
            let mut roles = RuleRoles::new();
            std::mem::swap(&mut roles, &mut n.rule_role_ids);
            if let Some(d) = store_role_entries(es, &mut roles) {
                return Err(d);
            }
            n.rule_role_ids = roles;
        },
        None => {},
    }
    match &p.manager_role_ids {
        Some(v) => match parse_role_ids(v.as_ref()) {
            Ok(ids) => { n.manager_role_ids = ids; },
            Err(e) => { return Err(Denial { status: 400, message: e }); },
        },
        None => {},
    }
    Ok(n)
}

/// Only the keys sent have their role lists replaced: any other key keeps
/// its list, or stays without one.
pub proof fn law_unsent_role_keys_kept(
    m: Map<Seq<char>, Seq<u64>>,
    es: Seq<(String, Option<Vec<RoleIdValue>>)>,
    n: int,
    k: Seq<char>,
)
    requires
        0 <= n <= es.len(),
        forall|i: int| 0 <= i < n ==> canonical_key((#[trigger] es[i]).0@) != k,
    ensures
        roles_after(m, es, n).contains_key(k) == m.contains_key(k),
        m.contains_key(k) ==> roles_after(m, es, n)[k] == m[k],
    decreases n,
{
    if n > 0 {
        assert(canonical_key(es[n - 1].0@) != k);
        law_unsent_role_keys_kept(m, es, n - 1, k);
    }
}

// ───────── limits ─────────

pub open spec fn unlimited_in(v: int, lo: int, hi: int) -> bool {
    v == 0 || (lo <= v && v <= hi)
}

/// The limits section's values stored (before the combined check).
pub open spec fn limits_stage(s: RemoteGuildSettings, p: SettingsPatch) -> RemoteGuildSettings {
    RemoteGuildSettings {
        min_volume: or_i32(p.min_volume, s.min_volume),
        max_volume: or_i32(p.max_volume, s.max_volume),
        max_queue_per_user: or_i32(p.max_queue_per_user, s.max_queue_per_user),
        max_queue_per_guild: or_i32(p.max_queue_per_guild, s.max_queue_per_guild),
        max_track_seconds: or_i32(p.max_track_seconds, s.max_track_seconds),
        audit_retention_days: or_i32(p.audit_retention_days, s.audit_retention_days),
        bulk_enqueue_limit: or_u32(p.bulk_enqueue_limit, s.bulk_enqueue_limit),
        chat_retention_days: match p.chat_retention_days {
            Some(v) => if v < 0 { 0u32 } else { v as u32 },
            None => s.chat_retention_days,
        },
        ..s
    }
}

/// Volumes within `0..=200` and in order; queue, length and retention
/// limits unlimited (`0`) or within their ranges.
pub open spec fn limits_ok(t: RemoteGuildSettings) -> bool {
    &&& 0 <= t.min_volume
    &&& t.max_volume <= 200
    &&& t.min_volume <= t.max_volume
    &&& unlimited_in(t.max_queue_per_user as int, 1, 1000)
    &&& unlimited_in(t.max_queue_per_guild as int, 1, 10000)
    &&& unlimited_in(t.max_track_seconds as int, 60, 86400)
    &&& unlimited_in(t.audit_retention_days as int, 1, 3650)
    &&& unlimited_in(t.chat_retention_days as int, 1, 365)
}

pub open spec fn limits_refusal(s: RemoteGuildSettings, p: SettingsPatch) -> Option<(u16, Seq<char>)> {
    if out_of_unlimited(p.bulk_enqueue_limit, 1, 10000) {
        bad("한 번에 담기 상한은 0(무제한)~10000이에요."@)
    } else if !limits_ok(limits_stage(s, p)) {
        bad("허용 범위를 벗어난 값이 있어요."@)
    } else {
        None
    }
}

pub open spec fn clamp_i32(v: i32, lo: i32, hi: i32) -> i32 {
    if v < lo { lo } else if v > hi { hi } else { v }
}

/// The stored limits, with the default volume brought inside the new range.
pub open spec fn limits_applied(s: RemoteGuildSettings, p: SettingsPatch) -> RemoteGuildSettings {
    let t = limits_stage(s, p);
    RemoteGuildSettings { default_volume: clamp_i32(t.default_volume, t.min_volume, t.max_volume), ..t }
}

fn stage_limits(s: RemoteGuildSettings, p: &SettingsPatch) -> (n: RemoteGuildSettings)
    ensures
        n == limits_stage(s, *p),
{
    let chat_retention_days = match p.chat_retention_days {
        Some(v) => if v < 0 { 0u32 } else { v as u32 },
        None => s.chat_retention_days,
    };
    RemoteGuildSettings {
        min_volume: pick_i32(p.min_volume, s.min_volume),
        max_volume: pick_i32(p.max_volume, s.max_volume),
        max_queue_per_user: pick_i32(p.max_queue_per_user, s.max_queue_per_user),
        max_queue_per_guild: pick_i32(p.max_queue_per_guild, s.max_queue_per_guild),
        max_track_seconds: pick_i32(p.max_track_seconds, s.max_track_seconds),
        audit_retention_days: pick_i32(p.audit_retention_days, s.audit_retention_days),
        bulk_enqueue_limit: pick_u32(p.bulk_enqueue_limit, s.bulk_enqueue_limit),
        chat_retention_days,
        ..s
    }
}

/// What the limits section gives: the refusal or the stored limits.
pub open spec fn limits_outcome(s: RemoteGuildSettings, p: SettingsPatch, r: Result<RemoteGuildSettings, Denial>) -> bool {
    match r {
        Err(d) => limits_refusal(s, p) == Some((d.status, d.message@)),
        Ok(n) => limits_refusal(s, p) is None && n == limits_applied(s, p),
    }
}

fn unlimited_within(v: i64, lo: i64, hi: i64) -> (r: bool)
    ensures
        r == unlimited_in(v as int, lo as int, hi as int),
{
    v == 0 || (lo <= v && v <= hi)
}

/// Applies the limits section: the per-call enqueue limit is checked as it
/// is read, the rest together once stored.
pub fn apply_limits(s: RemoteGuildSettings, p: &SettingsPatch) -> (r: Result<RemoteGuildSettings, Denial>)
    ensures
        limits_outcome(s, *p, r),
{
    if let Some(d) = check_unlimited(p.bulk_enqueue_limit, 1, 10000, "한 번에 담기 상한은 0(무제한)~10000이에요.") {
        return Err(d);
    }
    let t = stage_limits(s, p);
    let ok = 0 <= t.min_volume && t.max_volume <= 200 && t.min_volume <= t.max_volume
        && unlimited_within(t.max_queue_per_user as i64, 1, 1000)
        && unlimited_within(t.max_queue_per_guild as i64, 1, 10000)
        && unlimited_within(t.max_track_seconds as i64, 60, 86400)
        && unlimited_within(t.audit_retention_days as i64, 1, 3650)
        && unlimited_within(t.chat_retention_days as i64, 1, 365);
    if !ok {
        return Err(refuse("허용 범위를 벗어난 값이 있어요."));
    }
    let lo = t.min_volume;
    let hi = t.max_volume;
    let v = t.default_volume;
    let default_volume = if v < lo { lo } else if v > hi { hi } else { v };
    Ok(RemoteGuildSettings { default_volume, ..t })
}

/// Unlimited (`0`) is accepted for every limit, whatever the range: a
/// limits request that sets them all to `0`, with volumes in order within
/// `0..=200`, is stored.
pub proof fn law_limits_accept_unlimited(s: RemoteGuildSettings, p: SettingsPatch)
    requires
        p.max_queue_per_user == Some(0i32),
        p.max_queue_per_guild == Some(0i32),
        p.max_track_seconds == Some(0i32),
        p.audit_retention_days == Some(0i32),
        p.bulk_enqueue_limit == Some(0i32),
        p.chat_retention_days == Some(0i32),
        0 <= or_i32(p.min_volume, s.min_volume) <= or_i32(p.max_volume, s.max_volume) <= 200,
    ensures
        limits_refusal(s, p) is None,
        limits_applied(s, p).max_queue_per_user == 0,
        limits_applied(s, p).bulk_enqueue_limit == 0,
        limits_applied(s, p).chat_retention_days == 0,
{
}

// ───────── chat ─────────

pub open spec fn chat_applied(s: RemoteGuildSettings, p: SettingsPatch) -> RemoteGuildSettings {
    RemoteGuildSettings {
        chat_enabled: or_bool(p.chat_enabled, s.chat_enabled),
        suggestion_enabled: or_bool(p.suggestion_enabled, s.suggestion_enabled),
        visualizer_enabled: or_bool(p.visualizer_enabled, s.visualizer_enabled),
        ..s
    }
}

pub open spec fn chat_stored(s: RemoteGuildSettings, p: SettingsPatch, n: RemoteGuildSettings) -> bool {
    n == chat_applied(s, p)
}

/// Applies the chat section (three switches; nothing is refused).
pub fn apply_chat(s: RemoteGuildSettings, p: &SettingsPatch) -> (n: RemoteGuildSettings)
    ensures
        chat_stored(s, *p, n),
{
    RemoteGuildSettings {
        chat_enabled: pick_bool(p.chat_enabled, s.chat_enabled),
        suggestion_enabled: pick_bool(p.suggestion_enabled, s.suggestion_enabled),
        visualizer_enabled: pick_bool(p.visualizer_enabled, s.visualizer_enabled),
        ..s
    }
}

// ───────── the older whole-settings form ─────────

/// The whole-settings form of older consoles.
#[derive(Debug)]
pub struct LegacySettings {
    pub min_volume: i32,
    pub max_volume: i32,
    pub default_volume: i32,
    pub chat_enabled: bool,
    pub search_rule: PermissionRule,
    pub vote_rule: PermissionRule,
    pub chat_rule: PermissionRule,
    pub playback_rule: PermissionRule,
    pub seek_rule: PermissionRule,
    pub volume_rule: PermissionRule,
    pub queue_edit_rule: PermissionRule,
    pub configured_role_ids: Vec<u64>,
    pub max_queue_per_user: i32,
    pub max_queue_per_guild: i32,
    pub max_track_seconds: i32,
    pub audit_retention_days: i32,
}

/// Volumes in order within `0..=200` with the default between them; the
/// limits unlimited (`0`) or within range; at most 50 roles.
pub open spec fn legacy_ok(q: LegacySettings) -> bool {
    &&& 0 <= q.min_volume
    &&& q.max_volume <= 200
    &&& q.min_volume <= q.max_volume
    &&& q.min_volume <= q.default_volume <= q.max_volume
    &&& unlimited_in(q.max_queue_per_user as int, 1, 1000)
    &&& unlimited_in(q.max_queue_per_guild as int, 1, 10000)
    &&& unlimited_in(q.max_track_seconds as int, 60, 86400)
    &&& unlimited_in(q.audit_retention_days as int, 1, 3650)
    &&& q.configured_role_ids@.len() <= 50
}

/// The form stored over `s`, its three role lists aside.
pub open spec fn legacy_stored(s: RemoteGuildSettings, q: LegacySettings, n: RemoteGuildSettings) -> bool {
    n == RemoteGuildSettings {
        configured_role_ids: n.configured_role_ids,
        rule_role_ids: n.rule_role_ids,
        manager_role_ids: n.manager_role_ids,
        min_volume: q.min_volume,
        max_volume: q.max_volume,
        default_volume: q.default_volume,
        chat_enabled: q.chat_enabled,
        search_rule: q.search_rule,
        vote_rule: q.vote_rule,
        chat_rule: q.chat_rule,
        playback_rule: q.playback_rule,
        seek_rule: q.seek_rule,
        volume_rule: q.volume_rule,
        queue_edit_rule: q.queue_edit_rule,
        max_queue_per_user: q.max_queue_per_user,
        max_queue_per_guild: q.max_queue_per_guild,
        max_track_seconds: q.max_track_seconds,
        audit_retention_days: q.audit_retention_days,
        ..s
    }
}

/// Saves the older whole-settings form: refused as a whole when a value is
/// out of range; otherwise stored, with one role list for every permission
/// (the per-key and manager lists are emptied, so they fall back to it).
pub fn apply_legacy_settings(s: RemoteGuildSettings, q: LegacySettings) -> (r: Result<RemoteGuildSettings, Denial>)
    ensures
        match r {
            Err(d) => !legacy_ok(q) && d.status == 400 && d.message@ == "설정 값이 허용 범위를 벗어났어요."@,
            Ok(n) => {
                &&& legacy_ok(q)
                &&& legacy_stored(s, q, n)
                &&& n.configured_role_ids@ == q.configured_role_ids@
                &&& n.rule_role_ids@ == Map::<Seq<char>, Seq<u64>>::empty()
                &&& n.manager_role_ids@ == Seq::<u64>::empty()
            },
        },
{
    let ok = 0 <= q.min_volume && q.max_volume <= 200 && q.min_volume <= q.max_volume
        && q.min_volume <= q.default_volume && q.default_volume <= q.max_volume
        && unlimited_within(q.max_queue_per_user as i64, 1, 1000)
        && unlimited_within(q.max_queue_per_guild as i64, 1, 10000)
        && unlimited_within(q.max_track_seconds as i64, 60, 86400)
        && unlimited_within(q.audit_retention_days as i64, 1, 3650)
        && q.configured_role_ids.len() <= 50;
    if !ok {
        return Err(refuse("설정 값이 허용 범위를 벗어났어요."));
    }
    let ghost q0 = q;
    let n = RemoteGuildSettings {
        configured_role_ids: q.configured_role_ids,
        rule_role_ids: RuleRoles::new(),
        manager_role_ids: Vec::new(),
        min_volume: q.min_volume,
        max_volume: q.max_volume,
        default_volume: q.default_volume,
        chat_enabled: q.chat_enabled,
        search_rule: q.search_rule,
        vote_rule: q.vote_rule,
        chat_rule: q.chat_rule,
        playback_rule: q.playback_rule,
        seek_rule: q.seek_rule,
        volume_rule: q.volume_rule,
        queue_edit_rule: q.queue_edit_rule,
        max_queue_per_user: q.max_queue_per_user,
        max_queue_per_guild: q.max_queue_per_guild,
        max_track_seconds: q.max_track_seconds,
        audit_retention_days: q.audit_retention_days,
        ..s
    };
    proof { assert(legacy_stored(s, q0, n)); }
    Ok(n)
}

/// A request that sends none of a section's keys changes nothing in it.
pub proof fn law_unsent_keys_keep_their_values(s: RemoteGuildSettings, p: SettingsPatch)
    requires
        p.default_volume is None, p.like_points is None, p.dislike_points is None,
        p.super_like_points is None, p.wait_points is None, p.boomtta_enabled is None,
        p.boomtta_threshold is None, p.boomtta_action is None, p.vote_skip_enabled is None,
        p.vote_skip_basis is None, p.vote_skip_ratio is None, p.vote_skip_min is None,
        p.super_like_cooldown_sec is None, p.super_like_daily_limit is None,
        p.autoplay_recent_count is None, p.autoplay_artist_cooldown is None,
        p.autoplay_recent_decay_hours is None, p.autoplay_seed_max is None, p.chart_limit is None,
        p.chart_super_weight is None, p.empty_voice_delay_seconds is None, p.skip_lead_ms is None,
        p.seek_lockout_ms is None, p.web_sync_offset_ms is None, p.require_voice_for_playback is None,
        p.web_player_mode is None, p.public_now_playing is None,
        p.search_rule is None, p.vote_rule is None, p.chat_rule is None, p.playback_rule is None,
        p.skip_rule is None, p.seek_rule is None, p.volume_rule is None, p.queue_edit_rule is None,
        p.autoplay_rule is None, p.bulk_enqueue_rule is None, p.autoplay_seed_rule is None,
        p.playlist_enqueue_rule is None,
        p.min_volume is None, p.max_volume is None, p.max_queue_per_user is None,
        p.max_queue_per_guild is None, p.max_track_seconds is None, p.audit_retention_days is None,
        p.bulk_enqueue_limit is None, p.chat_retention_days is None,
        p.chat_enabled is None, p.suggestion_enabled is None, p.visualizer_enabled is None,
    ensures
        order_applied(s, p) == s,
        rules_applied(s, p) == s,
        limits_stage(s, p) == s,
        chat_applied(s, p) == s,
{
}

// ───────── sections ─────────

/// What a request to save section `name` gives; an unknown section is
/// refused with 404 before anything is read.
pub open spec fn section_outcome(s: RemoteGuildSettings, name: Seq<char>, p: SettingsPatch, editable: bool,
    lock_reason: Option<Seq<char>>, e: SettingsEdit) -> bool
{
    if name == "order"@ {
        order_outcome(s, p, editable, lock_reason, e)
    } else {
        &&& e.autoplay_default is None
        &&& e.repeat is None
        &&& if name == "perms"@ {
            perms_outcome(s, p, e.result)
        } else if name == "limits"@ {
            limits_outcome(s, p, e.result)
        } else if name == "chat"@ {
            e.result is Ok && chat_stored(s, p, e.result->Ok_0)
        } else {
            e.result is Err && e.result->Err_0.status == 404 && e.result->Err_0.message@ == "알 수 없는 설정 섹션이에요."@
        }
    }
}

/// Saves one section of the admin console's settings.
pub fn apply_settings_section(s: RemoteGuildSettings, name: &str, p: &SettingsPatch, editable: bool,
    lock_reason: Option<&str>) -> (e: SettingsEdit)
    ensures
        section_outcome(s, name@, *p, editable, match lock_reason { Some(t) => Some(t@), None => None }, e),
{
    if str_eq(name, "order") {
        apply_order(s, p, editable, lock_reason)
    } else if str_eq(name, "perms") {
        SettingsEdit { result: apply_perms(s, p), autoplay_default: None, repeat: None }
    } else if str_eq(name, "limits") {
        SettingsEdit { result: apply_limits(s, p), autoplay_default: None, repeat: None }
    } else if str_eq(name, "chat") {
        SettingsEdit { result: Ok(apply_chat(s, p)), autoplay_default: None, repeat: None }
    } else {
        SettingsEdit {
            result: Err(Denial { status: 404, message: owned("알 수 없는 설정 섹션이에요.") }),
            autoplay_default: None,
            repeat: None,
        }
    }
}

} // verus!
