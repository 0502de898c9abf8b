//! The member's list of what they can do: one row per capability, each
//! governed by a server rule (or a fixed one) and, for some, a switch.

use vstd::prelude::*;
use crate::permissions::{PermissionRule, RemoteGuildSettings};

verus! {

/// One capability shown to the member.
#[derive(Debug, Clone, Copy)]
pub struct CapabilityRow {
    /// The capability's key on the screen.
    pub key: &'static str,
    pub label: &'static str,
    /// The rule that decides it.
    pub rule: PermissionRule,
    /// Whether the feature is switched on at all.
    pub gate: bool,
    /// The permission key whose role list the rule reads.
    pub role_key: &'static str,
}

pub open spec fn row_view(r: CapabilityRow) -> (Seq<char>, Seq<char>, PermissionRule, bool, Seq<char>) {
    (r.key@, r.label@, r.rule, r.gate, r.role_key@)
}

/// The capabilities, in order: the ten server rules; the two older names
/// that borrow the autoplay and bulk-enqueue rules; editing server
/// playlists, deleting others' chat, changing suggestion states,
/// suspending, the sort mode, the block list and the console for
/// administrators; the library, suggestions and statistics for every member.
/// Chat follows the chat switch and suggestions the suggestion switch.
pub open spec fn capability_rows_spec(s: &RemoteGuildSettings) -> Seq<(Seq<char>, Seq<char>, PermissionRule, bool, Seq<char>)> {
    seq![
        ("search"@, "곡 검색·신청"@, s.search_rule, true, "search"@),
        ("vote"@, "좋아요·슈퍼 좋아요·싫어요"@, s.vote_rule, true, "vote"@),
        ("playback"@, "재생 / 일시정지"@, s.playback_rule, true, "playback"@),
        ("skip"@, "곡 넘기기"@, s.skip_rule, true, "skip"@),
        ("seek"@, "재생 위치 이동"@, s.seek_rule, true, "seek"@),
        ("volume"@, "서버 볼륨 조절"@, s.volume_rule, true, "volume"@),
        ("queueEdit"@, "대기열 편집"@, s.queue_edit_rule, true, "queueEdit"@),
        ("chat"@, "채팅 쓰기·반응·답장"@, s.chat_rule, s.chat_enabled, "chat"@),
        ("autoplay"@, "자동 재생 켜고 끄기·기준 곡"@, s.autoplay_rule, true, "autoplay"@),
        ("bulkEnqueue"@, "재생목록·차트 전부 담기"@, s.bulk_enqueue_rule, true, "bulkEnqueue"@),
        ("autoplaySeed"@, "자동 재생 기준 곡 등록"@, s.autoplay_rule, true, "autoplay"@),
        ("playlistEnqueue"@, "재생목록 전부 담기"@, s.bulk_enqueue_rule, true, "bulkEnqueue"@),
        ("playlistEdit"@, "서버 재생목록 편집"@, PermissionRule::Administrator, true, "playlistEdit"@),
        ("library"@, "보관함·재생목록"@, PermissionRule::GuildMember, true, "library"@),
        ("suggest"@, "제안 작성·공감"@, PermissionRule::GuildMember, s.suggestion_enabled, "suggest"@),
        ("stats"@, "기록 보기"@, PermissionRule::GuildMember, true, "stats"@),
        ("chatDelete"@, "남의 채팅 삭제"@, PermissionRule::Administrator, true, "chatDelete"@),
        ("suggestStatus"@, "제안 상태 변경"@, PermissionRule::Administrator, true, "suggestStatus"@),
        ("suspend"@, "유저 정지·해제"@, PermissionRule::Administrator, true, "suspend"@),
        ("sortMode"@, "정렬 모드 변경"@, PermissionRule::Administrator, true, "sortMode"@),
        ("blacklist"@, "차단 목록 관리"@, PermissionRule::Administrator, true, "blacklist"@),
        ("console"@, "서버 관리 콘솔"@, PermissionRule::Administrator, true, "console"@)
    ]
}

fn row(key: &'static str, label: &'static str, rule: PermissionRule, gate: bool, role_key: &'static str) -> (r: CapabilityRow)
    ensures
        row_view(r) == (key@, label@, rule, gate, role_key@),
{
    CapabilityRow { key, label, rule, gate, role_key }
}

/// See `capability_rows_spec`.
pub fn capability_rows(s: &RemoteGuildSettings) -> (rows: Vec<CapabilityRow>)
    ensures
        rows@.map_values(|r: CapabilityRow| row_view(r)) == capability_rows_spec(s),
{
    let mut rows: Vec<CapabilityRow> = Vec::new();
    rows.push(row("search", "곡 검색·신청", s.search_rule, true, "search"));
    rows.push(row("vote", "좋아요·슈퍼 좋아요·싫어요", s.vote_rule, true, "vote"));
    rows.push(row("playback", "재생 / 일시정지", s.playback_rule, true, "playback"));
    rows.push(row("skip", "곡 넘기기", s.skip_rule, true, "skip"));
    rows.push(row("seek", "재생 위치 이동", s.seek_rule, true, "seek"));
    rows.push(row("volume", "서버 볼륨 조절", s.volume_rule, true, "volume"));
    rows.push(row("queueEdit", "대기열 편집", s.queue_edit_rule, true, "queueEdit"));
    rows.push(row("chat", "채팅 쓰기·반응·답장", s.chat_rule, s.chat_enabled, "chat"));
    rows.push(row("autoplay", "자동 재생 켜고 끄기·기준 곡", s.autoplay_rule, true, "autoplay"));
    rows.push(row("bulkEnqueue", "재생목록·차트 전부 담기", s.bulk_enqueue_rule, true, "bulkEnqueue"));
    rows.push(row("autoplaySeed", "자동 재생 기준 곡 등록", s.autoplay_rule, true, "autoplay"));
    rows.push(row("playlistEnqueue", "재생목록 전부 담기", s.bulk_enqueue_rule, true, "bulkEnqueue"));
    rows.push(row("playlistEdit", "서버 재생목록 편집", PermissionRule::Administrator, true, "playlistEdit"));
    rows.push(row("library", "보관함·재생목록", PermissionRule::GuildMember, true, "library"));
    rows.push(row("suggest", "제안 작성·공감", PermissionRule::GuildMember, s.suggestion_enabled, "suggest"));
    rows.push(row("stats", "기록 보기", PermissionRule::GuildMember, true, "stats"));
    rows.push(row("chatDelete", "남의 채팅 삭제", PermissionRule::Administrator, true, "chatDelete"));
    rows.push(row("suggestStatus", "제안 상태 변경", PermissionRule::Administrator, true, "suggestStatus"));
    rows.push(row("suspend", "유저 정지·해제", PermissionRule::Administrator, true, "suspend"));
    rows.push(row("sortMode", "정렬 모드 변경", PermissionRule::Administrator, true, "sortMode"));
    rows.push(row("blacklist", "차단 목록 관리", PermissionRule::Administrator, true, "blacklist"));
    rows.push(row("console", "서버 관리 콘솔", PermissionRule::Administrator, true, "console"));
    proof {
        assert(rows@.map_values(|r: CapabilityRow| row_view(r)) =~= capability_rows_spec(s));
    }
    rows
}

} // verus!
