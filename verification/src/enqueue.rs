//! Adding one song from the remote: the checks a song passes before it is
//! queued, in order, and which of them leave a failure in the activity log.

use vstd::prelude::*;
use crate::access::{ctx_allows, require_denial, suspension_denial, unsuspended, AuthContext, Denial, SuspensionScope};
use crate::queue::{cache_key_spec, limit_blocks, too_long_spec, track_too_long, TrackRef};
use crate::chat::bounded_text;
use crate::text::{decimal, owned, push_decimal, push_str, str_eq, trim_seq};

verus! {

/// A refused song: the answer, and the reason logged as a failed add
/// (`blacklisted`, `track_too_long`, `duplicate`, `queue_limit`), when it is logged.
#[derive(Debug)]
pub struct EnqueueRefusal {
    pub denial: Denial,
    pub logged_reason: Option<&'static str>,
}

/// What is known when a song is sent.
#[derive(Debug)]
pub struct EnqueueFacts {
    /// The member's last add was too recent.
    pub rate_limited: bool,
    /// The song's address can be played.
    pub resolvable: bool,
    /// The blocking rule that covers the song, in words.
    pub blocked_by: Option<String>,
    /// Cache keys of the song playing and the queued ones.
    pub queued_keys: Vec<String>,
    /// Queued songs, and how many of them the member added.
    pub queued: usize,
    pub own_queued: usize,
}

pub open spec fn key_views(keys: Seq<String>) -> Seq<Seq<char>> {
    keys.map_values(|k: String| k@)
}

/// The checks of an add, in order: the search permission, a queue
/// suspension, the rate limit, a playable address, blocking rules, the
/// length limit, a song already playing or queued, and the per-member then
/// per-server queue limits (`0` is unlimited).
pub open spec fn enqueue_spec(ctx: &AuthContext, f: &EnqueueFacts, t: &TrackRef, r: Result<(), EnqueueRefusal>) -> bool {
    let s = &ctx.settings;
    let user_full = s.max_queue_per_user > 0 && f.own_queued + 1 > s.max_queue_per_user;
    let guild_full = s.max_queue_per_guild > 0 && f.queued + 1 > s.max_queue_per_guild;
    if !ctx_allows(ctx, "search"@, s.search_rule) {
        r is Err && r->Err_0.logged_reason is None
            && require_denial(ctx, "search"@, s.search_rule, "대기열에 곡을 담을 권한이 없어요."@, r->Err_0.denial)
    } else if !unsuspended(ctx, SuspensionScope::Queue) {
        r is Err && r->Err_0.logged_reason is None && suspension_denial(ctx, SuspensionScope::Queue, r->Err_0.denial)
    } else if f.rate_limited {
        r is Err && r->Err_0.logged_reason is None && r->Err_0.denial.status == 429
            && r->Err_0.denial.message@ == "곡 등록 요청이 너무 빨라요. 잠깐만 쉬었다 해요."@
    } else if !f.resolvable {
        r is Err && r->Err_0.logged_reason is None && r->Err_0.denial.status == 400
            && r->Err_0.denial.message@ == "지원하지 않는 곡 URL이에요."@
    } else if f.blocked_by is Some {
        r is Err && r->Err_0.logged_reason == Some("blacklisted") && r->Err_0.denial.status == 400
            && r->Err_0.denial.message@ == "차단 규칙 때문에 담을 수 없어요: "@ + f.blocked_by->0@
    } else if too_long_spec(s.max_track_seconds, t) {
        r is Err && r->Err_0.logged_reason == Some("track_too_long") && r->Err_0.denial.status == 400
            && r->Err_0.denial.message@ == "허용 곡 길이("@ + decimal(s.max_track_seconds as nat) + "초)를 넘었어요."@
    } else if key_views(f.queued_keys@).contains(cache_key_spec(t)) {
        r is Err && r->Err_0.logged_reason == Some("duplicate") && r->Err_0.denial.status == 409
            && r->Err_0.denial.message@ == "이미 지금 재생 중이거나 대기열에 있는 곡이에요."@
    } else if user_full {
        r is Err && r->Err_0.logged_reason == Some("queue_limit") && r->Err_0.denial.status == 409
            && r->Err_0.denial.message@
                == "한 사람이 담을 수 있는 "@ + decimal(s.max_queue_per_user as nat) + "곡을 다 채웠어요."@
    } else if guild_full {
        r is Err && r->Err_0.logged_reason == Some("queue_limit") && r->Err_0.denial.status == 409
            && r->Err_0.denial.message@ == "서버 대기열 "@ + decimal(s.max_queue_per_guild as nat) + "곡이 꽉 찼어요."@
    } else {
        r is Ok
    }
}

fn refused(status: u16, message: String, logged_reason: Option<&'static str>) -> (r: Result<(), EnqueueRefusal>)
    ensures
        r is Err,
        r->Err_0.denial.status == status,
        r->Err_0.denial.message == message,
        r->Err_0.logged_reason == logged_reason,
{
    Err(EnqueueRefusal { denial: Denial { status, message }, logged_reason })
}

fn contains_key(keys: &Vec<String>, key: &str) -> (r: bool)
    ensures
        r == key_views(keys@).contains(key@),
{
    let mut i: usize = 0;
    while i < keys.len()
        invariant
            i <= keys.len(),
            forall|j: int| 0 <= j < i ==> keys@[j]@ != key@,
        decreases keys.len() - i,
    {
        if str_eq(keys[i].as_str(), key) {
            proof { assert(key_views(keys@)[i as int] == key@); }
            return true;
        }
        i = i + 1;
    }
    proof {
        assert forall|j: int| 0 <= j < key_views(keys@).len() implies key_views(keys@)[j] != key@ by {
            assert(keys@[j]@ != key@);
        }
    }
    false
}

/// Runs the checks of an add (see `enqueue_spec`); the counts are of
/// songs held in memory, so one more still fits in `usize`.
pub fn admit_track(ctx: &AuthContext, f: &EnqueueFacts, t: &TrackRef) -> (r: Result<(), EnqueueRefusal>)
    requires
        f.queued < usize::MAX,
        f.own_queued < usize::MAX,
    ensures
        enqueue_spec(ctx, f, t, r),
{
    let s = &ctx.settings;
    match ctx.require("search", s.search_rule, "대기열에 곡을 담을 권한이 없어요.") {
        Ok(()) => {},
        Err(d) => { return Err(EnqueueRefusal { denial: d, logged_reason: None }); },
    }
    match ctx.require_not_suspended(SuspensionScope::Queue) {
        Ok(()) => {},
        Err(d) => { return Err(EnqueueRefusal { denial: d, logged_reason: None }); },
    }
    if f.rate_limited {
        return refused(429, owned("곡 등록 요청이 너무 빨라요. 잠깐만 쉬었다 해요."), None);
    }
    if !f.resolvable {
        return refused(400, owned("지원하지 않는 곡 URL이에요."), None);
    }
    match &f.blocked_by {
        Some(rule) => {
            let mut m = owned("차단 규칙 때문에 담을 수 없어요: ");
            push_str(&mut m, rule.as_str());
            return refused(400, m, Some("blacklisted"));
        },
        None => {},
    }
    if track_too_long(s.max_track_seconds, t) {
        let mut m = owned("허용 곡 길이(");
        push_decimal(&mut m, s.max_track_seconds as u64);
        push_str(&mut m, "초)를 넘었어요.");
        return refused(400, m, Some("track_too_long"));
    }
    let key = t.cache_key();
    if contains_key(&f.queued_keys, key.as_str()) {
        return refused(409, owned("이미 지금 재생 중이거나 대기열에 있는 곡이에요."), Some("duplicate"));
    }
    let guild_full = limit_blocks(s.max_queue_per_guild, f.queued + 1);
    let user_full = limit_blocks(s.max_queue_per_user, f.own_queued + 1);
    if user_full {
        let mut m = owned("한 사람이 담을 수 있는 ");
        push_decimal(&mut m, s.max_queue_per_user as u64);
        push_str(&mut m, "곡을 다 채웠어요.");
        return refused(409, m, Some("queue_limit"));
    }
    if guild_full {
        let mut m = owned("서버 대기열 ");
        push_decimal(&mut m, s.max_queue_per_guild as u64);
        push_str(&mut m, "곡이 꽉 찼어요.");
        return refused(409, m, Some("queue_limit"));
    }
    Ok(())
}

/// Unlimited (`0`) queue limits never refuse a song, however long the queue.
pub proof fn law_unlimited_queue_takes_any(ctx: &AuthContext, f: &EnqueueFacts, t: &TrackRef, r: Result<(), EnqueueRefusal>)
    requires
        ctx.settings.max_queue_per_user == 0,
        ctx.settings.max_queue_per_guild == 0,
        enqueue_spec(ctx, f, t, r),
        r is Err,
    ensures
        r->Err_0.logged_reason != Some("queue_limit"),
{
    reveal_strlit("queue_limit");
    reveal_strlit("duplicate");
    reveal_strlit("blacklisted");
    reveal_strlit("track_too_long");
    assert("queue_limit"@.len() != "duplicate"@.len());
    assert("queue_limit"@[0] != "blacklisted"@[0]);
    assert("queue_limit"@.len() != "track_too_long"@.len());
}

/// The checks of a search, in order: the search permission, a queue
/// suspension, the rate limit, a query of 1 to 200 characters once trimmed.
/// Passing gives the trimmed query.
pub fn plan_search(ctx: &AuthContext, rate_limited: bool, query: &str) -> (r: Result<String, Denial>)
    ensures
        if !ctx_allows(ctx, "search"@, ctx.settings.search_rule) {
            r is Err && require_denial(ctx, "search"@, ctx.settings.search_rule, "검색 권한이 없어요."@, r->Err_0)
        } else if !unsuspended(ctx, SuspensionScope::Queue) {
            r is Err && suspension_denial(ctx, SuspensionScope::Queue, r->Err_0)
        } else if rate_limited {
            r is Err && r->Err_0.status == 429 && r->Err_0.message@ == "검색 요청이 너무 빨라요. 잠깐만 쉬었다 해요."@
        } else if !(0 < trim_seq(query@).len() <= 200) {
            r is Err && r->Err_0.status == 400 && r->Err_0.message@ == "검색어는 1~200자로 입력해요."@
        } else {
            r is Ok && r->Ok_0@ == trim_seq(query@)
        },
{
    match ctx.require("search", ctx.settings.search_rule, "검색 권한이 없어요.") {
        Ok(()) => {},
        Err(d) => { return Err(d); },
    }
    match ctx.require_not_suspended(SuspensionScope::Queue) {
        Ok(()) => {},
        Err(d) => { return Err(d); },
    }
    if rate_limited {
        return Err(Denial { status: 429, message: owned("검색 요청이 너무 빨라요. 잠깐만 쉬었다 해요.") });
    }
    bounded_text(query, 200, "검색어는 1~200자로 입력해요.")
}

} // verus!
