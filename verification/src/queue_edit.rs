//! Changes to queued songs from the remote: clearing the queue, taking a
//! song out, pinning a song to the front.

use vstd::prelude::*;
use crate::access::{ctx_allows, suspension_denial, unsuspended, AuthContext, Denial, SuspensionScope};
use crate::auth::{tier_rank, AccessTier};
use crate::text::{decimal, owned, push_decimal, push_str, str_eq};

verus! {

/// The priority a pin gives (a dislike penalty is negative, so it is no pin).
pub const PIN_PRIORITY: i64 = 1_000_000;

/// A queued song as the queue editor sees it.
#[derive(Debug, Clone)]
pub struct QueuedFacts {
    pub item_id: String,
    pub requested_by: Option<u64>,
    /// The manual priority it carries, if any.
    pub manual_priority: Option<i64>,
}

/// What a queue request does.
#[derive(Debug, Clone, Copy, PartialEq, Eq, Structural)]
pub enum QueueStep {
    /// Empty the queue; `removed` songs go.
    Clear { removed: usize },
    /// Take out the song at `index`.
    Remove { index: usize },
    /// Set the song's manual priority: `Some(PIN_PRIORITY)` pins it, `None` unpins it.
    SetPriority { index: usize, priority: Option<i64> },
}

pub open spec fn first_queued(items: Seq<QueuedFacts>, id: Seq<char>) -> Option<int> {
    if exists|i: int| 0 <= i < items.len() && items[i].item_id@ == id {
        Some(choose|i: int| 0 <= i < items.len() && items[i].item_id@ == id
            && forall|j: int| 0 <= j < i ==> items[j].item_id@ != id)
    } else {
        None
    }
}

pub open spec fn pinned(p: Option<i64>) -> bool {
    match p { Some(v) => v > 0, None => false }
}

/// The checks and the step of a queue request, in order: read-only access,
/// a queue suspension; clearing (managers only, not an empty queue); a
/// named song that is queued; taking out (one's own song, or the queue-edit
/// permission) or pinning (managers only; a pinned song is unpinned).
pub open spec fn queue_step_spec(
    ctx: &AuthContext,
    action: Seq<char>,
    item_id: Option<Seq<char>>,
    items: Seq<QueuedFacts>,
    r: Result<QueueStep, Denial>,
) -> bool {
    let forbidden = |m: Seq<char>| r is Err && r->Err_0.status == 403 && r->Err_0.message@ == m;
    if ctx.tier == AccessTier::Viewer {
        forbidden(match ctx.viewer_reason { Some(t) => t@, None => "지금은 읽기 전용이에요."@ })
    } else if !unsuspended(ctx, SuspensionScope::Queue) {
        r is Err && suspension_denial(ctx, SuspensionScope::Queue, r->Err_0)
    } else if action == "clear"@ {
        if tier_rank(ctx.tier) < 2 {
            forbidden("서버 관리자만 할 수 있어요."@)
        } else if items.len() == 0 {
            r is Err && r->Err_0.status == 409 && r->Err_0.message@ == "지금은 대기열이 비어 있어요."@
        } else {
            r == Ok::<QueueStep, Denial>(QueueStep::Clear { removed: items.len() as usize })
        }
    } else if item_id is None || item_id->0.len() == 0 {
        r is Err && r->Err_0.status == 400 && r->Err_0.message@ == "어떤 곡인지 알려 주지 않았어요."@
    } else if first_queued(items, item_id->0) is None {
        r is Err && r->Err_0.status == 404 && r->Err_0.message@ == "그 대기열 항목을 찾지 못했어요."@
    } else {
        let index = first_queued(items, item_id->0)->0;
        if action == "remove"@ {
            if items[index].requested_by != Some(ctx.session.user_id)
                && !ctx_allows(ctx, "queueEdit"@, ctx.settings.queue_edit_rule) {
                forbidden("이 곡을 뺄 권한이 없어요."@)
            } else {
                r == Ok::<QueueStep, Denial>(QueueStep::Remove { index: index as usize })
            }
        } else if action == "togglePin"@ {
            if tier_rank(ctx.tier) < 2 {
                forbidden("서버 관리자만 할 수 있어요."@)
            } else {
                r == Ok::<QueueStep, Denial>(QueueStep::SetPriority {
                    index: index as usize,
                    priority: if pinned(items[index].manual_priority) { None } else { Some(PIN_PRIORITY) },
                })
            }
        } else {
            r is Err && r->Err_0.status == 400 && r->Err_0.message@ == "지원하지 않는 대기열 작업이에요."@
        }
    }
}

fn find_queued(items: &Vec<QueuedFacts>, id: &str) -> (r: Option<usize>)
    ensures
        match r {
            Some(i) => i < items@.len() && first_queued(items@, id@) == Some(i as int),
            None => first_queued(items@, id@) is None,
        },
{
    let mut i: usize = 0;
    while i < items.len()
        invariant
            i <= items.len(),
            forall|j: int| 0 <= j < i ==> items@[j].item_id@ != id@,
        decreases items.len() - i,
    {
        if str_eq(items[i].item_id.as_str(), id) {
            proof {
                let c = choose|k: int| 0 <= k < items@.len() && items@[k].item_id@ == id@
                    && forall|j: int| 0 <= j < k ==> items@[j].item_id@ != id@;
                if c > i as int {
                    assert(items@[i as int].item_id@ == id@);
                }
            }
            return Some(i);
        }
        i = i + 1;
    }
    None
}

/// Decides a queue request (see `queue_step_spec`).
pub fn plan_queue_step(ctx: &AuthContext, action: &str, item_id: Option<&str>, items: &Vec<QueuedFacts>)
    -> (r: Result<QueueStep, Denial>)
    ensures
        queue_step_spec(ctx, action@, match item_id { Some(t) => Some(t@), None => None }, items@, r),
{
    if ctx.tier.is_viewer() {
        let message = match &ctx.viewer_reason {
            Some(t) => owned(t.as_str()),
            None => owned("지금은 읽기 전용이에요."),
        };
        return Err(Denial { status: 403, message });
    }
    match ctx.require_not_suspended(SuspensionScope::Queue) {
        Ok(()) => {},
        Err(d) => { return Err(d); },
    }
    if str_eq(action, "clear") {
        match ctx.require_manager() {
            Ok(()) => {},
            Err(d) => { return Err(d); },
        }
        if items.len() == 0 {
            return Err(Denial { status: 409, message: owned("지금은 대기열이 비어 있어요.") });
        }
        return Ok(QueueStep::Clear { removed: items.len() });
    }
    let id = match item_id {
        Some(t) => if t.unicode_len() == 0 {
            return Err(Denial { status: 400, message: owned("어떤 곡인지 알려 주지 않았어요.") });
        } else {
            t
        },
        None => { return Err(Denial { status: 400, message: owned("어떤 곡인지 알려 주지 않았어요.") }); },
    };
    let index = match find_queued(items, id) {
        Some(i) => i,
        None => { return Err(Denial { status: 404, message: owned("그 대기열 항목을 찾지 못했어요.") }); },
    };
    if str_eq(action, "remove") {
        let own = match items[index].requested_by { Some(u) => u == ctx.session.user_id, None => false };
        if !own && !ctx.allows("queueEdit", ctx.settings.queue_edit_rule) {
            return Err(Denial { status: 403, message: owned("이 곡을 뺄 권한이 없어요.") });
        }
        return Ok(QueueStep::Remove { index });
    }
    if str_eq(action, "togglePin") {
        match ctx.require_manager() {
            Ok(()) => {},
            Err(d) => { return Err(d); },
        }
        let is_pinned = match items[index].manual_priority { Some(v) => v > 0, None => false };
        return Ok(QueueStep::SetPriority { index, priority: if is_pinned { None } else { Some(PIN_PRIORITY) } });
    }
    Err(Denial { status: 400, message: owned("지원하지 않는 대기열 작업이에요.") })
}

/// The notice after clearing: `대기열 N곡을 비웠어요.`
pub fn cleared_notice(removed: usize) -> (s: String)
    ensures
        s@ == "대기열 "@ + decimal(removed as nat) + "곡을 비웠어요."@,
{
    let mut s = owned("대기열 ");
    push_decimal(&mut s, removed as u64);
    push_str(&mut s, "곡을 비웠어요.");
    s
}

/// Toggling a pin twice gives the song back its lack of pin, and a dislike
/// penalty is never taken for a pin.
pub proof fn law_pin_toggles(p: Option<i64>)
    ensures
        !pinned(p) ==> pinned(Some(PIN_PRIORITY)),
        pinned(p) ==> !pinned(None),
        (p matches Some(v) && v < 0) ==> !pinned(p),
{
}

/// Most queued songs sent at once.
pub const QUEUE_PAGE_MAX: usize = 200;

/// One page of the queue.
#[derive(Debug, Clone, Copy, PartialEq, Eq, Structural)]
pub struct QueuePage {
    pub offset: usize,
    /// The page size asked for, brought into `1..=QUEUE_PAGE_MAX`.
    pub limit: usize,
    /// How many songs the page holds.
    pub count: usize,
    /// Songs remain after the page.
    pub has_more: bool,
}

/// The page of a queue of `total` songs from `offset` (default 0) with up
/// to `limit` songs (default and most `QUEUE_PAGE_MAX`, at least one).
pub open spec fn queue_page_spec(total: usize, offset: Option<usize>, limit: Option<usize>) -> QueuePage {
    let o = match offset { Some(o) => o, None => 0 };
    let asked = match limit { Some(l) => l, None => QUEUE_PAGE_MAX };
    let l = if asked < 1 { 1usize } else if asked > QUEUE_PAGE_MAX { QUEUE_PAGE_MAX } else { asked };
    let rest = if o < total { (total - o) as usize } else { 0usize };
    let count = if rest < l { rest } else { l };
    QueuePage { offset: o, limit: l, count, has_more: o + count < total }
}

/// See `queue_page_spec`.
pub fn queue_page(total: usize, offset: Option<usize>, limit: Option<usize>) -> (p: QueuePage)
    ensures
        p == queue_page_spec(total, offset, limit),
{
    let o = match offset { Some(o) => o, None => 0 };
    let asked = match limit { Some(l) => l, None => QUEUE_PAGE_MAX };
    let l = if asked < 1 { 1usize } else if asked > QUEUE_PAGE_MAX { QUEUE_PAGE_MAX } else { asked };
    let rest = if o < total { total - o } else { 0 };
    let count = if rest < l { rest } else { l };
    QueuePage { offset: o, limit: l, count, has_more: count < total && o < total - count }
}

/// Taking a song out of the queue: a member who is not read-only or
/// suspended from the queue removes the first queued song with the named id
/// when they queued it themselves or the server's queue-edit rule lets them
/// through, whoever queued it; a refusal for want of permission comes only
/// when neither holds.
pub proof fn law_queue_edit_rule_decides_removal(
    ctx: &AuthContext,
    id: Seq<char>,
    items: Seq<QueuedFacts>,
    k: int,
    r: Result<QueueStep, Denial>,
)
    requires
        queue_step_spec(ctx, "remove"@, Some(id), items, r),
        ctx.tier != AccessTier::Viewer,
        unsuspended(ctx, SuspensionScope::Queue),
        id.len() > 0,
        0 <= k < items.len(),
        items[k].item_id@ == id,
        forall|j: int| 0 <= j < k ==> items[j].item_id@ != id,
        k <= usize::MAX,
    ensures
        (items[k].requested_by == Some(ctx.session.user_id) || ctx_allows(ctx, "queueEdit"@, ctx.settings.queue_edit_rule))
            ==> r == Ok::<QueueStep, Denial>(QueueStep::Remove { index: k as usize }),
        !(items[k].requested_by == Some(ctx.session.user_id) || ctx_allows(ctx, "queueEdit"@, ctx.settings.queue_edit_rule))
            ==> r is Err && r->Err_0.status == 403,
{
    reveal_strlit("remove");
    reveal_strlit("clear");
    assert("remove"@ != "clear"@) by { assert("remove"@.len() != "clear"@.len()); }
    assert(exists|i: int| 0 <= i < items.len() && items[i].item_id@ == id);
    let c = choose|i: int| 0 <= i < items.len() && items[i].item_id@ == id
        && forall|j: int| 0 <= j < i ==> items[j].item_id@ != id;
    assert(0 <= k < items.len() && items[k].item_id@ == id && forall|j: int| 0 <= j < k ==> items[j].item_id@ != id);
    if c != k {
        if c < k { assert(items[c].item_id@ != id); } else { assert(items[k].item_id@ != id); }
    }
    assert(first_queued(items, id) == Some(k));
}

} // verus!
