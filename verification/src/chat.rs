//! Chat messages from the remote: the text a message may have, and who it
//! mentions.

use vstd::prelude::*;
use crate::access::{chat_gate, chat_gate_spec, ctx_allows, require_denial, suspension_denial, unsuspended, AuthContext, Denial, SuspensionScope};
use crate::auth::tier_rank;
use crate::permissions::PermissionRule;
use crate::mention::{match_prefixed, prefixed_matches};
use crate::text::{chars_of, owned, string_of, trim_chars, trim_seq};

verus! {

/// Longest chat message, in characters.
pub const CHAT_MAX_CHARS: usize = 2000;

/// A message's text: trimmed, then 1 to 2000 characters.
pub fn chat_content(raw: &str) -> (r: Result<String, Denial>)
    ensures
        match r {
            Ok(t) => t@ == trim_seq(raw@) && 0 < t@.len() <= 2000,
            Err(d) => !(0 < trim_seq(raw@).len() <= 2000) && d.status == 400
                && d.message@ == "메시지는 1~2000자로 입력해요."@,
        },
{
    let t = trim_chars(&chars_of(raw));
    if t.len() == 0 || t.len() > CHAT_MAX_CHARS {
        return Err(Denial { status: 400, message: owned("메시지는 1~2000자로 입력해요.") });
    }
    Ok(string_of(&t))
}

/// Text a person typed: trimmed, then 1 to `max` characters; otherwise
/// refused with `message` (400).
pub fn bounded_text(raw: &str, max: usize, message: &str) -> (r: Result<String, Denial>)
    ensures
        match r {
            Ok(t) => t@ == trim_seq(raw@) && 0 < t@.len() <= max,
            Err(d) => !(0 < trim_seq(raw@).len() <= max) && d.status == 400 && d.message@ == message@,
        },
{
    let t = trim_chars(&chars_of(raw));
    if t.len() == 0 || t.len() > max {
        return Err(Denial { status: 400, message: owned(message) });
    }
    Ok(string_of(&t))
}

/// What a chat report request does.
#[derive(Debug)]
pub enum ReportStep {
    /// Mark report `id` handled (managers).
    Resolve(i64),
    /// Report the message with this reason.
    Report(String),
}

/// Decides a chat report: handling one needs a manager and its id;
/// reporting needs the chat gate, a reason of 1 to 300 characters, and a
/// message that is not one's own (`owner` is who wrote it, when known).
pub fn plan_chat_report(ctx: &AuthContext, resolve: bool, report_id: Option<i64>, reason: &str, owner: Option<u64>)
    -> (r: Result<ReportStep, Denial>)
    ensures
        resolve ==> (if tier_rank(ctx.tier) < 2 {
            r is Err && r->Err_0.status == 403 && r->Err_0.message@ == "서버 관리자만 할 수 있어요."@
        } else {
            match report_id {
                Some(id) => r matches Ok(ReportStep::Resolve(x)) && x == id,
                None => r is Err && r->Err_0.status == 400 && r->Err_0.message@ == "신고 ID가 없어요."@,
            }
        }),
        !resolve ==> ({
            if !chat_open(ctx) {
                r is Err && chat_gate_spec(ctx, Err(r->Err_0))
            } else if !(0 < trim_seq(reason@).len() <= 300) {
                r is Err && r->Err_0.status == 400 && r->Err_0.message@ == "신고 사유는 1~300자로 입력해요."@
            } else if owner == Some(ctx.session.user_id) {
                r is Err && r->Err_0.status == 403 && r->Err_0.message@ == "자기 메시지는 신고할 수 없어요."@
            } else {
                r matches Ok(ReportStep::Report(t)) && t@ == trim_seq(reason@)
            }
        }),
{
    if resolve {
        match ctx.require_manager() {
            Ok(()) => {},
            Err(d) => { return Err(d); },
        }
        return match report_id {
            Some(id) => Ok(ReportStep::Resolve(id)),
            None => Err(Denial { status: 400, message: owned("신고 ID가 없어요.") }),
        };
    }
    match chat_gate(ctx) {
        Ok(()) => {},
        Err(d) => { return Err(d); },
    }
    let text = match bounded_text(reason, 300, "신고 사유는 1~300자로 입력해요.") {
        Ok(t) => t,
        Err(d) => { return Err(d); },
    };
    match owner {
        Some(o) => if o == ctx.session.user_id {
            return Err(Denial { status: 403, message: owned("자기 메시지는 신고할 수 없어요.") });
        },
        None => {},
    }
    Ok(ReportStep::Report(text))
}

/// Decides a new suggestion, in order: the board switched on, the
/// suggestion permission (every member), no chat suspension, a title of 1
/// to 120 and a text of 1 to 4000 characters, one suggestion per ten seconds.
pub fn plan_suggestion(ctx: &AuthContext, title: &str, body: &str, rate_limited: bool)
    -> (r: Result<(String, String), Denial>)
    ensures
        if !ctx.settings.suggestion_enabled {
            r is Err && r->Err_0.status == 403 && r->Err_0.message@ == "관리자가 제안 게시판을 꺼 뒀어요."@
        } else if !ctx_allows(ctx, "suggest"@, PermissionRule::GuildMember) {
            r is Err && require_denial(ctx, "suggest"@, PermissionRule::GuildMember, "제안을 올릴 권한이 없어요."@, r->Err_0)
        } else if !unsuspended(ctx, SuspensionScope::Chat) {
            r is Err && suspension_denial(ctx, SuspensionScope::Chat, r->Err_0)
        } else if !(0 < trim_seq(title@).len() <= 120) {
            r is Err && r->Err_0.status == 400 && r->Err_0.message@ == "제목은 1~120자로 입력해요."@
        } else if !(0 < trim_seq(body@).len() <= 4000) {
            r is Err && r->Err_0.status == 400 && r->Err_0.message@ == "내용은 1~4000자로 입력해요."@
        } else if rate_limited {
            r is Err && r->Err_0.status == 429 && r->Err_0.message@ == "제안은 10초에 하나만 올릴 수 있어요."@
        } else {
            r is Ok && r->Ok_0.0@ == trim_seq(title@) && r->Ok_0.1@ == trim_seq(body@)
        },
{
    if !ctx.settings.suggestion_enabled {
        return Err(Denial { status: 403, message: owned("관리자가 제안 게시판을 꺼 뒀어요.") });
    }
    match ctx.require("suggest", PermissionRule::GuildMember, "제안을 올릴 권한이 없어요.") {
        Ok(()) => {},
        Err(d) => { return Err(d); },
    }
    match ctx.require_not_suspended(SuspensionScope::Chat) {
        Ok(()) => {},
        Err(d) => { return Err(d); },
    }
    let t = match bounded_text(title, 120, "제목은 1~120자로 입력해요.") { Ok(t) => t, Err(d) => { return Err(d); } };
    let b = match bounded_text(body, 4000, "내용은 1~4000자로 입력해요.") { Ok(b) => b, Err(d) => { return Err(d); } };
    if rate_limited {
        return Err(Denial { status: 429, message: owned("제안은 10초에 하나만 올릴 수 있어요.") });
    }
    Ok((t, b))
}

/// The chat gate passes: chat switched on, the chat permission, no chat suspension.
pub open spec fn chat_open(ctx: &AuthContext) -> bool {
    ctx.settings.chat_enabled && ctx_allows(ctx, "chat"@, ctx.settings.chat_rule)
        && unsuspended(ctx, SuspensionScope::Chat)
}

/// A reaction passes the chat gate and is 1 to 8 characters, as sent.
pub fn check_reaction(ctx: &AuthContext, emoji: &str) -> (r: Result<(), Denial>)
    ensures
        if !chat_open(ctx) {
            r is Err && chat_gate_spec(ctx, r)
        } else if !(0 < emoji@.len() <= 8) {
            r is Err && r->Err_0.status == 400 && r->Err_0.message@ == "이모지가 올바르지 않아요."@
        } else {
            r is Ok
        },
{
    match chat_gate(ctx) {
        Ok(()) => {},
        Err(d) => { return Err(d); },
    }
    let n = emoji.unicode_len();
    if n == 0 || n > 8 {
        return Err(Denial { status: 400, message: owned("이모지가 올바르지 않아요.") });
    }
    Ok(())
}

/// Managers may delete any message; anyone else only their own (`owner` is
/// who wrote it, when known), and only through the chat gate.
pub fn check_chat_delete(ctx: &AuthContext, owner: Option<u64>) -> (r: Result<(), Denial>)
    ensures
        if tier_rank(ctx.tier) >= 2 {
            r is Ok
        } else if owner != Some(ctx.session.user_id) {
            r is Err && r->Err_0.status == 403 && r->Err_0.message@ == "이 메시지를 지울 권한이 없어요."@
        } else {
            chat_gate_spec(ctx, r)
        },
{
    if ctx.tier.is_manager() {
        return Ok(());
    }
    let mine = match owner { Some(o) => o == ctx.session.user_id, None => false };
    if !mine {
        return Err(Denial { status: 403, message: owned("이 메시지를 지울 권한이 없어요.") });
    }
    chat_gate(ctx)
}

/// The users behind matched candidates, in order, the writer left out.
pub open spec fn mention_ids(hits: Seq<usize>, candidates: Seq<(u64, String)>, me: u64) -> Seq<u64>
    decreases hits.len(),
{
    if hits.len() == 0 {
        Seq::empty()
    } else {
        let rest = mention_ids(hits.drop_last(), candidates, me);
        let id = candidates[hits.last() as int].0;
        if id != me { rest.push(id) } else { rest }
    }
}

pub open spec fn candidate_names(candidates: Seq<(u64, String)>) -> Seq<String> {
    candidates.map_values(|c: (u64, String)| c.1)
}

/// Who a message mentions: `@name` of a candidate (see `match_prefixed`),
/// each once, never the writer.
pub fn mentioned_users(content: &str, candidates: &Vec<(u64, String)>, me: u64) -> (ids: Vec<u64>)
    ensures
        ids@ == mention_ids(prefixed_matches(content@, '@', candidate_names(candidates@)), candidates@, me),
{
    let mut names: Vec<String> = Vec::new();
    let mut k: usize = 0;
    while k < candidates.len()
        invariant
            k <= candidates.len(),
            names@ == candidate_names(candidates@).subrange(0, k as int),
        decreases candidates.len() - k,
    {
        names.push(candidates[k].1.clone());
        proof { assert(names@ =~= candidate_names(candidates@).subrange(0, k + 1)); }
        k = k + 1;
    }
    proof { assert(names@ =~= candidate_names(candidates@)); }
    let hits = match_prefixed(content, '@', names.as_slice());
    let mut ids: Vec<u64> = Vec::new();
    let mut i: usize = 0;
    while i < hits.len()
        invariant
            i <= hits.len(),
            names@.len() == candidates@.len(),
            forall|j: int| 0 <= j < hits.len() ==> hits@[j] < names@.len(),
            ids@ == mention_ids(hits@.subrange(0, i as int), candidates@, me),
        decreases hits.len() - i,
    {
        proof { assert(hits@.subrange(0, i + 1).drop_last() =~= hits@.subrange(0, i as int)); }
        let id = candidates[hits[i]].0;
        if id != me {
            ids.push(id);
        }
        i = i + 1;
    }
    proof { assert(hits@.subrange(0, hits@.len() as int) =~= hits@); }
    ids
}

} // verus!
