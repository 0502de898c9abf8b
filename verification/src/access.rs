//! One request's authorization: who is asking, in which server, with what
//! tier and suspensions, and the answer (with its reason) for a permission.

use vstd::prelude::*;
use crate::auth::{AccessTier, OAuthGuild, RemoteSession, tier_rank};
use crate::permissions::{
    allowed_spec, base_allowed_spec, permission_allowed, roles_for_spec, rule_base_allowed,
    MemberContext, PermissionRule, RemoteGuildSettings,
};
use crate::text::{decimal, push_decimal, push_str};

verus! {

/// What a suspension covers.
#[derive(Debug, Clone, Copy, PartialEq, Eq, Structural)]
pub enum SuspensionScope {
    All,
    Chat,
    Queue,
}

pub open spec fn scope_label_spec(s: SuspensionScope) -> Seq<char> {
    match s {
        SuspensionScope::All => "전체"@,
        SuspensionScope::Chat => "채팅"@,
        SuspensionScope::Queue => "곡 신청"@,
    }
}

impl SuspensionScope {
    /// The wire name.
    pub fn as_str(self) -> (s: &'static str)
        ensures
            s@ == (match self {
                SuspensionScope::All => "all"@,
                SuspensionScope::Chat => "chat"@,
                SuspensionScope::Queue => "queue"@,
            }),
    {
        match self {
            SuspensionScope::All => "all",
            SuspensionScope::Chat => "chat",
            SuspensionScope::Queue => "queue",
        }
    }

    /// Reads `all`, `chat` or `queue`.
    pub fn parse(value: &str) -> (r: Option<SuspensionScope>)
        ensures
            r == (if value@ == "all"@ { Some(SuspensionScope::All) }
                else if value@ == "chat"@ { Some(SuspensionScope::Chat) }
                else if value@ == "queue"@ { Some(SuspensionScope::Queue) }
                else { None }),
    {
        if crate::text::str_eq(value, "all") {
            Some(SuspensionScope::All)
        } else if crate::text::str_eq(value, "chat") {
            Some(SuspensionScope::Chat)
        } else if crate::text::str_eq(value, "queue") {
            Some(SuspensionScope::Queue)
        } else {
            None
        }
    }

    /// The label in refusal messages.
    pub fn label(self) -> (s: &'static str)
        ensures
            s@ == scope_label_spec(self),
    {
        match self {
            SuspensionScope::All => "전체",
            SuspensionScope::Chat => "채팅",
            SuspensionScope::Queue => "곡 신청",
        }
    }
}

/// A member's suspension in one server.
#[derive(Debug)]
pub struct Suspension {
    pub scope: SuspensionScope,
    pub reason: Option<String>,
    pub expires_utc: Option<String>,
    pub by_user_id: u64,
}

/// A refused request: HTTP status and the sentence shown.
#[derive(Debug)]
pub struct Denial {
    pub status: u16,
    pub message: String,
}

/// The authentication and authorization facts of one request.
pub struct AuthContext {
    pub session: RemoteSession,
    pub guild: OAuthGuild,
    pub settings: RemoteGuildSettings,
    pub member: MemberContext,
    pub tier: AccessTier,
    pub suspensions: Vec<Suspension>,
    /// Why the member was made a viewer, if they were.
    pub viewer_reason: Option<String>,
    /// Whether the member's roles were actually read for this request; when
    /// not, an empty role list means "unknown", not "none".
    pub roles_known: bool,
}

/// The final decision: a viewer may do nothing; anyone else as the rule says.
pub open spec fn ctx_allows(ctx: &AuthContext, key: Seq<char>, rule: PermissionRule) -> bool {
    ctx.tier != AccessTier::Viewer && allowed_spec(key, rule, &ctx.settings, &ctx.member)
}

/// Who may use a rule and how it opens, in one sentence; `count` is the
/// number of roles assigned to the key.
pub open spec fn who_has_spec(rule: PermissionRule, count: nat) -> Seq<char> {
    match rule {
        PermissionRule::GuildMember =>
            "원래는 서버 멤버면 누구나 할 수 있어요. 정지 중이거나 읽기 전용인지 확인해 주세요."@,
        PermissionRule::SameVoiceChannel =>
            "봇과 같은 음성 채널에 있어야 해요. 봇이 있는 채널로 들어오면 바로 열려요."@,
        PermissionRule::ConfiguredRole => if count == 0 {
            "지정 역할만 쓸 수 있는데 아직 역할이 지정되지 않았어요. 지금은 서버 관리자만 할 수 있어요."@
        } else {
            "지정된 역할("@ + decimal(count) + "개) 중 하나를 가진 사람과 서버 관리자만 할 수 있어요. 관리자에게 역할을 요청해 보세요."@
        },
        PermissionRule::Administrator =>
            "서버 관리자만 할 수 있어요. 관리자에게 부탁하거나 관리자 지정 역할을 받아야 해요."@,
        PermissionRule::Disabled =>
            "이 기능은 서버 설정에서 꺼져 있어요. 관리자도 못 쓰고, 설정에서 켜야 열려요."@,
    }
}

pub open spec fn viewer_message(reason: Option<String>) -> Seq<char> {
    match reason { Some(r) => r@, None => "읽기 전용이라 아무것도 조작할 수 없어요."@ }
}

pub open spec fn roles_unknown_message() -> Seq<char> {
    "Discord에서 내 역할을 확인하지 못했어요. 권한이 없는 게 아니라 조회가 잠시 밀린 거예요. 몇 초 뒤에 다시 해 주세요."@
}

/// A suspension that blocks `scope`: one for `scope` itself or for everything.
pub open spec fn blocks(s: Suspension, scope: SuspensionScope) -> bool {
    s.scope == scope || s.scope == SuspensionScope::All
}

/// The refusal of a permission check: a viewer gets their reason; roles
/// that could not be read give 503 for rules that need them; otherwise 403
/// with `message` and who may do it.
pub open spec fn require_denial(ctx: &AuthContext, key: Seq<char>, rule: PermissionRule, message: Seq<char>, d: Denial) -> bool {
    if ctx.tier == AccessTier::Viewer {
        d.status == 403 && d.message@ == viewer_message(ctx.viewer_reason)
    } else if !ctx.roles_known && (rule == PermissionRule::ConfiguredRole || rule == PermissionRule::Administrator) {
        d.status == 503 && d.message@ == roles_unknown_message()
    } else {
        d.status == 403 && d.message@ == message + " "@ + who_has_spec(rule, roles_for_spec(&ctx.settings, key).len())
    }
}

/// No suspension of the member covers `scope`.
pub open spec fn unsuspended(ctx: &AuthContext, scope: SuspensionScope) -> bool {
    forall|i: int| 0 <= i < ctx.suspensions@.len() ==> !blocks(#[trigger] ctx.suspensions@[i], scope)
}

/// `d` is the refusal for the first suspension that covers `scope`: 403,
/// its scope's name, and its reason when it has one.
pub open spec fn suspension_denial(ctx: &AuthContext, scope: SuspensionScope, d: Denial) -> bool {
    &&& d.status == 403
    &&& exists|i: int| 0 <= i < ctx.suspensions@.len() && blocks(#[trigger] ctx.suspensions@[i], scope)
        && (forall|j: int| 0 <= j < i ==> !blocks(#[trigger] ctx.suspensions@[j], scope))
        && d.message@ == scope_label_spec(ctx.suspensions@[i].scope) + " 정지 중이에요."@
            + (match ctx.suspensions@[i].reason { Some(r) => " 사유: "@ + r@, None => Seq::empty() })
}

impl AuthContext {
    pub fn guild_id(&self) -> (r: u64)
        ensures
            r == self.guild.id,
    {
        self.guild.id
    }

    pub fn user_id(&self) -> (r: u64)
        ensures
            r == self.session.user_id,
    {
        self.session.user_id
    }

    /// The final decision for permission `key` under `rule`.
    pub fn allows(&self, key: &str, rule: PermissionRule) -> (r: bool)
        ensures
            r == ctx_allows(self, key@, rule),
    {
        !self.tier.is_viewer() && permission_allowed(key, rule, &self.settings, &self.member)
    }

    /// Who may use `rule` for `key` and how it opens (see `who_has_spec`).
    pub fn who_has(&self, key: &str, rule: PermissionRule) -> (s: String)
        ensures
            s@ == who_has_spec(rule, roles_for_spec(&self.settings, key@).len()),
    {
        let mut s = String::new();
        match rule {
            PermissionRule::GuildMember => push_str(&mut s,
                "원래는 서버 멤버면 누구나 할 수 있어요. 정지 중이거나 읽기 전용인지 확인해 주세요."),
            PermissionRule::SameVoiceChannel => push_str(&mut s,
                "봇과 같은 음성 채널에 있어야 해요. 봇이 있는 채널로 들어오면 바로 열려요."),
            PermissionRule::ConfiguredRole => {
                let count = self.settings.roles_for(key).len();
                if count == 0 {
                    push_str(&mut s,
                        "지정 역할만 쓸 수 있는데 아직 역할이 지정되지 않았어요. 지금은 서버 관리자만 할 수 있어요.");
                } else {
                    push_str(&mut s, "지정된 역할(");
                    push_decimal(&mut s, count as u64);
                    push_str(&mut s,
                        "개) 중 하나를 가진 사람과 서버 관리자만 할 수 있어요. 관리자에게 역할을 요청해 보세요.");
                }
            }
            PermissionRule::Administrator => push_str(&mut s,
                "서버 관리자만 할 수 있어요. 관리자에게 부탁하거나 관리자 지정 역할을 받아야 해요."),
            PermissionRule::Disabled => push_str(&mut s,
                "이 기능은 서버 설정에서 꺼져 있어요. 관리자도 못 쓰고, 설정에서 켜야 열려요."),
        }
        proof {
            assert(s@ =~= who_has_spec(rule, roles_for_spec(&self.settings, key@).len()));
        }
        s
    }

    /// Lets the request through, or says why not: a viewer gets their
    /// reason; roles that could not be read give 503 (try again) for rules
    /// that need them; otherwise 403 with `message` and who may do it.
    pub fn require(&self, key: &str, rule: PermissionRule, message: &str) -> (r: Result<(), Denial>)
        ensures
            r is Ok <==> ctx_allows(self, key@, rule),
            r is Err ==> require_denial(self, key@, rule, message@, r->Err_0),
    {
        if self.allows(key, rule) {
            return Ok(());
        }
        if self.tier.is_viewer() {
            let text = match &self.viewer_reason {
                Some(reason) => crate::text::owned(reason.as_str()),
                None => crate::text::owned("읽기 전용이라 아무것도 조작할 수 없어요."),
            };
            return Err(Denial { status: 403, message: text });
        }
        if !self.roles_known && rule.needs_roles() {
            return Err(Denial {
                status: 503,
                message: crate::text::owned(
                    "Discord에서 내 역할을 확인하지 못했어요. 권한이 없는 게 아니라 조회가 잠시 밀린 거예요. 몇 초 뒤에 다시 해 주세요."),
            });
        }
        let mut text = crate::text::owned(message);
        push_str(&mut text, " ");
        let who = self.who_has(key, rule);
        push_str(&mut text, who.as_str());
        Err(Denial { status: 403, message: text })
    }

    /// Only managers and owners pass.
    pub fn require_manager(&self) -> (r: Result<(), Denial>)
        ensures
            r is Ok <==> tier_rank(self.tier) >= 2,
            r is Err ==> r->Err_0.status == 403 && r->Err_0.message@ == "서버 관리자만 할 수 있어요."@,
    {
        if self.tier.is_manager() {
            Ok(())
        } else {
            Err(Denial { status: 403, message: crate::text::owned("서버 관리자만 할 수 있어요.") })
        }
    }

    /// Refuses when a suspension covers `scope` (the first such one speaks).
    pub fn require_not_suspended(&self, scope: SuspensionScope) -> (r: Result<(), Denial>)
        ensures
            r is Ok <==> unsuspended(self, scope),
            r is Err ==> suspension_denial(self, scope, r->Err_0),
    {
        let mut i: usize = 0;
        while i < self.suspensions.len()
            invariant
                i <= self.suspensions.len(),
                forall|j: int| 0 <= j < i ==> !blocks(#[trigger] self.suspensions@[j], scope),
            decreases self.suspensions.len() - i,
        {
            let item = &self.suspensions[i];
            if item.scope == scope || item.scope == SuspensionScope::All {
                let mut text = String::new();
                push_str(&mut text, item.scope.label());
                push_str(&mut text, " 정지 중이에요.");
                match &item.reason {
                    Some(reason) => {
                        push_str(&mut text, " 사유: ");
                        push_str(&mut text, reason.as_str());
                    }
                    None => {}
                }
                proof {
                    assert(blocks(self.suspensions@[i as int], scope));
                    assert(text@ =~= scope_label_spec(self.suspensions@[i as int].scope) + " 정지 중이에요."@
                        + (match self.suspensions@[i as int].reason { Some(r) => " 사유: "@ + r@, None => Seq::empty() }));
                }
                return Err(Denial { status: 403, message: text });
            }
            i = i + 1;
        }
        Ok(())
    }
}

/// One line of the member's "what can I do" list.
#[derive(Debug)]
pub struct PermissionEntry {
    pub allowed: bool,
    /// Passed only because the member is an administrator.
    pub via_admin: bool,
    /// Why it is refused, in words; `None` when allowed.
    pub reason: Option<String>,
}

/// `@a · @b · @c`.
pub open spec fn mention_list(names: Seq<Seq<char>>) -> Seq<char>
    decreases names.len(),
{
    if names.len() == 0 {
        Seq::empty()
    } else if names.len() == 1 {
        "@"@ + names[0]
    } else {
        mention_list(names.drop_last()) + " · @"@ + names.last()
    }
}

/// The refusal reason of a line: the viewer's reason, a switched-off
/// feature, or what the rule asks for.
pub open spec fn entry_reason(
    viewer: bool,
    viewer_reason: Option<String>,
    gate: bool,
    allowed: bool,
    rule: PermissionRule,
    role_names: Seq<Seq<char>>,
) -> Option<Seq<char>> {
    if viewer {
        Some(viewer_message(viewer_reason))
    } else if !gate {
        Some("이 기능은 서버에서 꺼 뒀어요."@)
    } else if allowed {
        None
    } else {
        Some(match rule {
            PermissionRule::Disabled => "이 기능은 서버에서 꺼 뒀어요."@,
            PermissionRule::SameVoiceChannel => "봇과 같은 음성 채널에 있어야 눌러요."@,
            PermissionRule::Administrator => "서버 관리자만 할 수 있어요."@,
            PermissionRule::ConfiguredRole => if role_names.len() == 0 {
                "지정된 역할이 없어서 서버 관리자만 할 수 있어요."@
            } else {
                mention_list(role_names) + " 역할이 있어야 눌러요."@
            },
            PermissionRule::GuildMember => "이 서버의 멤버만 할 수 있어요."@,
        })
    }
}

fn mention_list_exec(names: &Vec<String>) -> (s: String)
    ensures
        s@ == mention_list(crate::sorting::views(names@)),
{
    let ghost v = crate::sorting::views(names@);
    let mut s = String::new();
    let mut k: usize = 0;
    while k < names.len()
        invariant
            k <= names.len(),
            v == crate::sorting::views(names@),
            s@ == mention_list(v.subrange(0, k as int)),
        decreases names.len() - k,
    {
        if k == 0 {
            push_str(&mut s, "@");
        } else {
            push_str(&mut s, " · @");
        }
        push_str(&mut s, names[k].as_str());
        proof {
            let w = v.subrange(0, k + 1);
            assert(w.drop_last() =~= v.subrange(0, k as int));
            if k == 0 {
                assert(s@ =~= mention_list(w));
            } else {
                assert(s@ =~= mention_list(w));
            }
        }
        k = k + 1;
    }
    proof { assert(v.subrange(0, k as int) =~= v); }
    s
}

/// One line of the permission list for `role_key` under `rule`, with the
/// feature switch `gate` and the names of the roles assigned to the key.
pub fn permission_entry(
    ctx: &AuthContext,
    gate: bool,
    role_key: &str,
    rule: PermissionRule,
    role_names: &Vec<String>,
) -> (e: PermissionEntry)
    ensures
        e.allowed == (ctx.tier != AccessTier::Viewer && gate && allowed_spec(role_key@, rule, &ctx.settings, &ctx.member)),
        e.via_admin == (e.allowed && !base_allowed_spec(role_key@, rule, &ctx.settings, &ctx.member)),
        crate::auth::opt_str(e.reason) == entry_reason(ctx.tier == AccessTier::Viewer, ctx.viewer_reason, gate,
            e.allowed, rule, crate::sorting::views(role_names@)),
{
    let viewer = ctx.tier.is_viewer();
    let base = rule_base_allowed(role_key, rule, &ctx.settings, &ctx.member);
    let allowed = !viewer && gate && permission_allowed(role_key, rule, &ctx.settings, &ctx.member);
    let via_admin = allowed && !base;
    let reason = if viewer {
        Some(match &ctx.viewer_reason {
            Some(r) => crate::text::owned(r.as_str()),
            None => crate::text::owned("읽기 전용이라 아무것도 조작할 수 없어요."),
        })
    } else if !gate {
        Some(crate::text::owned("이 기능은 서버에서 꺼 뒀어요."))
    } else if allowed {
        None
    } else {
        Some(match rule {
            PermissionRule::Disabled => crate::text::owned("이 기능은 서버에서 꺼 뒀어요."),
            PermissionRule::SameVoiceChannel => crate::text::owned("봇과 같은 음성 채널에 있어야 눌러요."),
            PermissionRule::Administrator => crate::text::owned("서버 관리자만 할 수 있어요."),
            PermissionRule::ConfiguredRole => {
                if role_names.len() == 0 {
                    crate::text::owned("지정된 역할이 없어서 서버 관리자만 할 수 있어요.")
                } else {
                    let mut text = mention_list_exec(role_names);
                    push_str(&mut text, " 역할이 있어야 눌러요.");
                    text
                }
            }
            PermissionRule::GuildMember => crate::text::owned("이 서버의 멤버만 할 수 있어요."),
        })
    };
    PermissionEntry { allowed, via_admin, reason }
}

/// A viewer is refused every permission, however open its rule.
pub proof fn law_viewer_cannot_write(ctx: &AuthContext, key: Seq<char>, rule: PermissionRule)
    requires
        ctx.tier == AccessTier::Viewer,
    ensures
        !ctx_allows(ctx, key, rule),
{
}

/// Who may change autoplay seeds: the autoplay permission, then no queue suspension.
pub open spec fn autoplay_gate_spec(ctx: &AuthContext, r: Result<(), Denial>) -> bool {
    if !ctx_allows(ctx, "autoplay"@, ctx.settings.autoplay_rule) {
        r is Err && require_denial(ctx, "autoplay"@, ctx.settings.autoplay_rule,
            "자동 재생 기준 곡을 바꿀 권한이 없어요."@, r->Err_0)
    } else if !unsuspended(ctx, SuspensionScope::Queue) {
        r is Err && suspension_denial(ctx, SuspensionScope::Queue, r->Err_0)
    } else {
        r is Ok
    }
}

/// See `autoplay_gate_spec`.
pub fn autoplay_gate(ctx: &AuthContext) -> (r: Result<(), Denial>)
    ensures
        autoplay_gate_spec(ctx, r),
{
    match ctx.require("autoplay", ctx.settings.autoplay_rule, "자동 재생 기준 곡을 바꿀 권한이 없어요.") {
        Ok(()) => {}
        Err(d) => { return Err(d); }
    }
    ctx.require_not_suspended(SuspensionScope::Queue)
}

/// Who may use chat: chat switched on, the chat permission, no chat suspension.
pub open spec fn chat_gate_spec(ctx: &AuthContext, r: Result<(), Denial>) -> bool {
    if !ctx.settings.chat_enabled {
        r is Err && r->Err_0.status == 403 && r->Err_0.message@ == "관리자가 채팅을 꺼 뒀어요."@
    } else if !ctx_allows(ctx, "chat"@, ctx.settings.chat_rule) {
        r is Err && require_denial(ctx, "chat"@, ctx.settings.chat_rule, "채팅할 권한이 없어요."@, r->Err_0)
    } else if !unsuspended(ctx, SuspensionScope::Chat) {
        r is Err && suspension_denial(ctx, SuspensionScope::Chat, r->Err_0)
    } else {
        r is Ok
    }
}

/// See `chat_gate_spec`.
pub fn chat_gate(ctx: &AuthContext) -> (r: Result<(), Denial>)
    ensures
        chat_gate_spec(ctx, r),
{
    if !ctx.settings.chat_enabled {
        return Err(Denial { status: 403, message: crate::text::owned("관리자가 채팅을 꺼 뒀어요.") });
    }
    match ctx.require("chat", ctx.settings.chat_rule, "채팅할 권한이 없어요.") {
        Ok(()) => {}
        Err(d) => { return Err(d); }
    }
    ctx.require_not_suspended(SuspensionScope::Chat)
}

} // verus!
