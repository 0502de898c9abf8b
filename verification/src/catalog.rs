//! Smaller request readers: chart periods, activity-log kinds, which
//! playlist entry a removal means, role id lists, web listener counts.

use vstd::prelude::*;
use crate::text::{chars_of, contains_chars, contains_seq, owned, parse_u64, parse_u64_spec, push_str, str_eq, string_of, trim_chars, trim_seq};

verus! {

// ───────── chart periods ─────────

/// The period a chart ranks over.
#[derive(Debug, Clone, Copy, PartialEq, Eq, Structural)]
pub enum ChartWindow {
    Week,
    Month,
    All,
}

pub open spec fn window_key_spec(w: ChartWindow) -> Seq<char> {
    match w {
        ChartWindow::Week => "week"@,
        ChartWindow::Month => "month"@,
        ChartWindow::All => "all"@,
    }
}

/// Reads a period name; anything unknown is a month.
pub open spec fn window_parse_spec(s: Seq<char>) -> ChartWindow {
    if s == "week"@ { ChartWindow::Week } else if s == "all"@ { ChartWindow::All } else { ChartWindow::Month }
}

impl ChartWindow {
    pub fn parse(value: &str) -> (w: ChartWindow)
        ensures
            w == window_parse_spec(value@),
    {
        if str_eq(value, "week") {
            ChartWindow::Week
        } else if str_eq(value, "all") {
            ChartWindow::All
        } else {
            ChartWindow::Month
        }
    }
}

/// The cache key of a period; different periods never share one.
pub fn chart_window_key(window: ChartWindow) -> (s: &'static str)
    ensures
        s@ == window_key_spec(window),
{
    match window {
        ChartWindow::Week => "week",
        ChartWindow::Month => "month",
        ChartWindow::All => "all",
    }
}

/// Different periods have different cache keys.
pub proof fn law_window_keys_differ(a: ChartWindow, b: ChartWindow)
    requires
        a != b,
    ensures
        window_key_spec(a) != window_key_spec(b),
{
    reveal_strlit("week");
    reveal_strlit("month");
    reveal_strlit("all");
    assert("week"@.len() != "month"@.len());
    assert("all"@.len() != "month"@.len());
    assert("week"@.len() != "all"@.len());
}

/// A chart request's period: `window`, or its alias `period`.
#[derive(Debug, Clone)]
pub struct ChartWindowQuery {
    pub window: Option<String>,
    pub period: Option<String>,
}

/// A parameter that was sent with something in it (trimmed).
pub open spec fn picked(v: Option<String>) -> Option<Seq<char>> {
    match v {
        Some(s) => if trim_seq(s@).len() > 0 { Some(trim_seq(s@)) } else { None },
        None => None,
    }
}

fn pick(v: &Option<String>) -> (r: Option<Vec<char>>)
    ensures
        match r { Some(c) => picked(*v) == Some(c@), None => picked(*v) is None },
{
    match v {
        Some(s) => {
            let t = trim_chars(&chars_of(s.as_str()));
            if t.len() > 0 { Some(t) } else { None }
        }
        None => None,
    }
}

impl ChartWindowQuery {
    /// `window` wins unless blank, then `period`, then a month.
    pub fn resolve(&self) -> (w: ChartWindow)
        ensures
            w == window_parse_spec(match picked(self.window) {
                Some(x) => x,
                None => match picked(self.period) { Some(y) => y, None => "month"@ },
            }),
    {
        let raw = match pick(&self.window) {
            Some(x) => string_of(&x),
            None => match pick(&self.period) {
                Some(y) => string_of(&y),
                None => crate::text::owned("month"),
            },
        };
        ChartWindow::parse(raw.as_str())
    }
}

// ───────── activity-log kinds ─────────

/// A class of activity-log lines.
#[derive(Debug, Clone, Copy, PartialEq, Eq, Structural)]
pub enum AuditKind {
    Song,
    Playlist,
    Playback,
    Chat,
    Settings,
    Moderation,
}

/// How many kinds there are.
pub const AUDIT_KIND_COUNT: usize = 6;

pub open spec fn audit_kind_name(k: AuditKind) -> Seq<char> {
    match k {
        AuditKind::Song => "song"@,
        AuditKind::Playlist => "playlist"@,
        AuditKind::Playback => "playback"@,
        AuditKind::Chat => "chat"@,
        AuditKind::Settings => "settings"@,
        AuditKind::Moderation => "moderation"@,
    }
}

pub open spec fn audit_kind_parse_spec(s: Seq<char>) -> Option<AuditKind> {
    if s == "song"@ { Some(AuditKind::Song) }
    else if s == "playlist"@ { Some(AuditKind::Playlist) }
    else if s == "playback"@ { Some(AuditKind::Playback) }
    else if s == "chat"@ { Some(AuditKind::Chat) }
    else if s == "settings"@ { Some(AuditKind::Settings) }
    else if s == "moderation"@ { Some(AuditKind::Moderation) }
    else { None }
}

impl AuditKind {
    pub fn as_str(self) -> (s: &'static str)
        ensures
            s@ == audit_kind_name(self),
    {
        match self {
            AuditKind::Song => "song",
            AuditKind::Playlist => "playlist",
            AuditKind::Playback => "playback",
            AuditKind::Chat => "chat",
            AuditKind::Settings => "settings",
            AuditKind::Moderation => "moderation",
        }
    }

    pub fn parse(value: &str) -> (k: Option<AuditKind>)
        ensures
            k == audit_kind_parse_spec(value@),
    {
        if str_eq(value, "song") { Some(AuditKind::Song) }
        else if str_eq(value, "playlist") { Some(AuditKind::Playlist) }
        else if str_eq(value, "playback") { Some(AuditKind::Playback) }
        else if str_eq(value, "chat") { Some(AuditKind::Chat) }
        else if str_eq(value, "settings") { Some(AuditKind::Settings) }
        else if str_eq(value, "moderation") { Some(AuditKind::Moderation) }
        else { None }
    }

    /// The quiet default: songs and playlists only.
    pub fn default_filter() -> (f: [AuditKind; 2])
        ensures
            f@ == seq![AuditKind::Song, AuditKind::Playlist],
    {
        [AuditKind::Song, AuditKind::Playlist]
    }
}

/// Adds the kind a part names, when the trimmed part is non-empty and known.
pub open spec fn take_kind(part: Seq<char>, acc: Seq<AuditKind>) -> Seq<AuditKind> {
    let t = trim_seq(part);
    if t.len() == 0 {
        acc
    } else {
        match audit_kind_parse_spec(t) { Some(k) => acc.push(k), None => acc }
    }
}

/// Reads a comma-separated list left to right.
pub open spec fn collect_kinds(s: Seq<char>, cur: Seq<char>, acc: Seq<AuditKind>) -> Seq<AuditKind>
    decreases s.len(),
{
    if s.len() == 0 {
        take_kind(cur, acc)
    } else if s[0] == ',' {
        collect_kinds(s.drop_first(), Seq::empty(), take_kind(cur, acc))
    } else {
        collect_kinds(s.drop_first(), cur.push(s[0]), acc)
    }
}

fn take_kind_exec(part: &Vec<char>, acc: &mut Vec<AuditKind>)
    ensures
        final(acc)@ == take_kind(part@, old(acc)@),
{
    let t = trim_chars(part);
    if t.len() > 0 {
        match AuditKind::parse(string_of(&t).as_str()) {
            Some(k) => acc.push(k),
            None => {}
        }
    }
}

/// The known kinds named in a `kinds=song,playlist` filter, in order;
/// blanks and unknown names are dropped; no filter is no kinds.
pub fn parse_audit_kinds(raw: Option<&str>) -> (out: Vec<AuditKind>)
    ensures
        out@ == (match raw { Some(s) => collect_kinds(s@, Seq::empty(), Seq::empty()), None => Seq::empty() }),
{
    let s = match raw {
        Some(s) => s,
        None => { return Vec::new(); }
    };
    let chars = chars_of(s);
    let mut out: Vec<AuditKind> = Vec::new();
    let mut cur: Vec<char> = Vec::new();
    let mut k: usize = 0;
    proof { assert(chars@.skip(0) =~= chars@); }
    while k < chars.len()
        invariant
            chars@ == s@,
            k <= chars.len(),
            collect_kinds(chars@.skip(k as int), cur@, out@) == collect_kinds(s@, Seq::empty(), Seq::empty()),
        decreases chars.len() - k,
    {
        proof { assert(chars@.skip(k as int).drop_first() =~= chars@.skip(k + 1)); }
        if chars[k] == ',' {
            take_kind_exec(&cur, &mut out);
            cur = Vec::new();
            proof { assert(cur@ =~= Seq::<char>::empty()); }
        } else {
            cur.push(chars[k]);
        }
        k = k + 1;
    }
    take_kind_exec(&cur, &mut out);
    out
}

/// How many human-visible lines the filter hides: none when there is no
/// filter or every kind is on; otherwise the visible lines of kinds not in it.
pub fn audit_hidden_count(kinds: &[AuditKind], entries: &[(AuditKind, bool)]) -> (n: usize)
    ensures
        n == (if kinds@.len() == 0 || kinds@.len() >= AUDIT_KIND_COUNT { 0 } else {
            entries@.filter(|e: (AuditKind, bool)| e.1 && !kinds@.contains(e.0)).len()
        }),
{
    if kinds.len() == 0 || kinds.len() >= AUDIT_KIND_COUNT {
        return 0;
    }
    let ghost p = |e: (AuditKind, bool)| e.1 && !kinds@.contains(e.0);
    let mut n: usize = 0;
    let mut i: usize = 0;
    while i < entries.len()
        invariant
            i <= entries.len(),
            p == (|e: (AuditKind, bool)| e.1 && !kinds@.contains(e.0)),
            n == entries@.take(i as int).filter(p).len(),
            n <= i,
        decreases entries.len() - i,
    {
        proof {
            assert(entries@.take(i + 1) =~= entries@.take(i as int).push(entries@[i as int]));
            entries@.take(i as int).lemma_filter_push(entries@[i as int], p);
        }
        let (kind, visible) = entries[i];
        if visible {
            let mut found = false;
            let mut j: usize = 0;
            while j < kinds.len()
                invariant
                    j <= kinds.len(),
                    found == (exists|m: int| 0 <= m < j && kinds@[m] == kind),
                decreases kinds.len() - j,
            {
                if kinds[j] == kind {
                    found = true;
                }
                j = j + 1;
            }
            if !found {
                n = n + 1;
            }
        }
        i = i + 1;
    }
    proof { assert(entries@.take(i as int) =~= entries@); }
    n
}

// ───────── playlist entries ─────────

/// The position of the first entry from `i` on whose track has `key`.
pub open spec fn first_with_key(keys: Seq<Option<Seq<char>>>, key: Seq<char>, i: int) -> Option<int>
    decreases keys.len() - i,
{
    if i < 0 || i >= keys.len() {
        None
    } else if keys[i] == Some(key) {
        Some(i)
    } else {
        first_with_key(keys, key, i + 1)
    }
}

/// Which entry a removal means. The position sent (`entry_index`, else
/// `entry_id`) wins when it is in range and, if a cache key was sent too,
/// the entry there has that key; otherwise the first entry with the key;
/// `None` when nothing identifies an entry.
pub open spec fn entry_to_remove(
    keys: Seq<Option<Seq<char>>>,
    entry_index: Option<usize>,
    entry_id: Option<usize>,
    cache_key: Option<Seq<char>>,
) -> Option<int> {
    let by_key = match cache_key { Some(k) => first_with_key(keys, k, 0), None => None };
    let pos = match entry_index { Some(i) => Some(i), None => entry_id };
    match pos {
        Some(i) => if (i as int) < keys.len() {
            match cache_key {
                Some(k) => if keys[i as int] != Some(k) {
                    match by_key { Some(j) => Some(j), None => Some(i as int) }
                } else {
                    Some(i as int)
                },
                None => Some(i as int),
            }
        } else {
            by_key
        },
        None => by_key,
    }
}

pub open spec fn key_views(keys: Seq<Option<String>>) -> Seq<Option<Seq<char>>> {
    keys.map_values(|k: Option<String>| match k { Some(s) => Some(s@), None => None })
}

fn first_with_key_exec(keys: &[Option<String>], key: &str) -> (r: Option<usize>)
    ensures
        match r {
            Some(i) => first_with_key(key_views(keys@), key@, 0) == Some(i as int),
            None => first_with_key(key_views(keys@), key@, 0) is None,
        },
{
    let ghost kv = key_views(keys@);
    let mut i: usize = 0;
    while i < keys.len()
        invariant
            i <= keys.len(),
            kv == key_views(keys@),
            first_with_key(kv, key@, 0) == first_with_key(kv, key@, i as int),
        decreases keys.len() - i,
    {
        let hit = match &keys[i] {
            Some(k) => str_eq(k.as_str(), key),
            None => false,
        };
        proof { assert(hit == (kv[i as int] == Some(key@))); }
        if hit {
            return Some(i);
        }
        i = i + 1;
    }
    None
}

fn key_matches(keys: &[Option<String>], i: usize, key: &str) -> (same: bool)
    requires
        i < keys.len(),
    ensures
        same == (key_views(keys@)[i as int] == Some(key@)),
{
    match &keys[i] {
        Some(have) => str_eq(have.as_str(), key),
        None => false,
    }
}

/// See `entry_to_remove`; `keys[i]` is the cache key of entry `i`'s track, if it has one.
pub fn resolve_entry_index(
    keys: &[Option<String>],
    entry_index: Option<usize>,
    entry_id: Option<usize>,
    cache_key: Option<&str>,
) -> (r: Option<usize>)
    ensures
        match r {
            Some(i) => entry_to_remove(key_views(keys@), entry_index, entry_id,
                match cache_key { Some(k) => Some(k@), None => None }) == Some(i as int),
            None => entry_to_remove(key_views(keys@), entry_index, entry_id,
                match cache_key { Some(k) => Some(k@), None => None }) is None,
        },
{
    let by_key = match cache_key {
        Some(k) => first_with_key_exec(keys, k),
        None => None,
    };
    let pos = match entry_index { Some(i) => Some(i), None => entry_id };
    match pos {
        Some(i) => {
            if i < keys.len() {
                match cache_key {
                    Some(k) => {
                        if !key_matches(keys, i, k) {
                            match by_key { Some(j) => Some(j), None => Some(i) }
                        } else {
                            Some(i)
                        }
                    }
                    None => Some(i),
                }
            } else {
                by_key
            }
        }
        None => by_key,
    }
}

// ───────── role id lists ─────────

/// One item of a role id list as the console sends it.
#[derive(Debug, Clone)]
pub enum RoleIdValue {
    /// A string; ids travel as text because of JavaScript's number precision.
    Text(String),
    /// A number: its value when it is a non-negative integer.
    Number(Option<u64>),
    /// Anything else.
    Other,
}

pub open spec fn role_value_id(v: RoleIdValue) -> Option<u64> {
    match v {
        RoleIdValue::Text(s) => parse_u64_spec(trim_seq(s@)),
        RoleIdValue::Number(n) => n,
        RoleIdValue::Other => None,
    }
}

/// The ids of the first `n` items, zeros and repeats dropped.
pub open spec fn role_ids_upto(items: Seq<RoleIdValue>, n: int) -> Seq<u64>
    decreases n,
{
    if n <= 0 {
        Seq::empty()
    } else {
        let acc = role_ids_upto(items, n - 1);
        match role_value_id(items[n - 1]) {
            Some(id) => if id != 0 && !acc.contains(id) { acc.push(id) } else { acc },
            None => acc,
        }
    }
}

/// Why a role id list is refused, if it is.
pub open spec fn role_ids_error(items: Option<Seq<RoleIdValue>>) -> Option<Seq<char>> {
    match items {
        None => Some("역할 목록은 배열이어야 해요."@),
        Some(v) => if v.len() > 50 {
            Some("지정 역할은 최대 50개까지예요."@)
        } else if exists|i: int| 0 <= i < v.len() && role_value_id(#[trigger] v[i]) is None {
            Some("역할 ID가 숫자가 아니에요."@)
        } else {
            None
        },
    }
}

/// Reads a role id list (`None` when the value is not a list): at most 50
/// items, each a number or numeric text; zeros and repeats are dropped.
pub fn parse_role_ids(items: Option<&Vec<RoleIdValue>>) -> (r: Result<Vec<u64>, String>)
    ensures
        match r {
            Ok(ids) => role_ids_error(match items { Some(v) => Some(v@), None => None }) is None
                && ids@ == role_ids_upto(items->0@, items->0@.len() as int),
            Err(e) => role_ids_error(match items { Some(v) => Some(v@), None => None }) == Some(e@),
        },
{
    let v = match items {
        Some(v) => v,
        None => { return Err(crate::text::owned("역할 목록은 배열이어야 해요.")); }
    };
    if v.len() > 50 {
        return Err(crate::text::owned("지정 역할은 최대 50개까지예요."));
    }
    let mut ids: Vec<u64> = Vec::new();
    let mut i: usize = 0;
    while i < v.len()
        invariant
            items == Some(v),
            i <= v.len(),
            v.len() <= 50,
            ids@ == role_ids_upto(v@, i as int),
            forall|j: int| 0 <= j < i ==> role_value_id(#[trigger] v@[j]) is Some,
        decreases v.len() - i,
    {
        let parsed = match &v[i] {
            RoleIdValue::Text(text) => parse_u64(&trim_chars(&chars_of(text.as_str()))),
            RoleIdValue::Number(n) => *n,
            RoleIdValue::Other => None,
        };
        match parsed {
            Some(id) => {
                if id != 0 && !crate::permissions::contains_u64(&ids, id) {
                    ids.push(id);
                }
            }
            None => {
                proof {
                    assert(parsed == role_value_id(v@[i as int]));
                    assert(role_value_id(v@[i as int]) is None);
                }
                return Err(crate::text::owned("역할 ID가 숫자가 아니에요."));
            }
        }
        i = i + 1;
    }
    Ok(ids)
}

// ───────── request pacing and event routing ─────────

/// Whether an action comes too soon: the same member did it `last_elapsed_ms`
/// milliseconds ago (if ever), and the minimum gap is `interval_ms`.
pub fn rate_limited(last_elapsed_ms: Option<u64>, interval_ms: u64) -> (r: bool)
    ensures
        r == (last_elapsed_ms is Some && last_elapsed_ms->0 < interval_ms),
{
    match last_elapsed_ms {
        Some(ms) => ms < interval_ms,
        None => false,
    }
}

/// An event for `event_guild`, addressed to `only_user` if to anyone in
/// particular, goes to `user_id`'s socket on `guild_id`.
pub open spec fn targets_spec(event_guild: u64, only_user: Option<u64>, guild_id: u64, user_id: u64) -> bool {
    event_guild == guild_id && (only_user is None || only_user == Some(user_id))
}

/// Whether an event goes to a socket (see `targets_spec`).
pub fn event_targets(event_guild: u64, only_user: Option<u64>, guild_id: u64, user_id: u64) -> (r: bool)
    ensures
        r == targets_spec(event_guild, only_user, guild_id, user_id),
{
    event_guild == guild_id && match only_user {
        Some(only) => only == user_id,
        None => true,
    }
}

/// A personal event reaches its addressee only, and no event leaves its server.
pub proof fn law_events_stay_with_their_addressee(event_guild: u64, only_user: Option<u64>, guild_id: u64, user_id: u64)
    ensures
        targets_spec(event_guild, only_user, guild_id, user_id) ==> guild_id == event_guild,
        targets_spec(event_guild, only_user, guild_id, user_id) && only_user is Some ==> only_user == Some(user_id),
        only_user is None && guild_id == event_guild ==> targets_spec(event_guild, only_user, guild_id, user_id),
{
}

// ───────── web listeners ─────────

/// How many (guild, user) listener pairs belong to `guild`.
pub fn web_listener_count(listeners: &[(u64, u64)], guild: u64) -> (n: usize)
    ensures
        n == listeners@.filter(|p: (u64, u64)| p.0 == guild).len(),
{
    let ghost p = |x: (u64, u64)| x.0 == guild;
    let mut n: usize = 0;
    let mut i: usize = 0;
    while i < listeners.len()
        invariant
            i <= listeners.len(),
            p == (|x: (u64, u64)| x.0 == guild),
            n == listeners@.take(i as int).filter(p).len(),
            n <= i,
        decreases listeners.len() - i,
    {
        proof {
            assert(listeners@.take(i + 1) =~= listeners@.take(i as int).push(listeners@[i as int]));
            listeners@.take(i as int).lemma_filter_push(listeners@[i as int], p);
        }
        if listeners[i].0 == guild {
            n = n + 1;
        }
        i = i + 1;
    }
    proof { assert(listeners@.take(i as int) =~= listeners@); }
    n
}

// ───────── searching the activity log ─────────

/// The lower-case form of a text, as `str::to_lowercase` gives it (full
/// Unicode case mapping).
pub uninterp spec fn lowercase_of(s: Seq<char>) -> Seq<char>;

/// `str::to_lowercase`. Claims only that the result is `lowercase_of` of
/// the text: Unicode's case mapping is not written out here.
#[verifier::external_body]
fn to_lowercase(s: &str) -> (r: String)
    ensures
        r@ == lowercase_of(s@),
{
    s.to_lowercase()
}

/// What the console's log search looks for: the query trimmed and in lower
/// case; nothing (everything matches) when it is blank or absent.
pub fn audit_needle(q: Option<&str>) -> (r: Option<String>)
    ensures
        match q {
            Some(t) => if trim_seq(t@).len() > 0 {
                r is Some && r->0@ == lowercase_of(trim_seq(t@))
            } else {
                r is None
            },
            None => r is None,
        },
{
    match q {
        Some(t) => {
            let v = trim_chars(&chars_of(t));
            if v.len() > 0 {
                let trimmed = string_of(&v);
                Some(to_lowercase(trimmed.as_str()))
            } else {
                None
            }
        },
        None => None,
    }
}

/// The searchable text of a log line: who, what, on what, the new value and
/// the failure reason, joined with spaces.
pub open spec fn audit_text_spec(who: Seq<char>, action: Seq<char>, target: Seq<char>, after: Seq<char>, failure: Seq<char>)
    -> Seq<char>
{
    who + " "@ + action + " "@ + target + " "@ + after + " "@ + failure
}

/// A log line matches a search when its searchable text, in lower case,
/// contains the needle (any line matches no needle).
pub fn audit_row_matches(needle: Option<&str>, who: &str, action: &str, target: &str, after: &str, failure: &str) -> (r: bool)
    ensures
        r == match needle {
            Some(n) => contains_seq(lowercase_of(audit_text_spec(who@, action@, target@, after@, failure@)), n@),
            None => true,
        },
{
    let n = match needle {
        Some(n) => n,
        None => { return true; },
    };
    let mut text = owned(who);
    push_str(&mut text, " ");
    push_str(&mut text, action);
    push_str(&mut text, " ");
    push_str(&mut text, target);
    push_str(&mut text, " ");
    push_str(&mut text, after);
    push_str(&mut text, " ");
    push_str(&mut text, failure);
    let lower = to_lowercase(text.as_str());
    contains_chars(&chars_of(lower.as_str()), &chars_of(n))
}

} // verus!
