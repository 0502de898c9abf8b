//! Small decisions of the HTTP layer: where a login may return to, which
//! host an origin names, URL encoding, secret comparison, cookie security
//! and response tags.

use vstd::prelude::*;
use sha2::Digest;
use vstd::string::StringSliceAdditionalSpecFns;
use crate::auth::RemoteAuthConfig;
use crate::text::{ascii_lower_chars, ascii_lower_seq, chars_of, contains_chars, contains_seq, digit_char, has_char, has_prefix, occurs_at_exec, push_char, starts_with_chars, str_eq, string_of, trim_chars, trim_seq};

verus! {

// ───────── return paths ─────────

/// The characters a return path may not hold: backslash, CR, LF.
pub open spec fn bad_path_char(c: char) -> bool {
    c == '\\' || c == '\n' || c == '\r'
}

/// A return path is accepted when, trimmed, it is under `/music/`, is not
/// protocol-relative, names no scheme and holds no backslash or line break.
pub open spec fn safe_next_spec(v: Option<Seq<char>>) -> Option<Seq<char>> {
    match v {
        None => None,
        Some(s) => {
            let raw = trim_seq(s);
            if !has_prefix(raw, "/music/"@) || has_prefix(raw, "//"@) || contains_seq(raw, "://"@)
                || (exists|i: int| 0 <= i < raw.len() && bad_path_char(#[trigger] raw[i])) {
                None
            } else {
                Some(raw)
            }
        }
    }
}

/// The internal path to return to after signing in, if `value` is one.
pub fn safe_next(value: Option<&str>) -> (r: Option<String>)
    ensures
        opt_view_string(r) == safe_next_spec(opt_view_str(value)),
        r is Some ==> has_prefix(r->0@, "/music/"@) && !contains_seq(r->0@, "://"@),
{
    let v = match value {
        Some(v) => v,
        None => { return None; }
    };
    let raw = trim_chars(&chars_of(v));
    let music = chars_of("/music/");
    let slashes = chars_of("//");
    let scheme = chars_of("://");
    if !starts_with_chars(&raw, &music) || starts_with_chars(&raw, &slashes) || contains_chars(&raw, &scheme) {
        return None;
    }
    if has_char(&raw, '\\') || has_char(&raw, '\n') || has_char(&raw, '\r') {
        return None;
    }
    proof {
        assert(!(exists|i: int| 0 <= i < raw@.len() && bad_path_char(#[trigger] raw@[i]))) by {
            if exists|i: int| 0 <= i < raw@.len() && bad_path_char(#[trigger] raw@[i]) {
                let i = choose|i: int| 0 <= i < raw@.len() && bad_path_char(#[trigger] raw@[i]);
                assert(raw@.contains(raw@[i]));
            }
        }
    }
    Some(string_of(&raw))
}

pub open spec fn opt_view_str(v: Option<&str>) -> Option<Seq<char>> {
    match v { Some(s) => Some(s@), None => None }
}

pub open spec fn opt_view_string(v: Option<String>) -> Option<Seq<char>> {
    match v { Some(s) => Some(s@), None => None }
}

// ───────── hosts ─────────

/// Where the text after the last `://` starts (0 when there is none).
pub open spec fn after_last_scheme(s: Seq<char>) -> int
    decreases s.len(),
{
    if s.len() < 3 {
        0
    } else if s.subrange(s.len() - 3, s.len() as int) == "://"@ {
        s.len() as int
    } else {
        after_last_scheme(s.drop_last())
    }
}

/// `s` up to its first `/`.
pub open spec fn before_slash(s: Seq<char>) -> Seq<char>
    decreases s.len(),
{
    if s.len() == 0 {
        s
    } else if s.last() == '/' && !s.drop_last().contains('/') {
        s.drop_last()
    } else if !s.contains('/') {
        s
    } else {
        before_slash(s.drop_last())
    }
}

/// The host of a URL: after the last `://`, before the first `/`, trimmed,
/// ASCII-lowercased.
pub open spec fn host_spec(url: Seq<char>) -> Seq<char> {
    ascii_lower_seq(trim_seq(before_slash(url.skip(after_last_scheme(url)))))
}

proof fn lemma_after_last_scheme_bounds(s: Seq<char>)
    ensures
        0 <= after_last_scheme(s) <= s.len(),
    decreases s.len(),
{
    if s.len() >= 3 && s.subrange(s.len() - 3, s.len() as int) != "://"@ {
        lemma_after_last_scheme_bounds(s.drop_last());
    }
}

fn after_last_scheme_exec(v: &Vec<char>) -> (r: usize)
    ensures
        r == after_last_scheme(v@),
{
    let scheme = chars_of("://");
    proof { reveal_strlit("://"); }
    let mut n: usize = v.len();
    proof { assert(v@.subrange(0, n as int) =~= v@); }
    while n >= 3
        invariant
            n <= v.len(),
            scheme@ == "://"@,
            after_last_scheme(v@) == after_last_scheme(v@.subrange(0, n as int)),
        decreases n,
    {
        let hit = occurs_at_exec(v, &scheme, n - 3);
        proof {
            let s = v@.subrange(0, n as int);
            assert(s.subrange(s.len() - 3, s.len() as int) =~= v@.subrange(n - 3, n as int));
            assert(s.drop_last() =~= v@.subrange(0, n - 1));
        }
        if hit {
            proof {
                reveal_strlit("://");
                let s = v@.subrange(0, n as int);
                assert(s.subrange(s.len() - 3, s.len() as int) == "://"@);
                assert(after_last_scheme(s) == s.len());
            }
            return n;
        }
        n = n - 1;
    }
    0
}

fn before_slash_exec(v: &Vec<char>, from: usize) -> (r: Vec<char>)
    requires
        from <= v.len(),
    ensures
        r@ == before_slash(v@.skip(from as int)),
{
    let ghost s = v@.skip(from as int);
    let mut r: Vec<char> = Vec::new();
    let mut k: usize = from;
    while k < v.len() && v[k] != '/'
        invariant
            from <= k <= v.len(),
            s == v@.skip(from as int),
            r@ == v@.subrange(from as int, k as int),
            !r@.contains('/'),
        decreases v.len() - k,
    {
        r.push(v[k]);
        proof {
            assert(r@ =~= v@.subrange(from as int, k + 1));
        }
        k = k + 1;
    }
    proof {
        lemma_before_slash_of_prefix(s, (k - from) as int);
    }
    r
}

/// `before_slash` of `s` is its prefix of length `n` when that prefix has no
/// slash and is followed by one or is all of `s`.
proof fn lemma_before_slash_of_prefix(s: Seq<char>, n: int)
    requires
        0 <= n <= s.len(),
        !s.subrange(0, n).contains('/'),
        n == s.len() || s[n] == '/',
    ensures
        before_slash(s) == s.subrange(0, n),
    decreases s.len(),
{
    if s.len() == 0 {
        assert(s.subrange(0, n) =~= s);
    } else if n == s.len() {
        assert(s.subrange(0, n) =~= s);
    } else if n == s.len() - 1 {
        assert(s.drop_last() =~= s.subrange(0, n));
    } else {
        assert(s.contains('/')) by { assert(s[n] == '/'); }
        assert(s.last() == '/' ==> s.drop_last().contains('/')) by {
            assert(s.drop_last()[n] == '/');
        }
        assert(s.drop_last().subrange(0, n) =~= s.subrange(0, n));
        lemma_before_slash_of_prefix(s.drop_last(), n);
    }
}

/// The host a URL names (see `host_spec`), e.g. `music.example.com` for
/// `https://music.example.com/music`.
pub fn host_of(url: &str) -> (h: String)
    ensures
        h@ == host_spec(url@),
{
    let v = chars_of(url);
    let start = after_last_scheme_exec(&v);
    proof { lemma_after_last_scheme_bounds(v@); }
    let head = before_slash_exec(&v, start);
    let trimmed = trim_chars(&head);
    let lowered = ascii_lower_chars(&trimmed);
    string_of(&lowered)
}

/// The remote's own public domain.
pub const REMOTE_DOMAIN: &'static str = "music.example.com";

/// A WebSocket origin is accepted when it names a host and that host is the
/// request's own host, the configured public address's host, or the
/// remote's domain. Requests without an origin (non-browsers) are refused.
pub open spec fn origin_spec(origin: Option<Seq<char>>, request_host: Option<Seq<char>>, base: Seq<char>) -> bool {
    match origin {
        None => false,
        Some(o) => {
            let oh = host_spec(o);
            let rh = match request_host { Some(h) => ascii_lower_seq(h), None => Seq::empty() };
            &&& oh.len() > 0
            &&& ((rh.len() > 0 && oh == rh) || oh == host_spec(base) || oh == REMOTE_DOMAIN@)
        },
    }
}

/// See `origin_spec`; `origin` and `request_host` are the `Origin` and
/// `Host` headers, if sent.
pub fn origin_allowed(origin: Option<&str>, request_host: Option<&str>, public_base_url: &str) -> (r: bool)
    ensures
        r == origin_spec(opt_view_str(origin), opt_view_str(request_host), public_base_url@),
{
    let o = match origin {
        Some(o) => o,
        None => { return false; }
    };
    let oh = host_of(o);
    if chars_of(oh.as_str()).len() == 0 {
        return false;
    }
    let rh = match request_host {
        Some(h) => ascii_lower_chars(&chars_of(h)),
        None => Vec::new(),
    };
    proof { if request_host is None { assert(rh@ =~= Seq::<char>::empty()); } }
    if rh.len() > 0 && str_eq(oh.as_str(), string_of(&rh).as_str()) {
        return true;
    }
    if str_eq(oh.as_str(), host_of(public_base_url).as_str()) {
        return true;
    }
    str_eq(oh.as_str(), REMOTE_DOMAIN)
}

/// Whether a change request carries the session's CSRF token (compared in
/// constant time; a missing header counts as empty).
pub fn verify_csrf(session: &crate::auth::RemoteSession, supplied: Option<&str>) -> (r: bool)
    ensures
        r == ((match supplied { Some(s) => s@, None => Seq::<char>::empty() }) == session.csrf_token@),
{
    let given = match supplied { Some(s) => s, None => "" };
    proof { reveal_strlit(""); }
    let ok = constant_time_eq(given, session.csrf_token.as_str());
    proof {
        vstd::utf8::encode_utf8_decode_utf8(given@);
        vstd::utf8::encode_utf8_decode_utf8(session.csrf_token@);
    }
    ok
}

// ───────── percent-encoding ─────────

/// Bytes kept as they are: ASCII letters, digits and `-_.~`, plus `/` for paths.
pub open spec fn unreserved(b: u8, keep_slash: bool) -> bool {
    (0x41 <= b <= 0x5a) || (0x61 <= b <= 0x7a) || (0x30 <= b <= 0x39)
        || b == 0x2d || b == 0x5f || b == 0x2e || b == 0x7e || (keep_slash && b == 0x2f)
}

/// An upper-case hex digit.
pub open spec fn hex_upper(d: nat) -> char {
    if d < 10 { digit_char(d) } else if d == 10 { 'A' } else if d == 11 { 'B' } else if d == 12 { 'C' }
    else if d == 13 { 'D' } else if d == 14 { 'E' } else { 'F' }
}

/// A lower-case hex digit.
pub open spec fn hex_lower(d: nat) -> char {
    if d < 10 { digit_char(d) } else if d == 10 { 'a' } else if d == 11 { 'b' } else if d == 12 { 'c' }
    else if d == 13 { 'd' } else if d == 14 { 'e' } else { 'f' }
}

/// One byte, percent-encoded when not kept.
pub open spec fn encode_byte(b: u8, keep_slash: bool) -> Seq<char> {
    if unreserved(b, keep_slash) {
        seq![b as char]
    } else {
        seq!['%', hex_upper((b / 16) as nat), hex_upper((b % 16) as nat)]
    }
}

/// Bytes percent-encoded one by one.
pub open spec fn encode_bytes(bs: Seq<u8>, keep_slash: bool) -> Seq<char>
    decreases bs.len(),
{
    if bs.len() == 0 {
        Seq::empty()
    } else {
        encode_bytes(bs.drop_last(), keep_slash) + encode_byte(bs.last(), keep_slash)
    }
}

fn hex_upper_exec(d: u8) -> (c: char)
    requires
        d < 16,
    ensures
        c == hex_upper(d as nat),
{
    match d {
        0 => '0', 1 => '1', 2 => '2', 3 => '3', 4 => '4', 5 => '5', 6 => '6', 7 => '7',
        8 => '8', 9 => '9', 10 => 'A', 11 => 'B', 12 => 'C', 13 => 'D', 14 => 'E', _ => 'F',
    }
}

fn hex_lower_exec(d: u8) -> (c: char)
    requires
        d < 16,
    ensures
        c == hex_lower(d as nat),
{
    match d {
        0 => '0', 1 => '1', 2 => '2', 3 => '3', 4 => '4', 5 => '5', 6 => '6', 7 => '7',
        8 => '8', 9 => '9', 10 => 'a', 11 => 'b', 12 => 'c', 13 => 'd', 14 => 'e', _ => 'f',
    }
}

fn ascii_char(b: u8) -> (c: char)
    requires
        b < 128,
    ensures
        c == b as char,
{
    b as char
}

fn encode_into(value: &str, keep_slash: bool) -> (out: String)
    ensures
        out@ == encode_bytes(value.spec_bytes(), keep_slash),
{
    let bytes = value.as_bytes();
    let mut out = String::new();
    let mut k: usize = 0;
    while k < bytes.len()
        invariant
            k <= bytes@.len(),
            bytes@ == value.spec_bytes(),
            out@ == encode_bytes(bytes@.subrange(0, k as int), keep_slash),
        decreases bytes.len() - k,
    {
        let b = bytes[k];
        let keep = (0x41 <= b && b <= 0x5a) || (0x61 <= b && b <= 0x7a) || (0x30 <= b && b <= 0x39)
            || b == 0x2d || b == 0x5f || b == 0x2e || b == 0x7e || (keep_slash && b == 0x2f);
        if keep {
            push_char(&mut out, ascii_char(b));
        } else {
            push_char(&mut out, '%');
            push_char(&mut out, hex_upper_exec(b / 16));
            push_char(&mut out, hex_upper_exec(b % 16));
        }
        proof {
            assert(bytes@.subrange(0, k + 1).drop_last() =~= bytes@.subrange(0, k as int));
            assert(out@ =~= encode_bytes(bytes@.subrange(0, k + 1), keep_slash));
        }
        k = k + 1;
    }
    proof { assert(bytes@.subrange(0, k as int) =~= bytes@); }
    out
}

/// Percent-encodes the UTF-8 bytes of `value`, keeping only letters, digits and `-_.~`.
pub fn percent_encode(value: &str) -> (out: String)
    ensures
        out@ == encode_bytes(value.spec_bytes(), false),
{
    encode_into(value, false)
}

/// As `percent_encode`, but `/` is kept too (for paths in a query string).
pub fn percent_encode_path(value: &str) -> (out: String)
    ensures
        out@ == encode_bytes(value.spec_bytes(), true),
{
    encode_into(value, true)
}

// ───────── secrets ─────────

/// Compares two secrets byte by byte without stopping at the first
/// difference (only the lengths are compared early).
pub fn constant_time_eq(left: &str, right: &str) -> (r: bool)
    ensures
        r == (left.spec_bytes() == right.spec_bytes()),
{
    let a = left.as_bytes();
    let b = right.as_bytes();
    if a.len() != b.len() {
        return false;
    }
    let mut diff: u8 = 0;
    let mut k: usize = 0;
    while k < a.len()
        invariant
            a.len() == b.len(),
            k <= a.len(),
            (diff == 0) == (forall|m: int| 0 <= m < k ==> a@[m] == b@[m]),
        decreases a.len() - k,
    {
        let x = a[k];
        let y = b[k];
        let next = diff | (x ^ y);
        proof {
            assert((next == 0) == (diff == 0 && x == y)) by (bit_vector)
                requires next == diff | (x ^ y);
        }
        diff = next;
        k = k + 1;
    }
    proof {
        if diff == 0 {
            assert(a@ =~= b@);
        }
    }
    diff == 0
}

// ───────── cookies ─────────

/// The first comma-separated part of a header value.
pub open spec fn first_part(s: Seq<char>) -> Seq<char>
    decreases s.len(),
{
    if !s.contains(',') { s } else { first_part(s.drop_last()) }
}

/// Whether the session cookie gets `Secure`: always for an `https://`
/// address or an HTTPS-terminating proxy, and otherwise unless the address
/// is plainly local (`http://localhost`, `http://127.0.0.1`, `http://[::1]`).
pub open spec fn cookie_secure_spec(base: Seq<char>, forwarded: Option<Seq<char>>) -> bool {
    let proto = match forwarded {
        Some(f) => ascii_lower_seq(trim_seq(first_part(f))),
        None => Seq::empty(),
    };
    ||| has_prefix(base, "https://"@)
    ||| proto == "https"@
    ||| !(has_prefix(base, "http://localhost"@) || has_prefix(base, "http://127.0.0.1"@)
        || has_prefix(base, "http://[::1]"@))
}

fn first_part_exec(v: &Vec<char>) -> (r: Vec<char>)
    ensures
        r@ == first_part(v@),
{
    let mut r: Vec<char> = Vec::new();
    let mut k: usize = 0;
    while k < v.len() && v[k] != ','
        invariant
            k <= v.len(),
            r@ == v@.subrange(0, k as int),
            !r@.contains(','),
        decreases v.len() - k,
    {
        r.push(v[k]);
        proof { assert(r@ =~= v@.subrange(0, k + 1)); }
        k = k + 1;
    }
    proof { lemma_first_part_prefix(v@, k as int); }
    r
}

proof fn lemma_first_part_prefix(s: Seq<char>, n: int)
    requires
        0 <= n <= s.len(),
        !s.subrange(0, n).contains(','),
        n == s.len() || s[n] == ',',
    ensures
        first_part(s) == s.subrange(0, n),
    decreases s.len(),
{
    if n == s.len() {
        assert(s.subrange(0, n) =~= s);
    } else {
        assert(s.contains(',')) by { assert(s[n] == ','); }
        assert(s.drop_last().subrange(0, n) =~= s.subrange(0, n));
        if n < s.len() - 1 {
            assert(s.drop_last()[n] == ',');
        }
        lemma_first_part_prefix(s.drop_last(), n);
    }
}

/// See `cookie_secure_spec`; `forwarded` is the `X-Forwarded-Proto` header, if sent.
pub fn cookie_should_be_secure(auth: &RemoteAuthConfig, forwarded: Option<&str>) -> (r: bool)
    ensures
        r == cookie_secure_spec(auth.url_view(), opt_view_str(forwarded)),
{
    let base = chars_of(auth.base_url());
    proof { assert(base@ == auth.url_view()); }
    if starts_with_chars(&base, &chars_of("https://")) {
        return true;
    }
    let proto = match forwarded {
        Some(f) => ascii_lower_chars(&trim_chars(&first_part_exec(&chars_of(f)))),
        None => Vec::new(),
    };
    proof {
        if forwarded is None {
            assert(proto@ =~= Seq::<char>::empty());
        }
    }
    if str_eq(string_of(&proto).as_str(), "https") {
        return true;
    }
    let local = starts_with_chars(&base, &chars_of("http://localhost"))
        || starts_with_chars(&base, &chars_of("http://127.0.0.1"))
        || starts_with_chars(&base, &chars_of("http://[::1]"));
    !local
}

// ───────── response tags ─────────

/// SHA-256 of the given bytes.
pub uninterp spec fn sha256_of(data: Seq<u8>) -> Seq<u8>;

/// `sha2::Sha256::digest`: the SHA-256 digest of `data`, 32 bytes.
/// Claims: the bytes are `sha256_of(data)`, a function of the input alone,
/// and there are 32 of them (the type's output size).
#[verifier::external_body]
fn sha256_digest(data: &[u8]) -> (d: Vec<u8>)
    ensures
        d@ == sha256_of(data@),
        d@.len() == 32,
{
    sha2::Sha256::digest(data).to_vec()
}

/// Two lower-case hex digits per byte.
pub open spec fn hex_bytes(bs: Seq<u8>) -> Seq<char>
    decreases bs.len(),
{
    if bs.len() == 0 {
        Seq::empty()
    } else {
        hex_bytes(bs.drop_last()) + seq![hex_lower((bs.last() / 16) as nat), hex_lower((bs.last() % 16) as nat)]
    }
}

/// The tag of a response body: the first 8 bytes of its SHA-256, in hex, quoted.
pub open spec fn etag_spec(body: Seq<u8>) -> Seq<char> {
    seq!['"'] + hex_bytes(sha256_of(body).subrange(0, 8)) + seq!['"']
}

/// Whether one comma-separated entry of `sent`, trimmed, is `tag`.
pub open spec fn tag_listed(s: Seq<char>, cur: Seq<char>, tag: Seq<char>) -> bool
    decreases s.len(),
{
    if s.len() == 0 {
        trim_seq(cur) == tag
    } else if s[0] == ',' {
        trim_seq(cur) == tag || tag_listed(s.drop_first(), Seq::empty(), tag)
    } else {
        tag_listed(s.drop_first(), cur.push(s[0]), tag)
    }
}

/// A body's tag, and whether the client already holds that version.
#[derive(Debug)]
pub struct EtagCheck {
    pub etag: String,
    pub not_modified: bool,
}

/// Tags `body` (see `etag_spec`) and checks it against `If-None-Match`.
pub fn etag_check(body: &str, if_none_match: Option<&str>) -> (c: EtagCheck)
    ensures
        c.etag@ == etag_spec(body.spec_bytes()),
        c.not_modified == (match if_none_match { Some(s) => tag_listed(s@, Seq::empty(), c.etag@), None => false }),
{
    let digest = sha256_digest(body.as_bytes());
    let mut etag = String::new();
    push_char(&mut etag, '"');
    let mut k: usize = 0;
    while k < 8
        invariant
            k <= 8,
            digest@.len() == 32,
            etag@ == seq!['"'] + hex_bytes(digest@.subrange(0, k as int)),
        decreases 8 - k,
    {
        let b = digest[k];
        push_char(&mut etag, hex_lower_exec(b / 16));
        push_char(&mut etag, hex_lower_exec(b % 16));
        proof {
            assert(digest@.subrange(0, k + 1).drop_last() =~= digest@.subrange(0, k as int));
            assert(etag@ =~= seq!['"'] + hex_bytes(digest@.subrange(0, k + 1)));
        }
        k = k + 1;
    }
    push_char(&mut etag, '"');
    let not_modified = match if_none_match {
        Some(sent) => tag_listed_exec(sent, &etag),
        None => false,
    };
    EtagCheck { etag, not_modified }
}

fn tag_listed_exec(sent: &str, tag: &String) -> (r: bool)
    ensures
        r == tag_listed(sent@, Seq::empty(), tag@),
{
    let v = chars_of(sent);
    let t = chars_of(tag.as_str());
    let mut cur: Vec<char> = Vec::new();
    let mut k: usize = 0;
    proof { assert(v@.skip(0) =~= v@); }
    while k < v.len()
        invariant
            v@ == sent@,
            t@ == tag@,
            k <= v.len(),
            tag_listed(v@.skip(k as int), cur@, t@) == tag_listed(sent@, Seq::empty(), tag@),
        decreases v.len() - k,
    {
        proof { assert(v@.skip(k as int).drop_first() =~= v@.skip(k + 1)); }
        if v[k] == ',' {
            let trimmed = trim_chars(&cur);
            if str_eq(string_of(&trimmed).as_str(), tag.as_str()) {
                return true;
            }
            cur = Vec::new();
            proof { assert(cur@ =~= Seq::<char>::empty()); }
        } else {
            cur.push(v[k]);
        }
        k = k + 1;
    }
    let trimmed = trim_chars(&cur);
    str_eq(string_of(&trimmed).as_str(), tag.as_str())
}

} // verus!
