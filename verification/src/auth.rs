//! Sign-in configuration, Discord guilds as the remote sees them, access
//! tiers and sessions.

use vstd::prelude::*;
use std::time::Instant;
use crate::text::{chars_of, owned, parse_u64, parse_u64_spec, push_char, push_str, trim_chars, trim_seq};

verus! {

/// Separators between owner ids: comma, newline, space, semicolon.
pub open spec fn is_owner_sep(c: char) -> bool {
    c == ',' || c == '\n' || c == ' ' || c == ';'
}

/// Adds the id a token spells, unless it is not a number, zero, or already there.
pub open spec fn take_owner_token(tok: Seq<char>, acc: Seq<u64>) -> Seq<u64> {
    match parse_u64_spec(trim_seq(tok)) {
        Some(id) => if id != 0 && !acc.contains(id) { acc.push(id) } else { acc },
        None => acc,
    }
}

/// Reads `s` left to right: separators end the token under way (`cur`),
/// the end of the text ends the last one.
pub open spec fn collect_owner_ids(s: Seq<char>, cur: Seq<char>, acc: Seq<u64>) -> Seq<u64>
    decreases s.len(),
{
    if s.len() == 0 {
        take_owner_token(cur, acc)
    } else if is_owner_sep(s[0]) {
        collect_owner_ids(s.drop_first(), Seq::empty(), take_owner_token(cur, acc))
    } else {
        collect_owner_ids(s.drop_first(), cur.push(s[0]), acc)
    }
}

/// The tokens of `s` between separators, the first one continuing `cur`.
pub open spec fn owner_tokens(s: Seq<char>, cur: Seq<char>) -> Seq<Seq<char>>
    decreases s.len(),
{
    if s.len() == 0 {
        seq![cur]
    } else if is_owner_sep(s[0]) {
        seq![cur] + owner_tokens(s.drop_first(), Seq::empty())
    } else {
        owner_tokens(s.drop_first(), cur.push(s[0]))
    }
}

/// Some token, trimmed, spells `x`.
pub open spec fn spelled_by_a_token(tokens: Seq<Seq<char>>, x: u64) -> bool {
    exists|k: int| 0 <= k < tokens.len() && parse_u64_spec(trim_seq(#[trigger] tokens[k])) == Some(x)
}

proof fn lemma_take_member(tok: Seq<char>, acc: Seq<u64>, x: u64)
    ensures
        take_owner_token(tok, acc).contains(x)
            <==> (acc.contains(x) || (x != 0 && parse_u64_spec(trim_seq(tok)) == Some(x))),
{
    match parse_u64_spec(trim_seq(tok)) {
        Some(id) => {
            if id != 0 && !acc.contains(id) {
                let r = acc.push(id);
                if r.contains(x) {
                    let k = choose|k: int| 0 <= k < r.len() && r[k] == x;
                    if k < acc.len() { assert(acc[k] == x); }
                }
                if acc.contains(x) {
                    let k = choose|k: int| 0 <= k < acc.len() && acc[k] == x;
                    assert(r[k] == x);
                }
                if id == x { assert(r[acc.len() as int] == x); }
            }
        }
        None => {}
    }
}

proof fn lemma_collect_members(s: Seq<char>, cur: Seq<char>, acc: Seq<u64>, x: u64)
    ensures
        collect_owner_ids(s, cur, acc).contains(x)
            <==> (acc.contains(x) || (x != 0 && spelled_by_a_token(owner_tokens(s, cur), x))),
    decreases s.len(),
{
    if s.len() == 0 {
        lemma_take_member(cur, acc, x);
        let t = owner_tokens(s, cur);
        assert(t =~= seq![cur]);
        if x != 0 && spelled_by_a_token(t, x) {
            let k = choose|k: int| 0 <= k < t.len() && parse_u64_spec(trim_seq(#[trigger] t[k])) == Some(x);
            assert(k == 0);
        }
        if parse_u64_spec(trim_seq(cur)) == Some(x) {
            assert(parse_u64_spec(trim_seq(t[0])) == Some(x));
        }
    } else if is_owner_sep(s[0]) {
        let acc2 = take_owner_token(cur, acc);
        lemma_take_member(cur, acc, x);
        lemma_collect_members(s.drop_first(), Seq::empty(), acc2, x);
        let rest = owner_tokens(s.drop_first(), Seq::empty());
        let t = owner_tokens(s, cur);
        assert(t =~= seq![cur] + rest);
        if x != 0 && spelled_by_a_token(t, x) {
            let k = choose|k: int| 0 <= k < t.len() && parse_u64_spec(trim_seq(#[trigger] t[k])) == Some(x);
            if k > 0 {
                assert(t[k] == rest[k - 1]);
                assert(spelled_by_a_token(rest, x));
            }
        }
        if spelled_by_a_token(rest, x) {
            let k = choose|k: int| 0 <= k < rest.len() && parse_u64_spec(trim_seq(#[trigger] rest[k])) == Some(x);
            assert(t[k + 1] == rest[k]);
            assert(spelled_by_a_token(t, x));
        }
        if parse_u64_spec(trim_seq(cur)) == Some(x) {
            assert(t[0] == cur);
            assert(spelled_by_a_token(t, x));
        }
    } else {
        lemma_collect_members(s.drop_first(), cur.push(s[0]), acc, x);
    }
}

/// An id is among the owners read from `raw` exactly when it is not zero and
/// some token between separators, trimmed, spells it.
pub proof fn law_owner_ids_are_the_spelled_ones(raw: Seq<char>, x: u64)
    ensures
        collect_owner_ids(raw, Seq::empty(), Seq::empty()).contains(x)
            <==> (x != 0 && spelled_by_a_token(owner_tokens(raw, Seq::empty()), x)),
{
    lemma_collect_members(raw, Seq::empty(), Seq::empty(), x);
}

/// The ids written in decimal and joined with commas.
pub open spec fn comma_ids(ids: Seq<u64>) -> Seq<char>
    decreases ids.len(),
{
    if ids.len() == 0 {
        Seq::empty()
    } else if ids.len() == 1 {
        crate::text::decimal(ids[0] as nat)
    } else {
        crate::text::decimal(ids[0] as nat) + ","@ + comma_ids(ids.drop_first())
    }
}

proof fn lemma_digit_char_value(d: nat)
    requires
        d < 10,
    ensures
        crate::text::digit_value(crate::text::digit_char(d)) == d,
        crate::text::is_digit(crate::text::digit_char(d)),
{
    if d == 0 {} else if d == 1 {} else if d == 2 {} else if d == 3 {} else if d == 4 {}
    else if d == 5 {} else if d == 6 {} else if d == 7 {} else if d == 8 {} else {}
}

proof fn lemma_decimal_reads_back(n: nat)
    requires
        n <= u64::MAX,
    ensures
        crate::text::decimal(n).len() > 0,
        forall|i: int| 0 <= i < crate::text::decimal(n).len() ==> crate::text::is_digit(#[trigger] crate::text::decimal(n)[i]),
        crate::text::digits_value(crate::text::decimal(n)) == n,
        trim_seq(crate::text::decimal(n)) == crate::text::decimal(n),
        parse_u64_spec(crate::text::decimal(n)) == Some(n as u64),
        forall|i: int| 0 <= i < crate::text::decimal(n).len() ==> !is_owner_sep(#[trigger] crate::text::decimal(n)[i]),
    decreases n,
{
    let d = crate::text::decimal(n);
    if n < 10 {
        lemma_digit_char_value(n);
        assert(d =~= seq![crate::text::digit_char(n)]);
        assert(d.drop_last() =~= Seq::<char>::empty());
        assert(crate::text::digits_value(d) == crate::text::digits_value(d.drop_last()) * 10 + crate::text::digit_value(d.last()));
    } else {
        lemma_digit_char_value(n % 10);
        lemma_decimal_reads_back(n / 10);
        let h = crate::text::decimal(n / 10);
        assert(d == h.push(crate::text::digit_char(n % 10)));
        assert(d.drop_last() =~= h);
        assert(crate::text::digits_value(d) == crate::text::digits_value(h) * 10 + crate::text::digit_value(d.last()));
        assert(d.last() == crate::text::digit_char(n % 10));
        assert((n / 10) * 10 + n % 10 == n);
        assert forall|i: int| 0 <= i < d.len() implies crate::text::is_digit(#[trigger] d[i]) by {
            if i < h.len() { assert(d[i] == h[i]); }
        }
    }
    assert(!crate::text::is_space(d[0]));
    assert(!crate::text::is_space(d.last()));
    assert(crate::text::trim_start_seq(d) == d);
    assert(crate::text::trim_end_seq(d) == d);
    assert(crate::text::unsigned_part(d) == d);
    assert forall|i: int| 0 <= i < d.len() implies !is_owner_sep(#[trigger] d[i]) by {
        assert(crate::text::is_digit(d[i]));
    }
}

proof fn lemma_collect_through(p: Seq<char>, s: Seq<char>, cur: Seq<char>, acc: Seq<u64>)
    requires
        forall|i: int| 0 <= i < p.len() ==> !is_owner_sep(#[trigger] p[i]),
    ensures
        collect_owner_ids(p + s, cur, acc) == collect_owner_ids(s, cur + p, acc),
    decreases p.len(),
{
    if p.len() == 0 {
        assert(p + s =~= s);
        assert(cur + p =~= cur);
    } else {
        assert((p + s).drop_first() =~= p.drop_first() + s);
        assert((p + s)[0] == p[0]);
        lemma_collect_through(p.drop_first(), s, cur.push(p[0]), acc);
        assert(cur.push(p[0]) + p.drop_first() =~= cur + p);
    }
}

proof fn lemma_comma_ids_read_back(ids: Seq<u64>, acc: Seq<u64>)
    requires
        ids.no_duplicates(),
        !ids.contains(0u64),
        forall|i: int| 0 <= i < ids.len() ==> !acc.contains(#[trigger] ids[i]),
    ensures
        collect_owner_ids(comma_ids(ids), Seq::empty(), acc) == acc + ids,
    decreases ids.len(),
{
    if ids.len() == 0 {
        assert(trim_seq(Seq::<char>::empty()) =~= Seq::<char>::empty()) by {
            assert(crate::text::trim_start_seq(Seq::<char>::empty()) == Seq::<char>::empty());
        }
        assert(acc + ids =~= acc);
    } else {
        let a = ids[0];
        let d = crate::text::decimal(a as nat);
        lemma_decimal_reads_back(a as nat);
        assert(ids[0] != 0) by { if ids[0] == 0 { assert(ids.contains(0u64)); } }
        assert(!acc.contains(a));
        assert(Seq::<char>::empty() + d =~= d);
        if ids.len() == 1 {
            assert(comma_ids(ids) == d);
            assert(d =~= d + Seq::<char>::empty());
            lemma_collect_through(d, Seq::empty(), Seq::empty(), acc);
            assert(acc + ids =~= acc.push(a));
        } else {
            let rest = ids.drop_first();
            assert(comma_ids(ids) == d + (","@ + comma_ids(rest)));
            lemma_collect_through(d, ","@ + comma_ids(rest), Seq::empty(), acc);
            reveal_strlit(",");
            let t = ","@ + comma_ids(rest);
            assert(t[0] == ',');
            assert(t.drop_first() =~= comma_ids(rest));
            let acc2 = acc.push(a);
            assert forall|i: int| 0 <= i < rest.len() implies !acc2.contains(#[trigger] rest[i]) by {
                assert(rest[i] == ids[i + 1]);
                assert(!acc.contains(ids[i + 1]));
                if acc2.contains(rest[i]) {
                    let k = choose|k: int| 0 <= k < acc2.len() && acc2[k] == rest[i];
                    if k < acc.len() { assert(acc[k] == rest[i]); } else { assert(ids[0] == ids[i + 1]); }
                }
            }
            assert(!rest.contains(0u64)) by {
                if rest.contains(0u64) {
                    let k = choose|k: int| 0 <= k < rest.len() && rest[k] == 0u64;
                    assert(ids[k + 1] == 0u64);
                }
            }
            assert(rest.no_duplicates()) by {
                assert forall|x: int, y: int| 0 <= x < y < rest.len() implies rest[x] != rest[y] by {
                    assert(ids[x + 1] != ids[y + 1]);
                }
            }
            lemma_comma_ids_read_back(rest, acc2);
            assert(acc2 + rest =~= acc + ids);
        }
    }
}

/// The tokens taken in order, each adding the id it spells unless that id
/// is zero or already there.
pub open spec fn take_tokens(ts: Seq<Seq<char>>, acc: Seq<u64>) -> Seq<u64>
    decreases ts.len(),
{
    if ts.len() == 0 { acc } else { take_tokens(ts.drop_first(), take_owner_token(ts[0], acc)) }
}

proof fn lemma_collect_is_token_by_token(s: Seq<char>, cur: Seq<char>, acc: Seq<u64>)
    ensures
        collect_owner_ids(s, cur, acc) == take_tokens(owner_tokens(s, cur), acc),
    decreases s.len(),
{
    let t = owner_tokens(s, cur);
    if s.len() == 0 {
        assert(t =~= seq![cur]);
        assert(t.drop_first() =~= Seq::<Seq<char>>::empty());
        assert(t[0] == cur);
        assert(take_tokens(t.drop_first(), take_owner_token(cur, acc)) == take_owner_token(cur, acc));
        assert(take_tokens(t, acc) == take_tokens(t.drop_first(), take_owner_token(t[0], acc)));
    } else if is_owner_sep(s[0]) {
        let rest = owner_tokens(s.drop_first(), Seq::empty());
        assert(t =~= seq![cur] + rest);
        assert(t.drop_first() =~= rest);
        assert(t[0] == cur);
        lemma_collect_is_token_by_token(s.drop_first(), Seq::empty(), take_owner_token(cur, acc));
        assert(take_tokens(t, acc) == take_tokens(t.drop_first(), take_owner_token(t[0], acc)));
    } else {
        lemma_collect_is_token_by_token(s.drop_first(), cur.push(s[0]), acc);
    }
}

/// The owner ids come in the order their tokens do: reading the tokens
/// between separators from the left, each adds the id it spells (trimmed)
/// unless the id is zero or already in the list.
pub proof fn law_owner_ids_keep_first_appearance_order(raw: Seq<char>)
    ensures
        collect_owner_ids(raw, Seq::empty(), Seq::empty()) == take_tokens(owner_tokens(raw, Seq::empty()), Seq::empty()),
{
    lemma_collect_is_token_by_token(raw, Seq::empty(), Seq::empty());
}

/// Owner ids written back as text, joined with commas, read back as the same
/// list: `parse_owner_ids` of its own output, so joined, gives that output.
pub proof fn law_owner_ids_round_trip(raw: Seq<char>)
    ensures
        collect_owner_ids(comma_ids(collect_owner_ids(raw, Seq::empty(), Seq::empty())), Seq::empty(), Seq::empty())
            == collect_owner_ids(raw, Seq::empty(), Seq::empty()),
{
    let ids = collect_owner_ids(raw, Seq::empty(), Seq::empty());
    lemma_collect_keeps(raw, Seq::empty(), Seq::empty());
    lemma_comma_ids_read_back(ids, Seq::empty());
    assert(Seq::<u64>::empty() + ids =~= ids);
}

proof fn lemma_collect_keeps(s: Seq<char>, cur: Seq<char>, acc: Seq<u64>)
    requires
        acc.no_duplicates(),
        !acc.contains(0u64),
    ensures
        collect_owner_ids(s, cur, acc).no_duplicates(),
        !collect_owner_ids(s, cur, acc).contains(0u64),
    decreases s.len(),
{
    let t = take_owner_token(cur, acc);
    lemma_take_keeps(cur, acc);
    if s.len() > 0 {
        if is_owner_sep(s[0]) {
            lemma_collect_keeps(s.drop_first(), Seq::empty(), t);
        } else {
            lemma_collect_keeps(s.drop_first(), cur.push(s[0]), acc);
        }
    }
}

proof fn lemma_take_keeps(tok: Seq<char>, acc: Seq<u64>)
    requires
        acc.no_duplicates(),
        !acc.contains(0u64),
    ensures
        take_owner_token(tok, acc).no_duplicates(),
        !take_owner_token(tok, acc).contains(0u64),
{
    lemma_take_member(tok, acc, 0u64);
    match parse_u64_spec(trim_seq(tok)) {
        Some(id) => {
            if id != 0 && !acc.contains(id) {
                let r = acc.push(id);
                assert forall|x: int, y: int| 0 <= x < y < r.len() implies r[x] != r[y] by {
                    if y == acc.len() { assert(acc.contains(acc[x])); }
                }
            }
        }
        None => {}
    }
}

fn is_owner_sep_exec(c: char) -> (r: bool)
    ensures
        r == is_owner_sep(c),
{
    c == ',' || c == '\n' || c == ' ' || c == ';'
}

fn take_owner_token_exec(tok: &Vec<char>, acc: &mut Vec<u64>)
    ensures
        final(acc)@ == take_owner_token(tok@, old(acc)@),
{
    let trimmed = trim_chars(tok);
    match parse_u64(&trimmed) {
        Some(id) => {
            if id != 0 && !crate::permissions::contains_u64(acc, id) {
                acc.push(id);
            }
        }
        None => {}
    }
}

/// Reads a list like `"123, 456"`: ids separated by commas, newlines,
/// spaces or semicolons, each trimmed; non-numbers, zeros and repeats are dropped.
pub fn parse_owner_ids(raw: &str) -> (out: Vec<u64>)
    ensures
        out@ == collect_owner_ids(raw@, Seq::empty(), Seq::empty()),
        !out@.contains(0u64),
        out@.no_duplicates(),
{
    let chars = chars_of(raw);
    let mut out: Vec<u64> = Vec::new();
    let mut cur: Vec<char> = Vec::new();
    let mut k: usize = 0;
    proof { assert(chars@.skip(0) =~= chars@); }
    while k < chars.len()
        invariant
            chars@ == raw@,
            k <= chars.len(),
            collect_owner_ids(chars@.skip(k as int), cur@, out@) == collect_owner_ids(raw@, Seq::empty(), Seq::empty()),
            !out@.contains(0u64),
            out@.no_duplicates(),
        decreases chars.len() - k,
    {
        proof { assert(chars@.skip(k as int).drop_first() =~= chars@.skip(k + 1)); }
        let c = chars[k];
        if is_owner_sep_exec(c) {
            take_owner_token_exec(&cur, &mut out);
            cur = Vec::new();
            proof { assert(cur@ =~= Seq::<char>::empty()); }
        } else {
            cur.push(c);
        }
        k = k + 1;
    }
    take_owner_token_exec(&cur, &mut out);
    out
}

/// The address used when none is configured.
pub const DEFAULT_BASE_URL: &'static str = "http://localhost:8693";

/// The sign-in settings of the remote.
pub struct RemoteAuthConfig {
    pub client_id: Option<String>,
    client_secret: Option<String>,
    pub public_base_url: String,
    pub dev_login: bool,
    /// Discord users who get the `Owner` tier.
    pub owner_user_ids: Vec<u64>,
    /// YouTube Data API key; it reaches browsers, so it is shown masked.
    youtube_api_key: Option<String>,
}

pub open spec fn opt_str(o: Option<String>) -> Option<Seq<char>> {
    match o { Some(s) => Some(s@), None => None }
}

/// `s` without trailing slashes (`trim_end_matches('/')`).
pub open spec fn trim_end_slashes(s: Seq<char>) -> Seq<char>
    decreases s.len(),
{
    if s.len() > 0 && s.last() == '/' { trim_end_slashes(s.drop_last()) } else { s }
}

/// `s` without trailing slashes.
pub fn without_trailing_slashes(s: &str) -> (r: String)
    ensures
        r@ == trim_end_slashes(s@),
{
    let v = chars_of(s);
    let mut b: usize = v.len();
    proof { assert(v@.subrange(0, b as int) =~= v@); }
    while b > 0 && v[b - 1] == '/'
        invariant
            b <= v.len(),
            v@ == s@,
            trim_end_slashes(s@) == trim_end_slashes(v@.subrange(0, b as int)),
        decreases b,
    {
        proof { assert(v@.subrange(0, b as int).drop_last() =~= v@.subrange(0, b - 1)); }
        b = b - 1;
    }
    let mut r = String::new();
    let mut k: usize = 0;
    while k < b
        invariant
            k <= b <= v.len(),
            r@ == v@.subrange(0, k as int),
        decreases b - k,
    {
        push_char(&mut r, v[k]);
        proof { assert(r@ =~= v@.subrange(0, k + 1)); }
        k = k + 1;
    }
    r
}

fn clone_opt(o: &Option<String>) -> (r: Option<String>)
    ensures
        opt_str(r) == opt_str(*o),
{
    match o {
        Some(s) => Some(owned(s.as_str())),
        None => None,
    }
}

fn clone_ids(v: &Vec<u64>) -> (r: Vec<u64>)
    ensures
        r@ == v@,
{
    let mut r: Vec<u64> = Vec::new();
    let mut k: usize = 0;
    while k < v.len()
        invariant
            k <= v.len(),
            r@ == v@.subrange(0, k as int),
        decreases v.len() - k,
    {
        r.push(v[k]);
        proof { assert(r@ =~= v@.subrange(0, k + 1)); }
        k = k + 1;
    }
    proof { assert(r@ =~= v@); }
    r
}

/// An update of a secret-like value: a blank or missing update keeps the old
/// value, `clear` removes it.
pub open spec fn kept_or_replaced(update: Option<Seq<char>>, clear: bool, old: Option<Seq<char>>) -> Option<Seq<char>> {
    if clear {
        None
    } else {
        match update {
            Some(u) => if trim_seq(u).len() > 0 { Some(trim_seq(u)) } else { old },
            None => old,
        }
    }
}

/// The masked display of a key: up to 8 characters all dots (at least 4);
/// longer keys keep their first and last 4 characters.
pub open spec fn masked_spec(k: Seq<char>) -> Seq<char> {
    if k.len() <= 8 {
        Seq::new(if k.len() < 4 { 4 } else { k.len() }, |i: int| '•')
    } else {
        k.subrange(0, 4) + Seq::new((k.len() - 8) as nat, |i: int| '•') + k.subrange(k.len() - 4, k.len() as int)
    }
}

/// See `kept_or_replaced`.
fn keep_or_replace(update: Option<String>, clear: bool, old: &Option<String>) -> (r: Option<String>)
    ensures
        opt_str(r) == kept_or_replaced(opt_str(update), clear, opt_str(*old)),
{
    if clear {
        None
    } else {
        match update {
            Some(u) => {
                let t = trim_chars(&chars_of(u.as_str()));
                if t.len() > 0 {
                    Some(crate::text::string_of(&t))
                } else {
                    clone_opt(old)
                }
            }
            None => clone_opt(old),
        }
    }
}

impl RemoteAuthConfig {
    pub closed spec fn secret(&self) -> Option<Seq<char>> {
        opt_str(self.client_secret)
    }

    pub closed spec fn api_key(&self) -> Option<Seq<char>> {
        opt_str(self.youtube_api_key)
    }

    pub closed spec fn id_view(&self) -> Option<Seq<char>> {
        opt_str(self.client_id)
    }

    pub closed spec fn url_view(&self) -> Seq<char> {
        self.public_base_url@
    }

    pub closed spec fn dev_flag(&self) -> bool {
        self.dev_login
    }

    pub closed spec fn owners(&self) -> Seq<u64> {
        self.owner_user_ids@
    }

    /// A configuration from its parts.
    pub fn new(
        client_id: Option<String>,
        client_secret: Option<String>,
        public_base_url: String,
        dev_login: bool,
        owner_user_ids: Vec<u64>,
        youtube_api_key: Option<String>,
    ) -> (c: Self)
        ensures
            c.id_view() == opt_str(client_id),
            c.secret() == opt_str(client_secret),
            c.url_view() == public_base_url@,
            c.dev_flag() == dev_login,
            c.owners() == owner_user_ids@,
            c.api_key() == opt_str(youtube_api_key),
    {
        RemoteAuthConfig { client_id, client_secret, public_base_url, dev_login, owner_user_ids, youtube_api_key }
    }

    /// The settings read from the file or the environment, cleaned: each text
    /// trimmed and dropped when blank, the address defaulting to
    /// `DEFAULT_BASE_URL` and losing trailing slashes, the owner ids read
    /// from `owner_ids_text` by `parse_owner_ids`, and dev login on exactly
    /// when `dev_login_value` is `"1"`.
    pub fn from_settings(
        client_id: Option<String>,
        client_secret: Option<String>,
        public_base_url: Option<String>,
        owner_ids_text: &str,
        youtube_api_key: Option<String>,
        dev_login_value: Option<String>,
    ) -> (c: Self)
        ensures
            c.id_view() == kept_or_replaced(opt_str(client_id), false, None),
            c.secret() == kept_or_replaced(opt_str(client_secret), false, None),
            c.url_view() == trim_end_slashes(
                match kept_or_replaced(opt_str(public_base_url), false, None) {
                    Some(u) => u,
                    None => DEFAULT_BASE_URL@,
                }),
            c.owners() == collect_owner_ids(owner_ids_text@, Seq::empty(), Seq::empty()),
            c.api_key() == kept_or_replaced(opt_str(youtube_api_key), false, None),
            c.dev_flag() == (opt_str(dev_login_value) == Some("1"@)),
    {
        let none: Option<String> = None;
        let url = match keep_or_replace(public_base_url, false, &none) {
            Some(u) => u,
            None => owned(DEFAULT_BASE_URL),
        };
        let dev = match &dev_login_value {
            Some(v) => crate::text::str_eq(v.as_str(), "1"),
            None => false,
        };
        RemoteAuthConfig {
            client_id: keep_or_replace(client_id, false, &none),
            client_secret: keep_or_replace(client_secret, false, &none),
            public_base_url: without_trailing_slashes(url.as_str()),
            dev_login: dev,
            owner_user_ids: parse_owner_ids(owner_ids_text),
            youtube_api_key: keep_or_replace(youtube_api_key, false, &none),
        }
    }

    /// The public address of the remote.
    pub fn base_url(&self) -> (r: &str)
        ensures
            r@ == self.url_view(),
    {
        self.public_base_url.as_str()
    }

    /// The stored secret, for saving.
    pub fn client_secret(&self) -> (r: Option<&str>)
        ensures
            match r { Some(s) => self.secret() == Some(s@), None => self.secret() is None },
    {
        match &self.client_secret {
            Some(s) => Some(s.as_str()),
            None => None,
        }
    }

    /// New OAuth values. A missing or blank secret keeps the old one, a new
    /// one replaces it (trimmed), and `clear_secret` removes it. The address loses trailing slashes. Owner ids, dev login
    /// and the YouTube key stay.
    pub fn updated(
        &self,
        client_id: String,
        client_secret_update: Option<String>,
        clear_secret: bool,
        public_base_url: String,
    ) -> (c: Self)
        ensures
            c.id_view() == Some(client_id@),
            c.secret() == kept_or_replaced(opt_str(client_secret_update), clear_secret, self.secret()),
            c.url_view() == trim_end_slashes(public_base_url@),
            c.dev_flag() == self.dev_flag(),
            c.owners() == self.owners(),
            c.api_key() == self.api_key(),
    {
        let client_secret = keep_or_replace(client_secret_update, clear_secret, &self.client_secret);
        RemoteAuthConfig {
            client_id: Some(client_id),
            client_secret,
            public_base_url: without_trailing_slashes(public_base_url.as_str()),
            dev_login: self.dev_login,
            owner_user_ids: clone_ids(&self.owner_user_ids),
            youtube_api_key: clone_opt(&self.youtube_api_key),
        }
    }

    /// A copy with other owner ids.
    pub fn with_owner_user_ids(&self, owner_user_ids: Vec<u64>) -> (c: Self)
        ensures
            c.id_view() == self.id_view(),
            c.secret() == self.secret(),
            c.url_view() == self.url_view(),
            c.dev_flag() == self.dev_flag(),
            c.owners() == owner_user_ids@,
            c.api_key() == self.api_key(),
    {
        RemoteAuthConfig {
            client_id: clone_opt(&self.client_id),
            client_secret: clone_opt(&self.client_secret),
            public_base_url: owned(self.public_base_url.as_str()),
            dev_login: self.dev_login,
            owner_user_ids,
            youtube_api_key: clone_opt(&self.youtube_api_key),
        }
    }

    /// A copy with another YouTube key: blank or missing keeps the old key,
    /// `clear` removes it, anything else replaces it (trimmed).
    pub fn with_youtube_api_key(&self, update: Option<String>, clear: bool) -> (c: Self)
        ensures
            c.id_view() == self.id_view(),
            c.secret() == self.secret(),
            c.url_view() == self.url_view(),
            c.dev_flag() == self.dev_flag(),
            c.owners() == self.owners(),
            c.api_key() == kept_or_replaced(opt_str(update), clear, self.api_key()),
    {
        let key = keep_or_replace(update, clear, &self.youtube_api_key);
        RemoteAuthConfig {
            client_id: clone_opt(&self.client_id),
            client_secret: clone_opt(&self.client_secret),
            public_base_url: owned(self.public_base_url.as_str()),
            dev_login: self.dev_login,
            owner_user_ids: clone_ids(&self.owner_user_ids),
            youtube_api_key: key,
        }
    }

    /// The stored YouTube key.
    pub fn youtube_api_key(&self) -> (r: Option<&str>)
        ensures
            match r { Some(s) => self.api_key() == Some(s@), None => self.api_key() is None },
    {
        match &self.youtube_api_key {
            Some(s) => Some(s.as_str()),
            None => None,
        }
    }

    /// The key for display (see `masked_spec`).
    pub fn masked_youtube_api_key(&self) -> (r: Option<String>)
        ensures
            opt_str(r) == (match self.api_key() { Some(k) => Some(masked_spec(k)), None => None }),
    {
        let key = match &self.youtube_api_key {
            Some(s) => s,
            None => { return None; }
        };
        let chars = chars_of(key.as_str());
        let n = chars.len();
        let mut out = String::new();
        if n <= 8 {
            let count = if n < 4 { 4 } else { n };
            let mut i: usize = 0;
            while i < count
                invariant
                    i <= count,
                    out@ == Seq::new(i as nat, |j: int| '•'),
                decreases count - i,
            {
                push_char(&mut out, '•');
                proof { assert(out@ =~= Seq::new((i + 1) as nat, |j: int| '•')); }
                i = i + 1;
            }
            proof { assert(out@ =~= masked_spec(key@)); }
        } else {
            let mut i: usize = 0;
            while i < 4
                invariant
                    n > 8,
                    n == chars@.len(),
                    chars@ == key@,
                    i <= 4,
                    out@ == chars@.subrange(0, i as int),
                decreases 4 - i,
            {
                push_char(&mut out, chars[i]);
                proof { assert(out@ =~= chars@.subrange(0, i + 1)); }
                i = i + 1;
            }
            let ghost head = out@;
            let mut j: usize = 0;
            while j < n - 8
                invariant
                    n > 8,
                    n == chars@.len(),
                    j <= n - 8,
                    out@ == head + Seq::new(j as nat, |q: int| '•'),
                decreases n - 8 - j,
            {
                push_char(&mut out, '•');
                proof { assert(out@ =~= head + Seq::new((j + 1) as nat, |q: int| '•')); }
                j = j + 1;
            }
            let ghost mid = out@;
            let mut t: usize = n - 4;
            while t < n
                invariant
                    n > 8,
                    n == chars@.len(),
                    n - 4 <= t <= n,
                    out@ == mid + chars@.subrange(n - 4, t as int),
                decreases n - t,
            {
                push_char(&mut out, chars[t]);
                proof { assert(out@ =~= mid + chars@.subrange(n - 4, t + 1)); }
                t = t + 1;
            }
            proof { assert(out@ =~= masked_spec(key@)); }
        }
        Some(out)
    }

    /// Both the client id and the secret are set.
    pub fn configured(&self) -> (r: bool)
        ensures
            r == (self.id_view() is Some && self.secret() is Some),
    {
        self.client_id.is_some() && self.client_secret.is_some()
    }

    /// A secret is stored.
    pub fn has_client_secret(&self) -> (r: bool)
        ensures
            r == self.secret() is Some,
    {
        self.client_secret.is_some()
    }

    /// Where Discord sends people back after sign-in.
    pub fn redirect_uri(&self) -> (r: String)
        ensures
            r@ == self.url_view() + "/music/oauth/callback"@,
    {
        let mut r = owned(self.public_base_url.as_str());
        push_str(&mut r, "/music/oauth/callback");
        r
    }
}

/// The Discord permission bits that make a guild member an administrator
/// of it: Administrator and Manage Server.
pub const ADMINISTRATOR_PERMISSION: u64 = 8;
pub const MANAGE_GUILD_PERMISSION: u64 = 32;

/// A Discord server as the signed-in user's guild list gives it.
#[derive(Debug)]
pub struct OAuthGuild {
    pub id: u64,
    pub name: String,
    pub icon: Option<String>,
    pub owner: bool,
    pub permissions: u64,
}

pub open spec fn icon_url_spec(id: u64, icon: Seq<char>) -> Seq<char> {
    "https://cdn.discordapp.com/icons/"@ + crate::text::decimal(id as nat) + "/"@ + icon + ".png?size=128"@
}

impl OAuthGuild {
    /// The server icon on Discord's CDN, if it has one.
    pub fn icon_url(&self) -> (r: Option<String>)
        ensures
            opt_str(r) == (match self.icon { Some(i) => Some(icon_url_spec(self.id, i@)), None => None }),
    {
        match &self.icon {
            Some(icon) => {
                let mut url = String::new();
                push_str(&mut url, "https://cdn.discordapp.com/icons/");
                crate::text::push_decimal(&mut url, self.id);
                push_str(&mut url, "/");
                push_str(&mut url, icon.as_str());
                push_str(&mut url, ".png?size=128");
                proof { assert(url@ =~= icon_url_spec(self.id, icon@)); }
                Some(url)
            }
            None => None,
        }
    }

    /// The user owns the server or has Administrator or Manage Server in it.
    pub fn is_admin(&self) -> (r: bool)
        ensures
            r == (self.owner || self.permissions & ADMINISTRATOR_PERMISSION != 0
                || self.permissions & MANAGE_GUILD_PERMISSION != 0),
    {
        self.owner || self.permissions & ADMINISTRATOR_PERMISSION != 0
            || self.permissions & MANAGE_GUILD_PERMISSION != 0
    }

    /// A copy.
    pub fn duplicate(&self) -> (g: OAuthGuild)
        ensures
            g.id == self.id,
            g.name@ == self.name@,
            opt_str(g.icon) == opt_str(self.icon),
            g.owner == self.owner,
            g.permissions == self.permissions,
    {
        OAuthGuild {
            id: self.id,
            name: owned(self.name.as_str()),
            icon: clone_opt(&self.icon),
            owner: self.owner,
            permissions: self.permissions,
        }
    }
}

/// One row of Discord's `/users/@me/guilds` answer, ids still as text.
#[derive(Debug)]
pub struct DiscordGuildResponse {
    pub id: String,
    pub name: String,
    pub icon: Option<String>,
    pub owner: bool,
    pub permissions: String,
}

/// The guild a response row becomes: rows whose id is not a number are
/// dropped; unreadable permissions count as none.
pub open spec fn guild_of_row(r: DiscordGuildResponse) -> Option<(u64, Seq<char>, Option<Seq<char>>, bool, u64)> {
    match parse_u64_spec(r.id@) {
        Some(id) => Some((id, r.name@, opt_str(r.icon), r.owner,
            match parse_u64_spec(r.permissions@) { Some(p) => p, None => 0 })),
        None => None,
    }
}

pub open spec fn guild_parts(g: OAuthGuild) -> (u64, Seq<char>, Option<Seq<char>>, bool, u64) {
    (g.id, g.name@, opt_str(g.icon), g.owner, g.permissions)
}

/// The rows that are guilds, converted, in order.
pub open spec fn guilds_of_rows(rows: Seq<DiscordGuildResponse>) -> Seq<(u64, Seq<char>, Option<Seq<char>>, bool, u64)>
    decreases rows.len(),
{
    if rows.len() == 0 {
        Seq::empty()
    } else {
        let rest = guilds_of_rows(rows.drop_last());
        match guild_of_row(rows.last()) {
            Some(g) => rest.push(g),
            None => rest,
        }
    }
}

/// Discord's guild list in the shape sessions keep; sign-in and refresh use
/// the same conversion.
pub fn to_oauth_guilds(rows: Vec<DiscordGuildResponse>) -> (out: Vec<OAuthGuild>)
    ensures
        out@.map_values(|g: OAuthGuild| guild_parts(g)) == guilds_of_rows(rows@),
{
    let mut out: Vec<OAuthGuild> = Vec::new();
    let mut k: usize = 0;
    while k < rows.len()
        invariant
            k <= rows.len(),
            out@.map_values(|g: OAuthGuild| guild_parts(g)) == guilds_of_rows(rows@.subrange(0, k as int)),
        decreases rows.len() - k,
    {
        let row = &rows[k];
        proof { assert(rows@.subrange(0, k + 1).drop_last() =~= rows@.subrange(0, k as int)); }
        match parse_u64(&chars_of(row.id.as_str())) {
            Some(id) => {
                let permissions = match parse_u64(&chars_of(row.permissions.as_str())) {
                    Some(p) => p,
                    None => 0,
                };
                let ghost before = out@;
                out.push(OAuthGuild {
                    id,
                    name: owned(row.name.as_str()),
                    icon: clone_opt(&row.icon),
                    owner: row.owner,
                    permissions,
                });
                proof {
                    assert(out@.map_values(|g: OAuthGuild| guild_parts(g))
                        =~= before.map_values(|g: OAuthGuild| guild_parts(g)).push(guild_parts(out@.last())));
                }
            }
            None => {}
        }
        k = k + 1;
    }
    proof { assert(rows@.subrange(0, k as int) =~= rows@); }
    out
}

/// The query Discord sends back to the sign-in callback.
#[derive(Debug, Clone)]
pub struct OAuthCallbackQuery {
    pub code: Option<String>,
    pub state: Option<String>,
    pub error: Option<String>,
}

/// How much a signed-in user may do in one server; higher tiers include lower ones.
#[derive(Debug, Clone, Copy, PartialEq, Eq, PartialOrd, Ord, Structural)]
pub enum AccessTier {
    /// Read only.
    Viewer,
    Member,
    Manager,
    Owner,
}

pub open spec fn tier_rank(t: AccessTier) -> int {
    match t {
        AccessTier::Viewer => 0,
        AccessTier::Member => 1,
        AccessTier::Manager => 2,
        AccessTier::Owner => 3,
    }
}

pub open spec fn tier_name(t: AccessTier) -> Seq<char> {
    match t {
        AccessTier::Owner => "owner"@,
        AccessTier::Manager => "manager"@,
        AccessTier::Member => "member"@,
        AccessTier::Viewer => "viewer"@,
    }
}

impl AccessTier {
    /// The tier's wire name.
    pub fn as_str(self) -> (s: &'static str)
        ensures
            s@ == tier_name(self),
    {
        match self {
            AccessTier::Owner => "owner",
            AccessTier::Manager => "manager",
            AccessTier::Member => "member",
            AccessTier::Viewer => "viewer",
        }
    }

    /// Manager or above.
    pub fn is_manager(self) -> (r: bool)
        ensures
            r == (tier_rank(self) >= 2),
    {
        match self {
            AccessTier::Manager | AccessTier::Owner => true,
            _ => false,
        }
    }

    pub fn is_owner(self) -> (r: bool)
        ensures
            r == (self == AccessTier::Owner),
    {
        self == AccessTier::Owner
    }

    /// Can do nothing but look.
    pub fn is_viewer(self) -> (r: bool)
        ensures
            r == (self == AccessTier::Viewer),
    {
        self == AccessTier::Viewer
    }
}

/// The tiers are ranked in order of privilege; the owner is a manager; a
/// viewer is not.
pub proof fn law_tier_order(t: AccessTier)
    ensures
        tier_rank(AccessTier::Viewer) < tier_rank(AccessTier::Member) < tier_rank(AccessTier::Manager)
            < tier_rank(AccessTier::Owner),
        t == AccessTier::Owner ==> tier_rank(t) >= 2,
        t == AccessTier::Viewer ==> tier_rank(t) < 2,
        0 <= tier_rank(t) <= 3,
{
}

/// A signed-in browser session.
#[derive(Debug)]
pub struct RemoteSession {
    pub user_id: u64,
    pub username: String,
    pub display_name: String,
    pub avatar_url: Option<String>,
    pub guilds: Vec<OAuthGuild>,
    pub access_token: String,
    pub refresh_token: Option<String>,
    pub csrf_token: String,
    pub created: Instant,
    /// When Discord's access token runs out (not the session).
    pub token_expires: Instant,
    /// A local test sign-in; never stored.
    pub is_developer: bool,
}

/// The session's entry for `guild_id`, if the user is in that server.
pub fn guild_from_session(session: &RemoteSession, guild_id: u64) -> (r: Option<OAuthGuild>)
    ensures
        match r {
            Some(g) => g.id == guild_id && exists|i: int| 0 <= i < session.guilds@.len()
                && guild_parts(session.guilds@[i]) == guild_parts(g),
            None => forall|i: int| 0 <= i < session.guilds@.len() ==> session.guilds@[i].id != guild_id,
        },
{
    let mut i: usize = 0;
    while i < session.guilds.len()
        invariant
            i <= session.guilds.len(),
            forall|m: int| 0 <= m < i ==> session.guilds@[m].id != guild_id,
        decreases session.guilds.len() - i,
    {
        if session.guilds[i].id == guild_id {
            let g = session.guilds[i].duplicate();
            proof { assert(guild_parts(session.guilds@[i as int]) == guild_parts(g)); }
            return Some(g);
        }
        i = i + 1;
    }
    None
}

/// Whether `user_id` is one of the bot's owners.
pub fn is_owner_user(owner_ids: &Vec<u64>, user_id: u64) -> (r: bool)
    ensures
        r == owner_ids@.contains(user_id),
{
    crate::permissions::contains_u64(owner_ids, user_id)
}

} // verus!
