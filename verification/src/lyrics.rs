//! Synced lyrics in LRC form: lines like `[03:20.310] text`.

use vstd::prelude::*;
use crate::text::{chars_of, digit_value, digits_value, is_digit, is_space, occurs_at, occurs_at_exec, owned, string_of, trim_chars, trim_seq};

verus! {

/// One timed lyrics line.
#[derive(Debug, Clone, PartialEq, Eq)]
pub struct LyricsLine {
    pub start_ms: u64,
    pub text: String,
}

/// Where the run of ASCII digits starting at `i` ends.
pub open spec fn digits_end(t: Seq<char>, i: int) -> int
    decreases t.len() - i,
{
    if 0 <= i < t.len() && is_digit(t[i]) { digits_end(t, i + 1) } else { i }
}

/// Milliseconds of a fraction of a second written with the digits `f`,
/// rounded to the nearest millisecond (halves up), exactly in decimal: only
/// the fourth digit decides the rounding. Rounding `seconds * 1000.0` in
/// binary floating point can differ on four or more digits: `.0285` gives
/// 29 ms here, where the float product (28.499…) rounds to 28.
pub open spec fn fraction_ms(f: Seq<char>) -> nat {
    let d = |k: int| if k < f.len() { digit_value(f[k]) } else { 0nat };
    d(0) * 100 + d(1) * 10 + d(2) + (if d(3) >= 5 { 1nat } else { 0nat })
}

/// The timestamp and text of a trimmed line `[m:ss]` or `[m:ss.fff]`
/// followed by at most one space and the text; `None` for anything else or a
/// time past `u64`.
pub open spec fn lrc_line(t: Seq<char>) -> Option<(u64, Seq<char>)> {
    if t.len() == 0 || t[0] != '[' {
        None
    } else {
        let m_end = digits_end(t, 1);
        if m_end == 1 || m_end >= t.len() || t[m_end] != ':' {
            None
        } else {
            let s_end = digits_end(t, m_end + 1);
            if s_end == m_end + 1 || s_end >= t.len() {
                None
            } else {
                let has_frac = t[s_end] == '.';
                let f_end = if has_frac { digits_end(t, s_end + 1) } else { s_end };
                if (has_frac && f_end == s_end + 1) || f_end >= t.len() || t[f_end] != ']' {
                    None
                } else {
                    let rest = t.subrange(f_end + 1, t.len() as int);
                    let text = if rest.len() > 0 && is_space(rest[0]) { rest.drop_first() } else { rest };
                    let minutes = digits_value(t.subrange(1, m_end));
                    let seconds = digits_value(t.subrange(m_end + 1, s_end));
                    let frac = if has_frac { fraction_ms(t.subrange(s_end + 1, f_end)) } else { 0nat };
                    let ms = minutes * 60000 + seconds * 1000 + frac;
                    if minutes <= u64::MAX && ms <= u64::MAX { Some((ms as u64, text)) } else { None }
                }
            }
        }
    }
}

/// Adds the line `cur` (trimmed) when it is a timed line.
pub open spec fn take_lrc_line(cur: Seq<char>, acc: Seq<(u64, Seq<char>)>) -> Seq<(u64, Seq<char>)> {
    match lrc_line(trim_seq(cur)) { Some(x) => acc.push(x), None => acc }
}

/// Reads the text line by line (a line ends at `\n`).
pub open spec fn collect_lrc(s: Seq<char>, cur: Seq<char>, acc: Seq<(u64, Seq<char>)>) -> Seq<(u64, Seq<char>)>
    decreases s.len(),
{
    if s.len() == 0 {
        take_lrc_line(cur, acc)
    } else if s[0] == '\n' {
        collect_lrc(s.drop_first(), Seq::empty(), take_lrc_line(cur, acc))
    } else {
        collect_lrc(s.drop_first(), cur.push(s[0]), acc)
    }
}

pub open spec fn line_views(v: Seq<LyricsLine>) -> Seq<(u64, Seq<char>)> {
    v.map_values(|l: LyricsLine| (l.start_ms, l.text@))
}

fn digits_end_exec(t: &Vec<char>, i: usize) -> (e: usize)
    requires
        i <= t.len(),
    ensures
        e == digits_end(t@, i as int),
        i <= e <= t.len(),
        forall|k: int| i <= k < e ==> is_digit(#[trigger] t@[k]),
{
    let mut e = i;
    while e < t.len() && '0' <= t[e] && t[e] <= '9'
        invariant
            i <= e <= t.len(),
            digits_end(t@, i as int) == digits_end(t@, e as int),
            forall|k: int| i <= k < e ==> is_digit(#[trigger] t@[k]),
        decreases t.len() - e,
    {
        e = e + 1;
    }
    e
}

/// The value of the digits `t[a..b]`, if it fits in `u64`.
fn digits_u64(t: &Vec<char>, a: usize, b: usize) -> (r: Option<u64>)
    requires
        a <= b <= t.len(),
        forall|k: int| a <= k < b ==> is_digit(#[trigger] t@[k]),
    ensures
        match r {
            Some(v) => v == digits_value(t@.subrange(a as int, b as int)),
            None => digits_value(t@.subrange(a as int, b as int)) > u64::MAX,
        },
{
    let mut v: u64 = 0;
    let mut k: usize = a;
    while k < b
        invariant
            a <= k <= b <= t.len(),
            forall|j: int| a <= j < b ==> is_digit(#[trigger] t@[j]),
            v == digits_value(t@.subrange(a as int, k as int)),
        decreases b - k,
    {
        let d: u64 = (t[k] as u32 - '0' as u32) as u64;
        proof {
            assert(is_digit(t@[k as int]));
            assert(t@.subrange(a as int, k + 1).drop_last() =~= t@.subrange(a as int, k as int));
            assert(d == digit_value(t@[k as int]));
        }
        if v > (u64::MAX - d) / 10 {
            proof {
                assert(digits_value(t@.subrange(a as int, k + 1)) > u64::MAX) by (nonlinear_arith)
                    requires
                        digits_value(t@.subrange(a as int, k + 1)) == v * 10 + d,
                        v > (u64::MAX - d) / 10,
                        d <= 9;
                lemma_digits_grow(t@.subrange(a as int, b as int), (k + 1 - a) as int);
                assert(t@.subrange(a as int, b as int).subrange(0, (k + 1 - a) as int) =~= t@.subrange(a as int, k + 1));
            }
            return None;
        }
        v = v * 10 + d;
        k = k + 1;
    }
    Some(v)
}

proof fn lemma_digits_grow(d: Seq<char>, n: int)
    requires
        0 <= n <= d.len(),
    ensures
        digits_value(d) >= digits_value(d.subrange(0, n)),
    decreases d.len(),
{
    if n < d.len() {
        lemma_digits_grow(d.drop_last(), n);
        assert(d.drop_last().subrange(0, n) =~= d.subrange(0, n));
    } else {
        assert(d.subrange(0, n) =~= d);
    }
}

fn digit_at(t: &Vec<char>, from: usize, j: usize, end: usize) -> (v: u64)
    requires
        from <= end <= t.len(),
        forall|q: int| from <= q < end ==> is_digit(#[trigger] t@[q]),
    ensures
        v == (if from + j < end { digit_value(t@[from + j]) } else { 0nat }),
        v <= 9,
{
    if j < end - from {
        let k = from + j;
        proof { assert(is_digit(t@[k as int])); }
        (t[k] as u32 - '0' as u32) as u64
    } else {
        0
    }
}

/// Reads one trimmed line (see `lrc_line`).
fn parse_lrc_line(t: &Vec<char>) -> (r: Option<(u64, Vec<char>)>)
    ensures
        match r {
            Some((ms, text)) => lrc_line(t@) == Some((ms, text@)),
            None => lrc_line(t@) is None,
        },
{
    if t.len() == 0 || t[0] != '[' {
        return None;
    }
    let m_end = digits_end_exec(t, 1);
    if m_end == 1 || m_end >= t.len() || t[m_end] != ':' {
        return None;
    }
    let s_end = digits_end_exec(t, m_end + 1);
    if s_end == m_end + 1 || s_end >= t.len() {
        return None;
    }
    let has_frac = t[s_end] == '.';
    let f_end = if has_frac { digits_end_exec(t, s_end + 1) } else { s_end };
    if (has_frac && f_end == s_end + 1) || f_end >= t.len() || t[f_end] != ']' {
        return None;
    }
    let mut start = f_end + 1;
    if start < t.len() && crate::text::char_is_space(t[start]) {
        start = start + 1;
    }
    let mut text: Vec<char> = Vec::new();
    let mut k = start;
    while k < t.len()
        invariant
            start <= k <= t.len(),
            text@ == t@.subrange(start as int, k as int),
        decreases t.len() - k,
    {
        text.push(t[k]);
        proof { assert(text@ =~= t@.subrange(start as int, k + 1)); }
        k = k + 1;
    }
    proof {
        let rest = t@.subrange(f_end + 1, t@.len() as int);
        if rest.len() > 0 && is_space(rest[0]) {
            assert(rest.drop_first() =~= t@.subrange(start as int, t@.len() as int));
        } else {
            assert(rest =~= t@.subrange(start as int, t@.len() as int));
        }
    }
    let minutes = match digits_u64(t, 1, m_end) { Some(v) => v, None => { return None; } };
    let seconds = match digits_u64(t, m_end + 1, s_end) { Some(v) => v, None => {
        proof {
            assert(digits_value(t@.subrange(m_end + 1, s_end as int)) * 1000 > u64::MAX) by (nonlinear_arith)
                requires digits_value(t@.subrange(m_end + 1, s_end as int)) > u64::MAX;
        }
        return None;
    } };
    let frac: u64 = if has_frac {
        let d0 = digit_at(t, s_end + 1, 0, f_end);
        let d1 = digit_at(t, s_end + 1, 1, f_end);
        let d2 = digit_at(t, s_end + 1, 2, f_end);
        let d3 = digit_at(t, s_end + 1, 3, f_end);
        proof {
            let f = t@.subrange(s_end + 1, f_end as int);
            assert(f_end - (s_end + 1) == f.len());
            assert(forall|q: int| 0 <= q < f.len() ==> f[q] == t@[s_end + 1 + q]);
            assert(d0 == (if 0 < f.len() { digit_value(f[0]) } else { 0nat }));
            assert(d1 == (if 1 < f.len() { digit_value(f[1]) } else { 0nat }));
            assert(d2 == (if 2 < f.len() { digit_value(f[2]) } else { 0nat }));
            assert(d3 == (if 3 < f.len() { digit_value(f[3]) } else { 0nat }));
        }
        d0 * 100 + d1 * 10 + d2 + if d3 >= 5 { 1 } else { 0 }
    } else {
        0
    };
    if minutes > (u64::MAX - frac) / 60000 {
        proof {
            assert(minutes * 60000 + frac > u64::MAX) by (nonlinear_arith)
                requires minutes > (u64::MAX - frac) / 60000, frac <= 1000;
        }
        return None;
    }
    let base = minutes * 60000 + frac;
    if seconds > (u64::MAX - base) / 1000 {
        proof {
            assert(base + seconds * 1000 > u64::MAX) by (nonlinear_arith)
                requires seconds > (u64::MAX - base) / 1000, base <= u64::MAX;
        }
        return None;
    }
    let ms = base + seconds * 1000;
    Some((ms, text))
}

fn take_line_exec(cur: &Vec<char>, lines: &mut Vec<LyricsLine>)
    ensures
        line_views(final(lines)@) == take_lrc_line(cur@, line_views(old(lines)@)),
{
    let ghost before = line_views(lines@);
    let trimmed = trim_chars(cur);
    match parse_lrc_line(&trimmed) {
        Some((ms, text)) => {
            lines.push(LyricsLine { start_ms: ms, text: string_of(&text) });
            proof { assert(line_views(lines@) =~= before.push((ms, text@))); }
        }
        None => {}
    }
}

/// The timed lines of an LRC text, in order; other lines are skipped.
/// Fractions of a second round as `fraction_ms` says (exact decimal
/// rounding, which can differ from float rounding by 1 ms on four or more
/// digits).
pub fn parse_lrc(value: &str) -> (lines: Vec<LyricsLine>)
    ensures
        line_views(lines@) == collect_lrc(value@, Seq::empty(), Seq::empty()),
{
    let chars = chars_of(value);
    let mut lines: Vec<LyricsLine> = Vec::new();
    let mut cur: Vec<char> = Vec::new();
    let mut k: usize = 0;
    proof {
        assert(chars@.skip(0) =~= chars@);
        assert(line_views(lines@) =~= Seq::<(u64, Seq<char>)>::empty());
        assert(cur@ =~= Seq::<char>::empty());
    }
    while k < chars.len()
        invariant
            chars@ == value@,
            k <= chars.len(),
            collect_lrc(chars@.skip(k as int), cur@, line_views(lines@)) == collect_lrc(value@, Seq::empty(), Seq::empty()),
        decreases chars.len() - k,
    {
        proof { assert(chars@.skip(k as int).drop_first() =~= chars@.skip(k + 1)); }
        if chars[k] == '\n' {
            take_line_exec(&cur, &mut lines);
            cur = Vec::new();
            proof { assert(cur@ =~= Seq::<char>::empty()); }
        } else {
            cur.push(chars[k]);
        }
        k = k + 1;
    }
    take_line_exec(&cur, &mut lines);
    lines
}

/// Where `" - "` first occurs in `t`.
pub open spec fn first_dash(t: Seq<char>) -> Option<int> {
    if exists|i: int| occurs_at(t, " - "@, i) {
        Some(choose|i: int| occurs_at(t, " - "@, i) && forall|j: int| 0 <= j < i ==> !occurs_at(t, " - "@, j))
    } else {
        None
    }
}

/// The artist and song name to look lyrics up by: the song's artist when
/// it has a non-blank one; otherwise a title `artist - name` split at its
/// first `" - "`; otherwise no artist and the whole title. A song without
/// a title goes by its id.
pub open spec fn lyrics_terms_spec(title: Option<Seq<char>>, content_id: Seq<char>, artist: Option<Seq<char>>)
    -> (Seq<char>, Seq<char>)
{
    let t = match title { Some(t) => t, None => content_id };
    match artist {
        Some(a) => if trim_seq(a).len() > 0 { (a, t) } else { split_title(t) },
        None => split_title(t),
    }
}

/// A title `artist - name` split at its first `" - "`, or no artist and the title.
pub open spec fn split_title(t: Seq<char>) -> (Seq<char>, Seq<char>) {
    match first_dash(t) {
        Some(i) => (t.subrange(0, i), t.subrange(i + 3, t.len() as int)),
        None => (Seq::empty(), t),
    }
}

fn slice_string(v: &Vec<char>, from: usize, to: usize) -> (s: String)
    requires
        from <= to <= v.len(),
    ensures
        s@ == v@.subrange(from as int, to as int),
{
    let mut out: Vec<char> = Vec::new();
    let mut k = from;
    while k < to
        invariant
            from <= k <= to <= v.len(),
            out@ == v@.subrange(from as int, k as int),
        decreases to - k,
    {
        out.push(v[k]);
        proof { assert(out@ =~= v@.subrange(from as int, k + 1)); }
        k = k + 1;
    }
    string_of(&out)
}

/// See `lyrics_terms_spec`.
pub fn lyrics_terms(title: Option<&str>, content_id: &str, artist: Option<&str>) -> (r: (String, String))
    ensures
        (r.0@, r.1@) == lyrics_terms_spec(match title { Some(t) => Some(t@), None => None }, content_id@,
            match artist { Some(a) => Some(a@), None => None }),
{
    let t = match title { Some(t) => t, None => content_id };
    match artist {
        Some(a) => if trim_chars(&chars_of(a)).len() > 0 {
            return (owned(a), owned(t));
        },
        None => {},
    }
    let v = chars_of(t);
    let dash = chars_of(" - ");
    proof { reveal_strlit(" - "); assert(dash@.len() == 3); }
    let ghost whole = lyrics_terms_spec(match title { Some(x) => Some(x@), None => None }, content_id@,
        match artist { Some(a) => Some(a@), None => None });
    assert(whole == split_title(t@));
    let mut i: usize = 0;
    while i < v.len()
        invariant
            i <= v.len(),
            v@ == t@,
            dash@ == " - "@,
            dash@.len() == 3,
            whole == split_title(t@),
            whole == lyrics_terms_spec(match title { Some(x) => Some(x@), None => None }, content_id@,
                match artist { Some(a) => Some(a@), None => None }),
            forall|j: int| 0 <= j < i ==> !occurs_at(v@, " - "@, j),
        decreases v.len() - i,
    {
        if occurs_at_exec(&v, &dash, i) {
            proof {
                let ii = i as int;
                assert(occurs_at(v@, " - "@, ii) && forall|j: int| 0 <= j < ii ==> !occurs_at(v@, " - "@, j));
                let c = choose|k: int| occurs_at(v@, " - "@, k) && forall|j: int| 0 <= j < k ==> !occurs_at(v@, " - "@, j);
                if c > ii { assert(occurs_at(v@, " - "@, ii)); }
                assert(c == ii);
                assert(first_dash(t@) == Some(ii));
                assert(split_title(t@) == (v@.subrange(0, ii), v@.subrange(ii + 3, v@.len() as int)));
            }
            let head = slice_string(&v, 0, i);
            let tail = slice_string(&v, i + 3, v.len());
            assert((head@, tail@) == split_title(t@));
            return (head, tail);
        }
        i = i + 1;
    }
    proof {
        assert forall|k: int| !occurs_at(v@, " - "@, k) by {
            if occurs_at(v@, " - "@, k) && k >= v@.len() { }
        }
    }
    (String::new(), owned(t))
}

} // verus!
