//! `@name` / `#title` tag recognition in chat messages: case-insensitive,
//! longest candidate first, each candidate reported once in order of first use.

use vstd::prelude::*;
use crate::text::chars_of;

verus! {

/// What `char::to_lowercase` yields first for `c`.
pub uninterp spec fn lowercase_first(c: char) -> char;

/// First character of `char::to_lowercase(c)` (the iterator is never empty,
/// so the fallback to `c` is never taken).
/// Claims: the result is `lowercase_first(c)`, a function of `c` alone.
#[verifier::external_body]
fn first_lowercase(c: char) -> (r: char)
    ensures
        r == lowercase_first(c),
{
    c.to_lowercase().next().unwrap_or(c)
}

/// A text folded character by character, keeping its length.
pub open spec fn lower_seq(s: Seq<char>) -> Seq<char> {
    s.map_values(|c: char| lowercase_first(c))
}

/// `needle` is non-empty and `rest` starts with it.
pub open spec fn starts_with_needle(rest: Seq<char>, needle: Seq<char>) -> bool {
    &&& 0 < needle.len() <= rest.len()
    &&& rest.subrange(0, needle.len() as int) == needle
}

/// Candidate `i` is the one taken at `rest`: it matches, and every other
/// matching candidate is shorter, or as long and later in the list.
pub open spec fn is_best(rest: Seq<char>, needles: Seq<Seq<char>>, i: int) -> bool {
    &&& 0 <= i < needles.len()
    &&& starts_with_needle(rest, needles[i])
    &&& forall|j: int|
        0 <= j < needles.len() && starts_with_needle(rest, #[trigger] needles[j]) ==> (
        needles[j].len() < needles[i].len() || (needles[j].len() == needles[i].len() && i <= j))
}

/// Appends `i` unless it is already there.
pub open spec fn add_hit(hits: Seq<usize>, i: usize) -> Seq<usize> {
    if hits.contains(i) { hits } else { hits.push(i) }
}

/// Scans `h` from `cursor`: at each `marker` the best candidate right after it
/// is recorded and skipped over; anything else moves one character on.
pub open spec fn scan(
    h: Seq<char>,
    marker: char,
    needles: Seq<Seq<char>>,
    cursor: int,
    hits: Seq<usize>,
) -> Seq<usize>
    decreases h.len() - cursor,
{
    if cursor < 0 || cursor >= h.len() {
        hits
    } else if h[cursor] != marker {
        scan(h, marker, needles, cursor + 1, hits)
    } else {
        let rest = h.subrange(cursor + 1, h.len() as int);
        if exists|i: int| is_best(rest, needles, i) {
            let i = choose|i: int| is_best(rest, needles, i);
            scan(h, marker, needles, cursor + 1 + needles[i].len(), add_hit(hits, i as usize))
        } else {
            scan(h, marker, needles, cursor + 1, hits)
        }
    }
}

/// The folded candidate names.
pub open spec fn lowered_names(candidates: Seq<String>) -> Seq<Seq<char>> {
    Seq::new(candidates.len(), |i: int| lower_seq(candidates[i]@))
}

/// What `match_prefixed` returns for these arguments.
pub open spec fn prefixed_matches(content: Seq<char>, marker: char, candidates: Seq<String>) -> Seq<usize> {
    scan(lower_seq(content), marker, lowered_names(candidates), 0, seq![])
}

/// Folds every character of `text` to its first lowercase character.
pub fn lower_chars(text: &str) -> (out: Vec<char>)
    ensures
        out@ == lower_seq(text@),
{
    let chars = chars_of(text);
    let mut out: Vec<char> = Vec::new();
    let mut k: usize = 0;
    while k < chars.len()
        invariant
            k <= chars.len(),
            chars@ == text@,
            out@ == lower_seq(chars@.subrange(0, k as int)),
        decreases chars.len() - k,
    {
        let c = first_lowercase(chars[k]);
        out.push(c);
        k = k + 1;
        assert(lower_seq(chars@.subrange(0, k as int)) =~= lower_seq(chars@.subrange(0, k - 1)).push(c));
    }
    assert(chars@.subrange(0, k as int) =~= chars@);
    out
}

/// Does `h[start..]` begin with `needle` (non-empty)?
fn needle_at(h: &Vec<char>, start: usize, needle: &Vec<char>) -> (r: bool)
    requires
        start <= h.len(),
    ensures
        r == starts_with_needle(h@.subrange(start as int, h.len() as int), needle@),
{
    let rest_len = h.len() - start;
    if needle.len() == 0 || needle.len() > rest_len {
        return false;
    }
    let mut k: usize = 0;
    while k < needle.len()
        invariant
            0 < needle.len() <= h.len() - start,
            k <= needle.len(),
            forall|m: int| 0 <= m < k ==> h@[start + m] == needle@[m],
        decreases needle.len() - k,
    {
        if h[start + k] != needle[k] {
            assert(h@.subrange(start as int, h.len() as int).subrange(0, needle.len() as int)[k as int]
                != needle@[k as int]);
            return false;
        }
        k = k + 1;
    }
    assert(h@.subrange(start as int, h.len() as int).subrange(0, needle.len() as int) =~= needle@);
    true
}

proof fn lemma_best_unique(rest: Seq<char>, needles: Seq<Seq<char>>, i: int, k: int)
    requires
        is_best(rest, needles, i),
        is_best(rest, needles, k),
    ensures
        i == k,
{
    assert(starts_with_needle(rest, needles[k]));
    assert(starts_with_needle(rest, needles[i]));
}

/// Finds the candidate taken right after position `start - 1`.
fn best_at(h: &Vec<char>, start: usize, needles: &Vec<Vec<char>>, names: Ghost<Seq<Seq<char>>>) -> (r: Option<usize>)
    requires
        start <= h.len(),
        needles@.len() == names@.len(),
        forall|j: int| 0 <= j < needles@.len() ==> (#[trigger] needles@[j])@ == names@[j],
    ensures
        match r {
            Some(i) => is_best(h@.subrange(start as int, h.len() as int), names@, i as int),
            None => !exists|i: int| is_best(h@.subrange(start as int, h.len() as int), names@, i),
        },
{
    let ghost rest = h@.subrange(start as int, h.len() as int);
    let mut best: Option<usize> = None;
    let mut j: usize = 0;
    while j < needles.len()
        invariant
            start <= h.len(),
            rest == h@.subrange(start as int, h.len() as int),
            needles@.len() == names@.len(),
            forall|m: int| 0 <= m < needles@.len() ==> (#[trigger] needles@[m])@ == names@[m],
            j <= needles.len(),
            match best {
                Some(b) => {
                    &&& b < j
                    &&& starts_with_needle(rest, names@[b as int])
                    &&& forall|m: int| 0 <= m < j && starts_with_needle(rest, #[trigger] names@[m]) ==> (
                        names@[m].len() < names@[b as int].len() || (names@[m].len() == names@[b as int].len() && b <= m))
                },
                None => forall|m: int| 0 <= m < j ==> !starts_with_needle(rest, #[trigger] names@[m]),
            },
        decreases needles.len() - j,
    {
        let hit = needle_at(h, start, &needles[j]);
        if hit {
            match best {
                Some(b) => {
                    if needles[j].len() > needles[b].len() {
                        best = Some(j);
                    }
                }
                None => {
                    best = Some(j);
                }
            }
        }
        j = j + 1;
    }
    match best {
        Some(b) => {
            assert(is_best(rest, names@, b as int));
        }
        None => {
            assert forall|i: int| !is_best(rest, names@, i) by {
                if 0 <= i < names@.len() {
                    assert(!starts_with_needle(rest, names@[i]));
                }
            }
        }
    }
    best
}

/// Finds the candidates named after `marker` in `content`, e.g. `@민수 형` or
/// `#City Lights`. Matching ignores case, prefers the longest name (then the
/// earliest in `candidates`), and skips over a matched name before looking for
/// the next marker. The result lists candidate indices once each, in order of
/// first appearance.
pub fn match_prefixed(content: &str, marker: char, candidates: &[String]) -> (hits: Vec<usize>)
    ensures
        hits@ == prefixed_matches(content@, marker, candidates@),
        forall|k: int| 0 <= k < hits.len() ==> hits@[k] < candidates.len(),
        forall|a: int, b: int| 0 <= a < b < hits.len() ==> hits@[a] != hits@[b],
{
    let haystack = lower_chars(content);
    let ghost names = lowered_names(candidates@);
    let mut needles: Vec<Vec<char>> = Vec::new();
    let mut n: usize = 0;
    while n < candidates.len()
        invariant
            n <= candidates.len(),
            names == lowered_names(candidates@),
            needles@.len() == n,
            forall|j: int| 0 <= j < n ==> (#[trigger] needles@[j])@ == names[j],
        decreases candidates.len() - n,
    {
        let lowered = lower_chars(candidates[n].as_str());
        needles.push(lowered);
        n = n + 1;
    }
    let mut hits: Vec<usize> = Vec::new();
    let mut cursor: usize = 0;
    while cursor < haystack.len()
        invariant
            haystack@ == lower_seq(content@),
            names == lowered_names(candidates@),
            needles@.len() == names.len(),
            names.len() == candidates.len(),
            forall|j: int| 0 <= j < needles@.len() ==> (#[trigger] needles@[j])@ == names[j],
            cursor <= haystack.len(),
            scan(haystack@, marker, names, cursor as int, hits@) == prefixed_matches(content@, marker, candidates@),
            forall|k: int| 0 <= k < hits.len() ==> hits@[k] < candidates.len(),
            forall|a: int, b: int| 0 <= a < b < hits.len() ==> hits@[a] != hits@[b],
        decreases haystack.len() - cursor,
    {
        if haystack[cursor] != marker {
            cursor = cursor + 1;
        } else {
            let found = best_at(&haystack, cursor + 1, &needles, Ghost(names));
            let ghost rest = haystack@.subrange(cursor + 1, haystack.len() as int);
            match found {
                Some(index) => {
                    proof {
                        let c = choose|i: int| is_best(rest, names, i);
                        lemma_best_unique(rest, names, c, index as int);
                    }
                    let length = needles[index].len();
                    let mut seen = false;
                    let mut k: usize = 0;
                    while k < hits.len()
                        invariant
                            k <= hits.len(),
                            seen <==> exists|m: int| 0 <= m < k && hits@[m] == index,
                        decreases hits.len() - k,
                    {
                        if hits[k] == index {
                            seen = true;
                        }
                        k = k + 1;
                    }
                    proof {
                        assert(seen <==> hits@.contains(index));
                    }
                    if !seen {
                        hits.push(index);
                    }
                    cursor = cursor + 1 + length;
                }
                None => {
                    cursor = cursor + 1;
                }
            }
        }
    }
    hits
}

/// Candidate `i` matches right after a `marker` somewhere in `h`.
pub open spec fn matched_after_marker(h: Seq<char>, marker: char, needles: Seq<Seq<char>>, i: int) -> bool {
    &&& 0 <= i < needles.len()
    &&& exists|p: int| 0 <= p < h.len() && h[p] == marker
        && #[trigger] starts_with_needle(h.subrange(p + 1, h.len() as int), needles[i])
}

proof fn lemma_scan_hits(h: Seq<char>, marker: char, needles: Seq<Seq<char>>, cursor: int, hits: Seq<usize>)
    requires
        cursor >= 0,
        needles.len() <= usize::MAX,
        hits.no_duplicates(),
        forall|k: int| 0 <= k < hits.len() ==> matched_after_marker(h, marker, needles, #[trigger] hits[k] as int),
    ensures
        scan(h, marker, needles, cursor, hits).no_duplicates(),
        forall|k: int| 0 <= k < scan(h, marker, needles, cursor, hits).len() ==>
            matched_after_marker(h, marker, needles, #[trigger] scan(h, marker, needles, cursor, hits)[k] as int),
        scan(h, marker, needles, cursor, hits).len() >= hits.len(),
        scan(h, marker, needles, cursor, hits).subrange(0, hits.len() as int) == hits,
        (forall|q: int| cursor <= q < h.len() ==> h[q] != marker) ==> scan(h, marker, needles, cursor, hits) == hits,
    decreases h.len() - cursor,
{
    let r = scan(h, marker, needles, cursor, hits);
    if cursor >= h.len() {
        assert(hits.subrange(0, hits.len() as int) =~= hits);
    } else if h[cursor] != marker {
        lemma_scan_hits(h, marker, needles, cursor + 1, hits);
    } else {
        let rest = h.subrange(cursor + 1, h.len() as int);
        if exists|i: int| is_best(rest, needles, i) {
            let i = choose|i: int| is_best(rest, needles, i);
            assert(starts_with_needle(h.subrange(cursor + 1, h.len() as int), needles[i]));
            assert(matched_after_marker(h, marker, needles, i));
            let next = add_hit(hits, i as usize);
            assert(i as usize as int == i);
            assert forall|k: int| 0 <= k < next.len() implies
                matched_after_marker(h, marker, needles, #[trigger] next[k] as int) by {
                if k < hits.len() {
                    assert(next[k] == hits[k]);
                }
            }
            if !hits.contains(i as usize) {
                assert forall|a: int, b: int| 0 <= a < b < next.len() implies next[a] != next[b] by {
                    if b == hits.len() {
                        assert(next[a] == hits[a]);
                    }
                }
            }
            lemma_scan_hits(h, marker, needles, cursor + 1 + needles[i].len(), next);
            let r2 = scan(h, marker, needles, cursor + 1 + needles[i].len(), next);
            assert(r == r2);
            assert(r2.subrange(0, next.len() as int) == next);
            assert(r.subrange(0, hits.len() as int) =~= next.subrange(0, hits.len() as int));
            assert(next.subrange(0, hits.len() as int) =~= hits);
        } else {
            lemma_scan_hits(h, marker, needles, cursor + 1, hits);
        }
    }
}

/// The mentions found in `content` name candidates that exist and have a
/// name, each one matched (case folded) right after a `marker`; no
/// candidate is reported twice; and a text without the marker mentions
/// nobody.
pub proof fn law_mentions_follow_a_marker(content: Seq<char>, marker: char, candidates: Seq<String>)
    requires
        candidates.len() <= usize::MAX,
    ensures
        prefixed_matches(content, marker, candidates).no_duplicates(),
        forall|k: int| 0 <= k < prefixed_matches(content, marker, candidates).len() ==> {
            let i = #[trigger] prefixed_matches(content, marker, candidates)[k] as int;
            &&& 0 <= i < candidates.len()
            &&& lower_seq(candidates[i]@).len() > 0
            &&& matched_after_marker(lower_seq(content), marker, lowered_names(candidates), i)
        },
        !lower_seq(content).contains(marker) ==> prefixed_matches(content, marker, candidates).len() == 0,
{
    let h = lower_seq(content);
    let needles = lowered_names(candidates);
    let empty: Seq<usize> = seq![];
    lemma_scan_hits(h, marker, needles, 0, empty);
    let r = prefixed_matches(content, marker, candidates);
    assert forall|k: int| 0 <= k < r.len() implies ({
        let i = #[trigger] r[k] as int;
        &&& 0 <= i < candidates.len()
        &&& lower_seq(candidates[i]@).len() > 0
        &&& matched_after_marker(h, marker, needles, i)
    }) by {
        let i = r[k] as int;
        assert(matched_after_marker(h, marker, needles, i));
        let p = choose|p: int| 0 <= p < h.len() && h[p] == marker
            && #[trigger] starts_with_needle(h.subrange(p + 1, h.len() as int), needles[i]);
        assert(needles[i] == lower_seq(candidates[i]@));
    }
    if !h.contains(marker) {
        assert forall|q: int| 0 <= q < h.len() implies h[q] != marker by {
            if h[q] == marker { assert(h.contains(marker)); }
        }
    }
}

} // verus!
