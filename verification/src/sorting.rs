//! Sorting strings in `String`'s order (character by character, by code point).

use vstd::prelude::*;
use crate::text::chars_of;

verus! {

broadcast use vstd::seq_lib::group_to_multiset_ensures;

/// `a <= b` in `String`'s order.
pub open spec fn lex_le(a: Seq<char>, b: Seq<char>) -> bool
    decreases a.len(),
{
    if a.len() == 0 {
        true
    } else if b.len() == 0 {
        false
    } else if a[0] != b[0] {
        (a[0] as int) < (b[0] as int)
    } else {
        lex_le(a.drop_first(), b.drop_first())
    }
}

/// Every earlier string is `<=` every later one.
pub open spec fn sorted_lex(s: Seq<Seq<char>>) -> bool {
    forall|i: int, j: int| 0 <= i < j < s.len() ==> lex_le(#[trigger] s[i], #[trigger] s[j])
}

/// The contents of a list of strings.
pub open spec fn views(v: Seq<String>) -> Seq<Seq<char>> {
    v.map_values(|s: String| s@)
}

pub proof fn lemma_lex_total(a: Seq<char>, b: Seq<char>)
    ensures
        lex_le(a, b) || lex_le(b, a),
    decreases a.len(),
{
    if a.len() > 0 && b.len() > 0 && a[0] == b[0] {
        lemma_lex_total(a.drop_first(), b.drop_first());
    } else if a.len() > 0 && b.len() > 0 {
        assert((a[0] as int) != (b[0] as int));
    }
}

pub proof fn lemma_lex_antisymmetric(a: Seq<char>, b: Seq<char>)
    requires
        lex_le(a, b),
        lex_le(b, a),
    ensures
        a == b,
    decreases a.len(),
{
    if a.len() == 0 {
        assert(b.len() == 0);
        assert(a =~= b);
    } else {
        lemma_lex_antisymmetric(a.drop_first(), b.drop_first());
        assert(a =~= seq![a[0]] + a.drop_first());
        assert(b =~= seq![b[0]] + b.drop_first());
    }
}

pub proof fn lemma_lex_transitive(a: Seq<char>, b: Seq<char>, c: Seq<char>)
    requires
        lex_le(a, b),
        lex_le(b, c),
    ensures
        lex_le(a, c),
    decreases a.len(),
{
    if a.len() > 0 && b.len() > 0 && c.len() > 0 && a[0] == b[0] && b[0] == c[0] {
        lemma_lex_transitive(a.drop_first(), b.drop_first(), c.drop_first());
    }
}

/// `a <= b` in `String`'s order.
pub fn str_le(a: &str, b: &str) -> (r: bool)
    ensures
        r == lex_le(a@, b@),
{
    let x = chars_of(a);
    let y = chars_of(b);
    let mut k: usize = 0;
    assert(a@.skip(0) =~= a@);
    assert(b@.skip(0) =~= b@);
    while k < x.len() && k < y.len()
        invariant
            x@ == a@,
            y@ == b@,
            k <= x.len(),
            k <= y.len(),
            lex_le(a@, b@) == lex_le(a@.skip(k as int), b@.skip(k as int)),
        decreases x.len() - k,
    {
        if x[k] != y[k] {
            proof {
                assert(a@.skip(k as int)[0] == x@[k as int]);
                assert(b@.skip(k as int)[0] == y@[k as int]);
            }
            return x[k] < y[k];
        }
        proof {
            assert(a@.skip(k as int).drop_first() =~= a@.skip(k + 1));
            assert(b@.skip(k as int).drop_first() =~= b@.skip(k + 1));
        }
        k = k + 1;
    }
    proof {
        if k == x.len() {
            assert(a@.skip(k as int).len() == 0);
        } else {
            assert(b@.skip(k as int).len() == 0);
        }
    }
    k == x.len()
}

/// The strings of `v` in `String`'s order (equal strings keep their order).
pub fn sort_strings(v: &Vec<String>) -> (out: Vec<String>)
    ensures
        sorted_lex(views(out@)),
        views(out@).to_multiset() == views(v@).to_multiset(),
{
    let mut out: Vec<String> = Vec::new();
    let mut n: usize = 0;
    while n < v.len()
        invariant
            n <= v.len(),
            sorted_lex(views(out@)),
            views(out@).to_multiset() == views(v@.subrange(0, n as int)).to_multiset(),
        decreases v.len() - n,
    {
        let s = v[n].clone();
        let mut p: usize = 0;
        while p < out.len() && str_le(out[p].as_str(), s.as_str())
            invariant
                p <= out.len(),
                sorted_lex(views(out@)),
                forall|i: int| 0 <= i < p ==> lex_le(#[trigger] views(out@)[i], s@),
            decreases out.len() - p,
        {
            p = p + 1;
        }
        let ghost before = out@;
        proof {
            if p < out.len() {
                lemma_lex_total(before[p as int]@, s@);
            }
        }
        out.insert(p, s);
        proof {
            let w = views(out@);
            let wb = views(before);
            assert(w =~= wb.insert(p as int, s@));
            assert forall|i: int, j: int| 0 <= i < j < w.len() implies lex_le(#[trigger] w[i], #[trigger] w[j]) by {
                if i < p && j < p {
                } else if i < p && j == p {
                } else if i < p && j > p {
                    assert(lex_le(wb[i], s@));
                    assert(lex_le(s@, wb[p as int]));
                    if (p as int) < j - 1 {
                        assert(lex_le(wb[p as int], wb[j - 1]));
                        lemma_lex_transitive(s@, wb[p as int], wb[j - 1]);
                    }
                    lemma_lex_transitive(wb[i], s@, wb[j - 1]);
                } else if i == p {
                    if (p as int) < j - 1 {
                        assert(lex_le(wb[p as int], wb[j - 1]));
                        lemma_lex_transitive(s@, wb[p as int], wb[j - 1]);
                    }
                } else {
                    assert(lex_le(wb[i - 1], wb[j - 1]));
                }
            }
            vstd::seq_lib::to_multiset_insert(wb, p as int, s@);
            assert(views(v@.subrange(0, n + 1)) =~= views(v@.subrange(0, n as int)).push(v@[n as int]@));
            vstd::seq_lib::to_multiset_build(views(v@.subrange(0, n as int)), v@[n as int]@);
        }
        n = n + 1;
    }
    assert(v@.subrange(0, n as int) =~= v@);
    out
}

/// Ascending order.
pub open spec fn sorted_u64(s: Seq<u64>) -> bool {
    forall|i: int, j: int| 0 <= i < j < s.len() ==> #[trigger] s[i] <= #[trigger] s[j]
}

/// The numbers of `v` in ascending order.
pub fn sort_u64(v: &Vec<u64>) -> (out: Vec<u64>)
    ensures
        sorted_u64(out@),
        out@.to_multiset() == v@.to_multiset(),
{
    let mut out: Vec<u64> = Vec::new();
    let mut n: usize = 0;
    while n < v.len()
        invariant
            n <= v.len(),
            sorted_u64(out@),
            out@.to_multiset() == v@.subrange(0, n as int).to_multiset(),
        decreases v.len() - n,
    {
        let x = v[n];
        let mut p: usize = 0;
        while p < out.len() && out[p] <= x
            invariant
                p <= out.len(),
                sorted_u64(out@),
                forall|i: int| 0 <= i < p ==> #[trigger] out@[i] <= x,
            decreases out.len() - p,
        {
            p = p + 1;
        }
        let ghost before = out@;
        out.insert(p, x);
        proof {
            assert(out@ =~= before.insert(p as int, x));
            assert forall|i: int, j: int| 0 <= i < j < out@.len() implies #[trigger] out@[i] <= #[trigger] out@[j] by {
                if i < p && j > p {
                    assert(before[i] <= x);
                    assert(x < before[p as int]);
                    assert(before[p as int] <= before[j - 1] || p as int == j - 1);
                } else if i == p && j > p {
                    assert(x < before[p as int]);
                    assert(before[p as int] <= before[j - 1] || p as int == j - 1);
                } else if i > p {
                    assert(before[i - 1] <= before[j - 1]);
                }
            }
            vstd::seq_lib::to_multiset_insert(before, p as int, x);
            assert(v@.subrange(0, n + 1) =~= v@.subrange(0, n as int).push(x));
            vstd::seq_lib::to_multiset_build(v@.subrange(0, n as int), x);
        }
        n = n + 1;
    }
    assert(v@.subrange(0, n as int) =~= v@);
    out
}

/// A sorted list is fixed by its contents: two lists sorted in `String`'s
/// order with the same strings, counted with repeats, are the same list. So
/// each of `split_voice_members`' lists is the one sorted arrangement of its
/// ids.
pub proof fn law_sorted_lists_with_equal_contents_are_equal(a: Seq<Seq<char>>, b: Seq<Seq<char>>)
    requires
        sorted_lex(a),
        sorted_lex(b),
        a.to_multiset() == b.to_multiset(),
    ensures
        a == b,
    decreases a.len(),
{
    assert(a.len() == a.to_multiset().len());
    assert(b.len() == b.to_multiset().len());
    if a.len() == 0 {
        assert(a =~= b);
    } else {
        let x = a[0];
        let y = b[0];
        assert(a.contains(x));
        assert(a.to_multiset().count(x) > 0);
        assert(b.contains(x));
        let j = choose|j: int| 0 <= j < b.len() && b[j] == x;
        assert(b.contains(y));
        assert(b.to_multiset().count(y) > 0);
        assert(a.contains(y));
        let i = choose|i: int| 0 <= i < a.len() && a[i] == y;
        if j > 0 { assert(lex_le(b[0], b[j])); } else { lemma_lex_total(y, x); }
        if i > 0 { assert(lex_le(a[0], a[i])); } else { lemma_lex_total(x, y); }
        lemma_lex_antisymmetric(x, y);
        assert(a.remove(0) =~= a.drop_first());
        assert(b.remove(0) =~= b.drop_first());
        assert(a.remove(0).to_multiset() =~= a.to_multiset().remove(x));
        assert(b.remove(0).to_multiset() =~= b.to_multiset().remove(y));
        let a1 = a.drop_first();
        let b1 = b.drop_first();
        assert forall|p: int, q: int| 0 <= p < q < a1.len() implies lex_le(#[trigger] a1[p], #[trigger] a1[q]) by {
            assert(lex_le(a[p + 1], a[q + 1]));
        }
        assert forall|p: int, q: int| 0 <= p < q < b1.len() implies lex_le(#[trigger] b1[p], #[trigger] b1[q]) by {
            assert(lex_le(b[p + 1], b[q + 1]));
        }
        law_sorted_lists_with_equal_contents_are_equal(a1, b1);
        assert(a =~= seq![x] + a1);
        assert(b =~= seq![y] + b1);
    }
}

} // verus!
