//! Settings the bot owner locked for every server: a server's save that
//! would change one of them is refused, naming what is locked.

use vstd::prelude::*;
use crate::access::Denial;
use crate::text::{push_str, str_eq};

verus! {

/// One locked setting: its key in the save body, its label for people,
/// and the value the owner forced, as JSON text (`None`: no value kept).
#[derive(Debug, Clone)]
pub struct LockedKey {
    pub key: String,
    pub label: String,
    pub value: Option<String>,
}

/// The value sent for `key`: the first entry of the body with that key.
pub open spec fn sent_value(sent: Seq<(String, String)>, key: Seq<char>) -> Option<Seq<char>>
    decreases sent.len(),
{
    if sent.len() == 0 {
        None
    } else if sent[0].0@ == key {
        Some(sent[0].1@)
    } else {
        sent_value(sent.drop_first(), key)
    }
}

/// Whether the body tries to change the locked setting `l`: it sends the key
/// with a value other than the forced one. Sending the forced value back is
/// no attempt.
pub open spec fn attempts(l: LockedKey, sent: Seq<(String, String)>) -> bool {
    match sent_value(sent, l.key@) {
        Some(v) => match l.value { Some(f) => v != f@, None => true },
        None => false,
    }
}

/// The locked settings the body tries to change, in the order of `locked`.
pub open spec fn attempted(locked: Seq<LockedKey>, sent: Seq<(String, String)>) -> Seq<LockedKey>
    decreases locked.len(),
{
    if locked.len() == 0 {
        Seq::empty()
    } else {
        let rest = attempted(locked.drop_last(), sent);
        if attempts(locked.last(), sent) { rest.push(locked.last()) } else { rest }
    }
}

pub open spec fn key_of(l: LockedKey) -> Seq<char> {
    l.key@
}

pub open spec fn label_of(l: LockedKey) -> Seq<char> {
    l.label@
}

/// `labels` joined with `", "`.
pub open spec fn comma_joined(labels: Seq<Seq<char>>) -> Seq<char>
    decreases labels.len(),
{
    if labels.len() == 0 {
        Seq::empty()
    } else if labels.len() == 1 {
        labels[0]
    } else {
        comma_joined(labels.drop_last()) + ", "@ + labels.last()
    }
}

fn sent_value_exec(sent: &Vec<(String, String)>, key: &str) -> (r: Option<usize>)
    ensures
        match r {
            Some(i) => i < sent@.len() && sent_value(sent@, key@) == Some(sent@[i as int].1@),
            None => sent_value(sent@, key@) is None,
        },
{
    let mut i: usize = 0;
    proof { assert(sent@.skip(0) =~= sent@); }
    while i < sent.len()
        invariant
            i <= sent.len(),
            sent_value(sent@, key@) == sent_value(sent@.skip(i as int), key@),
        decreases sent.len() - i,
    {
        proof { assert(sent@.skip(i as int).drop_first() =~= sent@.skip(i + 1)); }
        if str_eq(sent[i].0.as_str(), key) {
            return Some(i);
        }
        i = i + 1;
    }
    proof { assert(sent@.skip(i as int) =~= Seq::<(String, String)>::empty()); }
    None
}

/// Whether the body tries to change `l` (see `attempts`).
fn attempts_exec(l: &LockedKey, sent: &Vec<(String, String)>) -> (r: bool)
    ensures
        r == attempts(*l, sent@),
{
    match sent_value_exec(sent, l.key.as_str()) {
        Some(i) => match &l.value {
            Some(f) => !str_eq(sent[i].1.as_str(), f.as_str()),
            None => true,
        },
        None => false,
    }
}

/// The keys (`want_labels` false) or labels (true) of `attempted(locked, sent)`.
fn attempted_texts(locked: &Vec<LockedKey>, sent: &Vec<(String, String)>, want_labels: bool) -> (r: Vec<String>)
    ensures
        r@.map_values(|s: String| s@) == attempted(locked@, sent@).map_values(
            |l: LockedKey| if want_labels { label_of(l) } else { key_of(l) }),
{
    let ghost f = |l: LockedKey| if want_labels { label_of(l) } else { key_of(l) };
    let mut r: Vec<String> = Vec::new();
    let mut i: usize = 0;
    proof { assert(r@.map_values(|s: String| s@) =~= attempted(locked@.subrange(0, 0), sent@).map_values(f)); }
    while i < locked.len()
        invariant
            i <= locked.len(),
            f == (|l: LockedKey| if want_labels { label_of(l) } else { key_of(l) }),
            r@.map_values(|s: String| s@) == attempted(locked@.subrange(0, i as int), sent@).map_values(f),
        decreases locked.len() - i,
    {
        proof {
            assert(locked@.subrange(0, i + 1).drop_last() =~= locked@.subrange(0, i as int));
            assert(locked@.subrange(0, i + 1).last() == locked@[i as int]);
        }
        if attempts_exec(&locked[i], sent) {
            let t = if want_labels { locked[i].label.clone() } else { locked[i].key.clone() };
            let ghost old_r = r@;
            r.push(t);
            proof {
                assert(t@ == f(locked@[i as int]));
                assert(attempted(locked@.subrange(0, i + 1), sent@)
                    == attempted(locked@.subrange(0, i as int), sent@).push(locked@[i as int]));
                assert(r@ == old_r.push(t));
                let a = attempted(locked@.subrange(0, i as int), sent@);
                let b = attempted(locked@.subrange(0, i + 1), sent@);
                assert(old_r.map_values(|s: String| s@) == a.map_values(f));
                assert(old_r.map_values(|s: String| s@).len() == old_r.len());
                assert(a.map_values(f).len() == a.len());
                assert(old_r.len() == a.len());
                assert(b == a.push(locked@[i as int]));
                assert forall|j: int| 0 <= j < r@.len() implies
                    r@.map_values(|s: String| s@)[j] == b.map_values(f)[j] && #[trigger] r@[j] == r@[j] by {
                    if j < old_r.len() {
                        assert(r@[j] == old_r[j]);
                        assert(old_r.map_values(|s: String| s@)[j] == a.map_values(f)[j]);
                        assert(b[j] == a[j]);
                    }
                }
                assert(r@.map_values(|s: String| s@) =~= attempted(locked@.subrange(0, i + 1), sent@).map_values(f));
            }
        } else {
            proof {
                assert(attempted(locked@.subrange(0, i + 1), sent@) == attempted(locked@.subrange(0, i as int), sent@));
            }
        }
        i = i + 1;
    }
    proof { assert(locked@.subrange(0, i as int) =~= locked@); }
    r
}

/// The keys of the locked settings that `sent` (the save body's keys and
/// values, values as JSON text) tries to change (see `attempted`).
pub fn attempted_locked_keys(locked: &Vec<LockedKey>, sent: &Vec<(String, String)>) -> (r: Vec<String>)
    ensures
        r@.map_values(|s: String| s@) == attempted(locked@, sent@).map_values(|l: LockedKey| key_of(l)),
{
    let r = attempted_texts(locked, sent, false);
    proof {
        assert(attempted(locked@, sent@).map_values(|l: LockedKey| if false { label_of(l) } else { key_of(l) })
            =~= attempted(locked@, sent@).map_values(|l: LockedKey| key_of(l)));
    }
    r
}

/// A save that tries to change a locked setting is refused with 403 and the
/// message "labels — reason" (labels joined with `", "`); any other save
/// passes (`None`). `reason` is the sentence explaining owner locks.
pub fn override_lock_refusal(locked: &Vec<LockedKey>, sent: &Vec<(String, String)>, reason: &str) -> (r: Option<Denial>)
    ensures
        r is None <==> attempted(locked@, sent@).len() == 0,
        r matches Some(d) ==> d.status == 403
            && d.message@ == comma_joined(attempted(locked@, sent@).map_values(|l: LockedKey| label_of(l))) + " — "@ + reason@,
{
    let labels = attempted_texts(locked, sent, true);
    let ghost ls = attempted(locked@, sent@).map_values(|l: LockedKey| label_of(l));
    proof {
        assert(attempted(locked@, sent@).map_values(|l: LockedKey| if true { label_of(l) } else { key_of(l) }) =~= ls);
        assert(labels@.map_values(|s: String| s@).len() == labels@.len());
        assert(labels@.len() == ls.len());
    }
    if labels.len() == 0 {
        return None;
    }
    let mut message = String::new();
    let mut i: usize = 0;
    while i < labels.len()
        invariant
            1 <= labels@.len(),
            i <= labels@.len(),
            labels@.map_values(|s: String| s@) == ls,
            message@ == comma_joined(ls.subrange(0, i as int)),
        decreases labels.len() - i,
    {
        proof {
            let sub = ls.subrange(0, i + 1);
            assert(sub.drop_last() =~= ls.subrange(0, i as int));
            assert(sub.last() == labels@[i as int]@);
            if i == 0 {
                assert(sub.len() == 1);
                assert(ls.subrange(0, 0) =~= Seq::<Seq<char>>::empty());
            }
        }
        if i > 0 {
            push_str(&mut message, ", ");
        }
        push_str(&mut message, labels[i].as_str());
        proof {
            let sub = ls.subrange(0, i + 1);
            if i == 0 {
                assert(message@ =~= labels@[0]@);
            } else {
                assert(message@ =~= comma_joined(sub.drop_last()) + ", "@ + sub.last());
            }
        }
        i = i + 1;
    }
    proof { assert(ls.subrange(0, i as int) =~= ls); }
    push_str(&mut message, " — ");
    push_str(&mut message, reason);
    Some(Denial { status: 403, message })
}

} // verus!
