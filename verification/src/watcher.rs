//! The per-server watcher that pushes changes to open remotes: what it
//! compares between two looks at the player, and what it sends.

use vstd::prelude::*;
use crate::control::{push_signed, signed_decimal};
use crate::scoring::{repeat_key, repeat_key_spec, RepeatMode};
use crate::text::{chars_of, owned, push_str, str_eq, string_of};

verus! {

/// One look at the player.
#[derive(Debug)]
pub struct PlaybackSample {
    /// When the current schedule started (milliseconds, as text), or empty.
    pub schedule_start: String,
    pub current_id: Option<String>,
    pub paused: bool,
    pub volume: i32,
    pub repeat: RepeatMode,
    pub voice_connected: bool,
    /// The song autoplay would pick next.
    pub next_id: Option<String>,
    pub queue_ids: Vec<String>,
}

pub open spec fn opt_text(o: Option<String>) -> Seq<char> {
    match o { Some(t) => t@, None => Seq::empty() }
}

pub open spec fn bool_text(b: bool) -> Seq<char> {
    if b { "true"@ } else { "false"@ }
}

/// `ids` joined with commas.
pub open spec fn joined(ids: Seq<String>) -> Seq<char>
    decreases ids.len(),
{
    if ids.len() == 0 {
        Seq::empty()
    } else if ids.len() == 1 {
        ids[0]@
    } else {
        joined(ids.drop_last()) + ","@ + ids.last()@
    }
}

/// What two looks are compared by: the schedule's start, the current song,
/// pause, volume, repeat mode, the voice connection, autoplay's next song
/// and the queue, joined with `|` (the queue last).
pub open spec fn signature_spec(p: PlaybackSample) -> Seq<char> {
    p.schedule_start@ + "|"@ + opt_text(p.current_id) + "|"@ + bool_text(p.paused) + "|"@
        + signed_decimal(p.volume as int) + "|"@ + repeat_key_spec(p.repeat) + "|"@ + bool_text(p.voice_connected)
        + "|"@ + opt_text(p.next_id) + "|"@ + joined(p.queue_ids@)
}

fn push_bool(out: &mut String, b: bool)
    ensures
        final(out)@ == old(out)@ + bool_text(b),
{
    if b { push_str(out, "true"); } else { push_str(out, "false"); }
}

fn push_opt(out: &mut String, o: &Option<String>)
    ensures
        final(out)@ == old(out)@ + opt_text(*o),
{
    match o {
        Some(t) => push_str(out, t.as_str()),
        None => { proof { assert(old(out)@ + Seq::<char>::empty() =~= old(out)@); } },
    }
}

/// See `signature_spec`.
pub fn playback_signature(p: &PlaybackSample) -> (s: String)
    ensures
        s@ == signature_spec(*p),
{
    let mut s = owned(p.schedule_start.as_str());
    push_str(&mut s, "|");
    push_opt(&mut s, &p.current_id);
    push_str(&mut s, "|");
    push_bool(&mut s, p.paused);
    push_str(&mut s, "|");
    push_signed(&mut s, p.volume);
    push_str(&mut s, "|");
    push_str(&mut s, repeat_key(p.repeat));
    push_str(&mut s, "|");
    push_bool(&mut s, p.voice_connected);
    push_str(&mut s, "|");
    push_opt(&mut s, &p.next_id);
    push_str(&mut s, "|");
    let mut i: usize = 0;
    let ghost head = s@;
    while i < p.queue_ids.len()
        invariant
            i <= p.queue_ids.len(),
            s@ == head + joined(p.queue_ids@.subrange(0, i as int)),
        decreases p.queue_ids.len() - i,
    {
        proof { assert(p.queue_ids@.subrange(0, i + 1).drop_last() =~= p.queue_ids@.subrange(0, i as int)); }
        if i > 0 {
            push_str(&mut s, ",");
        }
        push_str(&mut s, p.queue_ids[i].as_str());
        proof {
            if i == 0 {
                assert(joined(p.queue_ids@.subrange(0, 1)) == p.queue_ids@[0]@);
            }
            assert(s@ =~= head + joined(p.queue_ids@.subrange(0, i + 1)));
        }
        i = i + 1;
    }
    proof { assert(p.queue_ids@.subrange(0, p.queue_ids@.len() as int) =~= p.queue_ids@); }
    s
}

/// The text after the last `|`, or nothing when there is none.
pub open spec fn after_last_bar(s: Seq<char>) -> Seq<char> {
    if exists|i: int| 0 <= i < s.len() && s[i] == '|' {
        let i = choose|i: int| 0 <= i < s.len() && s[i] == '|' && forall|j: int| i < j < s.len() ==> s[j] != '|';
        s.subrange(i + 1, s.len() as int)
    } else {
        Seq::empty()
    }
}

fn tail_after_bar(s: &str) -> (t: String)
    ensures
        t@ == after_last_bar(s@),
{
    let v = chars_of(s);
    let mut i: usize = v.len();
    while i > 0
        invariant
            i <= v.len(),
            v@ == s@,
            forall|j: int| i <= j < v@.len() ==> v@[j] != '|',
        decreases i,
    {
        if v[i - 1] == '|' {
            let k = i - 1;
            let mut out: Vec<char> = Vec::new();
            let mut m = i;
            while m < v.len()
                invariant
                    i <= m <= v.len(),
                    out@ == v@.subrange(i as int, m as int),
                decreases v.len() - m,
            {
                out.push(v[m]);
                proof { assert(out@ =~= v@.subrange(i as int, m + 1)); }
                m = m + 1;
            }
            proof {
                let kk = k as int;
                assert(0 <= kk < s@.len() && s@[kk] == '|' && forall|j: int| kk < j < s@.len() ==> s@[j] != '|');
                let c = choose|x: int| 0 <= x < s@.len() && s@[x] == '|' && forall|j: int| x < j < s@.len() ==> s@[j] != '|';
                if c < kk { assert(s@[kk] != '|'); }
                if c > kk { assert(s@[c] != '|'); }
            }
            return string_of(&out);
        }
        i = i - 1;
    }
    proof {
        assert(!exists|x: int| 0 <= x < s@.len() && s@[x] == '|');
    }
    String::new()
}

/// What one look leads to.
#[derive(Debug, Clone, Copy, PartialEq, Eq, Structural)]
pub struct WatchAction {
    /// Send the presence (it changed).
    pub send_presence: bool,
    /// Send the playback state (the signature changed).
    pub send_playback: bool,
    /// The queue part of the signature changed too.
    pub queue_changed: bool,
}

/// What the watcher remembers between looks.
#[derive(Debug)]
pub struct WatchMemory {
    pub last_signature: String,
    pub last_presence: String,
}

impl WatchMemory {
    /// Nothing seen yet.
    pub fn new() -> (m: Self)
        ensures
            m.last_signature@ == Seq::<char>::empty(),
            m.last_presence@ == Seq::<char>::empty(),
    {
        WatchMemory { last_signature: String::new(), last_presence: String::new() }
    }

    /// One look: send what changed and remember it.
    pub fn step(&mut self, presence: String, signature: String) -> (a: WatchAction)
        ensures
            a.send_presence == (presence@ != old(self).last_presence@),
            a.send_playback == (signature@ != old(self).last_signature@),
            a.queue_changed == (a.send_playback
                && after_last_bar(old(self).last_signature@) != after_last_bar(signature@)),
            final(self).last_presence@ == presence@,
            final(self).last_signature@ == (if a.send_playback { signature@ } else { old(self).last_signature@ }),
    {
        let send_presence = !str_eq(presence.as_str(), self.last_presence.as_str());
        if send_presence {
            self.last_presence = presence;
        }
        if str_eq(signature.as_str(), self.last_signature.as_str()) {
            return WatchAction { send_presence, send_playback: false, queue_changed: false };
        }
        let before = tail_after_bar(self.last_signature.as_str());
        let after = tail_after_bar(signature.as_str());
        let queue_changed = !str_eq(before.as_str(), after.as_str());
        self.last_signature = signature;
        WatchAction { send_presence, send_playback: true, queue_changed }
    }
}

/// The eight fields of a look, as text, in signature order.
pub open spec fn fields(p: PlaybackSample) -> Seq<Seq<char>> {
    seq![p.schedule_start@, opt_text(p.current_id), bool_text(p.paused), signed_decimal(p.volume as int),
        repeat_key_spec(p.repeat), bool_text(p.voice_connected), opt_text(p.next_id), joined(p.queue_ids@)]
}

/// Eight texts joined with `|`.
pub open spec fn sig_of(f: Seq<Seq<char>>) -> Seq<char> {
    f[0] + "|"@ + f[1] + "|"@ + f[2] + "|"@ + f[3] + "|"@ + f[4] + "|"@ + f[5] + "|"@ + f[6] + "|"@ + f[7]
}

proof fn lemma_middle_differs(a: Seq<char>, x: Seq<char>, y: Seq<char>, b: Seq<char>)
    requires
        x != y,
    ensures
        a + x + b != a + y + b,
{
    if x.len() == y.len() {
        if forall|k: int| 0 <= k < x.len() ==> x[k] == y[k] {
            assert(x =~= y);
        }
        let k = choose|k: int| 0 <= k < x.len() && x[k] != y[k];
        assert((a + x + b)[a.len() + k] == x[k]);
        assert((a + y + b)[a.len() + k] == y[k]);
    } else {
        assert((a + x + b).len() != (a + y + b).len());
    }
}

proof fn lemma_field_0_differs(f: Seq<Seq<char>>, g: Seq<Seq<char>>)
    requires
        f.len() == 8,
        g.len() == 8,
        f[0] != g[0],
        forall|j: int| 0 <= j < 8 && j != 0 ==> f[j] == g[j],
    ensures
        sig_of(f) != sig_of(g),
{
    assert(f[1] == g[1]);
    assert(f[2] == g[2]);
    assert(f[3] == g[3]);
    assert(f[4] == g[4]);
    assert(f[5] == g[5]);
    assert(f[6] == g[6]);
    assert(f[7] == g[7]);
    let a = Seq::<char>::empty();
    let b = "|"@ + f[1] + "|"@ + f[2] + "|"@ + f[3] + "|"@ + f[4] + "|"@ + f[5] + "|"@ + f[6] + "|"@ + f[7];
    assert(sig_of(f) =~= a + f[0] + b);
    assert(sig_of(g) =~= a + g[0] + b);
    lemma_middle_differs(a, f[0], g[0], b);
}

proof fn lemma_field_1_differs(f: Seq<Seq<char>>, g: Seq<Seq<char>>)
    requires
        f.len() == 8,
        g.len() == 8,
        f[1] != g[1],
        forall|j: int| 0 <= j < 8 && j != 1 ==> f[j] == g[j],
    ensures
        sig_of(f) != sig_of(g),
{
    assert(f[0] == g[0]);
    assert(f[2] == g[2]);
    assert(f[3] == g[3]);
    assert(f[4] == g[4]);
    assert(f[5] == g[5]);
    assert(f[6] == g[6]);
    assert(f[7] == g[7]);
    let a = f[0] + "|"@;
    let b = "|"@ + f[2] + "|"@ + f[3] + "|"@ + f[4] + "|"@ + f[5] + "|"@ + f[6] + "|"@ + f[7];
    assert(sig_of(f) =~= a + f[1] + b);
    assert(sig_of(g) =~= a + g[1] + b);
    lemma_middle_differs(a, f[1], g[1], b);
}

proof fn lemma_field_2_differs(f: Seq<Seq<char>>, g: Seq<Seq<char>>)
    requires
        f.len() == 8,
        g.len() == 8,
        f[2] != g[2],
        forall|j: int| 0 <= j < 8 && j != 2 ==> f[j] == g[j],
    ensures
        sig_of(f) != sig_of(g),
{
    assert(f[0] == g[0]);
    assert(f[1] == g[1]);
    assert(f[3] == g[3]);
    assert(f[4] == g[4]);
    assert(f[5] == g[5]);
    assert(f[6] == g[6]);
    assert(f[7] == g[7]);
    let a = f[0] + "|"@ + f[1] + "|"@;
    let b = "|"@ + f[3] + "|"@ + f[4] + "|"@ + f[5] + "|"@ + f[6] + "|"@ + f[7];
    assert(sig_of(f) =~= a + f[2] + b);
    assert(sig_of(g) =~= a + g[2] + b);
    lemma_middle_differs(a, f[2], g[2], b);
}

proof fn lemma_field_3_differs(f: Seq<Seq<char>>, g: Seq<Seq<char>>)
    requires
        f.len() == 8,
        g.len() == 8,
        f[3] != g[3],
        forall|j: int| 0 <= j < 8 && j != 3 ==> f[j] == g[j],
    ensures
        sig_of(f) != sig_of(g),
{
    assert(f[0] == g[0]);
    assert(f[1] == g[1]);
    assert(f[2] == g[2]);
    assert(f[4] == g[4]);
    assert(f[5] == g[5]);
    assert(f[6] == g[6]);
    assert(f[7] == g[7]);
    let a = f[0] + "|"@ + f[1] + "|"@ + f[2] + "|"@;
    let b = "|"@ + f[4] + "|"@ + f[5] + "|"@ + f[6] + "|"@ + f[7];
    assert(sig_of(f) =~= a + f[3] + b);
    assert(sig_of(g) =~= a + g[3] + b);
    lemma_middle_differs(a, f[3], g[3], b);
}

proof fn lemma_field_4_differs(f: Seq<Seq<char>>, g: Seq<Seq<char>>)
    requires
        f.len() == 8,
        g.len() == 8,
        f[4] != g[4],
        forall|j: int| 0 <= j < 8 && j != 4 ==> f[j] == g[j],
    ensures
        sig_of(f) != sig_of(g),
{
    assert(f[0] == g[0]);
    assert(f[1] == g[1]);
    assert(f[2] == g[2]);
    assert(f[3] == g[3]);
    assert(f[5] == g[5]);
    assert(f[6] == g[6]);
    assert(f[7] == g[7]);
    let a = f[0] + "|"@ + f[1] + "|"@ + f[2] + "|"@ + f[3] + "|"@;
    let b = "|"@ + f[5] + "|"@ + f[6] + "|"@ + f[7];
    assert(sig_of(f) =~= a + f[4] + b);
    assert(sig_of(g) =~= a + g[4] + b);
    lemma_middle_differs(a, f[4], g[4], b);
}

proof fn lemma_field_5_differs(f: Seq<Seq<char>>, g: Seq<Seq<char>>)
    requires
        f.len() == 8,
        g.len() == 8,
        f[5] != g[5],
        forall|j: int| 0 <= j < 8 && j != 5 ==> f[j] == g[j],
    ensures
        sig_of(f) != sig_of(g),
{
    assert(f[0] == g[0]);
    assert(f[1] == g[1]);
    assert(f[2] == g[2]);
    assert(f[3] == g[3]);
    assert(f[4] == g[4]);
    assert(f[6] == g[6]);
    assert(f[7] == g[7]);
    let a = f[0] + "|"@ + f[1] + "|"@ + f[2] + "|"@ + f[3] + "|"@ + f[4] + "|"@;
    let b = "|"@ + f[6] + "|"@ + f[7];
    assert(sig_of(f) =~= a + f[5] + b);
    assert(sig_of(g) =~= a + g[5] + b);
    lemma_middle_differs(a, f[5], g[5], b);
}

proof fn lemma_field_6_differs(f: Seq<Seq<char>>, g: Seq<Seq<char>>)
    requires
        f.len() == 8,
        g.len() == 8,
        f[6] != g[6],
        forall|j: int| 0 <= j < 8 && j != 6 ==> f[j] == g[j],
    ensures
        sig_of(f) != sig_of(g),
{
    assert(f[0] == g[0]);
    assert(f[1] == g[1]);
    assert(f[2] == g[2]);
    assert(f[3] == g[3]);
    assert(f[4] == g[4]);
    assert(f[5] == g[5]);
    assert(f[7] == g[7]);
    let a = f[0] + "|"@ + f[1] + "|"@ + f[2] + "|"@ + f[3] + "|"@ + f[4] + "|"@ + f[5] + "|"@;
    let b = "|"@ + f[7];
    assert(sig_of(f) =~= a + f[6] + b);
    assert(sig_of(g) =~= a + g[6] + b);
    lemma_middle_differs(a, f[6], g[6], b);
}

proof fn lemma_field_7_differs(f: Seq<Seq<char>>, g: Seq<Seq<char>>)
    requires
        f.len() == 8,
        g.len() == 8,
        f[7] != g[7],
        forall|j: int| 0 <= j < 8 && j != 7 ==> f[j] == g[j],
    ensures
        sig_of(f) != sig_of(g),
{
    assert(f[0] == g[0]);
    assert(f[1] == g[1]);
    assert(f[2] == g[2]);
    assert(f[3] == g[3]);
    assert(f[4] == g[4]);
    assert(f[5] == g[5]);
    assert(f[6] == g[6]);
    let a = f[0] + "|"@ + f[1] + "|"@ + f[2] + "|"@ + f[3] + "|"@ + f[4] + "|"@ + f[5] + "|"@ + f[6] + "|"@;
    let b = Seq::<char>::empty();
    assert(sig_of(f) =~= a + f[7] + b);
    assert(sig_of(g) =~= a + g[7] + b);
    lemma_middle_differs(a, f[7], g[7], b);
}

proof fn lemma_fields_differ(f: Seq<Seq<char>>, g: Seq<Seq<char>>, i: int)
    requires
        f.len() == 8,
        g.len() == 8,
        0 <= i < 8,
        f[i] != g[i],
        forall|j: int| 0 <= j < 8 && j != i ==> f[j] == g[j],
    ensures
        sig_of(f) != sig_of(g),
{
    if i == 0 { lemma_field_0_differs(f, g); }
    else if i == 1 { lemma_field_1_differs(f, g); }
    else if i == 2 { lemma_field_2_differs(f, g); }
    else if i == 3 { lemma_field_3_differs(f, g); }
    else if i == 4 { lemma_field_4_differs(f, g); }
    else if i == 5 { lemma_field_5_differs(f, g); }
    else if i == 6 { lemma_field_6_differs(f, g); }
    else { lemma_field_7_differs(f, g); }
}

proof fn lemma_digit_char_is_digit(d: nat)
    ensures
        crate::text::digit_char(d) != '-',
        d < 10 ==> crate::text::digit_value(crate::text::digit_char(d)) == d,
{
    if d == 0 {} else if d == 1 {} else if d == 2 {} else if d == 3 {} else if d == 4 {}
    else if d == 5 {} else if d == 6 {} else if d == 7 {} else if d == 8 {} else {}
}

proof fn lemma_decimal_value(n: nat)
    ensures
        crate::text::decimal(n).len() > 0,
        crate::text::decimal(n)[0] != '-',
        crate::text::digits_value(crate::text::decimal(n)) == n,
    decreases n,
{
    let d = crate::text::decimal(n);
    if n < 10 {
        lemma_digit_char_is_digit(n);
        assert(d =~= seq![crate::text::digit_char(n)]);
        assert(d.drop_last() =~= Seq::<char>::empty());
        assert(crate::text::digits_value(d) == crate::text::digits_value(d.drop_last()) * 10 + crate::text::digit_value(d.last()));
    } else {
        lemma_digit_char_is_digit(n % 10);
        lemma_decimal_value(n / 10);
        assert(d == crate::text::decimal(n / 10).push(crate::text::digit_char(n % 10)));
        assert(d.drop_last() =~= crate::text::decimal(n / 10));
        assert(crate::text::digits_value(d) == crate::text::digits_value(d.drop_last()) * 10 + crate::text::digit_value(d.last()));
        assert(d[0] == crate::text::decimal(n / 10)[0]);
        assert((n / 10) * 10 + n % 10 == n);
    }
}

proof fn lemma_signed_decimal_injective(v: int, w: int)
    requires
        v != w,
    ensures
        signed_decimal(v) != signed_decimal(w),
{
    reveal_strlit("-");
    lemma_decimal_value(if v < 0 { (-v) as nat } else { v as nat });
    lemma_decimal_value(if w < 0 { (-w) as nat } else { w as nat });
    if v < 0 && w < 0 {
        assert(signed_decimal(v).drop_first() =~= crate::text::decimal((-v) as nat));
        assert(signed_decimal(w).drop_first() =~= crate::text::decimal((-w) as nat));
    } else if v < 0 {
        assert(signed_decimal(v)[0] == '-');
    } else if w < 0 {
        assert(signed_decimal(w)[0] == '-');
    }
}

/// Two looks at the player that differ in any one field (all others alike)
/// have different signatures, so the watcher sends the change: a different
/// schedule, current song, pause, volume, repeat mode, voice connection,
/// autoplay's next song or queue. Songs and queues are told apart by their
/// text.
pub proof fn law_any_change_changes_the_signature(p: PlaybackSample, q: PlaybackSample, i: int)
    requires
        0 <= i < 8,
        fields(p)[i] != fields(q)[i],
        forall|j: int| 0 <= j < 8 && j != i ==> fields(p)[j] == fields(q)[j],
    ensures
        signature_spec(p) != signature_spec(q),
{
    assert(signature_spec(p) == sig_of(fields(p)));
    assert(signature_spec(q) == sig_of(fields(q)));
    lemma_fields_differ(fields(p), fields(q), i);
}

/// The fields that are not text differ as text whenever they differ: pause,
/// volume, repeat mode and the voice connection.
pub proof fn law_fields_differ_as_text(p: PlaybackSample, q: PlaybackSample)
    ensures
        p.paused != q.paused ==> fields(p)[2] != fields(q)[2],
        p.volume != q.volume ==> fields(p)[3] != fields(q)[3],
        p.repeat != q.repeat ==> fields(p)[4] != fields(q)[4],
        p.voice_connected != q.voice_connected ==> fields(p)[5] != fields(q)[5],
        opt_text(p.next_id) != opt_text(q.next_id) ==> fields(p)[6] != fields(q)[6],
{
    reveal_strlit("true");
    reveal_strlit("false");
    reveal_strlit("off");
    reveal_strlit("track");
    reveal_strlit("queue");
    assert("true"@.len() != "false"@.len());
    assert("off"@.len() != "track"@.len() && "off"@.len() != "queue"@.len() && "track"@[0] != "queue"@[0]);
    if p.volume != q.volume {
        lemma_signed_decimal_injective(p.volume as int, q.volume as int);
    }
}

} // verus!
