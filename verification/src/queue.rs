//! Queue limits (`0` is unlimited), track length limits, and planning a bulk
//! enqueue under those limits.

use vstd::prelude::*;
use crate::text::{push_decimal, push_str, str_eq, decimal};

verus! {

/// A configured limit: `Some(n)` for a positive setting, `None` (unlimited) otherwise.
pub fn as_limit(value: i32) -> (r: Option<u32>)
    ensures
        r == (if value > 0 { Some(value as u32) } else { None }),
{
    if value > 0 { Some(value as u32) } else { None }
}

/// The same reading of a limit, for limits counted in `u32`.
pub fn as_limit_u32(value: u32) -> (r: Option<u32>)
    ensures
        r == (if value > 0 { Some(value) } else { None }),
{
    if value > 0 { Some(value) } else { None }
}

/// Whether reaching `would_be` breaks `limit` (`0` or less never does).
pub fn limit_blocks(limit: i32, would_be: usize) -> (r: bool)
    ensures
        r == (limit > 0 && would_be > limit),
{
    match as_limit(limit) {
        Some(l) => would_be > l as usize,
        None => false,
    }
}

/// Setting validation: `0` (unlimited) always passes, otherwise `min..=max`.
pub fn unlimited_or(value: i32, min: i32, max: i32) -> (r: bool)
    ensures
        r == (value == 0 || (min <= value && value <= max)),
{
    value == 0 || (min <= value && value <= max)
}

/// Where a track comes from.
#[derive(Debug, Clone, Copy, PartialEq, Eq, Structural)]
pub enum ProviderKind {
    YouTube,
    YouTubeMusic,
    SoundCloud,
}

/// The provider a search or a chart names: `"SoundCloud"` and
/// `"YouTubeMusic"` name theirs, anything else (or nothing) is YouTube.
pub open spec fn provider_named_spec(name: Option<Seq<char>>) -> ProviderKind {
    if name == Some("SoundCloud"@) {
        ProviderKind::SoundCloud
    } else if name == Some("YouTubeMusic"@) {
        ProviderKind::YouTubeMusic
    } else {
        ProviderKind::YouTube
    }
}

/// See `provider_named_spec`.
pub fn provider_named(name: Option<&str>) -> (p: ProviderKind)
    ensures
        p == provider_named_spec(match name { Some(n) => Some(n@), None => None }),
{
    match name {
        Some(n) => {
            if crate::text::str_eq(n, "SoundCloud") {
                ProviderKind::SoundCloud
            } else if crate::text::str_eq(n, "YouTubeMusic") {
                ProviderKind::YouTubeMusic
            } else {
                ProviderKind::YouTube
            }
        }
        None => ProviderKind::YouTube,
    }
}

/// A playable track.
#[derive(Debug, Clone)]
pub struct TrackRef {
    pub provider: ProviderKind,
    pub content_id: String,
    pub source_url: String,
    pub title: Option<String>,
    pub artist: Option<String>,
    /// Length in milliseconds, when known.
    pub duration_ms: Option<u64>,
    pub variant_key: Option<String>,
}

pub open spec fn provider_key(p: ProviderKind) -> Seq<char> {
    match p {
        ProviderKind::YouTube => "youtube"@,
        ProviderKind::YouTubeMusic => "youtubemusic"@,
        ProviderKind::SoundCloud => "soundcloud"@,
    }
}

pub open spec fn cache_key_spec(t: &TrackRef) -> Seq<char> {
    provider_key(t.provider) + ":"@ + t.content_id@
}

impl TrackRef {
    /// The key duplicates are recognised by: `provider:content_id`.
    pub fn cache_key(&self) -> (k: String)
        ensures
            k@ == cache_key_spec(self),
    {
        let mut k = String::new();
        match self.provider {
            ProviderKind::YouTube => push_str(&mut k, "youtube"),
            ProviderKind::YouTubeMusic => push_str(&mut k, "youtubemusic"),
            ProviderKind::SoundCloud => push_str(&mut k, "soundcloud"),
        }
        push_str(&mut k, ":");
        push_str(&mut k, self.content_id.as_str());
        k
    }
}

/// Longer than the limit (`0` or less: no limit; unknown length: never too long).
pub open spec fn too_long_spec(max_seconds: i32, t: &TrackRef) -> bool {
    max_seconds > 0 && t.duration_ms is Some && t.duration_ms->0 > (max_seconds as int) * 1000
}

/// Whether `track` is longer than `max_seconds`.
pub fn track_too_long(max_seconds: i32, track: &TrackRef) -> (r: bool)
    ensures
        r == too_long_spec(max_seconds, track),
{
    match as_limit(max_seconds) {
        Some(max) => match track.duration_ms {
            Some(ms) => ms > (max as u64) * 1000,
            None => false,
        },
        None => false,
    }
}

/// Seconds between queue re-sorts for a queue of `len` songs.
pub fn queue_sort_interval_secs(len: usize) -> (s: u64)
    ensures
        s == (if len <= 500 { 5u64 } else { 15u64 }),
{
    if len <= 500 { 5 } else { 15 }
}

/// Room left under `limit` with `used` taken (`limit <= 0`: unlimited).
pub open spec fn room_spec(limit: i32, used: usize) -> nat {
    if limit <= 0 { usize::MAX as nat } else if used >= limit { 0 } else { (limit - used) as nat }
}

fn room(limit: i32, used: usize) -> (r: usize)
    ensures
        r == room_spec(limit, used),
{
    if limit <= 0 {
        usize::MAX
    } else if used >= limit as usize {
        0
    } else {
        (limit as usize) - used
    }
}

pub open spec fn min_nat(a: nat, b: nat) -> nat {
    if a <= b { a } else { b }
}

/// How many songs one bulk enqueue may add: the room under the server and
/// per-user queue limits and the per-call limit, whichever is smallest.
pub open spec fn bulk_cap_spec(max_per_guild: i32, queued: usize, max_per_user: i32, own: usize, per_call: u32) -> nat {
    let call = if per_call > 0 { per_call as nat } else { usize::MAX as nat };
    min_nat(min_nat(room_spec(max_per_guild, queued), room_spec(max_per_user, own)), call)
}

/// See `bulk_cap_spec`.
pub fn bulk_cap(max_per_guild: i32, queued: usize, max_per_user: i32, own: usize, per_call: u32) -> (c: usize)
    ensures
        c == bulk_cap_spec(max_per_guild, queued, max_per_user, own, per_call),
{
    let call = match as_limit_u32(per_call) {
        Some(l) => l as usize,
        None => usize::MAX,
    };
    let a = room(max_per_guild, queued);
    let b = room(max_per_user, own);
    let m = if a <= b { a } else { b };
    if m <= call { m } else { call }
}

/// What happens to one track of a bulk enqueue.
#[derive(Debug, Clone, Copy, PartialEq, Eq, Structural)]
pub enum BulkStep {
    /// Enqueued.
    Add,
    /// Left out: a duplicate, too long, blocked or unplayable.
    Skip,
    /// Left out: the limits are used up.
    Limit,
}

/// The plan for tracks with keys `keys`, where `ok[i]` says track `i` is
/// allowed at all, `seen` are the keys already queued and `added` the songs
/// added so far.
pub open spec fn plan_spec(keys: Seq<Seq<char>>, ok: Seq<bool>, seen: Set<Seq<char>>, added: nat, cap: nat) -> Seq<BulkStep>
    decreases keys.len(),
{
    if keys.len() == 0 || ok.len() == 0 {
        Seq::empty()
    } else if seen.contains(keys[0]) || !ok[0] {
        seq![BulkStep::Skip] + plan_spec(keys.drop_first(), ok.drop_first(), seen, added, cap)
    } else if added >= cap {
        seq![BulkStep::Limit] + plan_spec(keys.drop_first(), ok.drop_first(), seen, added, cap)
    } else {
        seq![BulkStep::Add] + plan_spec(keys.drop_first(), ok.drop_first(), seen.insert(keys[0]), added + 1, cap)
    }
}

pub open spec fn track_keys(tracks: Seq<TrackRef>) -> Seq<Seq<char>> {
    tracks.map_values(|t: TrackRef| cache_key_spec(&t))
}

pub open spec fn allowed_flags(tracks: Seq<TrackRef>, usable: Seq<bool>, max_seconds: i32) -> Seq<bool> {
    Seq::new(tracks.len(), |i: int| usable[i] && !too_long_spec(max_seconds, &tracks[i]))
}

pub open spec fn string_set(v: Seq<String>) -> Set<Seq<char>> {
    Set::new(|k: Seq<char>| exists|i: int| 0 <= i < v.len() && v[i]@ == k)
}

fn contains_key(keys: &Vec<String>, k: &str) -> (r: bool)
    ensures
        r == string_set(keys@).contains(k@),
{
    let mut i: usize = 0;
    while i < keys.len()
        invariant
            i <= keys.len(),
            forall|m: int| 0 <= m < i ==> keys@[m]@ != k@,
        decreases keys.len() - i,
    {
        if str_eq(keys[i].as_str(), k) {
            return true;
        }
        i = i + 1;
    }
    false
}

/// Plans a bulk enqueue. `usable[i]` is whether track `i` is neither blocked
/// nor unplayable; `existing` are the keys already queued; `cap` comes from
/// `bulk_cap`. Tracks are taken in order; a duplicate (of the queue or of an
/// earlier track) or an over-long track is skipped, and once `cap` songs are
/// added the rest that would be added are counted as limited.
pub fn plan_bulk(
    tracks: &[TrackRef],
    usable: &[bool],
    existing: &Vec<String>,
    max_track_seconds: i32,
    cap: usize,
) -> (steps: Vec<BulkStep>)
    requires
        tracks.len() == usable.len(),
    ensures
        steps@ == plan_spec(track_keys(tracks@), allowed_flags(tracks@, usable@, max_track_seconds),
            string_set(existing@), 0, cap as nat),
{
    let ghost keys = track_keys(tracks@);
    let ghost ok = allowed_flags(tracks@, usable@, max_track_seconds);
    let ghost whole = plan_spec(keys, ok, string_set(existing@), 0, cap as nat);
    let mut seen: Vec<String> = existing.clone();
    proof {
        assert(seen@.len() == existing@.len());
        assert forall|m: int| 0 <= m < seen@.len() implies seen@[m]@ == existing@[m]@ by {
            assert(vstd::pervasive::cloned::<String>(existing@[m], seen@[m]));
        }
        assert(string_set(seen@) =~= string_set(existing@));
    }
    let mut steps: Vec<BulkStep> = Vec::new();
    let mut added: usize = 0;
    let mut i: usize = 0;
    proof {
        assert(keys.skip(0) =~= keys);
        assert(ok.skip(0) =~= ok);
    }
    while i < tracks.len()
        invariant
            tracks.len() == usable.len(),
            keys == track_keys(tracks@),
            ok == allowed_flags(tracks@, usable@, max_track_seconds),
            whole == plan_spec(keys, ok, string_set(existing@), 0, cap as nat),
            i <= tracks.len(),
            added <= i,
            steps@ + plan_spec(keys.skip(i as int), ok.skip(i as int), string_set(seen@), added as nat, cap as nat) == whole,
        decreases tracks.len() - i,
    {
        let key = tracks[i].cache_key();
        let too_long = track_too_long(max_track_seconds, &tracks[i]);
        let ghost rest_k = keys.skip(i as int);
        let ghost rest_o = ok.skip(i as int);
        proof {
            assert(rest_k.len() > 0 && rest_o.len() > 0);
            assert(rest_k[0] == key@);
            assert(rest_o[0] == (usable@[i as int] && !too_long));
            assert(rest_k.drop_first() =~= keys.skip(i + 1));
            assert(rest_o.drop_first() =~= ok.skip(i + 1));
        }
        let dup = contains_key(&seen, key.as_str());
        if dup || !usable[i] || too_long {
            proof { assert(steps@.push(BulkStep::Skip) =~= steps@ + seq![BulkStep::Skip]); }
            steps.push(BulkStep::Skip);
            proof {
                assert(steps@ + plan_spec(keys.skip(i + 1), ok.skip(i + 1), string_set(seen@), added as nat, cap as nat) =~= whole);
            }
        } else if added >= cap {
            steps.push(BulkStep::Limit);
            proof {
                assert(steps@ + plan_spec(keys.skip(i + 1), ok.skip(i + 1), string_set(seen@), added as nat, cap as nat) =~= whole);
            }
        } else {
            let ghost seen_before = seen@;
            seen.push(key);
            added = added + 1;
            steps.push(BulkStep::Add);
            proof {
                assert(string_set(seen@) =~= string_set(seen_before).insert(rest_k[0])) by {
                    assert forall|k: Seq<char>| string_set(seen_before).insert(rest_k[0]).contains(k) implies string_set(seen@).contains(k) by {
                        if k == rest_k[0] {
                            assert(seen@[seen@.len() - 1]@ == k);
                        } else {
                            let m = choose|m: int| 0 <= m < seen_before.len() && seen_before[m]@ == k;
                            assert(seen@[m]@ == k);
                        }
                    }
                    assert forall|k: Seq<char>| string_set(seen@).contains(k) implies string_set(seen_before).insert(rest_k[0]).contains(k) by {
                        let m = choose|m: int| 0 <= m < seen@.len() && seen@[m]@ == k;
                        if m < seen_before.len() {
                            assert(seen_before[m]@ == k);
                        }
                    }
                }
                assert(steps@ + plan_spec(keys.skip(i + 1), ok.skip(i + 1), string_set(seen@), added as nat, cap as nat) =~= whole);
            }
        }
        i = i + 1;
    }
    proof {
        assert(keys.skip(i as int).len() == 0);
        assert(steps@ =~= whole);
    }
    steps
}

/// Never more songs added than the cap allows.
pub proof fn law_plan_respects_cap(keys: Seq<Seq<char>>, ok: Seq<bool>, seen: Set<Seq<char>>, added: nat, cap: nat)
    requires
        added <= cap,
    ensures
        plan_spec(keys, ok, seen, added, cap).filter(|s: BulkStep| s == BulkStep::Add).len() <= cap - added,
        plan_spec(keys, ok, seen, added, cap).len() == (if keys.len() <= ok.len() { keys.len() } else { ok.len() }),
    decreases keys.len(),
{
    let p = plan_spec(keys, ok, seen, added, cap);
    let is_add = |s: BulkStep| s == BulkStep::Add;
    if keys.len() == 0 || ok.len() == 0 {
        assert(p.filter(is_add) =~= Seq::<BulkStep>::empty());
    } else {
        let k0 = keys[0];
        if seen.contains(k0) || !ok[0] {
            law_plan_respects_cap(keys.drop_first(), ok.drop_first(), seen, added, cap);
            let tail = plan_spec(keys.drop_first(), ok.drop_first(), seen, added, cap);
            assert(p == seq![BulkStep::Skip] + tail);
            Seq::<BulkStep>::filter_distributes_over_add(seq![BulkStep::Skip], tail, is_add);
            assert(seq![BulkStep::Skip].filter(is_add) =~= Seq::<BulkStep>::empty()) by {
                assert(seq![BulkStep::Skip] =~= Seq::<BulkStep>::empty().push(BulkStep::Skip));
                Seq::<BulkStep>::empty().lemma_filter_push(BulkStep::Skip, is_add);
                assert(Seq::<BulkStep>::empty().filter(is_add) =~= Seq::<BulkStep>::empty()) by {
                    reveal(Seq::filter);
                }
            }
        } else if added >= cap {
            law_plan_respects_cap(keys.drop_first(), ok.drop_first(), seen, added, cap);
            let tail = plan_spec(keys.drop_first(), ok.drop_first(), seen, added, cap);
            Seq::<BulkStep>::filter_distributes_over_add(seq![BulkStep::Limit], tail, is_add);
            assert(seq![BulkStep::Limit].filter(is_add) =~= Seq::<BulkStep>::empty()) by {
                assert(seq![BulkStep::Limit] =~= Seq::<BulkStep>::empty().push(BulkStep::Limit));
                Seq::<BulkStep>::empty().lemma_filter_push(BulkStep::Limit, is_add);
                assert(Seq::<BulkStep>::empty().filter(is_add) =~= Seq::<BulkStep>::empty()) by {
                    reveal(Seq::filter);
                }
            }
        } else {
            law_plan_respects_cap(keys.drop_first(), ok.drop_first(), seen.insert(k0), added + 1, cap);
            let tail = plan_spec(keys.drop_first(), ok.drop_first(), seen.insert(k0), added + 1, cap);
            Seq::<BulkStep>::filter_distributes_over_add(seq![BulkStep::Add], tail, is_add);
            assert(seq![BulkStep::Add].filter(is_add) =~= seq![BulkStep::Add]) by {
                reveal(Seq::filter);
            }
        }
    }
}

/// The result of a bulk enqueue.
#[derive(Debug, Clone)]
pub struct BulkOutcome {
    pub source: String,
    pub added: usize,
    /// Left out as duplicate, too long, blocked or unplayable.
    pub skipped: usize,
    /// Left out because the limits were used up.
    pub limited: usize,
}

/// The sentence that reports a bulk enqueue, saying how many songs went in
/// and why the others did not.
pub open spec fn bulk_message_spec(source: Seq<char>, added: nat, skipped: nat, limited: nat) -> Seq<char> {
    if added == 0 {
        source + " 에서 담을 수 있는 곡이 없었어요."@
            + (if limited > 0 { " 대기열이 꽉 찼어요."@ } else { Seq::empty() })
    } else {
        source + " 에서 "@ + decimal(added) + "곡을 담았어요."@
            + (if limited > 0 { " 대기열 한도 때문에 "@ + decimal(limited) + "곡은 못 담았어요."@ } else { Seq::empty() })
            + (if skipped > 0 { " 차단·길이 제한·중복으로 "@ + decimal(skipped) + "곡은 건너뛰었어요."@ } else { Seq::empty() })
    }
}

impl BulkOutcome {
    /// Counts a plan's steps.
    pub fn tally(source: String, steps: &Vec<BulkStep>) -> (o: BulkOutcome)
        ensures
            o.source@ == source@,
            o.added == steps@.filter(|s: BulkStep| s == BulkStep::Add).len(),
            o.skipped == steps@.filter(|s: BulkStep| s == BulkStep::Skip).len(),
            o.limited == steps@.filter(|s: BulkStep| s == BulkStep::Limit).len(),
    {
        let ghost pa = |s: BulkStep| s == BulkStep::Add;
        let ghost ps = |s: BulkStep| s == BulkStep::Skip;
        let ghost pl = |s: BulkStep| s == BulkStep::Limit;
        let mut added: usize = 0;
        let mut skipped: usize = 0;
        let mut limited: usize = 0;
        let mut i: usize = 0;
        while i < steps.len()
            invariant
                i <= steps.len(),
                pa == (|s: BulkStep| s == BulkStep::Add),
                ps == (|s: BulkStep| s == BulkStep::Skip),
                pl == (|s: BulkStep| s == BulkStep::Limit),
                added == steps@.take(i as int).filter(pa).len(),
                skipped == steps@.take(i as int).filter(ps).len(),
                limited == steps@.take(i as int).filter(pl).len(),
                added + skipped + limited == i,
            decreases steps.len() - i,
        {
            proof {
                assert(steps@.take(i + 1) =~= steps@.take(i as int).push(steps@[i as int]));
                steps@.take(i as int).lemma_filter_push(steps@[i as int], pa);
                steps@.take(i as int).lemma_filter_push(steps@[i as int], ps);
                steps@.take(i as int).lemma_filter_push(steps@[i as int], pl);
            }
            match steps[i] {
                BulkStep::Add => { added = added + 1; }
                BulkStep::Skip => { skipped = skipped + 1; }
                BulkStep::Limit => { limited = limited + 1; }
            }
            i = i + 1;
        }
        proof { assert(steps@.take(i as int) =~= steps@); }
        BulkOutcome { source, added, skipped, limited }
    }

    /// The report sentence (see `bulk_message_spec`).
    pub fn message(&self) -> (text: String)
        ensures
            text@ == bulk_message_spec(self.source@, self.added as nat, self.skipped as nat, self.limited as nat),
    {
        let mut text = String::new();
        push_str(&mut text, self.source.as_str());
        if self.added == 0 {
            push_str(&mut text, " 에서 담을 수 있는 곡이 없었어요.");
            if self.limited > 0 {
                push_str(&mut text, " 대기열이 꽉 찼어요.");
            }
        } else {
            push_str(&mut text, " 에서 ");
            push_decimal(&mut text, self.added as u64);
            push_str(&mut text, "곡을 담았어요.");
            if self.limited > 0 {
                push_str(&mut text, " 대기열 한도 때문에 ");
                push_decimal(&mut text, self.limited as u64);
                push_str(&mut text, "곡은 못 담았어요.");
            }
            if self.skipped > 0 {
                push_str(&mut text, " 차단·길이 제한·중복으로 ");
                push_decimal(&mut text, self.skipped as u64);
                push_str(&mut text, "곡은 건너뛰었어요.");
            }
        }
        proof {
            let s = self.source@;
            let a = self.added as nat;
            let k = self.skipped as nat;
            let l = self.limited as nat;
            assert(text@ =~= bulk_message_spec(s, a, k, l));
        }
        text
    }
}

} // verus!
