//! Queue votes and their points, the dislike ("붐따") threshold, repeat modes.

use vstd::prelude::*;
use crate::permissions::RemoteGuildSettings;
use crate::text::str_eq;

verus! {

/// Lowest and highest points a vote kind may be worth.
pub const VOTE_POINT_MIN: i32 = -10;
pub const VOTE_POINT_MAX: i32 = 10;

/// A vote on a queued song.
#[derive(Debug, Clone, Copy, PartialEq, Eq, Structural)]
pub enum QueueVoteKind {
    Like,
    SuperLike,
    Dislike,
}

pub open spec fn vote_key_spec(k: QueueVoteKind) -> Seq<char> {
    match k {
        QueueVoteKind::Like => "like"@,
        QueueVoteKind::SuperLike => "superLike"@,
        QueueVoteKind::Dislike => "dislike"@,
    }
}

impl QueueVoteKind {
    /// The name the API uses for this kind.
    pub fn api_key(self) -> (s: &'static str)
        ensures
            s@ == vote_key_spec(self),
    {
        match self {
            QueueVoteKind::Like => "like",
            QueueVoteKind::SuperLike => "superLike",
            QueueVoteKind::Dislike => "dislike",
        }
    }
}

/// Reads a vote kind; `superlike` is accepted too, anything else (empty,
/// `none`) means "no vote".
pub fn parse_vote_kind(value: &str) -> (r: Option<QueueVoteKind>)
    ensures
        r == (if value@ == "like"@ { Some(QueueVoteKind::Like) }
            else if value@ == "superLike"@ || value@ == "superlike"@ { Some(QueueVoteKind::SuperLike) }
            else if value@ == "dislike"@ { Some(QueueVoteKind::Dislike) }
            else { None }),
{
    if str_eq(value, "like") {
        Some(QueueVoteKind::Like)
    } else if str_eq(value, "superLike") || str_eq(value, "superlike") {
        Some(QueueVoteKind::SuperLike)
    } else if str_eq(value, "dislike") {
        Some(QueueVoteKind::Dislike)
    } else {
        None
    }
}

/// Reading the API name of a kind gives the kind back.
pub proof fn law_vote_kind_round_trip(k: QueueVoteKind)
    ensures
        (if vote_key_spec(k) == "like"@ { Some(QueueVoteKind::Like) }
            else if vote_key_spec(k) == "superLike"@ || vote_key_spec(k) == "superlike"@ { Some(QueueVoteKind::SuperLike) }
            else if vote_key_spec(k) == "dislike"@ { Some(QueueVoteKind::Dislike) }
            else { None }) == Some(k),
{
    reveal_strlit("like");
    reveal_strlit("superLike");
    reveal_strlit("superlike");
    reveal_strlit("dislike");
    assert("like"@ != "superLike"@ && "like"@ != "superlike"@ && "like"@ != "dislike"@) by {
        assert("like"@.len() != "superLike"@.len());
        assert("like"@.len() != "superlike"@.len());
        assert("like"@.len() != "dislike"@.len());
    }
    assert("superLike"@ != "dislike"@ && "superlike"@ != "dislike"@) by {
        assert("superLike"@.len() != "dislike"@.len());
    }
}

/// Points each vote kind (and each wait step) is worth.
#[derive(Debug, Clone, Copy, PartialEq, Eq, Structural)]
pub struct VotePoints {
    pub like: i32,
    pub dislike: i32,
    pub super_like: i32,
    pub wait: i32,
}

pub open spec fn clamp_point(v: i32) -> i32 {
    if v < VOTE_POINT_MIN { VOTE_POINT_MIN } else if v > VOTE_POINT_MAX { VOTE_POINT_MAX } else { v }
}

impl Default for VotePoints {
    fn default() -> (p: Self)
        ensures
            p == (VotePoints { like: 1i32, dislike: -1i32, super_like: 2i32, wait: 1i32 }),
    {
        VotePoints { like: 1, dislike: -1, super_like: 2, wait: 1 }
    }
}

fn clamp_one(v: i32) -> (r: i32)
    ensures
        r == clamp_point(v),
{
    if v < VOTE_POINT_MIN { VOTE_POINT_MIN } else if v > VOTE_POINT_MAX { VOTE_POINT_MAX } else { v }
}

impl VotePoints {
    /// Every value brought into `VOTE_POINT_MIN..=VOTE_POINT_MAX`.
    pub fn clamped(self) -> (p: VotePoints)
        ensures
            p == (VotePoints {
                like: clamp_point(self.like),
                dislike: clamp_point(self.dislike),
                super_like: clamp_point(self.super_like),
                wait: clamp_point(self.wait),
            }),
    {
        VotePoints {
            like: clamp_one(self.like),
            dislike: clamp_one(self.dislike),
            super_like: clamp_one(self.super_like),
            wait: clamp_one(self.wait),
        }
    }
}

/// A queue preview request: the sort mode and, optionally, points not saved yet.
#[derive(Debug, Clone)]
pub struct ModeQuery {
    pub mode: Option<String>,
    pub like_points: Option<i32>,
    pub dislike_points: Option<i32>,
    pub super_like_points: Option<i32>,
    pub wait_points: Option<i32>,
}

pub open spec fn or_base(v: Option<i32>, base: i32) -> i32 {
    match v { Some(x) => x, None => base }
}

impl ModeQuery {
    /// The sent points over the saved ones (unsent ones stay), clamped as saving would.
    pub fn points_over(&self, base: VotePoints) -> (p: VotePoints)
        ensures
            p == (VotePoints {
                like: clamp_point(or_base(self.like_points, base.like)),
                dislike: clamp_point(or_base(self.dislike_points, base.dislike)),
                super_like: clamp_point(or_base(self.super_like_points, base.super_like)),
                wait: clamp_point(or_base(self.wait_points, base.wait)),
            }),
    {
        VotePoints {
            like: match self.like_points { Some(v) => v, None => base.like },
            dislike: match self.dislike_points { Some(v) => v, None => base.dislike },
            super_like: match self.super_like_points { Some(v) => v, None => base.super_like },
            wait: match self.wait_points { Some(v) => v, None => base.wait },
        }.clamped()
    }
}

/// A queued song's score inputs.
#[derive(Debug, Clone, Copy, PartialEq, Eq, Structural)]
pub struct QueueScore {
    pub wait_score: i32,
    pub like_count: i32,
    pub super_like_count: i32,
    pub dislike_count: i32,
    /// A manual priority: positive for a pin, negative once sent down by dislikes.
    pub manual_priority: Option<i64>,
}

impl Default for QueueScore {
    fn default() -> (s: Self)
        ensures
            s == (QueueScore { wait_score: 0, like_count: 0, super_like_count: 0, dislike_count: 0, manual_priority: None }),
    {
        QueueScore { wait_score: 0, like_count: 0, super_like_count: 0, dislike_count: 0, manual_priority: None }
    }
}

pub open spec fn total_score_spec(s: QueueScore, p: VotePoints) -> int {
    s.wait_score * p.wait + s.like_count * p.like + s.super_like_count * p.super_like
        + s.dislike_count * p.dislike
}

impl QueueScore {
    /// Each count times its configured points, summed.
    pub fn total_score(&self, points: &VotePoints) -> (t: i128)
        ensures
            t == total_score_spec(*self, *points),
    {
        proof {
            assert(-0x8000_0000 * 0x8000_0000 <= (self.wait_score as int) * (points.wait as int) <= 0x8000_0000 * 0x8000_0000) by (nonlinear_arith)
                requires -0x8000_0000 <= self.wait_score < 0x8000_0000, -0x8000_0000 <= points.wait < 0x8000_0000;
            assert(-0x8000_0000 * 0x8000_0000 <= (self.like_count as int) * (points.like as int) <= 0x8000_0000 * 0x8000_0000) by (nonlinear_arith)
                requires -0x8000_0000 <= self.like_count < 0x8000_0000, -0x8000_0000 <= points.like < 0x8000_0000;
            assert(-0x8000_0000 * 0x8000_0000 <= (self.super_like_count as int) * (points.super_like as int) <= 0x8000_0000 * 0x8000_0000) by (nonlinear_arith)
                requires -0x8000_0000 <= self.super_like_count < 0x8000_0000, -0x8000_0000 <= points.super_like < 0x8000_0000;
            assert(-0x8000_0000 * 0x8000_0000 <= (self.dislike_count as int) * (points.dislike as int) <= 0x8000_0000 * 0x8000_0000) by (nonlinear_arith)
                requires -0x8000_0000 <= self.dislike_count < 0x8000_0000, -0x8000_0000 <= points.dislike < 0x8000_0000;
        }
        let a = (self.wait_score as i128) * (points.wait as i128);
        let b = (self.like_count as i128) * (points.like as i128);
        let c = (self.super_like_count as i128) * (points.super_like as i128);
        let d = (self.dislike_count as i128) * (points.dislike as i128);
        a + b + c + d
    }

    /// Enough dislikes to act: the feature is on, the threshold is set
    /// (`0` never fires), and the dislikes reached it.
    pub fn boomtta_triggered(&self, settings: &RemoteGuildSettings) -> (r: bool)
        ensures
            r == (settings.boomtta_enabled && settings.boomtta_threshold > 0
                && self.dislike_count >= settings.boomtta_threshold),
    {
        settings.boomtta_enabled && settings.boomtta_threshold > 0
            && self.dislike_count as i64 >= settings.boomtta_threshold as i64
    }
}

/// Dislikes past the threshold keep it triggered; below it, it is not.
pub proof fn law_boomtta_monotone(s: &RemoteGuildSettings, a: i32, b: i32)
    requires
        a <= b,
    ensures
        (s.boomtta_enabled && s.boomtta_threshold > 0 && a >= s.boomtta_threshold)
            ==> (s.boomtta_enabled && s.boomtta_threshold > 0 && b >= s.boomtta_threshold),
{
}

/// What happens to a song that reached the dislike threshold.
#[derive(Debug, Clone, Copy, PartialEq, Eq, Structural)]
pub enum BoomttaAction {
    /// Sent to the end of the queue.
    Bottom,
    /// Taken out of the queue.
    Remove,
}

pub open spec fn boomtta_key_spec(a: BoomttaAction) -> Seq<char> {
    match a {
        BoomttaAction::Bottom => "bottom"@,
        BoomttaAction::Remove => "remove"@,
    }
}

impl BoomttaAction {
    /// The stored name: `bottom` or `remove`.
    pub fn as_str(self) -> (s: &'static str)
        ensures
            s@ == boomtta_key_spec(self),
    {
        match self {
            BoomttaAction::Bottom => "bottom",
            BoomttaAction::Remove => "remove",
        }
    }

    /// Reads a stored name (exactly `bottom` or `remove`).
    pub fn parse(value: &str) -> (r: Option<BoomttaAction>)
        ensures
            r == (if value@ == "bottom"@ { Some(BoomttaAction::Bottom) }
                else if value@ == "remove"@ { Some(BoomttaAction::Remove) } else { None }),
    {
        if str_eq(value, "bottom") {
            Some(BoomttaAction::Bottom)
        } else if str_eq(value, "remove") {
            Some(BoomttaAction::Remove)
        } else {
            None
        }
    }
}

/// Repeat mode of the player.
#[derive(Debug, Clone, Copy, PartialEq, Eq, Structural)]
pub enum RepeatMode {
    Off,
    Track,
    Queue,
}

pub open spec fn repeat_key_spec(m: RepeatMode) -> Seq<char> {
    match m {
        RepeatMode::Off => "off"@,
        RepeatMode::Track => "track"@,
        RepeatMode::Queue => "queue"@,
    }
}

/// The wire name of a repeat mode.
pub fn repeat_key(mode: RepeatMode) -> (s: &'static str)
    ensures
        s@ == repeat_key_spec(mode),
{
    match mode {
        RepeatMode::Off => "off",
        RepeatMode::Track => "track",
        RepeatMode::Queue => "queue",
    }
}

/// Reads a repeat mode's wire name (exact, lower case).
pub fn parse_repeat(value: &str) -> (r: Option<RepeatMode>)
    ensures
        r is Some ==> repeat_key_spec(r->0) == value@,
        r is None ==> forall|m: RepeatMode| repeat_key_spec(m) != value@,
{
    if str_eq(value, "off") {
        Some(RepeatMode::Off)
    } else if str_eq(value, "track") {
        Some(RepeatMode::Track)
    } else if str_eq(value, "queue") {
        Some(RepeatMode::Queue)
    } else {
        None
    }
}

} // verus!
