//! What a visitor without sign-in may see of a server's playback: song
//! titles only, never who asked for them.

use vstd::prelude::*;
use crate::access::Denial;
use crate::text::owned;

verus! {

/// How many upcoming songs the public page lists.
pub const PUBLIC_UPCOMING_MAX: usize = 5;

/// The title shown for a song that has none.
pub const UNTITLED: &'static str = "제목 없음";

/// The refusal for a server whose page is not public.
pub const NOT_PUBLIC: &'static str = "여기서는 볼 수 없어요.";

/// The public view of a server's queue. It has no field for requesters.
#[derive(Debug, Clone, PartialEq, Eq)]
pub struct PublicFeed {
    /// The playing song's title, when a song is playing.
    pub current_title: Option<String>,
    /// The playing song's artist, when one is playing and has one.
    pub current_artist: Option<String>,
    /// The titles of the next songs, at most `PUBLIC_UPCOMING_MAX`.
    pub upcoming_titles: Vec<String>,
    /// How many songs wait in all.
    pub queue_total: usize,
}

/// A song's title, or `UNTITLED`.
pub open spec fn shown_title(t: Option<String>) -> Seq<char> {
    match t {
        Some(s) => s@,
        None => UNTITLED@,
    }
}

/// The page is public exactly when the server is approved, the server chose
/// to publish it, and the bot is in the server.
pub open spec fn feed_open(approved: bool, published: bool, bot_in_guild: bool) -> bool {
    approved && published && bot_in_guild
}

fn copy_text(t: &Option<String>) -> (r: Option<String>)
    ensures
        r is Some <==> t is Some,
        r is Some ==> r->0@ == t->0@,
{
    match t {
        Some(s) => Some(s.clone()),
        None => None,
    }
}

fn title_of(t: &Option<String>) -> (r: String)
    ensures
        r@ == shown_title(*t),
{
    match t {
        Some(s) => s.clone(),
        None => owned(UNTITLED),
    }
}

/// The public view: refused with 404 (`NOT_PUBLIC`) unless `feed_open`;
/// otherwise the current title and artist (`current` is `None` when nothing
/// plays, and holds the song's title and artist where it has them), the first `PUBLIC_UPCOMING_MAX`
/// upcoming titles in queue order, and the queue's length.
pub fn public_feed(
    approved: bool,
    published: bool,
    bot_in_guild: bool,
    current: &Option<(Option<String>, Option<String>)>,
    upcoming: &Vec<Option<String>>,
) -> (r: Result<PublicFeed, Denial>)
    ensures
        r is Err <==> !feed_open(approved, published, bot_in_guild),
        r is Err ==> r->Err_0.status == 404 && r->Err_0.message@ == NOT_PUBLIC@,
        r matches Ok(f) ==> {
            &&& f.queue_total == upcoming@.len()
            &&& f.current_title is Some <==> current is Some
            &&& f.current_artist is Some <==> (*current matches Some(c) && c.1 is Some)
            &&& (*current matches Some(c) ==> f.current_title->0@ == shown_title(c.0))
            &&& (*current matches Some(c) ==> (c.1 is Some ==> f.current_artist->0@ == c.1->0@))
            &&& f.upcoming_titles@.len() == (if upcoming@.len() < PUBLIC_UPCOMING_MAX { upcoming@.len() } else { PUBLIC_UPCOMING_MAX as nat })
            &&& forall|i: int| 0 <= i < f.upcoming_titles@.len() ==> #[trigger] f.upcoming_titles@[i]@ == shown_title(upcoming@[i])
        },
{
    if !(approved && published && bot_in_guild) {
        return Err(Denial { status: 404, message: owned(NOT_PUBLIC) });
    }
    let (current_title, current_artist) = match current {
        Some((title, artist)) => (Some(title_of(title)), copy_text(artist)),
        None => (None, None),
    };
    let n = if upcoming.len() < PUBLIC_UPCOMING_MAX { upcoming.len() } else { PUBLIC_UPCOMING_MAX };
    let mut titles: Vec<String> = Vec::new();
    let mut i: usize = 0;
    while i < n
        invariant
            n <= upcoming.len(),
            i <= n,
            titles@.len() == i,
            forall|j: int| 0 <= j < i ==> #[trigger] titles@[j]@ == shown_title(upcoming@[j]),
        decreases n - i,
    {
        let t = title_of(&upcoming[i]);
        titles.push(t);
        i = i + 1;
    }
    Ok(PublicFeed { current_title, current_artist, upcoming_titles: titles, queue_total: upcoming.len() })
}

} // verus!
