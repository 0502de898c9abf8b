//! Where the bot is in voice, and who is listening with it.

use vstd::prelude::*;
use crate::sorting::{sort_strings, sorted_lex, views};
use crate::text::{decimal, decimal_string};

verus! {

broadcast use vstd::seq_lib::group_to_multiset_ensures;

/// Where the bot is in one server right now, as Discord's cache says.
#[derive(Debug, Clone)]
pub struct BotVoiceStatus {
    pub in_guild: bool,
    pub channel_id: Option<u64>,
    pub channel_name: Option<String>,
}

impl Default for BotVoiceStatus {
    fn default() -> (s: Self)
        ensures
            !s.in_guild,
            s.channel_id is None,
            s.channel_name is None,
    {
        BotVoiceStatus { in_guild: false, channel_id: None, channel_name: None }
    }
}

impl BotVoiceStatus {
    /// The bot is in a voice channel.
    pub fn in_voice(&self) -> (r: bool)
        ensures
            r == self.channel_id is Some,
    {
        self.channel_id.is_some()
    }
}

/// The bot's channel is what the cache says; a stored channel from an earlier
/// session is never taken for the present one.
pub fn authoritative_voice_channel(cache_says: Option<u64>, stored: Option<u64>) -> (r: Option<u64>)
    ensures
        r == cache_says,
{
    cache_says
}

/// In the bot's channel.
pub open spec fn listens(bot: Option<u64>, m: (u64, Option<u64>)) -> bool {
    m.1 is Some && bot == m.1
}

/// In some voice channel other than the bot's (any channel when the bot is in none).
pub open spec fn elsewhere(bot: Option<u64>, m: (u64, Option<u64>)) -> bool {
    m.1 is Some && bot != m.1
}

/// The decimal ids of the members satisfying `p`, in member order.
pub open spec fn ids_where(members: Seq<(u64, Option<u64>)>, p: spec_fn((u64, Option<u64>)) -> bool) -> Seq<Seq<char>> {
    members.filter(p).map_values(|m: (u64, Option<u64>)| decimal(m.0 as nat))
}

/// Splits the members in voice into those in the bot's channel ("listening")
/// and those in another channel, as sorted decimal id strings. Members in no
/// channel are left out. With the bot in no channel nobody is listening.
pub fn split_voice_members(
    bot_channel: Option<u64>,
    members: &[(u64, Option<u64>)],
) -> (r: (Vec<String>, Vec<String>))
    ensures
        sorted_lex(views(r.0@)),
        sorted_lex(views(r.1@)),
        views(r.0@).to_multiset() == ids_where(members@, |m: (u64, Option<u64>)| listens(bot_channel, m)).to_multiset(),
        views(r.1@).to_multiset() == ids_where(members@, |m: (u64, Option<u64>)| elsewhere(bot_channel, m)).to_multiset(),
        bot_channel is None ==> r.0@.len() == 0,
{
    let ghost pl = |m: (u64, Option<u64>)| listens(bot_channel, m);
    let ghost po = |m: (u64, Option<u64>)| elsewhere(bot_channel, m);
    let mut listening: Vec<String> = Vec::new();
    let mut other: Vec<String> = Vec::new();
    let mut k: usize = 0;
    while k < members.len()
        invariant
            k <= members.len(),
            pl == (|m: (u64, Option<u64>)| listens(bot_channel, m)),
            po == (|m: (u64, Option<u64>)| elsewhere(bot_channel, m)),
            views(listening@) == ids_where(members@.take(k as int), pl),
            views(other@) == ids_where(members@.take(k as int), po),
        decreases members.len() - k,
    {
        let (user_id, channel) = members[k];
        proof {
            assert(members@.take(k + 1) =~= members@.take(k as int).push(members@[k as int]));
            members@.take(k as int).lemma_filter_push(members@[k as int], pl);
            members@.take(k as int).lemma_filter_push(members@[k as int], po);
        }
        match channel {
            Some(ch) => {
                let in_bot_channel = match bot_channel {
                    Some(b) => b == ch,
                    None => false,
                };
                if in_bot_channel {
                    let s = decimal_string(user_id);
                    let ghost before = listening@;
                    listening.push(s);
                    proof {
                        let m = members@[k as int];
                        assert(pl(m));
                        assert(!po(m));
                        let f = members@.take(k as int).filter(pl);
                        assert(f.push(m).map_values(|m: (u64, Option<u64>)| decimal(m.0 as nat))
                            =~= f.map_values(|m: (u64, Option<u64>)| decimal(m.0 as nat)).push(decimal(m.0 as nat)));
                        assert(views(listening@) =~= views(before).push(decimal(user_id as nat)));
                        assert(views(listening@) =~= ids_where(members@.take(k + 1), pl));
                        assert(views(other@) =~= ids_where(members@.take(k + 1), po));
                    }
                } else {
                    let s = decimal_string(user_id);
                    let ghost before = other@;
                    other.push(s);
                    proof {
                        let m = members@[k as int];
                        assert(!pl(m));
                        assert(po(m));
                        let f = members@.take(k as int).filter(po);
                        assert(f.push(m).map_values(|m: (u64, Option<u64>)| decimal(m.0 as nat))
                            =~= f.map_values(|m: (u64, Option<u64>)| decimal(m.0 as nat)).push(decimal(m.0 as nat)));
                        assert(views(other@) =~= views(before).push(decimal(user_id as nat)));
                        assert(views(listening@) =~= ids_where(members@.take(k + 1), pl));
                        assert(views(other@) =~= ids_where(members@.take(k + 1), po));
                    }
                }
            }
            None => {
                proof {
                    assert(views(listening@) =~= ids_where(members@.take(k + 1), pl));
                    assert(views(other@) =~= ids_where(members@.take(k + 1), po));
                }
            }
        }
        k = k + 1;
    }
    proof {
        assert(members@.take(k as int) =~= members@);
    }
    let sorted_listening = sort_strings(&listening);
    let sorted_other = sort_strings(&other);
    proof {
        if bot_channel is None {
            assert(members@.filter(pl) =~= Seq::<(u64, Option<u64>)>::empty()) by {
                if members@.filter(pl).len() > 0 {
                    let x = members@.filter(pl)[0];
                    assert(members@.filter(pl).contains(x));
                }
            }
            assert(views(listening@).len() == 0);
            assert(views(sorted_listening@).to_multiset().len() == 0);
        }
    }
    (sorted_listening, sorted_other)
}

/// One voice state in the bot's cache: who, in which channel, and whether
/// that account is a bot.
#[derive(Debug, Clone, Copy)]
pub struct VoiceEntry {
    pub user_id: u64,
    pub channel: Option<u64>,
    pub is_bot: bool,
}

/// The people in voice: the voice states of the first `n` entries that are
/// neither this bot nor another bot, as (user, channel).
pub open spec fn people_in_voice(states: Seq<VoiceEntry>, bot_user: u64, n: int) -> Seq<(u64, Option<u64>)>
    decreases n,
{
    if n <= 0 {
        Seq::empty()
    } else {
        let rest = people_in_voice(states, bot_user, n - 1);
        let e = states[n - 1];
        if e.user_id != bot_user && !e.is_bot { rest.push((e.user_id, e.channel)) } else { rest }
    }
}

/// The people in voice (see `people_in_voice`): bots are never counted as listeners.
pub fn voice_members(states: &Vec<VoiceEntry>, bot_user: u64) -> (m: Vec<(u64, Option<u64>)>)
    ensures
        m@ == people_in_voice(states@, bot_user, states@.len() as int),
{
    let mut m: Vec<(u64, Option<u64>)> = Vec::new();
    let mut i: usize = 0;
    while i < states.len()
        invariant
            i <= states.len(),
            m@ == people_in_voice(states@, bot_user, i as int),
        decreases states.len() - i,
    {
        let e = states[i];
        if e.user_id != bot_user && !e.is_bot {
            m.push((e.user_id, e.channel));
        }
        i = i + 1;
    }
    m
}

/// The people in the bot's voice channel; nobody when the bot is in none.
pub open spec fn listeners_upto(states: Seq<VoiceEntry>, bot_user: u64, bot_channel: Option<u64>, n: int) -> Seq<u64>
    decreases n,
{
    if n <= 0 {
        Seq::empty()
    } else {
        let rest = listeners_upto(states, bot_user, bot_channel, n - 1);
        let e = states[n - 1];
        if e.user_id != bot_user && !e.is_bot && bot_channel is Some && e.channel == bot_channel {
            rest.push(e.user_id)
        } else {
            rest
        }
    }
}

/// See `listeners_upto`.
pub fn listener_ids(states: &Vec<VoiceEntry>, bot_user: u64, bot_channel: Option<u64>) -> (ids: Vec<u64>)
    ensures
        ids@ == listeners_upto(states@, bot_user, bot_channel, states@.len() as int),
        bot_channel is None ==> ids@.len() == 0,
{
    let mut ids: Vec<u64> = Vec::new();
    let mut i: usize = 0;
    while i < states.len()
        invariant
            i <= states.len(),
            ids@ == listeners_upto(states@, bot_user, bot_channel, i as int),
            bot_channel is None ==> ids@.len() == 0,
        decreases states.len() - i,
    {
        let e = states[i];
        let here = match (bot_channel, e.channel) {
            (Some(b), Some(c)) => b == c,
            _ => false,
        };
        if e.user_id != bot_user && !e.is_bot && here {
            ids.push(e.user_id);
        }
        i = i + 1;
    }
    ids
}

} // verus!
