//! A Discord guild as the bot stores it.

use vstd::prelude::*;

use crate::clock::utc_now_timestamp;
use crate::number::{decimal_text, parse_u64_from_string, spec_parse_u64, u64_to_string};

verus! {

/// A guild's stored record.
///
/// `expiration` is the Unix time, in seconds, at which the guild's
/// reservation ends; `queue` holds the URLs of its queued tracks, the one
/// playing first.
pub struct Guild {
    pub id: String,
    pub name: String,
    pub subscribed: bool,
    pub expiration: i64,
    pub joined_to_channel: bool,
    pub voice_channel_id: String,
    pub message_channel_id: String,
    pub queue: Vec<String>,
}

/// The id and name of a guild as Discord reports them.
pub struct GuildSummary {
    pub id: u64,
    pub name: String,
}

/// A guild record as values.
pub struct GuildView {
    pub id: Seq<char>,
    pub name: Seq<char>,
    pub subscribed: bool,
    pub expiration: i64,
    pub joined_to_channel: bool,
    pub voice_channel_id: Seq<char>,
    pub message_channel_id: Seq<char>,
    pub queue: Seq<Seq<char>>,
}

/// The text values of a list of strings.
pub open spec fn texts(v: Seq<String>) -> Seq<Seq<char>> {
    v.map_values(|s: String| s@)
}

impl View for Guild {
    type V = GuildView;

    open spec fn view(&self) -> GuildView {
        GuildView {
            id: self.id@,
            name: self.name@,
            subscribed: self.subscribed,
            expiration: self.expiration,
            joined_to_channel: self.joined_to_channel,
            voice_channel_id: self.voice_channel_id@,
            message_channel_id: self.message_channel_id@,
            queue: texts(self.queue@),
        }
    }
}

/// A record with the given id and every other field empty, false or zero.
pub open spec fn fresh_guild(id: Seq<char>) -> GuildView {
    GuildView {
        id,
        name: Seq::empty(),
        subscribed: false,
        expiration: 0,
        joined_to_channel: false,
        voice_channel_id: Seq::empty(),
        message_channel_id: Seq::empty(),
        queue: Seq::empty(),
    }
}

/// The record that a Discord guild, or its absence, gives: its id in
/// decimal and its name, every other field empty.
pub open spec fn guild_from_summary(summary: Option<(u64, Seq<char>)>) -> GuildView {
    match summary {
        Some((id, name)) => GuildView { name, ..fresh_guild(decimal_text(id as nat)) },
        None => fresh_guild(Seq::empty()),
    }
}

/// The guild holds a reservation at Unix time `now`.
pub open spec fn reserved_at(g: GuildView, now: i64) -> bool {
    g.expiration > now
}

impl Default for Guild {
    fn default() -> (g: Guild)
        ensures
            g@ == fresh_guild(Seq::empty()),
    {
        Guild::new(String::new())
    }
}

impl Guild {
    /// A record for the guild `id` with nothing else set.
    pub fn new(id: String) -> (g: Guild)
        ensures
            g@ == fresh_guild(id@),
    {
        let g = Guild {
            id,
            name: String::new(),
            subscribed: false,
            expiration: 0,
            joined_to_channel: false,
            voice_channel_id: String::new(),
            message_channel_id: String::new(),
            queue: Vec::new(),
        };
        assert(texts(g.queue@) =~= Seq::<Seq<char>>::empty());
        g
    }

    /// The record for a guild as the REST API reports it (a partial guild):
    /// its id and name, or an empty record where there is none.
    pub fn new_from_serenity_partial_guild(partial_guild_option: Option<GuildSummary>) -> (g: Guild)
        ensures
            g@ == guild_from_summary(
                match partial_guild_option {
                    Some(p) => Some((p.id, p.name@)),
                    None => None,
                },
            ),
    {
        Self::from_summary(partial_guild_option)
    }

    /// The record for a guild as the cache holds it: its id and name, or an
    /// empty record where there is none.
    pub fn new_from_serenity_guild(guild_option: Option<GuildSummary>) -> (g: Guild)
        ensures
            g@ == guild_from_summary(
                match guild_option {
                    Some(p) => Some((p.id, p.name@)),
                    None => None,
                },
            ),
    {
        Self::from_summary(guild_option)
    }

    fn from_summary(summary: Option<GuildSummary>) -> (g: Guild)
        ensures
            g@ == guild_from_summary(
                match summary {
                    Some(p) => Some((p.id, p.name@)),
                    None => None,
                },
            ),
    {
        match summary {
            Some(s) => {
                let mut g = Guild::new(u64_to_string(s.id));
                g.name = s.name;
                g
            },
            None => Guild::default(),
        }
    }

    /// The guild holds a reservation at Unix time `now`: it expires later.
    pub fn has_reservation_at(&self, now: i64) -> (r: bool)
        ensures
            r == reserved_at(self@, now),
    {
        self.expiration > now
    }

    /// The guild holds a reservation now, by the system clock.
    pub fn has_reservation(&self) -> (r: bool)
        ensures
            exists|now: i64| r == reserved_at(self@, now),
    {
        let now = utc_now_timestamp();
        self.has_reservation_at(now)
    }

    /// The voice channel and the text channel recorded for the guild, where
    /// both are numbers: where the bot goes back to after a restart.
    pub fn stored_channels(&self) -> (r: Option<(u64, u64)>)
        ensures
            r == match (spec_parse_u64(self.voice_channel_id@), spec_parse_u64(
                self.message_channel_id@,
            )) {
                (Some(v), Some(m)) => Some((v, m)),
                _ => None,
            },
    {
        match parse_u64_from_string(self.voice_channel_id.clone()) {
            Some(voice) => match parse_u64_from_string(self.message_channel_id.clone()) {
                Some(message) => Some((voice, message)),
                None => None,
            },
            None => None,
        }
    }

    /// The guild id and the text channel recorded for the guild, where both
    /// are numbers: what sending the guild away needs.
    pub fn boot_target(&self) -> (r: Option<(u64, u64)>)
        ensures
            r == match (spec_parse_u64(self.id@), spec_parse_u64(self.message_channel_id@)) {
                (Some(g), Some(m)) => Some((g, m)),
                _ => None,
            },
    {
        match parse_u64_from_string(self.id.clone()) {
            Some(id) => match parse_u64_from_string(self.message_channel_id.clone()) {
                Some(message) => Some((id, message)),
                None => None,
            },
            None => None,
        }
    }
}

} // verus!
