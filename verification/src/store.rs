//! What the bot asks of its guild store: which records a query selects,
//! how an update changes a record, and what it makes of the store's replies.

use vstd::prelude::*;

use crate::clock::utc_now_timestamp;
use crate::models::guild::{fresh_guild, texts, Guild, GuildView};
use crate::number::{parse_u64_from_string, spec_parse_u64};

verus! {

/// A change to one stored guild record.
pub enum GuildUpdate {
    /// Replace the queue.
    SetQueue(Vec<String>),
    /// Empty the queue.
    ClearQueue,
    /// Remove the first track of the queue, if there is one.
    PopQueueFront,
    /// Record that the bot is in the given voice channel and answers in the
    /// given text channel.
    SetJoined { voice_channel_id: String, message_channel_id: String },
    /// Record that the bot is in no voice channel.
    ClearJoined,
}

/// The record that an update leaves.
pub open spec fn apply_update(g: GuildView, u: &GuildUpdate) -> GuildView {
    match u {
        GuildUpdate::SetQueue(queue) => GuildView { queue: texts(queue@), ..g },
        GuildUpdate::ClearQueue => GuildView { queue: Seq::empty(), ..g },
        GuildUpdate::PopQueueFront => GuildView {
            queue: if g.queue.len() == 0 {
                g.queue
            } else {
                g.queue.drop_first()
            },
            ..g
        },
        GuildUpdate::SetJoined { voice_channel_id, message_channel_id } => GuildView {
            joined_to_channel: true,
            voice_channel_id: voice_channel_id@,
            message_channel_id: message_channel_id@,
            ..g
        },
        GuildUpdate::ClearJoined => GuildView {
            joined_to_channel: false,
            voice_channel_id: Seq::empty(),
            message_channel_id: Seq::empty(),
            ..g
        },
    }
}

impl GuildUpdate {
    /// Applies the update to a record held in memory.
    pub fn apply_to(self, guild: &mut Guild)
        ensures
            final(guild)@ == apply_update(old(guild)@, &self),
    {
        match self {
            GuildUpdate::SetQueue(queue) => {
                guild.queue = queue;
            },
            GuildUpdate::ClearQueue => {
                guild.queue = Vec::new();
                assert(texts(guild.queue@) =~= Seq::<Seq<char>>::empty());
            },
            GuildUpdate::PopQueueFront => {
                if guild.queue.len() > 0 {
                    let ghost before = guild.queue@;
                    guild.queue.remove(0);
                    assert(texts(guild.queue@) =~= texts(before).drop_first());
                }
            },
            GuildUpdate::SetJoined { voice_channel_id, message_channel_id } => {
                guild.joined_to_channel = true;
                guild.voice_channel_id = voice_channel_id;
                guild.message_channel_id = message_channel_id;
            },
            GuildUpdate::ClearJoined => {
                guild.joined_to_channel = false;
                guild.voice_channel_id = String::new();
                guild.message_channel_id = String::new();
            },
        }
    }
}

/// The update that records the bot's voice connection: joined where both
/// channels are known, not joined otherwise.
pub fn joined_update(voice_channel_id_option: Option<String>, message_channel_id_option: Option<String>) -> (u: GuildUpdate)
    ensures
        match (voice_channel_id_option, message_channel_id_option) {
            (Some(v), Some(m)) => u == (GuildUpdate::SetJoined {
                voice_channel_id: v,
                message_channel_id: m,
            }),
            _ => u == GuildUpdate::ClearJoined,
        },
{
    match voice_channel_id_option {
        Some(voice_channel_id) => match message_channel_id_option {
            Some(message_channel_id) => GuildUpdate::SetJoined { voice_channel_id, message_channel_id },
            None => GuildUpdate::ClearJoined,
        },
        None => GuildUpdate::ClearJoined,
    }
}

/// Which stored records a query selects.
pub enum GuildFilter {
    /// The record of the guild with this id.
    ById(String),
    /// Guilds the bot is in a voice channel of.
    Joined,
    /// Subscribed guilds the bot is in a voice channel of.
    SubscribedJoined,
    /// Guilds with a reservation at Unix time `now` that the bot is in a
    /// voice channel of.
    ReservedJoined { now: i64 },
    /// Guilds whose reservation ended before Unix time `now` that the bot is
    /// in a voice channel of.
    FreeJoined { now: i64 },
}

/// The filter selects the record `g`.
pub open spec fn filter_matches(f: &GuildFilter, g: GuildView) -> bool {
    match f {
        GuildFilter::ById(id) => g.id == id@,
        GuildFilter::Joined => g.joined_to_channel,
        GuildFilter::SubscribedJoined => g.subscribed && g.joined_to_channel,
        GuildFilter::ReservedJoined { now } => g.expiration > *now && g.joined_to_channel,
        GuildFilter::FreeJoined { now } => g.expiration < *now && g.joined_to_channel,
    }
}

/// How many of the records the filter selects.
pub open spec fn count_matching(docs: Seq<GuildView>, f: &GuildFilter) -> nat
    decreases docs.len(),
{
    if docs.len() == 0 {
        0
    } else {
        count_matching(docs.drop_last(), f) + if filter_matches(f, docs.last()) {
            1nat
        } else {
            0nat
        }
    }
}

/// How many of the records are of joined guilds whose reservation ends
/// exactly at `now`.
pub open spec fn count_joined_expiring_at(docs: Seq<GuildView>, now: i64) -> nat
    decreases docs.len(),
{
    if docs.len() == 0 {
        0
    } else {
        count_joined_expiring_at(docs.drop_last(), now) + if docs.last().joined_to_channel
            && docs.last().expiration == now {
            1nat
        } else {
            0nat
        }
    }
}

/// The filter for free guilds in a voice channel, at the current time.
pub fn free_joined_now() -> (f: GuildFilter)
    ensures
        f is FreeJoined,
{
    GuildFilter::FreeJoined { now: utc_now_timestamp() }
}

/// The filter for reserved guilds in a voice channel, at the current time.
pub fn reserved_joined_now() -> (f: GuildFilter)
    ensures
        f is ReservedJoined,
{
    GuildFilter::ReservedJoined { now: utc_now_timestamp() }
}

/// A record the store had, or the fresh record to insert where it had none.
pub enum StoredGuild {
    Found(Guild),
    Created(Guild),
}

/// The record a new guild starts with when `update` is written to it, or
/// when it is only looked up (`None`).
pub open spec fn new_record(guild_id: Seq<char>, update: Option<GuildUpdate>) -> GuildView {
    match update {
        Some(u) => apply_update(fresh_guild(guild_id), &u),
        None => fresh_guild(guild_id),
    }
}

/// What a lookup of, or a write to, the guild `guild_id` gives: the record
/// the store had, or, where it had none, the record to insert: a new record
/// for that guild with `update`, the data being written, already applied.
pub fn found_or_new(found: Option<Guild>, guild_id: String, update: Option<GuildUpdate>) -> (r: StoredGuild)
    ensures
        match found {
            Some(g) => r == StoredGuild::Found(g),
            None => r matches StoredGuild::Created(n) && n@ == new_record(guild_id@, update),
        },
{
    match found {
        Some(g) => StoredGuild::Found(g),
        None => {
            let mut n = Guild::new(guild_id);
            match update {
                Some(u) => u.apply_to(&mut n),
                None => {},
            }
            StoredGuild::Created(n)
        },
    }
}

/// What a replacement of a guild's record gives: the record the store had,
/// or, where it had none, the given record, to insert.
pub fn found_or_given(found: Option<Guild>, guild: Guild) -> (r: StoredGuild)
    ensures
        match found {
            Some(g) => r == StoredGuild::Found(g),
            None => r == StoredGuild::Created(guild),
        },
{
    match found {
        Some(g) => StoredGuild::Found(g),
        None => StoredGuild::Created(guild),
    }
}

/// The id of the free guild that a query found, where it is a number.
pub fn free_guild_id(found: &Option<Guild>) -> (id: Option<u64>)
    ensures
        id == match found {
            Some(g) => spec_parse_u64(g.id@),
            None => None,
        },
{
    match found {
        Some(g) => parse_u64_from_string(g.id.clone()),
        None => None,
    }
}

/// The ids of the records that could be read, in the order read.
pub open spec fn present_ids(docs: Seq<Option<Guild>>) -> Seq<Seq<char>>
    decreases docs.len(),
{
    if docs.len() == 0 {
        Seq::empty()
    } else {
        match docs.last() {
            Some(g) => present_ids(docs.drop_last()).push(g.id@),
            None => present_ids(docs.drop_last()),
        }
    }
}

/// The collected ids are never more than the records; where every record
/// could be read, they are exactly the records' ids, in order.
pub proof fn lemma_present_ids(docs: Seq<Option<Guild>>)
    ensures
        present_ids(docs).len() <= docs.len(),
        (forall|i: int| 0 <= i < docs.len() ==> #[trigger] docs[i] is Some) ==> {
            &&& present_ids(docs).len() == docs.len()
            &&& forall|i: int|
                0 <= i < docs.len() ==> #[trigger] present_ids(docs)[i] == docs[i]->Some_0.id@
        },
    decreases docs.len(),
{
    if docs.len() > 0 {
        let rest = docs.drop_last();
        lemma_present_ids(rest);
        if forall|i: int| 0 <= i < docs.len() ==> #[trigger] docs[i] is Some {
            assert(forall|i: int| 0 <= i < rest.len() ==> #[trigger] rest[i] == docs[i]);
            assert(docs.last() is Some);
            assert forall|i: int| 0 <= i < docs.len() implies #[trigger] present_ids(docs)[i]
                == docs[i]->Some_0.id@ by {
                if i < rest.len() {
                    assert(rest[i] == docs[i]);
                }
            }
        }
    }
}

/// Collects the ids of the records read from a query, skipping the records
/// that could not be read.
pub fn joined_guild_ids(docs: &Vec<Option<Guild>>) -> (ids: Vec<String>)
    ensures
        texts(ids@) == present_ids(docs@),
{
    let mut ids: Vec<String> = Vec::new();
    let mut i: usize = 0;
    while i < docs.len()
        invariant
            i <= docs.len(),
            texts(ids@) == present_ids(docs@.take(i as int)),
        decreases docs.len() - i,
    {
        assert(docs@.take(i + 1).drop_last() =~= docs@.take(i as int));
        match &docs[i] {
            Some(g) => {
                let id = g.id.clone();
                ids.push(id);
                assert(texts(ids@) =~= texts(ids@.drop_last()).push(id@));
            },
            None => {},
        }
        i = i + 1;
    }
    assert(docs@.take(docs.len() as int) =~= docs@);
    ids
}

/// Reading a queue back gives what was last written; removing the first
/// track removes the one at the front and no other; an emptied queue stays
/// empty; and the queue and the voice connection are recorded apart, so an
/// update of one leaves the other as it was.
pub proof fn lemma_queue_updates(g: GuildView, queue: Vec<String>, u: &GuildUpdate)
    ensures
        apply_update(g, &GuildUpdate::SetQueue(queue)).queue == texts(queue@),
        queue@.len() > 0 ==> apply_update(
            apply_update(g, &GuildUpdate::SetQueue(queue)),
            &GuildUpdate::PopQueueFront,
        ).queue == texts(queue@).drop_first(),
        apply_update(apply_update(g, &GuildUpdate::ClearQueue), &GuildUpdate::PopQueueFront).queue
            == Seq::<Seq<char>>::empty(),
        (u is SetJoined || u is ClearJoined) ==> apply_update(g, u).queue == g.queue,
        (u is SetQueue || u is ClearQueue || u is PopQueueFront) ==> {
            &&& apply_update(g, u).joined_to_channel == g.joined_to_channel
            &&& apply_update(g, u).voice_channel_id == g.voice_channel_id
            &&& apply_update(g, u).message_channel_id == g.message_channel_id
        },
        apply_update(g, u).id == g.id,
        apply_update(g, u).expiration == g.expiration,
{
}

/// What each update does to any record: setting the queue replaces it;
/// clearing it leaves it empty; popping drops exactly the first track of a
/// non-empty queue and leaves an empty one empty; recording a voice
/// connection marks the guild joined with the given channels; clearing it
/// marks the guild not joined with no channels. No update touches the
/// guild's id, name, subscription or expiration.
pub proof fn lemma_update_effects(g: GuildView, u: &GuildUpdate)
    ensures
        u matches GuildUpdate::SetQueue(q) ==> apply_update(g, u).queue == texts(q@),
        u is ClearQueue ==> apply_update(g, u).queue == Seq::<Seq<char>>::empty(),
        u is PopQueueFront && g.queue.len() > 0 ==> apply_update(g, u).queue.len() + 1
            == g.queue.len() && forall|i: int|
            0 <= i < apply_update(g, u).queue.len() ==> #[trigger] apply_update(g, u).queue[i]
                == g.queue[i + 1],
        u is PopQueueFront && g.queue.len() == 0 ==> apply_update(g, u).queue.len() == 0,
        u matches GuildUpdate::SetJoined { voice_channel_id, message_channel_id } ==> {
            &&& apply_update(g, u).joined_to_channel
            &&& apply_update(g, u).voice_channel_id == voice_channel_id@
            &&& apply_update(g, u).message_channel_id == message_channel_id@
        },
        u is ClearJoined ==> {
            &&& !apply_update(g, u).joined_to_channel
            &&& apply_update(g, u).voice_channel_id.len() == 0
            &&& apply_update(g, u).message_channel_id.len() == 0
        },
        apply_update(g, u).id == g.id,
        apply_update(g, u).name == g.name,
        apply_update(g, u).subscribed == g.subscribed,
        apply_update(g, u).expiration == g.expiration,
{
}

/// Every joined guild is counted either as reserved or as free at a given
/// time, unless its reservation ends exactly then; no guild is counted as
/// both.
pub proof fn lemma_joined_guilds_split(docs: Seq<GuildView>, now: i64)
    ensures
        count_matching(docs, &GuildFilter::Joined) == count_matching(
            docs,
            &GuildFilter::ReservedJoined { now },
        ) + count_matching(docs, &GuildFilter::FreeJoined { now }) + count_joined_expiring_at(
            docs,
            now,
        ),
    decreases docs.len(),
{
    if docs.len() > 0 {
        lemma_joined_guilds_split(docs.drop_last(), now);
    }
}

/// A write to a guild the store has no record of stores the data written:
/// the new record holds the queue, or the voice connection, it was given,
/// under the given guild id.
pub proof fn lemma_write_to_missing_guild(guild_id: Seq<char>, u: GuildUpdate)
    ensures
        new_record(guild_id, Some(u)).id == guild_id,
        new_record(guild_id, Some(u)) == apply_update(fresh_guild(guild_id), &u),
        u matches GuildUpdate::SetQueue(q) ==> new_record(guild_id, Some(u)).queue == texts(q@),
        u matches GuildUpdate::SetJoined { voice_channel_id, message_channel_id } ==> {
            &&& new_record(guild_id, Some(u)).joined_to_channel
            &&& new_record(guild_id, Some(u)).voice_channel_id == voice_channel_id@
            &&& new_record(guild_id, Some(u)).message_channel_id == message_channel_id@
        },
{
}

} // verus!
