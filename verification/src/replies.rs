//! Everything the bot says in a text channel.

use vstd::prelude::*;

use crate::number::{decimal_text, u64_to_string};

verus! {

/// A message the bot posts.
pub enum Reply {
    /// The guild has no voice connection (deafen, mute, leave).
    NotInVoice,
    AlreadyDeafened,
    Deafened,
    NotInVoiceToUndeafen,
    Undeafened,
    AlreadyMuted,
    Muted,
    NotInVoiceToUnmute,
    Unmuted,
    /// The guild has no voice connection (play, queue, skip, stop).
    NotInVoiceToPlay,
    LeftVoice,
    Pong,
    MissingUrl,
    InvalidUrl,
    SourcingFailed,
    PlayingSong,
    JoiningToQueue,
    UnableToJoin,
    UnableToQueue,
    QueueCleared,
    GuildNotSubscribed,
    JoinFailed,
    StoppingSong,
    VolumeReduced,
    SongFadedOut,
    /// A track was queued at the given position.
    AddedToQueue(u64),
    /// A track was skipped; the given number of tracks remain queued.
    SongSkipped(u64),
    /// The track with the given URL ended.
    TrackEnded(String),
    /// A voice operation failed; the text says why.
    Failed(String),
    ReservedWelcome,
    FreeSlotWelcome,
    /// No slot for the guild with the given id.
    NoFreeSlot(String),
    ReservedButFull,
    /// A free guild left to make room (said in that guild).
    RetreatedForReserved,
    /// The same, in the older wording.
    Retreated,
}

/// The text of each reply.
pub open spec fn reply_text(r: &Reply) -> Seq<char> {
    match r {
        Reply::NotInVoice => "Not in a voice channel"@,
        Reply::AlreadyDeafened => "Already deafened"@,
        Reply::Deafened => "Deafened"@,
        Reply::NotInVoiceToUndeafen => "Not in a voice channel to undeafen in"@,
        Reply::Undeafened => "Undeafened"@,
        Reply::AlreadyMuted => "Already muted"@,
        Reply::Muted => "Now muted"@,
        Reply::NotInVoiceToUnmute => "Not in a voice channel to unmute in"@,
        Reply::Unmuted => "Unmuted"@,
        Reply::NotInVoiceToPlay => "Not in a voice channel to play in"@,
        Reply::LeftVoice => "Left voice channel"@,
        Reply::Pong => "Pong!"@,
        Reply::MissingUrl => "Must provide a URL to a video or audio"@,
        Reply::InvalidUrl => "Must provide a valid URL"@,
        Reply::SourcingFailed => "Error sourcing ffmpeg"@,
        Reply::PlayingSong => "Playing song"@,
        Reply::JoiningToQueue => "not in a voice channel to play in. attempting to join"@,
        Reply::UnableToJoin => "unable to join"@,
        Reply::UnableToQueue => "unable to queue"@,
        Reply::QueueCleared => "Queue cleared."@,
        Reply::GuildNotSubscribed => "guild is not subscribed"@,
        Reply::JoinFailed => "context join to voice channel is none"@,
        Reply::StoppingSong => "Stopping song..."@,
        Reply::VolumeReduced => "Volume reduced."@,
        Reply::SongFadedOut => "Song faded out completely!"@,
        Reply::AddedToQueue(position) => "Added song to queue: position "@ + decimal_text(
            *position as nat,
        ),
        Reply::SongSkipped(remaining) => "Song skipped: "@ + decimal_text(*remaining as nat)
            + " in queue."@,
        Reply::TrackEnded(url) => "Track ended: "@ + url@,
        Reply::Failed(why) => "Failed: "@ + why@,
        Reply::ReservedWelcome => "good news! this guild has a reservation. please bring your friends and family with you to our discord server https://discord.gg/95eUjKqT7e 🐣"@,
        Reply::FreeSlotWelcome => "good news! there is a free slot available. please bring your friends and family with you to our discord server https://discord.gg/95eUjKqT7e 🐣"@,
        Reply::NoFreeSlot(guild_id) => "it looks like you do not have an active reservation and all free slots are currently full. please visit https://balasolu.com/rexmit/"@
            + guild_id@ + " to reserve rexmit for your guild 🐣"@,
        Reply::ReservedButFull => "it looks like you have a reservation but are unable to join. please bring your torch and pitchfork with you to our discord server https://discord.gg/95eUjKqT7e and let us know what is going on so we can look in to it 🐣"@,
        Reply::RetreatedForReserved => "retreated to attend to a reserved guild 🐣"@,
        Reply::Retreated => "retreated to attend to a reserved guild"@,
    }
}

impl Reply {
    /// The text to post.
    pub fn text(&self) -> (t: String)
        ensures
            t@ == reply_text(self),
    {
        match self {
            Reply::NotInVoice => String::from_str("Not in a voice channel"),
            Reply::AlreadyDeafened => String::from_str("Already deafened"),
            Reply::Deafened => String::from_str("Deafened"),
            Reply::NotInVoiceToUndeafen => String::from_str("Not in a voice channel to undeafen in"),
            Reply::Undeafened => String::from_str("Undeafened"),
            Reply::AlreadyMuted => String::from_str("Already muted"),
            Reply::Muted => String::from_str("Now muted"),
            Reply::NotInVoiceToUnmute => String::from_str("Not in a voice channel to unmute in"),
            Reply::Unmuted => String::from_str("Unmuted"),
            Reply::NotInVoiceToPlay => String::from_str("Not in a voice channel to play in"),
            Reply::LeftVoice => String::from_str("Left voice channel"),
            Reply::Pong => String::from_str("Pong!"),
            Reply::MissingUrl => String::from_str("Must provide a URL to a video or audio"),
            Reply::InvalidUrl => String::from_str("Must provide a valid URL"),
            Reply::SourcingFailed => String::from_str("Error sourcing ffmpeg"),
            Reply::PlayingSong => String::from_str("Playing song"),
            Reply::JoiningToQueue => String::from_str(
                "not in a voice channel to play in. attempting to join",
            ),
            Reply::UnableToJoin => String::from_str("unable to join"),
            Reply::UnableToQueue => String::from_str("unable to queue"),
            Reply::QueueCleared => String::from_str("Queue cleared."),
            Reply::GuildNotSubscribed => String::from_str("guild is not subscribed"),
            Reply::JoinFailed => String::from_str("context join to voice channel is none"),
            Reply::StoppingSong => String::from_str("Stopping song..."),
            Reply::VolumeReduced => String::from_str("Volume reduced."),
            Reply::SongFadedOut => String::from_str("Song faded out completely!"),
            Reply::AddedToQueue(position) => {
                let t = String::from_str("Added song to queue: position ");
                t.concat(u64_to_string(*position).as_str())
            },
            Reply::SongSkipped(remaining) => {
                let t = String::from_str("Song skipped: ");
                let t = t.concat(u64_to_string(*remaining).as_str());
                t.concat(" in queue.")
            },
            Reply::TrackEnded(url) => String::from_str("Track ended: ").concat(url.as_str()),
            Reply::Failed(why) => String::from_str("Failed: ").concat(why.as_str()),
            Reply::ReservedWelcome => String::from_str(
                "good news! this guild has a reservation. please bring your friends and family with you to our discord server https://discord.gg/95eUjKqT7e 🐣",
            ),
            Reply::FreeSlotWelcome => String::from_str(
                "good news! there is a free slot available. please bring your friends and family with you to our discord server https://discord.gg/95eUjKqT7e 🐣",
            ),
            Reply::NoFreeSlot(guild_id) => {
                let t = String::from_str(
                    "it looks like you do not have an active reservation and all free slots are currently full. please visit https://balasolu.com/rexmit/",
                );
                let t = t.concat(guild_id.as_str());
                t.concat(" to reserve rexmit for your guild 🐣")
            },
            Reply::ReservedButFull => String::from_str(
                "it looks like you have a reservation but are unable to join. please bring your torch and pitchfork with you to our discord server https://discord.gg/95eUjKqT7e and let us know what is going on so we can look in to it 🐣",
            ),
            Reply::RetreatedForReserved => String::from_str(
                "retreated to attend to a reserved guild 🐣",
            ),
            Reply::Retreated => String::from_str("retreated to attend to a reserved guild"),
        }
    }
}

} // verus!
