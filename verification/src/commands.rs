//! The decisions behind the bot's chat commands and voice events: what each
//! one does to the voice connection, and what the bot says.

use vstd::prelude::*;

use crate::replies::Reply;

verus! {

/// A command that switches the bot's own deafness or muteness.
#[derive(Clone, Copy)]
pub enum VoiceCommand {
    Deafen,
    Undeafen,
    Mute,
    Unmute,
}

/// What a voice command does.
pub enum VoicePlan {
    /// The guild has no voice connection: say so, as a reply to the
    /// author where `to_author` holds, else in the channel.
    Refuse { reply: Reply, to_author: bool },
    /// The setting already has the asked value: say so, change nothing.
    Unchanged { reply: Reply },
    /// Set deafness (deafen, undeafen) or muteness (mute, unmute) to `on`,
    /// then say `reply`; where the change fails, first say why.
    Change { on: bool, reply: Reply },
}

/// The plan for a voice command, given whether the guild has a voice
/// connection and whether the setting the command concerns is now on.
pub open spec fn voice_plan_spec(command: VoiceCommand, in_voice: bool, currently_on: bool) -> VoicePlan {
    match command {
        VoiceCommand::Deafen => if !in_voice {
            VoicePlan::Refuse { reply: Reply::NotInVoice, to_author: true }
        } else if currently_on {
            VoicePlan::Unchanged { reply: Reply::AlreadyDeafened }
        } else {
            VoicePlan::Change { on: true, reply: Reply::Deafened }
        },
        VoiceCommand::Mute => if !in_voice {
            VoicePlan::Refuse { reply: Reply::NotInVoice, to_author: true }
        } else if currently_on {
            VoicePlan::Unchanged { reply: Reply::AlreadyMuted }
        } else {
            VoicePlan::Change { on: true, reply: Reply::Muted }
        },
        VoiceCommand::Undeafen => if !in_voice {
            VoicePlan::Refuse { reply: Reply::NotInVoiceToUndeafen, to_author: false }
        } else {
            VoicePlan::Change { on: false, reply: Reply::Undeafened }
        },
        VoiceCommand::Unmute => if !in_voice {
            VoicePlan::Refuse { reply: Reply::NotInVoiceToUnmute, to_author: false }
        } else {
            VoicePlan::Change { on: false, reply: Reply::Unmuted }
        },
    }
}

/// Plans a voice command.
pub fn voice_plan(command: VoiceCommand, in_voice: bool, currently_on: bool) -> (p: VoicePlan)
    ensures
        p == voice_plan_spec(command, in_voice, currently_on),
{
    match command {
        VoiceCommand::Deafen => if !in_voice {
            VoicePlan::Refuse { reply: Reply::NotInVoice, to_author: true }
        } else if currently_on {
            VoicePlan::Unchanged { reply: Reply::AlreadyDeafened }
        } else {
            VoicePlan::Change { on: true, reply: Reply::Deafened }
        },
        VoiceCommand::Mute => if !in_voice {
            VoicePlan::Refuse { reply: Reply::NotInVoice, to_author: true }
        } else if currently_on {
            VoicePlan::Unchanged { reply: Reply::AlreadyMuted }
        } else {
            VoicePlan::Change { on: true, reply: Reply::Muted }
        },
        VoiceCommand::Undeafen => if !in_voice {
            VoicePlan::Refuse { reply: Reply::NotInVoiceToUndeafen, to_author: false }
        } else {
            VoicePlan::Change { on: false, reply: Reply::Undeafened }
        },
        VoiceCommand::Unmute => if !in_voice {
            VoicePlan::Refuse { reply: Reply::NotInVoiceToUnmute, to_author: false }
        } else {
            VoicePlan::Change { on: false, reply: Reply::Unmuted }
        },
    }
}

/// Voice commands touch the connection only where there is one; deafen and
/// mute switch their setting on and undeafen and unmute off; deafen and mute
/// leave an already-set setting alone, and after any change the setting has
/// the value the command names.
pub proof fn lemma_voice_commands(command: VoiceCommand, in_voice: bool, currently_on: bool)
    ensures
        voice_plan_spec(command, in_voice, currently_on) is Change ==> in_voice,
        !in_voice ==> voice_plan_spec(command, in_voice, currently_on) is Refuse,
        voice_plan_spec(command, in_voice, currently_on) matches VoicePlan::Change { on, .. } ==> on
            == (command is Deafen || command is Mute),
        (command is Deafen || command is Mute) && in_voice && currently_on ==> voice_plan_spec(
            command,
            in_voice,
            currently_on,
        ) is Unchanged,
        (command is Undeafen || command is Unmute) ==> !(voice_plan_spec(
            command,
            in_voice,
            currently_on,
        ) is Unchanged),
        in_voice ==> !(voice_plan_spec(command, in_voice, currently_on) is Refuse),
        in_voice && (command is Undeafen || command is Unmute) ==> voice_plan_spec(
            command,
            in_voice,
            currently_on,
        ) == (VoicePlan::Change {
            on: false,
            reply: if command is Undeafen {
                Reply::Undeafened
            } else {
                Reply::Unmuted
            },
        }),
        in_voice && !currently_on && (command is Deafen || command is Mute) ==> voice_plan_spec(
            command,
            in_voice,
            currently_on,
        ) == (VoicePlan::Change {
            on: true,
            reply: if command is Deafen {
                Reply::Deafened
            } else {
                Reply::Muted
            },
        }),
{
}

/// What `leave` and the idle check do.
#[derive(Clone, Copy)]
pub enum LeavePlan {
    /// Nothing to do.
    Stay,
    /// Leave the voice channel, say so, empty the stored queue and record
    /// that the bot is in no voice channel.
    Leave,
    /// The guild has no voice connection: say so.
    NotInVoice,
}

/// What `leave` does in a guild (`in_guild`) whose voice connection exists
/// or not (`has_handler`).
pub open spec fn leave_plan_spec(in_guild: bool, has_handler: bool) -> LeavePlan {
    if !in_guild {
        LeavePlan::Stay
    } else if has_handler {
        LeavePlan::Leave
    } else {
        LeavePlan::NotInVoice
    }
}

/// What the periodic check does with `member_count` members left in the
/// voice channel.
pub open spec fn idle_plan_spec(member_count: u64, has_handler: bool) -> LeavePlan {
    if member_count > 1 {
        LeavePlan::Stay
    } else if has_handler {
        LeavePlan::Leave
    } else {
        LeavePlan::NotInVoice
    }
}

/// Plans the `leave` command.
pub fn leave_plan(in_guild: bool, has_handler: bool) -> (p: LeavePlan)
    ensures
        p == leave_plan_spec(in_guild, has_handler),
{
    if !in_guild {
        LeavePlan::Stay
    } else if has_handler {
        LeavePlan::Leave
    } else {
        LeavePlan::NotInVoice
    }
}

/// The periodic check of the voice channel: where at most one member (the
/// bot itself) is left in it, leave; stay otherwise.
pub fn idle_plan(member_count: u64, has_handler: bool) -> (p: LeavePlan)
    ensures
        p == idle_plan_spec(member_count, has_handler),
{
    if member_count > 1 {
        LeavePlan::Stay
    } else if has_handler {
        LeavePlan::Leave
    } else {
        LeavePlan::NotInVoice
    }
}

/// The text starts with `"http"`.
pub open spec fn starts_with_http(s: Seq<char>) -> bool {
    s.len() >= 4 && s.subrange(0, 4) == "http"@
}

/// The track URL that `play_fade` and `queue` accept from their first
/// argument, or what the bot says where there is none or it is no web
/// address.
pub open spec fn track_url_spec(arg: Option<Seq<char>>) -> Result<Seq<char>, Reply> {
    match arg {
        None => Err(Reply::MissingUrl),
        Some(url) => if starts_with_http(url) {
            Ok(url)
        } else {
            Err(Reply::InvalidUrl)
        },
    }
}

/// Checks the first argument of `play_fade` and `queue`.
pub fn track_url(arg: Option<String>) -> (r: Result<String, Reply>)
    ensures
        match r {
            Ok(url) => track_url_spec(
                match arg {
                    Some(a) => Some(a@),
                    None => None,
                },
            ) == Ok::<Seq<char>, Reply>(url@),
            Err(reply) => track_url_spec(
                match arg {
                    Some(a) => Some(a@),
                    None => None,
                },
            ) == Err::<Seq<char>, Reply>(reply),
        },
{
    match arg {
        None => Err(Reply::MissingUrl),
        Some(url) => {
            if starts_with_http_exec(&url) {
                Ok(url)
            } else {
                Err(Reply::InvalidUrl)
            }
        },
    }
}

fn starts_with_http_exec(s: &String) -> (r: bool)
    ensures
        r == starts_with_http(s@),
{
    proof {
        reveal_strlit("http");
    }
    let text = s.as_str();
    let len = text.unicode_len();
    if len < 4 {
        return false;
    }
    let r = text.get_char(0) == 'h' && text.get_char(1) == 't' && text.get_char(2) == 't'
        && text.get_char(3) == 'p';
    assert(r ==> s@.subrange(0, 4) =~= "http"@);
    assert(s@.subrange(0, 4) == "http"@ ==> s@.subrange(0, 4)[0] == 'h' && s@.subrange(0, 4)[1]
        == 't' && s@.subrange(0, 4)[2] == 't' && s@.subrange(0, 4)[3] == 'p');
    r
}

/// What `join` does, given whether the guild is subscribed, where that is
/// known.
#[derive(Clone, Copy)]
pub enum JoinPlan {
    /// Join the author's voice channel; where that fails and
    /// `report_failure` holds, say so.
    Join { report_failure: bool },
    /// Say that the guild is not subscribed and fail.
    Refuse,
}

/// What `join` does for a guild whose subscription is `subscribed`, where
/// known.
pub open spec fn join_plan_spec(subscribed: Option<bool>) -> JoinPlan {
    match subscribed {
        Some(true) => JoinPlan::Join { report_failure: true },
        Some(false) => JoinPlan::Refuse,
        None => JoinPlan::Join { report_failure: false },
    }
}

/// Plans `join`: a subscribed guild, or one whose subscription is unknown
/// (there is no store), joins; an unsubscribed one is refused.
pub fn join_plan(subscribed: Option<bool>) -> (p: JoinPlan)
    ensures
        p == join_plan_spec(subscribed),
{
    match subscribed {
        Some(true) => JoinPlan::Join { report_failure: true },
        Some(false) => JoinPlan::Refuse,
        None => JoinPlan::Join { report_failure: false },
    }
}

/// Only a guild known to be unsubscribed is refused; every other guild
/// joins, and a failed join is reported exactly where the guild is known to
/// be subscribed.
pub proof fn lemma_join_rules(subscribed: Option<bool>)
    ensures
        join_plan_spec(subscribed) is Refuse <==> subscribed == Some(false),
        join_plan_spec(subscribed) matches JoinPlan::Join { report_failure } ==> report_failure
            == (subscribed == Some(true)),
{
}

/// A track URL is accepted exactly where an argument was given and its
/// first four characters are `http`, and then it is that argument,
/// unchanged; a missing argument and any other argument are answered with
/// their own replies.
pub proof fn lemma_track_url_rules(arg: Option<Seq<char>>)
    ensures
        track_url_spec(arg) is Ok <==> (arg matches Some(a) && a.len() >= 4 && a[0] == 'h' && a[1]
            == 't' && a[2] == 't' && a[3] == 'p'),
        track_url_spec(arg) matches Ok(url) ==> arg == Some(url),
        arg is None ==> track_url_spec(arg) == Err::<Seq<char>, Reply>(Reply::MissingUrl),
        arg is Some && !(track_url_spec(arg) is Ok) ==> track_url_spec(arg) == Err::<
            Seq<char>,
            Reply,
        >(Reply::InvalidUrl),
{
    reveal_strlit("http");
    if let Some(a) = arg {
        if a.len() >= 4 {
            let h = a.subrange(0, 4);
            assert(h[0] == a[0] && h[1] == a[1] && h[2] == a[2] && h[3] == a[3]);
            if a[0] == 'h' && a[1] == 't' && a[2] == 't' && a[3] == 'p' {
                assert(h =~= "http"@);
            }
        }
    }
}

/// The bot leaves a voice channel on its own only when at most one member
/// is left there and it has a connection, and `leave` does so only in a
/// guild with a connection.
pub proof fn lemma_leaving(member_count: u64, in_guild: bool, has_handler: bool)
    ensures
        idle_plan_spec(member_count, has_handler) == LeavePlan::Leave <==> member_count <= 1
            && has_handler,
        leave_plan_spec(in_guild, has_handler) == LeavePlan::Leave <==> in_guild && has_handler,
{
}

/// What `queue` does with a checked track URL.
pub enum QueuePlan {
    /// Queue the track at this URL on the guild's voice connection, then
    /// store the guild's queue.
    Enqueue(String),
    /// Say that the bot is joining, join the author's voice channel, then
    /// run `queue` again with the same arguments.
    JoinFirst(String),
}

/// Plans `queue` once its URL has passed `track_url`: queue it where the
/// guild has a voice connection, join first otherwise.
pub fn queue_plan(url: String, in_voice: bool) -> (p: QueuePlan)
    ensures
        in_voice ==> p == QueuePlan::Enqueue(url),
        !in_voice ==> p == QueuePlan::JoinFirst(url),
{
    if in_voice {
        QueuePlan::Enqueue(url)
    } else {
        QueuePlan::JoinFirst(url)
    }
}

/// What follows a step of `queue`'s join-then-queue-again path.
pub enum JoinFirstStep {
    /// Run `queue` again with the same arguments.
    Requeue,
    /// Say this, then fail with the error that came back.
    Fail(Reply),
    /// Succeed.
    Succeed,
}

/// After the join: queue again where it succeeded; otherwise say that the
/// bot could not join, and fail.
pub fn after_join_attempt(joined: bool) -> (step: JoinFirstStep)
    ensures
        joined ==> step == JoinFirstStep::Requeue,
        !joined ==> step == JoinFirstStep::Fail(Reply::UnableToJoin),
{
    if joined {
        JoinFirstStep::Requeue
    } else {
        JoinFirstStep::Fail(Reply::UnableToJoin)
    }
}

/// After queueing again: succeed where it succeeded; otherwise say that the
/// track could not be queued, and fail.
pub fn after_requeue(requeued: bool) -> (step: JoinFirstStep)
    ensures
        requeued ==> step == JoinFirstStep::Succeed,
        !requeued ==> step == JoinFirstStep::Fail(Reply::UnableToQueue),
{
    if requeued {
        JoinFirstStep::Succeed
    } else {
        JoinFirstStep::Fail(Reply::UnableToQueue)
    }
}

} // verus!
