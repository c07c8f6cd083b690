//! Who may have the bot in a voice channel.
//!
//! The bot serves at most `max_slots` guilds at once. Guilds holding a
//! reservation come first; guilds without one ("free" guilds) share at most
//! half of the slots, and a reserved guild arriving when every slot is taken
//! displaces a free one.

use vstd::prelude::*;

use crate::models::guild::{reserved_at, Guild};
use crate::number::{parse_u64_from_string, spec_parse_u64};
use crate::replies::{reply_text, Reply};

verus! {

/// What becomes of a guild that asks for a voice slot.
pub enum SlotVerdict {
    /// It may join.
    Admit,
    /// It may not join.
    Refuse,
    /// It may join once a free guild has been sent away; whether that
    /// succeeded is the answer.
    BootFreeGuild,
}

/// The verdict together with what the bot says in the asking guild.
pub struct SlotDecision {
    pub verdict: SlotVerdict,
    pub reply: Reply,
}

/// The verdict for a guild, given whether it holds a reservation, how many
/// slots are in use, how many of those hold free guilds, and the number of
/// slots.
pub open spec fn slot_verdict(reserved: bool, used_slots: u64, free_slots: u64, max_slots: u64) -> SlotVerdict {
    if used_slots < max_slots {
        if reserved || free_slots < max_slots / 2 {
            SlotVerdict::Admit
        } else {
            SlotVerdict::Refuse
        }
    } else if reserved && free_slots > 0 {
        SlotVerdict::BootFreeGuild
    } else {
        SlotVerdict::Refuse
    }
}

/// What the bot says along with the verdict.
pub open spec fn slot_reply_text(
    guild_id: Seq<char>,
    reserved: bool,
    used_slots: u64,
    free_slots: u64,
    max_slots: u64,
) -> Seq<char> {
    if reserved {
        if used_slots < max_slots || free_slots > 0 {
            reply_text(&Reply::ReservedWelcome)
        } else {
            reply_text(&Reply::ReservedButFull)
        }
    } else if used_slots < max_slots && free_slots < max_slots / 2 {
        reply_text(&Reply::FreeSlotWelcome)
    } else {
        no_free_slot_text(guild_id)
    }
}

/// The refusal to a guild without a reservation, naming the guild.
pub open spec fn no_free_slot_text(guild_id: Seq<char>) -> Seq<char> {
    "it looks like you do not have an active reservation and all free slots are currently full. please visit https://balasolu.com/rexmit/"@
        + guild_id + " to reserve rexmit for your guild 🐣"@
}

/// Decides whether the guild `guild_id` may join a voice channel, and what
/// to tell it; `reserved` says whether it holds a reservation.
pub fn decide_slot(
    guild_id: &String,
    reserved: bool,
    used_slots: u64,
    free_slots: u64,
    max_slots: u64,
) -> (d: SlotDecision)
    ensures
        d.verdict == slot_verdict(reserved, used_slots, free_slots, max_slots),
        reply_text(&d.reply) == slot_reply_text(
            guild_id@,
            reserved,
            used_slots,
            free_slots,
            max_slots,
        ),
{
    if used_slots < max_slots {
        if reserved {
            SlotDecision { verdict: SlotVerdict::Admit, reply: Reply::ReservedWelcome }
        } else if free_slots < max_slots / 2 {
            SlotDecision { verdict: SlotVerdict::Admit, reply: Reply::FreeSlotWelcome }
        } else {
            SlotDecision { verdict: SlotVerdict::Refuse, reply: Reply::NoFreeSlot(guild_id.clone()) }
        }
    } else if reserved {
        if free_slots > 0 {
            SlotDecision { verdict: SlotVerdict::BootFreeGuild, reply: Reply::ReservedWelcome }
        } else {
            SlotDecision { verdict: SlotVerdict::Refuse, reply: Reply::ReservedButFull }
        }
    } else {
        SlotDecision { verdict: SlotVerdict::Refuse, reply: Reply::NoFreeSlot(guild_id.clone()) }
    }
}

/// Decides for the stored guild `guild`, reading its reservation from the
/// system clock.
pub fn decide_slot_for_guild(guild: &Guild, used_slots: u64, free_slots: u64, max_slots: u64) -> (d: SlotDecision)
    ensures
        exists|now: i64|
            #![trigger reserved_at(guild@, now)]
            {
                let reserved = reserved_at(guild@, now);
                &&& d.verdict == slot_verdict(reserved, used_slots, free_slots, max_slots)
                &&& reply_text(&d.reply) == slot_reply_text(
                    guild@.id,
                    reserved,
                    used_slots,
                    free_slots,
                    max_slots,
                )
            },
{
    let reserved = guild.has_reservation();
    decide_slot(&guild.id, reserved, used_slots, free_slots, max_slots)
}

/// The admission rules: a guild without a reservation joins only while a
/// slot is open and free guilds hold fewer than half of the slots; a guild
/// with a reservation always joins while a slot is open, and when none is
/// open it displaces a free guild if there is one; nobody else joins.
pub proof fn lemma_admission_rules(reserved: bool, used_slots: u64, free_slots: u64, max_slots: u64)
    ensures
        !reserved ==> (slot_verdict(reserved, used_slots, free_slots, max_slots)
            == SlotVerdict::Admit <==> used_slots < max_slots && free_slots < max_slots / 2),
        !reserved ==> slot_verdict(reserved, used_slots, free_slots, max_slots)
            != SlotVerdict::BootFreeGuild,
        reserved && used_slots < max_slots ==> slot_verdict(
            reserved,
            used_slots,
            free_slots,
            max_slots,
        ) == SlotVerdict::Admit,
        reserved && used_slots >= max_slots ==> (slot_verdict(
            reserved,
            used_slots,
            free_slots,
            max_slots,
        ) == SlotVerdict::BootFreeGuild <==> free_slots > 0),
        used_slots >= max_slots ==> slot_verdict(reserved, used_slots, free_slots, max_slots)
            != SlotVerdict::Admit,
{
}

/// Each verdict comes with its own kind of reply. A guild let in, at once
/// or after a free guild leaves, is welcomed, as a reserved guild where it
/// holds a reservation. A reserved guild that is turned away hears that no
/// room could be found; any other guild that is turned away hears that it
/// holds no reservation, and the reply names its id.
pub proof fn lemma_slot_replies(
    guild_id: Seq<char>,
    reserved: bool,
    used_slots: u64,
    free_slots: u64,
    max_slots: u64,
)
    ensures
        slot_verdict(reserved, used_slots, free_slots, max_slots) != SlotVerdict::Refuse
            ==> slot_reply_text(guild_id, reserved, used_slots, free_slots, max_slots) == (if reserved {
            reply_text(&Reply::ReservedWelcome)
        } else {
            reply_text(&Reply::FreeSlotWelcome)
        }),
        slot_verdict(reserved, used_slots, free_slots, max_slots) == SlotVerdict::Refuse
            ==> slot_reply_text(guild_id, reserved, used_slots, free_slots, max_slots) == (if reserved {
            reply_text(&Reply::ReservedButFull)
        } else {
            no_free_slot_text(guild_id)
        }),
        no_free_slot_text(guild_id).subrange(
            no_free_slot_text(guild_id).len() - guild_id.len() - " to reserve rexmit for your guild 🐣"@.len(),
            no_free_slot_text(guild_id).len() - " to reserve rexmit for your guild 🐣"@.len(),
        ) == guild_id,
{
    let pre = "it looks like you do not have an active reservation and all free slots are currently full. please visit https://balasolu.com/rexmit/"@;
    let post = " to reserve rexmit for your guild 🐣"@;
    let t = no_free_slot_text(guild_id);
    assert(t =~= pre + guild_id + post);
    assert(t.len() == pre.len() + guild_id.len() + post.len());
    assert(t.subrange(pre.len() as int, (pre.len() + guild_id.len()) as int) =~= guild_id);
}

/// Where a step-by-step slot check stands. The check asks, one question at
/// a time, for what it needs to know about the asking guild and the others,
/// and stops as soon as it can answer.
#[derive(Clone, Copy)]
pub enum SlotCheck {
    /// Waiting for the number of guilds in a voice channel.
    AwaitUsedSlots,
    /// Waiting for the configured number of slots.
    AwaitMaxSlots { used_slots: u64 },
    /// Every slot is taken; waiting to learn whether the asking guild holds a
    /// reservation.
    AwaitReservation { used_slots: u64, max_slots: u64 },
    /// The asking guild holds a reservation; waiting for the number of free
    /// guilds in a voice channel.
    AwaitFreeSlots { used_slots: u64, max_slots: u64 },
    /// Some free guild holds a slot; waiting for the id of the first one.
    AwaitFreeGuild { used_slots: u64, max_slots: u64, free_slots: u64 },
    /// Waiting for the stored record of that free guild.
    AwaitFreeGuildRecord { used_slots: u64, max_slots: u64, free_slots: u64 },
    /// Answered: whether the guild may join, or `None` where some answer was
    /// missing.
    Done { answer: Option<bool> },
}

/// An answer to the question a slot check asked.
pub enum SlotCheckEvent {
    /// How many guilds are in a voice channel, if that could be counted.
    UsedSlots(Option<u64>),
    /// The configured number of slots, as the text it is configured by.
    MaxSlots(String),
    /// Whether the asking guild holds a reservation, if known.
    Reservation(Option<bool>),
    /// How many free guilds are in a voice channel, if that could be counted.
    FreeSlots(Option<u64>),
    /// The id of the first free guild in a voice channel, if any.
    FreeGuild(Option<u64>),
    /// The stored record of that guild, if it could be read.
    FreeGuildRecord(Option<Guild>),
}

/// What the caller of a slot check does next.
pub enum SlotCheckAction {
    CountJoinedGuilds,
    ReadMaxSlots,
    ReadReservation,
    CountFreeJoinedGuilds,
    FindFreeGuild,
    /// Read the stored record of the guild with this id.
    ReadGuildRecord(u64),
    /// Post `notify`'s reply in its channel, if there is one, then answer.
    Answer { notify: Option<(u64, Reply)>, answer: Option<bool> },
}

/// A finished check and the action that reports its answer.
pub open spec fn finish(answer: Option<bool>) -> (SlotCheck, SlotCheckAction) {
    (SlotCheck::Done { answer }, SlotCheckAction::Answer { notify: None, answer })
}

/// One step of a slot check: the state it moves to on an answer, and what
/// it asks for next. An answer of the wrong kind ends the check without an
/// answer.
pub open spec fn slot_check_step(s: SlotCheck, e: &SlotCheckEvent) -> (SlotCheck, SlotCheckAction) {
    match s {
        SlotCheck::AwaitUsedSlots => match e {
            SlotCheckEvent::UsedSlots(Some(used_slots)) => (
                SlotCheck::AwaitMaxSlots { used_slots: *used_slots },
                SlotCheckAction::ReadMaxSlots,
            ),
            _ => finish(None),
        },
        SlotCheck::AwaitMaxSlots { used_slots } => match e {
            SlotCheckEvent::MaxSlots(text) => match spec_parse_u64(text@) {
                Some(max_slots) => if used_slots < max_slots {
                    finish(Some(true))
                } else {
                    (
                        SlotCheck::AwaitReservation { used_slots, max_slots },
                        SlotCheckAction::ReadReservation,
                    )
                },
                None => finish(None),
            },
            _ => finish(None),
        },
        SlotCheck::AwaitReservation { used_slots, max_slots } => match e {
            SlotCheckEvent::Reservation(Some(true)) => (
                SlotCheck::AwaitFreeSlots { used_slots, max_slots },
                SlotCheckAction::CountFreeJoinedGuilds,
            ),
            SlotCheckEvent::Reservation(Some(false)) => finish(Some(false)),
            _ => finish(None),
        },
        SlotCheck::AwaitFreeSlots { used_slots, max_slots } => match e {
            SlotCheckEvent::FreeSlots(Some(free_slots)) => if *free_slots > 0 {
                (
                    SlotCheck::AwaitFreeGuild { used_slots, max_slots, free_slots: *free_slots },
                    SlotCheckAction::FindFreeGuild,
                )
            } else {
                finish(Some(false))
            },
            _ => finish(None),
        },
        SlotCheck::AwaitFreeGuild { used_slots, max_slots, free_slots } => match e {
            SlotCheckEvent::FreeGuild(Some(guild_id)) => (
                SlotCheck::AwaitFreeGuildRecord { used_slots, max_slots, free_slots },
                SlotCheckAction::ReadGuildRecord(*guild_id),
            ),
            _ => finish(None),
        },
        SlotCheck::AwaitFreeGuildRecord { .. } => match e {
            SlotCheckEvent::FreeGuildRecord(Some(guild)) => match spec_parse_u64(
                guild.message_channel_id@,
            ) {
                Some(channel_id) => (
                    SlotCheck::Done { answer: Some(true) },
                    SlotCheckAction::Answer {
                        notify: Some((channel_id, Reply::Retreated)),
                        answer: Some(true),
                    },
                ),
                None => finish(None),
            },
            _ => finish(None),
        },
        SlotCheck::Done { answer } => finish(answer),
    }
}

/// How many answers a check may still need at most.
pub open spec fn slot_check_rank(s: SlotCheck) -> nat {
    match s {
        SlotCheck::AwaitUsedSlots => 6,
        SlotCheck::AwaitMaxSlots { .. } => 5,
        SlotCheck::AwaitReservation { .. } => 4,
        SlotCheck::AwaitFreeSlots { .. } => 3,
        SlotCheck::AwaitFreeGuild { .. } => 2,
        SlotCheck::AwaitFreeGuildRecord { .. } => 1,
        SlotCheck::Done { .. } => 0,
    }
}

/// What a check's state records of the slots: past the configured number,
/// every slot is taken, and a check that looks for a free guild has seen
/// one.
pub open spec fn slot_check_consistent(s: SlotCheck) -> bool {
    match s {
        SlotCheck::AwaitReservation { used_slots, max_slots } => used_slots >= max_slots,
        SlotCheck::AwaitFreeSlots { used_slots, max_slots } => used_slots >= max_slots,
        SlotCheck::AwaitFreeGuild { used_slots, max_slots, free_slots } => used_slots >= max_slots
            && free_slots > 0,
        SlotCheck::AwaitFreeGuildRecord { used_slots, max_slots, free_slots } => used_slots
            >= max_slots && free_slots > 0,
        _ => true,
    }
}

impl SlotCheck {
    /// A new check and its first question.
    pub fn start() -> (r: (SlotCheck, SlotCheckAction))
        ensures
            r == (SlotCheck::AwaitUsedSlots, SlotCheckAction::CountJoinedGuilds),
    {
        (SlotCheck::AwaitUsedSlots, SlotCheckAction::CountJoinedGuilds)
    }

    /// Takes the answer to the last question.
    pub fn step(self, event: SlotCheckEvent) -> (r: (SlotCheck, SlotCheckAction))
        ensures
            r == slot_check_step(self, &event),
    {
        let finish_none = (SlotCheck::Done { answer: None }, SlotCheckAction::Answer { notify: None, answer: None });
        match self {
            SlotCheck::AwaitUsedSlots => match event {
                SlotCheckEvent::UsedSlots(Some(used_slots)) => (
                    SlotCheck::AwaitMaxSlots { used_slots },
                    SlotCheckAction::ReadMaxSlots,
                ),
                _ => finish_none,
            },
            SlotCheck::AwaitMaxSlots { used_slots } => match event {
                SlotCheckEvent::MaxSlots(text) => match parse_u64_from_string(text) {
                    Some(max_slots) => if used_slots < max_slots {
                        (
                            SlotCheck::Done { answer: Some(true) },
                            SlotCheckAction::Answer { notify: None, answer: Some(true) },
                        )
                    } else {
                        (
                            SlotCheck::AwaitReservation { used_slots, max_slots },
                            SlotCheckAction::ReadReservation,
                        )
                    },
                    None => finish_none,
                },
                _ => finish_none,
            },
            SlotCheck::AwaitReservation { used_slots, max_slots } => match event {
                SlotCheckEvent::Reservation(Some(reserved)) => if reserved {
                    (
                        SlotCheck::AwaitFreeSlots { used_slots, max_slots },
                        SlotCheckAction::CountFreeJoinedGuilds,
                    )
                } else {
                    (
                        SlotCheck::Done { answer: Some(false) },
                        SlotCheckAction::Answer { notify: None, answer: Some(false) },
                    )
                },
                _ => finish_none,
            },
            SlotCheck::AwaitFreeSlots { used_slots, max_slots } => match event {
                SlotCheckEvent::FreeSlots(Some(free_slots)) => if free_slots > 0 {
                    (
                        SlotCheck::AwaitFreeGuild { used_slots, max_slots, free_slots },
                        SlotCheckAction::FindFreeGuild,
                    )
                } else {
                    (
                        SlotCheck::Done { answer: Some(false) },
                        SlotCheckAction::Answer { notify: None, answer: Some(false) },
                    )
                },
                _ => finish_none,
            },
            SlotCheck::AwaitFreeGuild { used_slots, max_slots, free_slots } => match event {
                SlotCheckEvent::FreeGuild(Some(guild_id)) => (
                    SlotCheck::AwaitFreeGuildRecord { used_slots, max_slots, free_slots },
                    SlotCheckAction::ReadGuildRecord(guild_id),
                ),
                _ => finish_none,
            },
            SlotCheck::AwaitFreeGuildRecord { .. } => match event {
                SlotCheckEvent::FreeGuildRecord(Some(guild)) => match parse_u64_from_string(
                    guild.message_channel_id,
                ) {
                    Some(channel_id) => (
                        SlotCheck::Done { answer: Some(true) },
                        SlotCheckAction::Answer {
                            notify: Some((channel_id, Reply::Retreated)),
                            answer: Some(true),
                        },
                    ),
                    None => finish_none,
                },
                _ => finish_none,
            },
            SlotCheck::Done { answer } => (
                SlotCheck::Done { answer },
                SlotCheckAction::Answer { notify: None, answer },
            ),
        }
    }
}

/// Every step of an unfinished check brings it closer to its answer, so a
/// check needs at most six answers; a finished check stays finished.
pub proof fn lemma_slot_check_progress(s: SlotCheck, e: &SlotCheckEvent)
    ensures
        !(s is Done) ==> slot_check_rank(slot_check_step(s, e).0) < slot_check_rank(s),
        s is Done ==> slot_check_step(s, e).0 == s,
        slot_check_step(s, e).1 is Answer <==> slot_check_step(s, e).0 is Done,
{
}

/// A check is consistent from its start and stays so, and its answers are
/// sound: it refuses only when every slot is taken; it admits either while
/// a slot is open or, when every slot is taken, only after a free guild was
/// found in a voice channel, whose channel the bot tells that it made room.
pub proof fn lemma_slot_check_answers(s: SlotCheck, e: &SlotCheckEvent)
    requires
        slot_check_consistent(s),
        !(s is Done),
    ensures
        slot_check_consistent(SlotCheck::AwaitUsedSlots),
        slot_check_consistent(slot_check_step(s, e).0),
        slot_check_step(s, e).0 == (SlotCheck::Done { answer: Some(false) }) ==> (match s {
            SlotCheck::AwaitReservation { used_slots, max_slots } => used_slots >= max_slots,
            SlotCheck::AwaitFreeSlots { used_slots, max_slots } => used_slots >= max_slots,
            _ => false,
        }),
        slot_check_step(s, e).0 == (SlotCheck::Done { answer: Some(true) }) ==> (match s {
            SlotCheck::AwaitMaxSlots { used_slots } => e matches SlotCheckEvent::MaxSlots(text)
                && spec_parse_u64(text@) matches Some(max_slots) && used_slots < max_slots,
            SlotCheck::AwaitFreeGuildRecord { used_slots, max_slots, free_slots } => used_slots
                >= max_slots && free_slots > 0 && slot_check_step(s, e).1 matches SlotCheckAction::Answer {
                notify: Some((_, Reply::Retreated)),
                ..
            },
            _ => false,
        }),
{
}

/// The state a check reaches from `s` on the answers `events`, in order.
pub open spec fn slot_check_run(s: SlotCheck, events: Seq<SlotCheckEvent>) -> SlotCheck
    decreases events.len(),
{
    if events.len() == 0 {
        s
    } else {
        slot_check_run(slot_check_step(s, &events[0]).0, events.drop_first())
    }
}

/// Whatever the answers, a check has its answer once it has received as
/// many answers as its rank.
pub proof fn lemma_slot_check_finishes(s: SlotCheck, events: Seq<SlotCheckEvent>)
    requires
        events.len() >= slot_check_rank(s),
    ensures
        slot_check_run(s, events) is Done,
    decreases events.len(),
{
    if events.len() > 0 {
        let next = slot_check_step(s, &events[0]).0;
        lemma_slot_check_progress(s, &events[0]);
        lemma_slot_check_finishes(next, events.drop_first());
    }
}

/// A new check has its answer after at most six answers, whatever they are.
pub proof fn lemma_new_slot_check_finishes(events: Seq<SlotCheckEvent>)
    requires
        events.len() >= 6,
    ensures
        slot_check_run(SlotCheck::AwaitUsedSlots, events) is Done,
{
    lemma_slot_check_finishes(SlotCheck::AwaitUsedSlots, events);
}

/// The first two answers of a check show every slot taken: `used_slots`
/// guilds in a voice channel, `max_slots` slots configured, and
/// `used_slots >= max_slots`.
pub open spec fn answers_show_slots_full(events: Seq<SlotCheckEvent>) -> bool {
    &&& events.len() >= 2
    &&& events[0] matches SlotCheckEvent::UsedSlots(Some(used_slots))
    &&& events[1] matches SlotCheckEvent::MaxSlots(text)
    &&& spec_parse_u64(text@) matches Some(max_slots)
    &&& used_slots >= max_slots
}

/// The first two answers of a check show a slot open.
pub open spec fn answers_show_slot_open(events: Seq<SlotCheckEvent>) -> bool {
    &&& events.len() >= 2
    &&& events[0] matches SlotCheckEvent::UsedSlots(Some(used_slots))
    &&& events[1] matches SlotCheckEvent::MaxSlots(text)
    &&& spec_parse_u64(text@) matches Some(max_slots)
    &&& used_slots < max_slots
}

/// The answers admit the asking guild although every slot is taken: it
/// holds a reservation, some free guild is in a voice channel, that guild
/// was found, and its record names the text channel to tell it in.
pub open spec fn answers_admit_by_reservation(events: Seq<SlotCheckEvent>) -> bool {
    &&& answers_show_slots_full(events)
    &&& events.len() >= 6
    &&& events[2] matches SlotCheckEvent::Reservation(Some(true))
    &&& events[3] matches SlotCheckEvent::FreeSlots(Some(free_slots))
    &&& free_slots > 0
    &&& events[4] matches SlotCheckEvent::FreeGuild(Some(_))
    &&& events[5] matches SlotCheckEvent::FreeGuildRecord(Some(guild))
    &&& spec_parse_u64(guild.message_channel_id@) is Some
}

/// The answers refuse the asking guild: every slot is taken, and it holds
/// no reservation, or it holds one but no free guild is in a voice channel.
pub open spec fn answers_refuse(events: Seq<SlotCheckEvent>) -> bool {
    &&& answers_show_slots_full(events)
    &&& events.len() >= 3
    &&& (events[2] is Reservation && events[2]->Reservation_0 == Some(false)) || (
    events[2] is Reservation && events[2]->Reservation_0 == Some(true) && events.len() >= 4
        && events[3] is FreeSlots && events[3]->FreeSlots_0 == Some(0u64))
}

/// What a check's state says of the answers `consumed` that led to it.
pub open spec fn slot_check_history(s: SlotCheck, consumed: Seq<SlotCheckEvent>) -> bool {
    match s {
        SlotCheck::AwaitUsedSlots => consumed.len() == 0,
        SlotCheck::AwaitMaxSlots { used_slots } => {
            &&& consumed.len() == 1
            &&& consumed[0] matches SlotCheckEvent::UsedSlots(Some(u))
            &&& u == used_slots
        },
        SlotCheck::AwaitReservation { used_slots, max_slots } => {
            &&& consumed.len() == 2
            &&& answers_show_slots_full(consumed)
            &&& consumed[0] matches SlotCheckEvent::UsedSlots(Some(u))
            &&& u == used_slots
        },
        SlotCheck::AwaitFreeSlots { used_slots, max_slots } => {
            &&& consumed.len() == 3
            &&& answers_show_slots_full(consumed)
            &&& consumed[2] matches SlotCheckEvent::Reservation(Some(true))
        },
        SlotCheck::AwaitFreeGuild { used_slots, max_slots, free_slots } => {
            &&& consumed.len() == 4
            &&& answers_show_slots_full(consumed)
            &&& consumed[2] matches SlotCheckEvent::Reservation(Some(true))
            &&& consumed[3] matches SlotCheckEvent::FreeSlots(Some(f))
            &&& f == free_slots
            &&& f > 0
        },
        SlotCheck::AwaitFreeGuildRecord { used_slots, max_slots, free_slots } => {
            &&& consumed.len() == 5
            &&& answers_show_slots_full(consumed)
            &&& consumed[2] matches SlotCheckEvent::Reservation(Some(true))
            &&& consumed[3] matches SlotCheckEvent::FreeSlots(Some(f))
            &&& f > 0
            &&& consumed[4] matches SlotCheckEvent::FreeGuild(Some(_))
        },
        SlotCheck::Done { answer: Some(true) } => answers_show_slot_open(consumed)
            || answers_admit_by_reservation(consumed),
        SlotCheck::Done { answer: Some(false) } => answers_refuse(consumed),
        SlotCheck::Done { answer: None } => true,
    }
}

/// One step keeps the state's account of the answers true.
proof fn lemma_slot_check_history_step(s: SlotCheck, consumed: Seq<SlotCheckEvent>, e: SlotCheckEvent)
    requires
        slot_check_history(s, consumed),
    ensures
        slot_check_history(slot_check_step(s, &e).0, consumed.push(e)),
{
    let c2 = consumed.push(e);
    assert forall|i: int| 0 <= i < consumed.len() implies c2[i] == consumed[i] by {}
    assert(c2[consumed.len() as int] == e);
}

/// A run keeps the state's account of the answers true.
proof fn lemma_slot_check_history_run(
    s: SlotCheck,
    consumed: Seq<SlotCheckEvent>,
    events: Seq<SlotCheckEvent>,
)
    requires
        slot_check_history(s, consumed),
    ensures
        slot_check_history(slot_check_run(s, events), consumed + events),
    decreases events.len(),
{
    if events.len() == 0 {
        assert(consumed + events =~= consumed);
    } else {
        lemma_slot_check_history_step(s, consumed, events[0]);
        lemma_slot_check_history_run(
            slot_check_step(s, &events[0]).0,
            consumed.push(events[0]),
            events.drop_first(),
        );
        assert(consumed.push(events[0]) + events.drop_first() =~= consumed + events);
    }
}

/// Over a whole check: a guild is admitted only where a slot was open, or,
/// with every slot taken, where it holds a reservation and a free guild in
/// a voice channel was found to make room; it is refused only where every
/// slot is taken and it holds no reservation or no free guild is there to
/// make room.
pub proof fn lemma_slot_check_run_answers(events: Seq<SlotCheckEvent>)
    ensures
        slot_check_run(SlotCheck::AwaitUsedSlots, events) == (SlotCheck::Done {
            answer: Some(true),
        }) ==> answers_show_slot_open(events) || answers_admit_by_reservation(events),
        slot_check_run(SlotCheck::AwaitUsedSlots, events) == (SlotCheck::Done {
            answer: Some(false),
        }) ==> answers_refuse(events),
{
    lemma_slot_check_history_run(SlotCheck::AwaitUsedSlots, Seq::empty(), events);
    assert(Seq::<SlotCheckEvent>::empty() + events =~= events);
}

/// A finished check stays finished, whatever further answers arrive.
proof fn lemma_slot_check_run_done(answer: Option<bool>, events: Seq<SlotCheckEvent>)
    ensures
        slot_check_run(SlotCheck::Done { answer }, events) == (SlotCheck::Done { answer }),
    decreases events.len(),
{
    if events.len() > 0 {
        lemma_slot_check_run_done(answer, events.drop_first());
    }
}

/// Completeness of a check: the answers decide it. Where the first two
/// answers show a slot open, the guild is admitted; where they show every
/// slot taken and the next ones show a reservation and a free guild to
/// make room, the guild is admitted; where they show every slot taken and
/// no reservation, or no free guild to make room, the guild is refused.
pub proof fn lemma_slot_check_run_complete(events: Seq<SlotCheckEvent>)
    ensures
        answers_show_slot_open(events) ==> slot_check_run(SlotCheck::AwaitUsedSlots, events) == (
        SlotCheck::Done { answer: Some(true) }),
        answers_admit_by_reservation(events) ==> slot_check_run(
            SlotCheck::AwaitUsedSlots,
            events,
        ) == (SlotCheck::Done { answer: Some(true) }),
        answers_refuse(events) ==> slot_check_run(SlotCheck::AwaitUsedSlots, events) == (
        SlotCheck::Done { answer: Some(false) }),
{
    if events.len() >= 2 {
        let e1 = events.drop_first();
        let e2 = e1.drop_first();
        assert(e1[0] == events[1]);
        let s1 = slot_check_step(SlotCheck::AwaitUsedSlots, &events[0]).0;
        let s2 = slot_check_step(s1, &e1[0]).0;
        assert(slot_check_run(SlotCheck::AwaitUsedSlots, events) == slot_check_run(s1, e1));
        assert(slot_check_run(s1, e1) == slot_check_run(s2, e2));
        if answers_show_slot_open(events) {
            lemma_slot_check_run_done(Some(true), e2);
        }
        if answers_show_slots_full(events) && events.len() >= 3 {
            let e3 = e2.drop_first();
            assert(e2[0] == events[2]);
            let s3 = slot_check_step(s2, &e2[0]).0;
            assert(slot_check_run(s2, e2) == slot_check_run(s3, e3));
            if events[2] is Reservation && events[2]->Reservation_0 == Some(false) {
                lemma_slot_check_run_done(Some(false), e3);
            }
            if events[2] is Reservation && events[2]->Reservation_0 == Some(true) && events.len()
                >= 4 {
                let e4 = e3.drop_first();
                assert(e3[0] == events[3]);
                let s4 = slot_check_step(s3, &e3[0]).0;
                assert(slot_check_run(s3, e3) == slot_check_run(s4, e4));
                if events[3] is FreeSlots && events[3]->FreeSlots_0 == Some(0u64) {
                    lemma_slot_check_run_done(Some(false), e4);
                }
                if answers_admit_by_reservation(events) {
                    let e5 = e4.drop_first();
                    let e6 = e5.drop_first();
                    assert(e4[0] == events[4]);
                    assert(e5[0] == events[5]);
                    let s5 = slot_check_step(s4, &e4[0]).0;
                    let s6 = slot_check_step(s5, &e5[0]).0;
                    assert(slot_check_run(s4, e4) == slot_check_run(s5, e5));
                    assert(slot_check_run(s5, e5) == slot_check_run(s6, e6));
                    lemma_slot_check_run_done(Some(true), e6);
                }
            }
        }
    }
}

} // verus!
