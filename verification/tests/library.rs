use rexmit::commands::{
    after_join_attempt, after_requeue, idle_plan, join_plan, leave_plan, queue_plan, track_url,
    voice_plan, JoinFirstStep, JoinPlan, LeavePlan, QueuePlan, VoiceCommand, VoicePlan,
};
use rexmit::models::guild::{Guild, GuildSummary};
use rexmit::number::{parse_u64_from_string, u64_to_string};
use rexmit::replies::Reply;
use rexmit::settings::{command_prefix, database_name, debug_enabled};
use rexmit::slots::{decide_slot, SlotCheck, SlotCheckAction, SlotCheckEvent, SlotVerdict};
use rexmit::store::{
    found_or_given, found_or_new, free_guild_id, joined_guild_ids, joined_update, GuildUpdate, StoredGuild,
};

fn parse(s: &str) -> Option<u64> {
    parse_u64_from_string(s.to_string())
}

#[test]
fn parse_accepts_decimal_numbers() {
    assert_eq!(parse("0"), Some(0));
    assert_eq!(parse("42"), Some(42));
    assert_eq!(parse("+7"), Some(7));
    assert_eq!(parse("007"), Some(7));
    assert_eq!(parse("18446744073709551615"), Some(u64::MAX));
    assert_eq!(parse("1100799461581668372"), Some(1100799461581668372));
}

#[test]
fn parse_rejects_what_str_parse_rejects() {
    for s in ["", "+", "-", "-1", "12a", " 1", "1 ", "18446744073709551616", "99999999999999999999999", "１"] {
        assert_eq!(parse(s), None, "input {:?}", s);
        assert_eq!(parse(s), s.parse::<u64>().ok(), "input {:?}", s);
    }
}

#[test]
fn parse_agrees_with_str_parse() {
    for s in ["0", "1", "+0", "++1", "10", "65535", "4294967296", "18446744073709551615", "00", "+-1"] {
        assert_eq!(parse(s), s.parse::<u64>().ok(), "input {:?}", s);
    }
}

#[test]
fn number_text_reads_back() {
    for n in [0u64, 1, 9, 10, 99, 100, 12345, u64::MAX] {
        let t = u64_to_string(n);
        assert_eq!(t, n.to_string());
        assert_eq!(parse_u64_from_string(t), Some(n));
    }
}

#[test]
fn new_guild_is_empty_but_for_its_id() {
    let g = Guild::new("123".to_string());
    assert_eq!(g.id, "123");
    assert_eq!(g.name, "");
    assert!(!g.subscribed);
    assert_eq!(g.expiration, 0);
    assert!(!g.joined_to_channel);
    assert_eq!(g.voice_channel_id, "");
    assert_eq!(g.message_channel_id, "");
    assert!(g.queue.is_empty());
    let d = Guild::default();
    assert_eq!(d.id, "");
}

#[test]
fn guild_from_discord_summary() {
    let g = Guild::new_from_serenity_partial_guild(Some(GuildSummary {
        id: 1100799461581668372,
        name: "rexmit".to_string(),
    }));
    assert_eq!(g.id, "1100799461581668372");
    assert_eq!(g.name, "rexmit");
    assert!(g.queue.is_empty());
    let h = Guild::new_from_serenity_guild(None);
    assert_eq!(h.id, "");
    assert_eq!(h.name, "");
    let k = Guild::new_from_serenity_guild(Some(GuildSummary { id: 5, name: "five".to_string() }));
    assert_eq!(k.id, "5");
    assert_eq!(k.name, "five");
}

#[test]
fn reservation_is_an_expiration_in_the_future() {
    let mut g = Guild::new("1".to_string());
    g.expiration = 1000;
    assert!(g.has_reservation_at(999));
    assert!(!g.has_reservation_at(1000));
    assert!(!g.has_reservation_at(1001));
    g.expiration = i64::MAX;
    assert!(g.has_reservation());
    g.expiration = 0;
    assert!(!g.has_reservation());
}

#[test]
fn stored_channels_and_boot_target() {
    let mut g = Guild::new("77".to_string());
    assert!(g.stored_channels().is_none());
    assert!(g.boot_target().is_none());
    g.voice_channel_id = "12".to_string();
    g.message_channel_id = "34".to_string();
    assert_eq!(g.stored_channels(), Some((12, 34)));
    assert_eq!(g.boot_target(), Some((77, 34)));
    g.voice_channel_id = "x".to_string();
    assert_eq!(g.stored_channels(), None);
}

#[test]
fn reply_texts() {
    assert_eq!(Reply::NotInVoice.text(), "Not in a voice channel");
    assert_eq!(Reply::Pong.text(), "Pong!");
    assert_eq!(Reply::AddedToQueue(3).text(), "Added song to queue: position 3");
    assert_eq!(Reply::SongSkipped(0).text(), "Song skipped: 0 in queue.");
    assert_eq!(Reply::SongSkipped(12).text(), "Song skipped: 12 in queue.");
    assert_eq!(
        Reply::TrackEnded("https://example.com/a".to_string()).text(),
        "Track ended: https://example.com/a"
    );
    assert_eq!(Reply::Failed("Dropped".to_string()).text(), "Failed: Dropped");
    assert_eq!(
        Reply::NoFreeSlot("42".to_string()).text(),
        "it looks like you do not have an active reservation and all free slots are currently full. please visit https://balasolu.com/rexmit/42 to reserve rexmit for your guild 🐣"
    );
    assert_eq!(Reply::Retreated.text(), "retreated to attend to a reserved guild");
    assert_eq!(Reply::RetreatedForReserved.text(), "retreated to attend to a reserved guild 🐣");
    assert_eq!(Reply::Muted.text(), "Now muted");
}

#[test]
fn slot_decisions() {
    let id = "9".to_string();
    // a slot is open
    let d = decide_slot(&id, true, 3, 5, 10);
    assert!(matches!(d.verdict, SlotVerdict::Admit));
    assert!(matches!(d.reply, Reply::ReservedWelcome));
    let d = decide_slot(&id, false, 3, 4, 10);
    assert!(matches!(d.verdict, SlotVerdict::Admit));
    assert!(matches!(d.reply, Reply::FreeSlotWelcome));
    let d = decide_slot(&id, false, 3, 5, 10);
    assert!(matches!(d.verdict, SlotVerdict::Refuse));
    assert!(d.reply.text().contains("rexmit/9 to reserve"));
    // every slot is taken
    let d = decide_slot(&id, true, 10, 2, 10);
    assert!(matches!(d.verdict, SlotVerdict::BootFreeGuild));
    assert!(matches!(d.reply, Reply::ReservedWelcome));
    let d = decide_slot(&id, true, 10, 0, 10);
    assert!(matches!(d.verdict, SlotVerdict::Refuse));
    assert!(matches!(d.reply, Reply::ReservedButFull));
    let d = decide_slot(&id, false, 10, 2, 10);
    assert!(matches!(d.verdict, SlotVerdict::Refuse));
    assert!(matches!(d.reply, Reply::NoFreeSlot(_)));
    // no slots at all
    let d = decide_slot(&id, false, 0, 0, 0);
    assert!(matches!(d.verdict, SlotVerdict::Refuse));
}

fn answer_of(action: &SlotCheckAction) -> Option<Option<bool>> {
    match action {
        SlotCheckAction::Answer { answer, .. } => Some(*answer),
        _ => None,
    }
}

#[test]
fn slot_check_open_slot() {
    let (c, a) = SlotCheck::start();
    assert!(matches!(a, SlotCheckAction::CountJoinedGuilds));
    let (c, a) = c.step(SlotCheckEvent::UsedSlots(Some(2)));
    assert!(matches!(a, SlotCheckAction::ReadMaxSlots));
    let (c, a) = c.step(SlotCheckEvent::MaxSlots("3".to_string()));
    assert_eq!(answer_of(&a), Some(Some(true)));
    assert!(matches!(c, SlotCheck::Done { answer: Some(true) }));
}

#[test]
fn slot_check_full_without_reservation() {
    let (c, _) = SlotCheck::start();
    let (c, _) = c.step(SlotCheckEvent::UsedSlots(Some(3)));
    let (c, a) = c.step(SlotCheckEvent::MaxSlots("3".to_string()));
    assert!(matches!(a, SlotCheckAction::ReadReservation));
    let (_c, a) = c.step(SlotCheckEvent::Reservation(Some(false)));
    assert_eq!(answer_of(&a), Some(Some(false)));
}

#[test]
fn slot_check_reserved_displaces_free_guild() {
    let (c, _) = SlotCheck::start();
    let (c, _) = c.step(SlotCheckEvent::UsedSlots(Some(5)));
    let (c, _) = c.step(SlotCheckEvent::MaxSlots("4".to_string()));
    let (c, a) = c.step(SlotCheckEvent::Reservation(Some(true)));
    assert!(matches!(a, SlotCheckAction::CountFreeJoinedGuilds));
    let (c, a) = c.step(SlotCheckEvent::FreeSlots(Some(1)));
    assert!(matches!(a, SlotCheckAction::FindFreeGuild));
    let (c, a) = c.step(SlotCheckEvent::FreeGuild(Some(77)));
    assert!(matches!(a, SlotCheckAction::ReadGuildRecord(77)));
    let mut g = Guild::new("77".to_string());
    g.message_channel_id = "88".to_string();
    let (c, a) = c.step(SlotCheckEvent::FreeGuildRecord(Some(g)));
    match a {
        SlotCheckAction::Answer { notify: Some((channel, reply)), answer } => {
            assert_eq!(channel, 88);
            assert_eq!(reply.text(), "retreated to attend to a reserved guild");
            assert_eq!(answer, Some(true));
        }
        _ => panic!("expected an answer with a notice"),
    }
    assert!(matches!(c, SlotCheck::Done { answer: Some(true) }));
}

#[test]
fn slot_check_missing_answers() {
    let (c, _) = SlotCheck::start();
    let (_, a) = c.step(SlotCheckEvent::UsedSlots(None));
    assert_eq!(answer_of(&a), Some(None));
    let (c, _) = SlotCheck::start();
    let (c, _) = c.step(SlotCheckEvent::UsedSlots(Some(1)));
    let (_, a) = c.step(SlotCheckEvent::MaxSlots("ten".to_string()));
    assert_eq!(answer_of(&a), Some(None));
    let (c, _) = SlotCheck::start();
    let (c, _) = c.step(SlotCheckEvent::UsedSlots(Some(1)));
    let (c, _) = c.step(SlotCheckEvent::MaxSlots("1".to_string()));
    let (c, _) = c.step(SlotCheckEvent::Reservation(Some(true)));
    let (_, a) = c.step(SlotCheckEvent::FreeSlots(Some(0)));
    assert_eq!(answer_of(&a), Some(Some(false)));
    // an answer of the wrong kind ends the check
    let (c, _) = SlotCheck::start();
    let (c, a) = c.step(SlotCheckEvent::Reservation(Some(true)));
    assert_eq!(answer_of(&a), Some(None));
    let (_, a) = c.step(SlotCheckEvent::UsedSlots(Some(0)));
    assert_eq!(answer_of(&a), Some(None));
}

#[test]
fn voice_commands() {
    assert!(matches!(
        voice_plan(VoiceCommand::Deafen, false, false),
        VoicePlan::Refuse { reply: Reply::NotInVoice, to_author: true }
    ));
    assert!(matches!(
        voice_plan(VoiceCommand::Deafen, true, true),
        VoicePlan::Unchanged { reply: Reply::AlreadyDeafened }
    ));
    assert!(matches!(
        voice_plan(VoiceCommand::Deafen, true, false),
        VoicePlan::Change { on: true, reply: Reply::Deafened }
    ));
    assert!(matches!(
        voice_plan(VoiceCommand::Mute, true, true),
        VoicePlan::Unchanged { reply: Reply::AlreadyMuted }
    ));
    assert!(matches!(
        voice_plan(VoiceCommand::Mute, true, false),
        VoicePlan::Change { on: true, reply: Reply::Muted }
    ));
    assert!(matches!(
        voice_plan(VoiceCommand::Undeafen, false, true),
        VoicePlan::Refuse { reply: Reply::NotInVoiceToUndeafen, to_author: false }
    ));
    assert!(matches!(
        voice_plan(VoiceCommand::Undeafen, true, false),
        VoicePlan::Change { on: false, reply: Reply::Undeafened }
    ));
    assert!(matches!(
        voice_plan(VoiceCommand::Unmute, true, true),
        VoicePlan::Change { on: false, reply: Reply::Unmuted }
    ));
    assert!(matches!(
        voice_plan(VoiceCommand::Unmute, false, false),
        VoicePlan::Refuse { reply: Reply::NotInVoiceToUnmute, to_author: false }
    ));
}

#[test]
fn leaving() {
    assert!(matches!(leave_plan(false, true), LeavePlan::Stay));
    assert!(matches!(leave_plan(true, true), LeavePlan::Leave));
    assert!(matches!(leave_plan(true, false), LeavePlan::NotInVoice));
    assert!(matches!(idle_plan(1, true), LeavePlan::Leave));
    assert!(matches!(idle_plan(0, true), LeavePlan::Leave));
    assert!(matches!(idle_plan(2, true), LeavePlan::Stay));
    assert!(matches!(idle_plan(1, false), LeavePlan::NotInVoice));
    assert!(matches!(idle_plan(5, false), LeavePlan::Stay));
}

#[test]
fn track_urls() {
    assert!(matches!(track_url(None), Err(Reply::MissingUrl)));
    assert!(matches!(track_url(Some("ftp://x".to_string())), Err(Reply::InvalidUrl)));
    assert!(matches!(track_url(Some("htt".to_string())), Err(Reply::InvalidUrl)));
    assert!(matches!(track_url(Some("".to_string())), Err(Reply::InvalidUrl)));
    assert_eq!(
        track_url(Some("https://www.youtube.com/watch?v=jfKfPfyJRdk".to_string())).ok(),
        Some("https://www.youtube.com/watch?v=jfKfPfyJRdk".to_string())
    );
    assert_eq!(track_url(Some("http".to_string())).ok(), Some("http".to_string()));
}

#[test]
fn queue_plans() {
    match queue_plan("https://a".to_string(), true) {
        QueuePlan::Enqueue(u) => assert_eq!(u, "https://a"),
        _ => panic!("expected enqueue"),
    }
    match queue_plan("https://a".to_string(), false) {
        QueuePlan::JoinFirst(u) => assert_eq!(u, "https://a"),
        _ => panic!("expected join first"),
    }
}

#[test]
fn join_then_queue_again() {
    assert!(matches!(after_join_attempt(true), JoinFirstStep::Requeue));
    assert!(matches!(after_join_attempt(false), JoinFirstStep::Fail(Reply::UnableToJoin)));
    assert!(matches!(after_requeue(true), JoinFirstStep::Succeed));
    assert!(matches!(after_requeue(false), JoinFirstStep::Fail(Reply::UnableToQueue)));
}

#[test]
fn join_plans() {
    assert!(matches!(join_plan(Some(true)), JoinPlan::Join { report_failure: true }));
    assert!(matches!(join_plan(Some(false)), JoinPlan::Refuse));
    assert!(matches!(join_plan(None), JoinPlan::Join { report_failure: false }));
}

#[test]
fn joined_updates() {
    match joined_update(Some("1".to_string()), Some("2".to_string())) {
        GuildUpdate::SetJoined { voice_channel_id, message_channel_id } => {
            assert_eq!(voice_channel_id, "1");
            assert_eq!(message_channel_id, "2");
        }
        _ => panic!("expected a joined update"),
    }
    assert!(matches!(joined_update(Some("1".to_string()), None), GuildUpdate::ClearJoined));
    assert!(matches!(joined_update(None, Some("2".to_string())), GuildUpdate::ClearJoined));
    assert!(matches!(joined_update(None, None), GuildUpdate::ClearJoined));
}

#[test]
fn lookups() {
    let mut g = Guild::new("5".to_string());
    g.name = "five".to_string();
    match found_or_new(Some(g), "5".to_string(), Some(GuildUpdate::ClearQueue)) {
        StoredGuild::Found(f) => assert_eq!(f.name, "five"),
        _ => panic!("expected the found record"),
    }
    match found_or_new(None, "6".to_string(), None) {
        StoredGuild::Created(n) => {
            assert_eq!(n.id, "6");
            assert_eq!(n.name, "");
        }
        _ => panic!("expected a new record"),
    }
    assert_eq!(free_guild_id(&Some(Guild::new("31".to_string()))), Some(31));
    assert_eq!(free_guild_id(&Some(Guild::new("abc".to_string()))), None);
    assert_eq!(free_guild_id(&None), None);
}

#[test]
fn joined_ids_skip_unreadable_records() {
    let docs = vec![
        Some(Guild::new("1".to_string())),
        None,
        Some(Guild::new("3".to_string())),
    ];
    assert_eq!(joined_guild_ids(&docs), vec!["1".to_string(), "3".to_string()]);
    assert!(joined_guild_ids(&vec![]).is_empty());
}

#[test]
fn settings() {
    assert!(debug_enabled(&"1".to_string()));
    assert!(!debug_enabled(&"0".to_string()));
    assert!(!debug_enabled(&"11".to_string()));
    assert!(!debug_enabled(&"".to_string()));
    assert_eq!(database_name(true), "rexmit-dev");
    assert_eq!(database_name(false), "rexmit");
    assert_eq!(command_prefix(true), ">");
    assert_eq!(command_prefix(false), "~");
}

#[test]
fn stored_queue_reads_back_and_pops_from_the_front() {
    let mut g = Guild::new("1".to_string());
    let queue = vec!["https://a".to_string(), "https://b".to_string()];
    GuildUpdate::SetQueue(queue.clone()).apply_to(&mut g);
    assert_eq!(g.queue, queue);
    GuildUpdate::PopQueueFront.apply_to(&mut g);
    assert_eq!(g.queue, vec!["https://b".to_string()]);
    GuildUpdate::SetJoined {
        voice_channel_id: "10".to_string(),
        message_channel_id: "20".to_string(),
    }
    .apply_to(&mut g);
    assert_eq!(g.queue, vec!["https://b".to_string()]);
    assert!(g.joined_to_channel);
    assert_eq!(g.stored_channels(), Some((10, 20)));
    GuildUpdate::ClearQueue.apply_to(&mut g);
    assert!(g.queue.is_empty());
    GuildUpdate::PopQueueFront.apply_to(&mut g);
    assert!(g.queue.is_empty());
    assert!(g.joined_to_channel);
    GuildUpdate::ClearJoined.apply_to(&mut g);
    assert!(!g.joined_to_channel);
    assert_eq!(g.voice_channel_id, "");
    assert_eq!(g.message_channel_id, "");
    assert_eq!(g.id, "1");
}

#[test]
fn any_six_answers_finish_a_check() {
    let answers = || {
        vec![
            SlotCheckEvent::UsedSlots(Some(9)),
            SlotCheckEvent::MaxSlots("9".to_string()),
            SlotCheckEvent::Reservation(Some(true)),
            SlotCheckEvent::FreeSlots(Some(4)),
            SlotCheckEvent::FreeGuild(Some(3)),
            SlotCheckEvent::FreeGuildRecord(None),
        ]
    };
    let (mut c, _) = SlotCheck::start();
    for e in answers() {
        c = c.step(e).0;
    }
    assert!(matches!(c, SlotCheck::Done { answer: None }));
    let (mut c, _) = SlotCheck::start();
    for e in answers().into_iter().rev() {
        c = c.step(e).0;
    }
    assert!(matches!(c, SlotCheck::Done { .. }));
}

#[test]
fn writes_to_a_missing_guild_store_the_data() {
    let queue = vec!["https://a".to_string(), "https://b".to_string()];
    match found_or_new(None, "8".to_string(), Some(GuildUpdate::SetQueue(queue.clone()))) {
        StoredGuild::Created(n) => {
            assert_eq!(n.id, "8");
            assert_eq!(n.queue, queue);
        }
        _ => panic!("expected a new record"),
    }
    let joined = joined_update(Some("10".to_string()), Some("20".to_string()));
    match found_or_new(None, "8".to_string(), Some(joined)) {
        StoredGuild::Created(n) => {
            assert!(n.joined_to_channel);
            assert_eq!(n.voice_channel_id, "10");
            assert_eq!(n.message_channel_id, "20");
            assert!(n.queue.is_empty());
        }
        _ => panic!("expected a new record"),
    }
    let mut given = Guild::new("9".to_string());
    given.name = "nine".to_string();
    given.subscribed = true;
    match found_or_given(None, given) {
        StoredGuild::Created(n) => {
            assert_eq!(n.id, "9");
            assert_eq!(n.name, "nine");
            assert!(n.subscribed);
        }
        _ => panic!("expected the given record"),
    }
    match found_or_given(Some(Guild::new("9".to_string())), Guild::new("x".to_string())) {
        StoredGuild::Found(f) => assert_eq!(f.id, "9"),
        _ => panic!("expected the found record"),
    }
}
