use rukari::bot::{Bot, ShardScheme};
use rukari::error::BotError;
use rukari::event::{classify_payload, dispatch_from_parts, RawEvent};
use rukari::intents::to_intents;
use rukari::presence::{parse_status, ActivityKind, ActivityUpdate, ShardState, Status};
use rukari::shard::{shard_id_for_guild, Shard};

fn running_bot(from: u64, to: u64, total: u64) -> Bot {
    let mut bot = Bot::new("token".to_string(), None, Some((from, to, total)), "wss://gateway.discord.gg".to_string()).unwrap();
    let shards = bot.prepare_run(None).unwrap();
    bot.install_shards(shards);
    bot.mark_connected();
    bot
}

#[test]
fn default_intents_leave_out_privileged_ones() {
    assert_eq!(to_intents(None), Ok(0x317EFD));
    assert_eq!(to_intents(None).unwrap() & ((1 << 1) | (1 << 8) | (1 << 15)), 0);
}

#[test]
fn valid_intents_are_kept() {
    assert_eq!(to_intents(Some(0)), Ok(0));
    assert_eq!(to_intents(Some(1 << 15)), Ok(1 << 15));
    assert_eq!(to_intents(Some(0x31FFFF)), Ok(0x31FFFF));
}

#[test]
fn unknown_intent_bits_are_refused() {
    assert_eq!(to_intents(Some(1 << 17)), Err(BotError::InvalidIntents));
    assert_eq!(to_intents(Some(u64::MAX)), Err(BotError::InvalidIntents));
}

#[test]
fn status_names() {
    assert_eq!(parse_status("online"), Some(Status::Online));
    assert_eq!(parse_status("idle"), Some(Status::Idle));
    assert_eq!(parse_status("dnd"), Some(Status::DoNotDisturb));
    assert_eq!(parse_status("offline"), Some(Status::Offline));
    assert_eq!(parse_status("invisible"), None);
    assert_eq!(parse_status("Online"), None);
    assert_eq!(parse_status(""), None);
}

#[test]
fn fresh_state() {
    let s = ShardState::new();
    assert!(!s.self_mute && !s.self_deaf && !s.afk);
    assert!(s.activity.is_none());
    assert_eq!(s.afk_since, None);
    assert_eq!(s.status, Status::Online);
    let d = ShardState::default();
    assert_eq!(d.status, Status::Online);
}

#[test]
fn activity_kinds_follow_gateway_numbers() {
    let expected = [
        (0u8, ActivityKind::Playing),
        (1, ActivityKind::Streaming),
        (2, ActivityKind::Listening),
        (3, ActivityKind::Watching),
        (4, ActivityKind::Custom),
        (5, ActivityKind::Competing),
        (6, ActivityKind::Unknown(6)),
        (99, ActivityKind::Unknown(99)),
    ];
    for (kind, want) in expected {
        let mut s = ShardState::new();
        s.set_activity(kind, "game".to_string(), None);
        assert_eq!(s.activity.as_ref().unwrap().kind, want);
        assert_eq!(s.activity.as_ref().unwrap().name, "game");
    }
}

#[test]
fn presence_update_changes_only_given_parts() {
    let mut s = ShardState::new();
    let p = s.apply_presence(Some(Status::Idle), None, None, Some(true));
    assert_eq!(s.status, Status::Idle);
    assert!(s.afk);
    assert_eq!(s.afk_since, None);
    assert!(p.activities.is_empty());
    assert!(p.afk);
    assert_eq!(p.status, Status::Idle);

    let act = ActivityUpdate { kind: 1, name: "stream".to_string(), url: Some("https://x".to_string()) };
    let p = s.apply_presence(None, Some(1234), Some(act), None);
    assert_eq!(s.status, Status::Idle);
    assert!(s.afk);
    assert_eq!(s.afk_since, Some(1234));
    assert_eq!(p.since, Some(1234));
    assert_eq!(p.activities.len(), 1);
    assert_eq!(p.activities[0].kind, ActivityKind::Streaming);
    assert_eq!(p.activities[0].url.as_deref(), Some("https://x"));
}

#[test]
fn voice_update_changes_only_given_flags() {
    let mut s = ShardState::new();
    let p = s.apply_voice(10, Some(20), Some(true), None);
    assert!(s.self_mute && !s.self_deaf);
    assert_eq!((p.guild_id, p.channel_id, p.self_mute, p.self_deaf), (10, Some(20), true, false));
    let p = s.apply_voice(10, None, None, Some(true));
    assert!(s.self_mute && s.self_deaf);
    assert_eq!(p.channel_id, None);
    assert_eq!(s.status, Status::Online);
}

#[test]
fn presence_and_voice_updates_commute() {
    let mut a = ShardState::new();
    a.apply_presence(Some(Status::Offline), Some(5), None, Some(true));
    a.apply_voice(1, None, Some(true), Some(false));
    let mut b = ShardState::new();
    b.apply_voice(1, None, Some(true), Some(false));
    b.apply_presence(Some(Status::Offline), Some(5), None, Some(true));
    assert_eq!((a.status, a.afk, a.afk_since, a.self_mute, a.self_deaf), (b.status, b.afk, b.afk_since, b.self_mute, b.self_deaf));
}

#[test]
fn same_update_twice_is_same_as_once() {
    let mut s = ShardState::new();
    s.apply_presence(Some(Status::DoNotDisturb), Some(9), None, Some(false));
    let once = (s.status, s.afk, s.afk_since);
    s.apply_presence(Some(Status::DoNotDisturb), Some(9), None, Some(false));
    assert_eq!((s.status, s.afk, s.afk_since), once);
}

#[test]
fn shard_refuses_invalid_status_without_change() {
    let mut shard = Shard::new(ShardState::new(), 2, 1, 7);
    assert_eq!(shard.update_presence(Some("away"), Some(3), None, Some(true)).unwrap_err(), BotError::InvalidStatus);
    assert_eq!(shard.state.afk_since, None);
    assert!(!shard.state.afk);
    let p = shard.update_presence(Some("dnd"), None, None, None).unwrap();
    assert_eq!(p.status, Status::DoNotDisturb);
    assert_eq!((shard.get_id(), shard.get_shard_count(), shard.get_intents()), (1, 2, 7));
    assert!(shard.is_alive());
}

#[test]
fn shard_members_request() {
    let shard = Shard::new(ShardState::new(), 1, 0, 0);
    let r = shard.request_guild_members(42, Some(true), "ab".to_string(), 5, Some(vec![1, 2]), None);
    assert_eq!(r.guild_id, 42);
    assert_eq!(r.presences, Some(true));
    assert_eq!(r.query.as_deref(), Some("ab"));
    assert_eq!(r.limit, Some(5));
    assert_eq!(r.user_ids, Some(vec![1, 2]));
    assert_eq!(r.nonce, None);
}

#[test]
fn guild_routing_formula() {
    assert_eq!(shard_id_for_guild(175928847299117063, 16), 4);
    assert_eq!(shard_id_for_guild(81384788765712384, 3), 1);
    assert_eq!(shard_id_for_guild(0, 1), 0);
    assert_eq!(shard_id_for_guild((7 << 22) | 12345, 5), 2);
}

#[test]
fn gateway_scheme() {
    assert_eq!(ShardScheme::for_gateway(4), ShardScheme { from: 0, to: 3, total: 4 });
    assert_eq!(ShardScheme::for_gateway(1), ShardScheme { from: 0, to: 0, total: 1 });
}

#[test]
fn new_bot_refuses_invalid_intents() {
    assert_eq!(Bot::new("t".to_string(), Some(1 << 40), None, "u".to_string()).unwrap_err(), BotError::InvalidIntents);
    let bot = Bot::new("t".to_string(), Some(3), None, "u".to_string()).unwrap();
    assert_eq!(bot.get_intents(), 3);
    assert!(!bot.is_alive());
    assert_eq!(bot.shard_config(), None);
    assert_eq!(bot.token(), "t");
    assert_eq!(bot.gateway_url(), "u");
    assert_eq!(bot.get_shard_count(), 0);
}

#[test]
fn run_uses_fetched_scheme_when_none_configured() {
    let mut bot = Bot::new("t".to_string(), None, None, "u".to_string()).unwrap();
    let shards = bot.prepare_run(Some(ShardScheme::for_gateway(3))).unwrap();
    assert_eq!(shards.iter().map(|s| s.shard_id).collect::<Vec<_>>(), vec![0, 1, 2]);
    assert!(shards.iter().all(|s| s.shard_count == 3 && s.intents == 0x317EFD));
    assert_eq!(bot.shard_config(), Some(ShardScheme { from: 0, to: 2, total: 3 }));
}

#[test]
fn run_keeps_configured_scheme() {
    let mut bot = Bot::new("t".to_string(), None, Some((2, 4, 8)), "u".to_string()).unwrap();
    let shards = bot.prepare_run(Some(ShardScheme::for_gateway(1))).unwrap();
    assert_eq!(shards.iter().map(|s| s.shard_id).collect::<Vec<_>>(), vec![2, 3, 4]);
    let mut bot = Bot::new("t".to_string(), None, Some((5, 4, 8)), "u".to_string()).unwrap();
    assert!(bot.prepare_run(None).unwrap().is_empty());
}

#[test]
fn lifecycle() {
    let mut bot = running_bot(0, 1, 2);
    assert!(bot.is_alive());
    assert_eq!(bot.ensure_running(), Ok(()));
    assert_eq!(bot.get_shard_count(), 2);
    assert_eq!(bot.prepare_run(None).unwrap_err(), BotError::AlreadyRunning);
    assert_eq!(bot.close(), Ok(()));
    assert!(!bot.is_alive());
    assert_eq!(bot.shards().len(), 2);
    assert_eq!(bot.close(), Err(BotError::NotRunning));
    assert_eq!(bot.ensure_running(), Err(BotError::NotRunning));
    assert_eq!(bot.get_shard_count(), 0);
    bot.mark_disconnected();
    assert_eq!(bot.shards().len(), 2);
    assert!(bot.prepare_run(None).is_ok());
}

#[test]
fn shards_keep_their_state_after_the_stream_ends() {
    let mut bot = running_bot(0, 1, 2);
    bot.mark_disconnected();
    assert!(bot.update_presence(Some("idle"), None, None, None).is_empty());
    assert_eq!(bot.shards()[0].state.status, Status::Online);
    let p = bot.update_shard_presence(1, Some("dnd"), None, None, Some(true)).unwrap();
    assert_eq!(p.status, Status::DoNotDisturb);
    assert_eq!(bot.shards()[1].state.status, Status::DoNotDisturb);
    let v = bot.update_shard_voice_state(0, 5, None, Some(true), None).unwrap();
    assert!(v.self_mute && bot.shards()[0].state.self_mute);
    assert_eq!(bot.update_voice_state(5, None, None, None).unwrap_err(), BotError::NotRunning);
}

#[test]
fn held_shards_count_the_reported_total() {
    let bot = running_bot(1, 3, 7);
    assert_eq!(bot.get_shard_count(), 7);
    assert_eq!(bot.shards().len(), 3);
    assert!(bot.shards().iter().all(|s| s.shard_count == bot.get_shard_count()));
}

#[test]
fn routing_to_shards() {
    let mut bot = Bot::new("t".to_string(), None, Some((0, 1, 2)), "u".to_string()).unwrap();
    assert_eq!(bot.get_shard(1 << 22), Err(BotError::NotRunning));
    let shards = bot.prepare_run(None).unwrap();
    bot.install_shards(shards);
    bot.mark_connected();
    assert_eq!(bot.get_shard(5 << 22), Ok(1));
    assert_eq!(bot.get_shard(4 << 22), Ok(0));

    let partial = running_bot(0, 0, 2);
    assert_eq!(partial.get_shard(5 << 22), Err(BotError::ShardNotFound));
    assert_eq!(partial.get_shard(6 << 22), Ok(0));
}

#[test]
fn voice_update_goes_to_the_guilds_shard() {
    let mut bot = running_bot(0, 2, 3);
    let (id, p) = bot.update_voice_state(4 << 22, Some(9), Some(true), None).unwrap();
    assert_eq!(id, 1);
    assert_eq!((p.guild_id, p.channel_id, p.self_mute, p.self_deaf), (4 << 22, Some(9), true, false));
    assert!(bot.shards()[1].state.self_mute);
    assert!(!bot.shards()[0].state.self_mute && !bot.shards()[2].state.self_mute);
    let partial = &mut running_bot(0, 0, 3);
    assert_eq!(partial.update_voice_state(4 << 22, None, Some(true), None).unwrap_err(), BotError::ShardNotFound);
    assert!(!partial.shards()[0].state.self_mute);
}

#[test]
fn members_request_goes_to_the_guilds_shard() {
    let bot = running_bot(0, 2, 3);
    let (id, req) = bot.request_guild_members(5 << 22, None, String::new(), 0, None, Some("n".to_string())).unwrap();
    assert_eq!(id, 2);
    assert_eq!(req.guild_id, 5 << 22);
    assert_eq!(req.query.as_deref(), Some(""));
    assert_eq!(req.nonce.as_deref(), Some("n"));
    let stopped = Bot::new("t".to_string(), None, None, "u".to_string()).unwrap();
    assert_eq!(stopped.request_guild_members(1, None, String::new(), 0, None, None).unwrap_err(), BotError::NotRunning);
}

#[test]
fn presence_update_reaches_every_shard() {
    let mut bot = running_bot(0, 2, 3);
    let act = ActivityUpdate { kind: 3, name: "you".to_string(), url: None };
    let out = bot.update_presence(Some("idle"), None, Some(act), None);
    assert_eq!(out.iter().map(|(id, _)| *id).collect::<Vec<_>>(), vec![0, 1, 2]);
    for (shard, (_, p)) in bot.shards().iter().zip(out.iter()) {
        assert_eq!(shard.state.status, Status::Idle);
        assert_eq!(p.status, Status::Idle);
        assert_eq!(p.activities[0].kind, ActivityKind::Watching);
    }
    let none = bot.update_presence(Some("busy"), Some(1), None, Some(true));
    assert!(none.is_empty());
    assert!(bot.shards().iter().all(|s| !s.state.afk && s.state.status == Status::Idle));
}

#[test]
fn payload_classification() {
    assert!(matches!(classify_payload(b"not json"), RawEvent::Malformed));
    assert!(matches!(classify_payload(b"{\"op\":11,\"d\":null,\"t\":null}"), RawEvent::Control));
    assert!(matches!(classify_payload(b"{\"op\":0,\"t\":\"READY\"}"), RawEvent::Control));
    assert!(matches!(classify_payload(b"[1,2]"), RawEvent::Control));
    match classify_payload(b"{\"op\":0,\"t\":\"GUILD_CREATE\",\"d\":{\"id\":\"1\"}}") {
        RawEvent::Dispatch { name, data } => {
            assert_eq!(name, "GUILD_CREATE");
            assert_eq!(data["id"], "1");
        }
        other => panic!("unexpected {:?}", other),
    }
}

#[test]
fn dispatch_needs_name_and_data() {
    assert!(matches!(dispatch_from_parts(None, Some("X".to_string())), RawEvent::Control));
    assert!(matches!(dispatch_from_parts(Some(serde_json::Value::Null), None), RawEvent::Control));
    assert!(matches!(dispatch_from_parts(Some(serde_json::Value::Null), Some("X".to_string())), RawEvent::Dispatch { .. }));
}

#[test]
fn shard_by_id_updates() {
    let mut bot = running_bot(3, 4, 5);
    let p = bot.update_shard_voice_state(4, 77, Some(8), None, Some(true)).unwrap();
    assert_eq!((p.guild_id, p.channel_id, p.self_mute, p.self_deaf), (77, Some(8), false, true));
    assert!(bot.shards()[1].state.self_deaf && !bot.shards()[0].state.self_deaf);
    assert_eq!(bot.update_shard_voice_state(0, 77, None, None, None).unwrap_err(), BotError::ShardNotFound);

    let p = bot.update_shard_presence(3, Some("offline"), Some(10), None, None).unwrap();
    assert_eq!(p.status, Status::Offline);
    assert_eq!(bot.shards()[0].state.status, Status::Offline);
    assert_eq!(bot.shards()[1].state.status, Status::Online);
    assert_eq!(bot.update_shard_presence(3, Some("gone"), None, None, None).unwrap_err(), BotError::InvalidStatus);
    assert_eq!(bot.shards()[0].state.afk_since, Some(10));
    assert_eq!(bot.update_shard_presence(9, None, None, None, None).unwrap_err(), BotError::ShardNotFound);
}
