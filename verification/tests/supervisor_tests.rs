//! The supervisor's decisions from outside: classification, violation
//! policy, backoff, and the dispatch router's queue.
use discord_gateway::codec::{decode, DecodeError};
use discord_gateway::events::opcode_of;
use discord_gateway::events::{GatewayDispatch, GatewayEvents};
use discord_gateway::router::{tag_of_name, DispatchEvent, DispatchQueue};
use discord_gateway::session::{ConnState, Event, HbControl, OutCmd};
use discord_gateway::router::SubscriberTable;
use discord_gateway::supervisor::{backoff_delay_ms, backoff_ms, CommandError, Supervisor,
    TickOutcome, UserCommand, BACKOFF_CAP_MS, PROTOCOL_VIOLATION_LIMIT};

fn chars(s: &str) -> Vec<char> {
    s.chars().collect()
}

fn connected_supervisor() -> Supervisor {
    let mut sup = Supervisor::new();
    sup.handle_event(Event::Opened);
    let hello = decode(chars("{\"op\":10,\"d\":{\"heartbeat_interval\":41250}}").as_slice())
        .unwrap();
    let eff = sup.handle_frame(&hello);
    assert!(matches!(eff.send, Some(OutCmd::Identify)));
    assert_eq!(eff.heartbeat, HbControl::Start { interval_ms: 41250 });
    assert_eq!(sup.heartbeat.as_ref().unwrap().interval_ms, 41250);
    let ready = decode(
        chars(
            "{\"op\":0,\"s\":1,\"t\":\"READY\",\"d\":{\"session_id\":\"abc\",\"resume_gateway_url\":\"wss://r\"}}",
        )
        .as_slice(),
    )
    .unwrap();
    sup.handle_frame(&ready);
    assert_eq!(sup.machine.state, ConnState::Connected);
    let sd = sup.machine.session.as_ref().unwrap();
    assert_eq!(sd.session_id, chars("abc"));
    assert_eq!(sd.last_seq, 1);
    assert_eq!(sd.resume_url, chars("wss://r"));
    sup
}

#[test]
fn hello_then_ready_connects() {
    connected_supervisor();
}

#[test]
fn heartbeat_ack_frame_clears_pending() {
    let mut sup = connected_supervisor();
    sup.heartbeat.as_mut().unwrap().on_tick();
    assert!(sup.heartbeat.as_ref().unwrap().pending);
    let ack = decode(chars("{\"op\":11,\"d\":null}").as_slice()).unwrap();
    sup.handle_frame(&ack);
    assert!(!sup.heartbeat.as_ref().unwrap().pending);
}

#[test]
fn dispatch_frames_raise_the_sequence() {
    let mut sup = connected_supervisor();
    let f = decode(chars("{\"op\":0,\"s\":9,\"t\":\"MESSAGE_CREATE\",\"d\":{}}").as_slice())
        .unwrap();
    sup.handle_frame(&f);
    assert_eq!(sup.machine.session.as_ref().unwrap().last_seq, 9);
}

#[test]
fn unknown_opcode_is_dropped_and_the_connection_stays_open() {
    let mut sup = connected_supervisor();
    let raw = chars("{\"op\": 99, \"d\": null}");
    let err = decode(raw.as_slice()).unwrap_err();
    assert_eq!(err, DecodeError::UnknownOpcode);
    let eff = sup.on_decode_error(err);
    assert!(!eff.close_transport);
    assert_eq!(sup.machine.state, ConnState::Connected);
    assert_eq!(sup.violations, 0);
}

#[test]
fn malformed_frames_force_a_reconnect_past_the_threshold() {
    let mut sup = connected_supervisor();
    for k in 1..PROTOCOL_VIOLATION_LIMIT {
        let eff = sup.on_decode_error(DecodeError::MalformedFrame);
        assert!(!eff.close_transport);
        assert_eq!(sup.violations, k);
        assert_eq!(sup.machine.state, ConnState::Connected);
    }
    let eff = sup.on_decode_error(DecodeError::MalformedFrame);
    assert!(eff.close_transport);
    assert_eq!(eff.heartbeat, HbControl::Cancel);
    assert_eq!(sup.violations, 0);
    assert_eq!(sup.machine.state, ConnState::Closing);
    assert!(sup.heartbeat.is_none());
}

#[test]
fn inbound_client_opcodes_count_as_violations() {
    let mut sup = connected_supervisor();
    let f = decode(chars("{\"op\":2,\"d\":null}").as_slice()).unwrap();
    let eff = sup.handle_frame(&f);
    assert!(!eff.close_transport);
    assert_eq!(sup.violations, 1);
}

#[test]
fn invalid_session_frame_reaches_the_machine() {
    let mut sup = Supervisor::new();
    sup.handle_event(Event::Opened);
    let hello = decode(chars("{\"op\":10,\"d\":{\"heartbeat_interval\":41250}}").as_slice())
        .unwrap();
    sup.handle_frame(&hello);
    assert_eq!(sup.machine.state, ConnState::Identifying);
    let f = decode(chars("{\"op\":9,\"d\":false}").as_slice()).unwrap();
    let eff = sup.handle_frame(&f);
    assert!(eff.close_transport);
    assert_eq!(sup.machine.state, ConnState::Disconnected);
    assert!(sup.machine.session.is_none());
    assert!(sup.heartbeat.is_none());
}

#[test]
fn user_commands_need_a_connected_session() {
    let sup = Supervisor::new();
    assert_eq!(
        sup.user_command(UserCommand::PresenceUpdate, chars("{\"status\":\"online\"}"))
            .unwrap_err(),
        CommandError::NotConnected
    );
    let sup = connected_supervisor();
    let out = sup
        .user_command(UserCommand::PresenceUpdate, chars("{\"status\":\"online\"}"))
        .unwrap();
    assert_eq!(out, chars("{\"op\":3,\"d\":{\"status\":\"online\"}}"));
    let out = sup
        .user_command(UserCommand::RequestGuildMembers, chars("{\"guild_id\":\"1\"}"))
        .unwrap();
    assert_eq!(out, chars("{\"op\":8,\"d\":{\"guild_id\":\"1\"}}"));
    assert_eq!(
        sup.user_command(UserCommand::VoiceStateUpdate, chars("} not a value")).unwrap_err(),
        CommandError::MalformedPayload
    );
}

#[test]
fn backoff_doubles_from_base_to_cap() {
    assert_eq!(backoff_ms(0), 1000);
    assert_eq!(backoff_ms(1), 2000);
    assert_eq!(backoff_ms(2), 4000);
    assert_eq!(backoff_ms(5), 32000);
    assert_eq!(backoff_ms(6), 60000);
    assert_eq!(backoff_ms(7), 60000);
    assert_eq!(backoff_ms(1000), 60000);
}

#[test]
fn backoff_delay_never_exceeds_the_cap() {
    // Attempt 0: backoff 1000, jitter spread over the room up to the cap.
    let d = backoff_delay_ms(0, 123456789);
    assert_eq!(d, 1000 + 123456789 % 59001);
    assert!(1000 <= d && d <= BACKOFF_CAP_MS);
    // At the cap there is no room left: the wait is exactly the cap.
    assert_eq!(backoff_delay_ms(9, 7), 60000);
    assert_eq!(backoff_delay_ms(6, u64::MAX), 60000);
    for j in [0u64, 1, 59999, 60000, u64::MAX] {
        for a in [0u32, 1, 5, 6, 7, 100] {
            assert!(backoff_delay_ms(a, j) <= BACKOFF_CAP_MS);
        }
    }
}

#[test]
fn attempt_counter_grows_and_resets_on_connect() {
    let mut sup = Supervisor::new();
    assert_eq!(sup.attempts, 0);
    let d0 = sup.next_backoff_delay(0);
    assert_eq!(d0, 1000);
    let d1 = sup.next_backoff_delay(0);
    assert_eq!(d1, 2000);
    assert_eq!(sup.attempts, 2);
    // Reaching Connected resets the consecutive-failure count.
    sup.handle_event(Event::Opened);
    let hello = decode(chars("{\"op\":10,\"d\":{\"heartbeat_interval\":41250}}").as_slice())
        .unwrap();
    sup.handle_frame(&hello);
    let ready = decode(
        chars(
            "{\"op\":0,\"s\":1,\"t\":\"READY\",\"d\":{\"session_id\":\"abc\",\"resume_gateway_url\":\"wss://r\"}}",
        )
        .as_slice(),
    )
    .unwrap();
    sup.handle_frame(&ready);
    assert_eq!(sup.attempts, 0);
    assert_eq!(sup.next_backoff_delay(0), 1000);
}

#[test]
fn heartbeat_tick_sends_the_stored_sequence() {
    let mut sup = connected_supervisor();
    let f = decode(chars("{\"op\":0,\"s\":57,\"t\":\"MESSAGE_CREATE\",\"d\":{}}").as_slice())
        .unwrap();
    sup.handle_frame(&f);
    match sup.on_heartbeat_tick() {
        Some(TickOutcome::Send(text)) => {
            assert_eq!(text, chars("{\"op\":1,\"d\":57}"));
        },
        other => panic!("expected a send, got {:?}", other),
    }
    assert!(sup.heartbeat.as_ref().unwrap().pending);
    // No acknowledgement: the next tick reports the connection dead.
    assert!(matches!(sup.on_heartbeat_tick(), Some(TickOutcome::Reconnect)));
}

#[test]
fn heartbeat_tick_without_scheduler_is_stale() {
    let mut sup = Supervisor::new();
    assert!(sup.on_heartbeat_tick().is_none());
}

#[test]
fn keep_running_distinguishes_shutdown_from_invalidation() {
    // A server-invalidated session is self-healing.
    let mut sup = Supervisor::new();
    sup.handle_event(Event::Opened);
    let hello = decode(chars("{\"op\":10,\"d\":{\"heartbeat_interval\":41250}}").as_slice())
        .unwrap();
    sup.handle_frame(&hello);
    let f = decode(chars("{\"op\":9,\"d\":false}").as_slice()).unwrap();
    sup.handle_frame(&f);
    assert_eq!(sup.machine.state, ConnState::Disconnected);
    assert!(sup.keep_running());
    // An explicit shutdown is terminal.
    let mut sup = connected_supervisor();
    sup.handle_event(Event::Shutdown);
    sup.handle_event(Event::CloseDone);
    assert_eq!(sup.machine.state, ConnState::Disconnected);
    assert!(!sup.keep_running());
}

#[test]
fn subscribers_hear_their_tag_and_catch_alls_hear_everything() {
    let mut table = SubscriberTable::new();
    table.subscribe(GatewayDispatch::MessageCreate, 1);
    table.subscribe(GatewayDispatch::TypingStart, 2);
    table.subscribe(GatewayDispatch::MessageCreate, 3);
    table.subscribe_all(9);
    assert_eq!(table.recipients_of(GatewayDispatch::MessageCreate), vec![1, 3, 9]);
    assert_eq!(table.recipients_of(GatewayDispatch::TypingStart), vec![2, 9]);
    assert_eq!(table.recipients_of(GatewayDispatch::GuildCreate), vec![9]);
}

#[test]
fn tags_classify_and_unknown_tags_survive() {
    assert_eq!(tag_of_name(chars("MESSAGE_CREATE").as_slice()), GatewayDispatch::MessageCreate);
    assert_eq!(tag_of_name(chars("READY").as_slice()), GatewayDispatch::Ready);
    assert_eq!(tag_of_name(chars("GUILD_ROLE_DELETE").as_slice()), GatewayDispatch::GuildRoleDelete);
    assert_eq!(tag_of_name(chars("SOMETHING_NEW").as_slice()), GatewayDispatch::Unknown);
}

#[test]
fn queue_is_fifo_and_backpressures_when_full() {
    let mut q = DispatchQueue::new(2);
    assert_eq!(q.len(), 0);
    let mk = |tag: GatewayDispatch, seq: u64| DispatchEvent { tag, seq, payload: chars("{}") };
    assert!(q.offer(mk(GatewayDispatch::MessageCreate, 1)).is_none());
    assert!(q.offer(mk(GatewayDispatch::TypingStart, 2)).is_none());
    // Full: the event comes back, the pump must block, nothing is dropped.
    let back = q.offer(mk(GatewayDispatch::UserUpdate, 3)).expect("queue is full");
    assert_eq!(back.seq, 3);
    assert_eq!(q.len(), 2);
    let a = q.take().unwrap();
    assert_eq!(a.seq, 1);
    assert_eq!(a.tag, GatewayDispatch::MessageCreate);
    let b = q.take().unwrap();
    assert_eq!(b.seq, 2);
    assert!(q.take().is_none());
}

#[test]
fn opcode_values_round_trip() {
    let all = [
        GatewayEvents::Dispatch,
        GatewayEvents::Heartbeat,
        GatewayEvents::Identify,
        GatewayEvents::PresenceUpdate,
        GatewayEvents::VoiceStateUpdate,
        GatewayEvents::Resume,
        GatewayEvents::Reconnect,
        GatewayEvents::RequestGuildMembers,
        GatewayEvents::InvalidSession,
        GatewayEvents::Hello,
        GatewayEvents::HeartbeatACK,
    ];
    for op in all {
        assert_eq!(opcode_of(op.opcode_value()), Some(op));
    }
    assert_eq!(opcode_of(5), None);
    assert_eq!(opcode_of(12), None);
}
